use rusths::envelope::encode_request;
use rusths::error::THSError;
use rusths::libpath::{get_lib_path, lib_file_name, TargetOs};

#[test]
fn file_names_by_system() {
    assert_eq!(lib_file_name("", TargetOs::Linux), "hq.so");
    assert_eq!(lib_file_name("", TargetOs::MacOs), "hq.dylib");
    assert_eq!(lib_file_name("", TargetOs::Windows), "hq.dll");
    assert_eq!(lib_file_name("_v2", TargetOs::Linux), "hq_v2.so");
}

#[test]
fn system_names() {
    assert_eq!(TargetOs::from_name("linux"), Some(TargetOs::Linux));
    assert_eq!(TargetOs::from_name("macos"), Some(TargetOs::MacOs));
    assert_eq!(TargetOs::from_name("windows"), Some(TargetOs::Windows));
    assert_eq!(TargetOs::from_name("freebsd"), None);
    assert_eq!(TargetOs::from_name(""), None);
}

#[test]
fn path_on_supported_architecture() {
    let p = get_lib_path("x86_64", TargetOs::Linux, "1.2").unwrap();
    assert_eq!(p.dir, "lib");
    assert_eq!(p.file, "hq1.2.so");
}

#[test]
fn path_on_unsupported_architecture() {
    match get_lib_path("aarch64", TargetOs::MacOs, "") {
        Err(THSError::UnsupportedPlatform(m)) => {
            assert_eq!(m, "the aarch64 architecture is not supported")
        }
        other => panic!("unexpected: {:?}", other),
    }
}

#[test]
fn connect_envelope_then_path_for_empty_version() {
    let mut options = serde_json::Map::new();
    options.insert("username".to_string(), serde_json::Value::String("u".to_string()));
    options.insert("password".to_string(), serde_json::Value::String("p".to_string()));
    options.insert("lib_ver".to_string(), serde_json::Value::String(String::new()));
    let params = serde_json::Value::Object(options).to_string();
    let text = encode_request("connect", Some(&params)).unwrap();
    let parsed: serde_json::Value = serde_json::from_str(&text).unwrap();
    assert_eq!(parsed["method"], "connect");
    assert_eq!(parsed["params"]["username"], "u");
    let version = parsed["params"]["lib_ver"].as_str().unwrap();
    assert_eq!(version, "");
    for (os, name) in [
        (TargetOs::Linux, "hq.so"),
        (TargetOs::MacOs, "hq.dylib"),
        (TargetOs::Windows, "hq.dll"),
    ] {
        let p = get_lib_path("x86_64", os, version).unwrap();
        let path = std::path::Path::new("/work").join(&p.dir).join(&p.file);
        assert!(path.ends_with(std::path::Path::new("lib").join(name)));
        assert_eq!(p.file, name);
    }
}
