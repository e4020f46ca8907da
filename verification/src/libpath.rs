//! Where the native module lies: a file in the `lib` directory under the
//! working directory, named after the module's version and the operating
//! system.

use vstd::prelude::*;
use vstd::string::StringExecFns;
use crate::error::THSError;
use crate::constants::str_equal;

verus! {

/// The operating systems for which a native module exists.
#[derive(Debug, Clone, Copy, PartialEq, Eq, Structural)]
pub enum TargetOs {
    Linux,
    MacOs,
    Windows,
}

/// The place of the native module, relative to the working directory.
#[derive(Debug, Clone)]
pub struct LibPath {
    /// The directory that holds the module.
    pub dir: String,
    /// The module's file name.
    pub file: String,
}

/// The file name suffix of a shared library on `os`.
pub open spec fn lib_suffix(os: TargetOs) -> Seq<char> {
    match os {
        TargetOs::Linux => ".so"@,
        TargetOs::MacOs => ".dylib"@,
        TargetOs::Windows => ".dll"@,
    }
}

/// The file name of the native module of `version` on `os`.
pub open spec fn lib_file_text(version: Seq<char>, os: TargetOs) -> Seq<char> {
    "hq"@ + version + lib_suffix(os)
}

/// The message for an architecture without a native module.
pub open spec fn unsupported_text() -> Seq<char> {
    "the aarch64 architecture is not supported"@
}

impl TargetOs {
    /// The operating system that goes by `name`, where `name` is `linux`,
    /// `macos` or `windows`.
    pub fn from_name(name: &str) -> (os: Option<TargetOs>)
        ensures
            name@ == "linux"@ ==> os == Some(TargetOs::Linux),
            name@ == "macos"@ ==> os == Some(TargetOs::MacOs),
            name@ == "windows"@ ==> os == Some(TargetOs::Windows),
            os is Some ==> name@ == "linux"@ || name@ == "macos"@ || name@ == "windows"@,
    {
        proof {
            reveal_strlit("linux");
            reveal_strlit("macos");
            reveal_strlit("windows");
            assert("linux"@[0] == 'l' && "macos"@[0] == 'm' && "windows"@[0] == 'w');
        }
        if str_equal(name, "linux") {
            Some(TargetOs::Linux)
        } else if str_equal(name, "macos") {
            Some(TargetOs::MacOs)
        } else if str_equal(name, "windows") {
            Some(TargetOs::Windows)
        } else {
            None
        }
    }
}

/// Builds the file name of the native module of `version` on `os`.
pub fn lib_file_name(version: &str, os: TargetOs) -> (name: String)
    ensures
        name@ == lib_file_text(version@, os),
{
    let mut name = String::from_str("hq");
    name.append(version);
    match os {
        TargetOs::Linux => name.append(".so"),
        TargetOs::MacOs => name.append(".dylib"),
        TargetOs::Windows => name.append(".dll"),
    }
    name
}

/// Resolves the place of the native module of `version` for a machine of
/// architecture `arch` that runs `os`. The `aarch64` architecture has no
/// native module; on every other the module is the file named after the
/// version and the system, in the directory `lib`.
pub fn get_lib_path(arch: &str, os: TargetOs, version: &str) -> (r: Result<LibPath, THSError>)
    ensures
        match r {
            Ok(p) => arch@ != "aarch64"@ && p.dir@ == "lib"@ && p.file@ == lib_file_text(
                version@,
                os,
            ),
            Err(e) => arch@ == "aarch64"@ && e is UnsupportedPlatform && e.message()
                == unsupported_text(),
        },
{
    if str_equal(arch, "aarch64") {
        return Err(
            THSError::UnsupportedPlatform(
                String::from_str("the aarch64 architecture is not supported"),
            ),
        );
    }
    Ok(LibPath { dir: String::from_str("lib"), file: lib_file_name(version, os) })
}

/// The module's file name ends with the system's suffix, and with an empty
/// version it is `hq` followed by the suffix alone.
pub proof fn law_file_name_shape(version: Seq<char>, os: TargetOs)
    ensures
        lib_suffix(os).is_suffix_of(lib_file_text(version, os)),
        "hq"@.is_prefix_of(lib_file_text(version, os)),
        lib_file_text(Seq::<char>::empty(), os) == "hq"@ + lib_suffix(os),
{
    let name = lib_file_text(version, os);
    let suffix = lib_suffix(os);
    assert(name.skip(name.len() - suffix.len()) =~= suffix);
    assert(name.take("hq"@.len() as int) =~= "hq"@);
    assert("hq"@ + Seq::<char>::empty() + suffix =~= "hq"@ + suffix);
}

} // verus!
