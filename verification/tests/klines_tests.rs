use rusths::error::THSError;
use rusths::klines::{klines_params, ClockTime};
use rusths::session::THS;

const MARKETS: [&str; 2] = ["USHA", "USZA"];

fn session() -> THS {
    THS::with_seed(None, ("g".to_string(), "s".to_string()), 0)
}

fn object(members: &[(&str, serde_json::Value)]) -> String {
    let mut map = serde_json::Map::new();
    for (k, v) in members {
        map.insert(k.to_string(), v.clone());
    }
    serde_json::Value::Object(map).to_string()
}

fn text(s: &str) -> serde_json::Value {
    serde_json::Value::String(s.to_string())
}

#[test]
fn clock_time_text() {
    let t = ClockTime::new(2024, 1, 2, 3, 4, 5).unwrap();
    assert_eq!(t.text(), "2024-01-02 03:04:05");
    let t = ClockTime::new(1999, 12, 31, 23, 59, 59).unwrap();
    assert_eq!(t.text(), "1999-12-31 23:59:59");
    let t = ClockTime::new(2024, 2, 29, 0, 0, 0).unwrap();
    assert_eq!(t.text(), "2024-02-29 00:00:00");
}

#[test]
fn clock_time_refuses_what_does_not_exist() {
    assert!(ClockTime::new(2023, 2, 29, 0, 0, 0).is_none());
    assert!(ClockTime::new(2023, 13, 1, 0, 0, 0).is_none());
    assert!(ClockTime::new(2023, 0, 1, 0, 0, 0).is_none());
    assert!(ClockTime::new(2023, 1, 1, 24, 0, 0).is_none());
    assert!(ClockTime::new(2023, 1, 1, 0, 60, 0).is_none());
    assert!(ClockTime::new(2023, 1, 1, 0, 0, 60).is_none());
}

#[test]
fn klines_by_count() {
    let s = session();
    let c = s.klines("usha600519", None, None, "forward", "day", 100, &MARKETS).unwrap();
    assert_eq!(c.method, "klines");
    assert_eq!(c.buffer_size, 1024 * 1024);
    let params = c.params.unwrap();
    assert_eq!(
        params,
        "{\"adjust\":\"forward\",\"code\":\"USHA600519\",\"count\":100,\"interval\":\"day\"}"
    );
    assert_eq!(
        params,
        object(&[
            ("code", text("USHA600519")),
            ("adjust", text("forward")),
            ("interval", text("day")),
            ("count", serde_json::Value::from(100)),
        ])
    );
}

#[test]
fn klines_count_wins_over_range() {
    let s = session();
    let start = ClockTime::new(2024, 1, 2, 9, 30, 0).unwrap();
    let end = ClockTime::new(2024, 1, 3, 15, 0, 0).unwrap();
    let c = s.klines("USHA600519", Some(&start), Some(&end), "", "1m", 1, &MARKETS).unwrap();
    assert_eq!(
        c.params.unwrap(),
        "{\"adjust\":\"\",\"code\":\"USHA600519\",\"count\":1,\"interval\":\"1m\"}"
    );
}

#[test]
fn klines_by_range() {
    let s = session();
    let start = ClockTime::new(2024, 1, 2, 9, 30, 0).unwrap();
    let end = ClockTime::new(2024, 1, 3, 15, 0, 0).unwrap();
    let c = s.klines("USZA000001", Some(&start), Some(&end), "backward", "60m", 0, &MARKETS).unwrap();
    let params = c.params.unwrap();
    assert_eq!(
        params,
        "{\"adjust\":\"backward\",\"code\":\"USZA000001\",\"end_time\":\"2024-01-03 15:00:00\",\"interval\":\"60m\",\"start_time\":\"2024-01-02 09:30:00\"}"
    );
    assert_eq!(
        params,
        object(&[
            ("code", text("USZA000001")),
            ("adjust", text("backward")),
            ("interval", text("60m")),
            ("start_time", text("2024-01-02 09:30:00")),
            ("end_time", text("2024-01-03 15:00:00")),
        ])
    );
}

#[test]
fn klines_with_open_range() {
    let s = session();
    let start = ClockTime::new(2024, 1, 2, 9, 30, 0).unwrap();
    let c = s.klines("USZA000001", Some(&start), None, "", "week", -1, &MARKETS).unwrap();
    assert_eq!(
        c.params.unwrap(),
        "{\"adjust\":\"\",\"code\":\"USZA000001\",\"interval\":\"week\",\"start_time\":\"2024-01-02 09:30:00\"}"
    );
    let c = s.klines("USZA000001", None, Some(&start), "", "week", 0, &MARKETS).unwrap();
    assert_eq!(
        c.params.unwrap(),
        "{\"adjust\":\"\",\"code\":\"USZA000001\",\"end_time\":\"2024-01-02 09:30:00\",\"interval\":\"week\"}"
    );
    let c = s.klines("USZA000001", None, None, "", "week", 0, &MARKETS).unwrap();
    assert_eq!(c.params.unwrap(), "{\"adjust\":\"\",\"code\":\"USZA000001\",\"interval\":\"week\"}");
}

#[test]
fn klines_params_escape_their_texts() {
    let params = klines_params("A\"B\\C\n", "forward", "day", 0, None, None);
    assert_eq!(
        params,
        "{\"adjust\":\"forward\",\"code\":\"A\\\"B\\\\C\\n\",\"interval\":\"day\"}"
    );
    assert_eq!(
        params,
        object(&[("code", text("A\"B\\C\n")), ("adjust", text("forward")), ("interval", text("day"))])
    );
}

#[test]
fn klines_errors_in_order() {
    let s = session();
    match s.klines("600519", None, None, "sideways", "2m", 1, &MARKETS) {
        Err(THSError::InvalidCode(m)) => assert_eq!(
            m,
            "a security code must be 10 characters long and begin with a known market"
        ),
        other => panic!("unexpected: {:?}", other),
    }
    match s.klines("USHA600519", None, None, "sideways", "2m", 1, &MARKETS) {
        Err(THSError::ApiError(m)) => assert_eq!(m, "invalid adjust type: sideways"),
        other => panic!("unexpected: {:?}", other),
    }
    match s.klines("USHA600519", None, None, "forward", "2m", 1, &MARKETS) {
        Err(THSError::ApiError(m)) => assert_eq!(m, "invalid interval type: 2m"),
        other => panic!("unexpected: {:?}", other),
    }
}
