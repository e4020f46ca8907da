use rusths::error::THSError;
use rusths::listings::MethodCall;
use rusths::quotes::{quote_request, split_at_commas};
use rusths::requests::{
    block_request, components_request, minute_request, trade_request, DataQuery, TradeKind,
};
use rusths::code::SecurityCode;
use rusths::session::THS;

const MARKETS: [&str; 2] = ["USHA", "USZA"];
const BLOCK_MARKETS: [&str; 1] = ["URFI"];

fn session() -> THS {
    THS::with_seed(None, ("g".to_string(), "s".to_string()), 0)
}

fn code(market: &str, short_code: &str) -> SecurityCode {
    SecurityCode { market: market.to_string(), short_code: short_code.to_string() }
}

fn check_query(q: &DataQuery, request: &str, service_key: &str) {
    assert_eq!(q.request, request);
    assert_eq!(q.service_key, service_key);
    assert_eq!(q.buffer_size, 2 * 1024 * 1024);
    assert_eq!(q.max_attempts, 5);
}

fn check_call(c: &MethodCall, method: &str, params: Option<&str>, buffer_size: usize) {
    assert_eq!(c.method, method);
    assert_eq!(c.params.as_deref(), params);
    assert_eq!(c.buffer_size, buffer_size);
}

#[test]
fn block_request_text() {
    assert_eq!(
        block_request(6666666, 2, 0xCE5F),
        "\"id=7&instance=6666666&zipversion=2&sortbegin=0&sortcount=0&sortorder=D&sortid=55&blockid=ce5f&reqflag=blockserve\""
    );
    assert_eq!(
        block_request(-3, 2, -1),
        "\"id=7&instance=-3&zipversion=2&sortbegin=0&sortcount=0&sortorder=D&sortid=55&blockid=ffffffff&reqflag=blockserve\""
    );
}

#[test]
fn components_request_text() {
    assert_eq!(
        components_request(1, 2, "URFI883404"),
        "\"id=7&instance=1&zipversion=2&sortbegin=0&sortcount=0&sortorder=D&sortid=55&linkcode=URFI883404\""
    );
}

#[test]
fn trade_request_texts() {
    let c = code("USHA", "600519");
    assert_eq!(
        trade_request(TradeKind::Plain, 7, 2, &c, 100, 200),
        "\"id=205&instance=7&zipversion=2&code=600519&market=USHA&start=100&end=200&datatype=1,5,10,12,18,49&TraceDetail=0\""
    );
    assert_eq!(
        trade_request(TradeKind::L2, 7, 2, &c, -5, 0),
        "\"id=220&instance=7&zipversion=2&code=600519&market=USHA&start=-5&end=0&datatype=5,10,12,13\""
    );
    assert_eq!(
        trade_request(TradeKind::Super, 7, 2, &c, 1, 2),
        "\"id=205&instance=7&zipversion=2&code=600519&market=USHA&start=1&end=2&datatype=1,5,7,10,12,13,14,18,19,20,21,25,26,27,28,29,31,32,33,34,35,49,69,70,92,123,125,150,151,152,153,154,155,156,157,45,66,661,102,103,104,105,106,107,108,109,110,111,112,113,114,115,116,117,118,119,120,121,123,125&TraceDetail=0\""
    );
}

#[test]
fn minute_request_text() {
    assert_eq!(
        minute_request(9, 2, &code("USZA", "000001"), "20240102"),
        "\"id=207&instance=9&zipversion=2&code=000001&market=USZA&datatype=1,10,13,19,40&date=20240102\""
    );
}

#[test]
fn quote_request_text() {
    assert_eq!(
        quote_request(9, 2, "600519,600000", "USHA", "55,38"),
        "\"id=200&instance=9&zipversion=2&codelist=600519,600000&market=USHA&datatype=55,38\""
    );
}

#[test]
fn get_block_data_uses_one_instance_id() {
    let mut s = session();
    let q = s.get_block_data(0xB);
    check_query(
        &q,
        "\"id=7&instance=6666666&zipversion=2&sortbegin=0&sortcount=0&sortorder=D&sortid=55&blockid=b&reqflag=blockserve\"",
        "bk",
    );
    assert_eq!(s.next_share_instance_id(), 6666667);
}

#[test]
fn get_block_components_needs_a_code() {
    let mut s = session();
    match s.get_block_components("") {
        Err(THSError::ApiError(m)) => assert_eq!(m, "a block code is required"),
        other => panic!("unexpected: {:?}", other),
    }
    let q = s.get_block_components("URFI883404").unwrap();
    check_query(
        &q,
        "\"id=7&instance=6666666&zipversion=2&sortbegin=0&sortcount=0&sortorder=D&sortid=55&linkcode=URFI883404\"",
        "bk",
    );
    assert_eq!(s.next_share_instance_id(), 6666667);
}

#[test]
fn transaction_queries() {
    let mut s = session();
    let q = s.get_transaction_data("usha600519", 10, 20, &MARKETS).unwrap();
    check_query(
        &q,
        "\"id=205&instance=6666666&zipversion=2&code=600519&market=USHA&start=10&end=20&datatype=1,5,10,12,18,49&TraceDetail=0\"",
        "zhu",
    );
    let q = s.get_l2_transaction_data("USZA000001", 10, 20, &MARKETS).unwrap();
    check_query(
        &q,
        "\"id=220&instance=6666667&zipversion=2&code=000001&market=USZA&start=10&end=20&datatype=5,10,12,13\"",
        "zhu",
    );
    let q = s.get_super_transaction_data("USZA000001", 10, 20, &MARKETS).unwrap();
    assert!(q.request.starts_with(
        "\"id=205&instance=6666668&zipversion=2&code=000001&market=USZA&start=10&end=20&datatype=1,5,7,10,"
    ));
    assert!(q.request.ends_with(",121,123,125&TraceDetail=0\""));
}

#[test]
fn transaction_query_errors() {
    let mut s = session();
    assert!(matches!(
        s.get_transaction_data("600519", 10, 20, &MARKETS),
        Err(THSError::InvalidCode(_))
    ));
    assert!(matches!(
        s.get_transaction_data("600519", 20, 10, &MARKETS),
        Err(THSError::InvalidCode(_))
    ));
    for (start, end) in [(20, 10), (10, 10)] {
        match s.get_l2_transaction_data("USHA600519", start, end, &MARKETS) {
            Err(THSError::ApiError(m)) => {
                assert_eq!(m, "the start timestamp must be less than the end timestamp")
            }
            other => panic!("unexpected: {:?}", other),
        }
    }
    assert_eq!(s.next_share_instance_id(), 6666666);
}

#[test]
fn history_minute_query() {
    let mut s = session();
    let q = s.history_minute_time_data("usha600519", "20240102", &MARKETS).unwrap();
    check_query(
        &q,
        "\"id=207&instance=6666666&zipversion=2&code=600519&market=USHA&datatype=1,10,13,19,40&date=20240102\"",
        "zhu",
    );
    assert!(matches!(
        s.history_minute_time_data("bad", "20240102", &MARKETS),
        Err(THSError::InvalidCode(_))
    ));
}

#[test]
fn comma_splitting() {
    assert_eq!(split_at_commas("a,b"), vec!["a", "b"]);
    assert_eq!(split_at_commas("abc"), vec!["abc"]);
    assert_eq!(split_at_commas(""), vec![""]);
    assert_eq!(split_at_commas(","), vec!["", ""]);
    assert_eq!(split_at_commas("a,,b,"), vec!["a", "", "b", ""]);
    for text in ["", "x", ",x", "x,y,z", ",,", "码,股"] {
        let expected: Vec<&str> = text.split(',').collect();
        assert_eq!(split_at_commas(text), expected);
    }
}

#[test]
fn stock_market_data_for_one_code() {
    let mut s = session();
    let q = s.stock_market_data("USHA600519", &MARKETS).unwrap();
    check_query(
        &q,
        "\"id=200&instance=6666666&zipversion=2&codelist=600519&market=USHA&datatype=5,6,8,9,10,12,13,402,19,407,24,30,48,49,69,70,3250,920371,55,199112,264648,1968584,461256,1771976,3475914,3541450,526792,3153,592888,592890\"",
        "fu",
    );
}

#[test]
fn stock_market_data_for_several_codes() {
    let mut s = session();
    let q = s.stock_market_data("USHA600519,USHA600000,USHA601398", &MARKETS).unwrap();
    assert!(q.request.starts_with(
        "\"id=200&instance=6666666&zipversion=2&codelist=600519,600000,601398&market=USHA&datatype=5,6,"
    ));
}

#[test]
fn stock_market_data_keeps_the_case_of_the_codes() {
    let mut s = session();
    let q = s.stock_market_data("usha600519", &MARKETS).unwrap();
    assert!(q
        .request
        .starts_with("\"id=200&instance=6666666&zipversion=2&codelist=600519&market=usha&"));
}

#[test]
fn stock_market_data_errors() {
    let mut s = session();
    match s.stock_market_data("USHA600519,USZA000001", &MARKETS) {
        Err(THSError::ApiError(m)) => {
            assert_eq!(m, "the codes of one query must all be on the same market")
        }
        other => panic!("unexpected: {:?}", other),
    }
    for codes in ["", "USHA600519,", "USHA600519,bad", "USXX600519"] {
        match s.stock_market_data(codes, &MARKETS) {
            Err(THSError::InvalidCode(m)) => assert_eq!(
                m,
                "a security code must be 10 characters long and begin with a known market"
            ),
            other => panic!("unexpected: {:?}", other),
        }
    }
    assert!(matches!(
        s.stock_market_data("USHA600519,usha600000", &MARKETS),
        Err(THSError::ApiError(_))
    ));
    assert_eq!(s.next_share_instance_id(), 6666666);
}

#[test]
fn block_market_data_query() {
    let mut s = session();
    let q = s.block_market_data("URFI883404,URFI883405", &BLOCK_MARKETS).unwrap();
    check_query(
        &q,
        "\"id=200&instance=6666666&zipversion=2&codelist=883404,883405&market=URFI&datatype=55,38,39,13,19,92,90,5,275,276,277\"",
        "fu",
    );
    match s.block_market_data("USHA600519", &BLOCK_MARKETS) {
        Err(THSError::InvalidCode(m)) => assert_eq!(m, "a block code must be 10 characters long"),
        other => panic!("unexpected: {:?}", other),
    }
}

#[test]
fn block_listings() {
    let mut s = session();
    let ids = [
        (s.query_ths_industry(), "ce5f"),
        (s.query_ths_concept(), "ce5e"),
        (s.query_ths_index(), "d2"),
        (s.stock_zh_lists(), "e"),
        (s.stock_us_lists(), "dc47"),
        (s.stock_hk_lists(), "b"),
        (s.stock_zh_b_lists(), "f"),
        (s.cbond_lists(), "ce14"),
        (s.fund_etf_lists(), "cff3"),
        (s.fund_etf_t0_lists(), "d90c"),
    ];
    for (i, (q, id)) in ids.iter().enumerate() {
        let expected = format!(
            "\"id=7&instance={}&zipversion=2&sortbegin=0&sortcount=0&sortorder=D&sortid=55&blockid={}&reqflag=blockserve\"",
            6666666 + i,
            id
        );
        check_query(q, &expected, "bk");
    }
}

#[test]
fn direct_calls() {
    let s = session();
    check_call(&s.help("\"about\""), "help", Some("\"about\""), 1024);
    check_call(&s.wencai_base("pe<10"), "wencai_base", Some("pe<10"), 1024 * 1024);
    check_call(&s.wencai_nlp("cheap"), "wencai_nlp", Some("cheap"), 8 * 1024 * 1024);
    check_call(
        &s.order_book_ask("USHA600519"),
        "order_book_ask",
        Some("\"USHA600519\""),
        8 * 1024 * 1024,
    );
    check_call(
        &s.order_book_bid("USHA600519"),
        "order_book_bid",
        Some("\"USHA600519\""),
        8 * 1024 * 1024,
    );
    check_call(&s.ipo_today(), "ipo_today", None, 1024);
    check_call(&s.ipo_wait(), "ipo_wait", None, 1024);
}
