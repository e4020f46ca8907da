use rusths::envelope::{
    abi_capacity, classify, decoded, encode_request, output_bytes, read_reply, CallOutcome,
    ReplyStep, Response, ReturnCode,
};
use rusths::error::THSError;

#[test]
fn encode_request_with_params() {
    let text = encode_request("connect", Some("{\"a\":1}")).unwrap();
    assert_eq!(text, "{\"method\":\"connect\",\"params\":{\"a\":1}}");
}

#[test]
fn encode_request_without_params() {
    let text = encode_request("ipo_today", None).unwrap();
    assert_eq!(text, "{\"method\":\"ipo_today\",\"params\":}");
}

#[test]
fn encode_request_refuses_nul() {
    match encode_request("a\0b", None) {
        Err(THSError::ApiError(m)) => {
            assert_eq!(m, "invalid input: the request contains a NUL character")
        }
        other => panic!("unexpected: {:?}", other),
    }
}

#[test]
fn classify_return_codes() {
    assert_eq!(classify(0), ReturnCode::Success);
    assert_eq!(classify(-1), ReturnCode::BufferInsufficient);
    assert_eq!(classify(7), ReturnCode::Failure(7));
}

#[test]
fn empty_output_is_canonical_empty_response() {
    let buffer = vec![0u8; 16];
    match read_reply(0, "help", &buffer) {
        ReplyStep::Settled(CallOutcome::Success(r)) => {
            assert_eq!(r.err_info, "");
            assert!(r.payload.result.is_none());
            assert!(r.payload.dict_extra.is_none());
        }
        other => panic!("unexpected: {:?}", other),
    }
}

#[test]
fn empty_output_is_canonical_whatever_follows_the_terminator() {
    let buffer = [0u8, b'x', b'y'];
    match read_reply(0, "help", &buffer) {
        ReplyStep::Settled(CallOutcome::Success(r)) => assert_eq!(r, Response::empty()),
        other => panic!("unexpected: {:?}", other),
    }
    match read_reply(0, "help", &[]) {
        ReplyStep::Settled(CallOutcome::Success(r)) => assert_eq!(r, Response::empty()),
        other => panic!("unexpected: {:?}", other),
    }
}

#[test]
fn output_is_read_up_to_the_terminator() {
    assert_eq!(output_bytes(b"abc\0def\0"), b"abc");
    assert_eq!(output_bytes(b"abc"), b"abc");
    assert_eq!(output_bytes(b"\0abc"), b"");
    assert_eq!(output_bytes(b""), b"");
}

#[test]
fn non_empty_output_asks_for_decoding() {
    let mut buffer = "{\"err_info\":\"\",\"payload\":{\"result\":\"值\"}}".as_bytes().to_vec();
    buffer.extend_from_slice(&[0, 0, 0, b'z']);
    match read_reply(0, "help", &buffer) {
        ReplyStep::Decode(text) => {
            assert_eq!(text, "{\"err_info\":\"\",\"payload\":{\"result\":\"值\"}}")
        }
        other => panic!("unexpected: {:?}", other),
    }
}

#[test]
fn output_that_is_no_text_fails() {
    let buffer = [0xffu8, 0xfe, 0];
    match read_reply(0, "help", &buffer) {
        ReplyStep::Settled(CallOutcome::Failed(THSError::ApiError(m))) => {
            assert_eq!(m, "output decoding failed: invalid UTF-8")
        }
        other => panic!("unexpected: {:?}", other),
    }
}

#[test]
fn buffer_insufficient_code() {
    let buffer = b"ignored\0".to_vec();
    assert!(matches!(
        read_reply(-1, "help", &buffer),
        ReplyStep::Settled(CallOutcome::BufferInsufficient)
    ));
}

#[test]
fn other_codes_fail_with_code_and_method() {
    for (code, shown) in [(1, "1"), (-2, "-2"), (i32::MAX, "2147483647"), (i32::MIN, "-2147483648")] {
        match read_reply(code, "cmd.query_data.fu", b"x\0") {
            ReplyStep::Settled(CallOutcome::Failed(THSError::ApiError(m))) => assert_eq!(
                m,
                format!("error code: {}, method not found: cmd.query_data.fu", shown)
            ),
            other => panic!("unexpected: {:?}", other),
        }
    }
}

#[test]
fn decoded_answers() {
    let mut r = Response::empty();
    r.err_info = "careful".to_string();
    match decoded(Ok(r)) {
        CallOutcome::Success(r) => assert_eq!(r.err_info, "careful"),
        other => panic!("unexpected: {:?}", other),
    }
    match decoded(Err("expected value at line 1 column 1".to_string())) {
        CallOutcome::Failed(THSError::ApiError(m)) => {
            assert_eq!(m, "JSON decode failed: expected value at line 1 column 1")
        }
        other => panic!("unexpected: {:?}", other),
    }
}

#[test]
fn outcomes_as_results() {
    assert_eq!(CallOutcome::Success(Response::empty()).into_result(10).unwrap(), Response::empty());
    match CallOutcome::BufferInsufficient.into_result(10240) {
        Err(THSError::ApiError(m)) => assert_eq!(m, "buffer too small, current size: 10240 bytes"),
        other => panic!("unexpected: {:?}", other),
    }
    match CallOutcome::Failed(THSError::InvalidCode("c".to_string())).into_result(1) {
        Err(THSError::InvalidCode(m)) => assert_eq!(m, "c"),
        other => panic!("unexpected: {:?}", other),
    }
}

#[test]
fn announced_capacity() {
    assert_eq!(abi_capacity(0), 0);
    assert_eq!(abi_capacity(1024), 1024);
    assert_eq!(abi_capacity(2147483647), i32::MAX);
    assert_eq!(abi_capacity(2147483648), i32::MAX);
    assert_eq!(abi_capacity(usize::MAX), i32::MAX);
}

#[test]
fn clean_answers() {
    let mut r = Response::empty();
    assert!(r.is_clean());
    r.err_info = "x".to_string();
    assert!(!r.is_clean());
}
