//! The JSON envelopes that cross the call boundary, and the reading of what
//! the native module hands back: its return code and its output buffer.

use vstd::prelude::*;
use vstd::string::StringExecFns;
use vstd::slice::slice_subrange;
use vstd::utf8::{valid_utf8, decode_utf8};
use crate::error::{THSError, api_error};
use crate::json::Json;
use crate::text::{contains_char, push_decimal, push_decimal_usize, decimal};

verus! {

/// The body of a response: a result and named extras, both optional.
#[derive(Debug, PartialEq)]
pub struct Payload {
    pub result: Option<Json>,
    pub dict_extra: Option<Vec<(String, Json)>>,
}

/// What the native module answers to a request.
#[derive(Debug, PartialEq)]
pub struct Response {
    /// Empty on success; otherwise the module's own account of what went
    /// wrong. A non-empty value is information for the caller, not a failure
    /// of the call.
    pub err_info: String,
    pub payload: Payload,
}

impl Payload {
    /// Whether the payload carries neither a result nor extras.
    pub open spec fn is_empty(self) -> bool {
        self.result is None && self.dict_extra is None
    }
}

impl Response {
    /// Whether this is the canonical answer for an empty output: no error
    /// text and an empty payload.
    pub open spec fn is_canonical_empty(self) -> bool {
        self.err_info@ == Seq::<char>::empty() && self.payload.is_empty()
    }

    /// The canonical empty success envelope.
    pub fn empty() -> (r: Response)
        ensures
            r.is_canonical_empty(),
    {
        Response { err_info: String::new(), payload: Payload { result: None, dict_extra: None } }
    }

    /// Whether the module reported no error text.
    pub fn is_clean(&self) -> (b: bool)
        ensures
            b == (self.err_info@.len() == 0),
    {
        self.err_info.as_str().is_empty()
    }
}

/// The text of a parameter that may be absent: absent parameters contribute
/// nothing.
pub open spec fn params_or_empty(params: Option<&str>) -> Seq<char> {
    match params {
        Some(p) => p@,
        None => Seq::<char>::empty(),
    }
}

/// The wire text of a request: `{"method":"<method>","params":<params>}`.
pub open spec fn request_text(method: Seq<char>, params: Seq<char>) -> Seq<char> {
    "{\"method\":\""@ + method + "\",\"params\":"@ + params + "}"@
}

/// The message of the failure to encode a request.
pub open spec fn encode_failure_text() -> Seq<char> {
    "invalid input: the request contains a NUL character"@
}

/// Builds the wire text of a request. The text is later handed over as a
/// NUL-terminated string, so a NUL inside it is refused: the call fails with
/// an `ApiError` exactly when the method or the parameters contain one.
pub fn encode_request(method: &str, params: Option<&str>) -> (r: Result<String, THSError>)
    ensures
        match r {
            Ok(text) => text@ == request_text(method@, params_or_empty(params))
                && !text@.contains('\0'),
            Err(e) => e is ApiError && e.message() == encode_failure_text()
                && request_text(method@, params_or_empty(params)).contains('\0'),
        },
{
    let mut text = String::from_str("{\"method\":\"");
    text.append(method);
    text.append("\",\"params\":");
    match params {
        Some(p) => {
            text.append(p);
        },
        None => {
            assert(text@ + params_or_empty(params) =~= text@);
        },
    }
    text.append("}");
    if contains_char(text.as_str(), '\0') {
        Err(api_error(String::from_str("invalid input: the request contains a NUL character")))
    } else {
        Ok(text)
    }
}

/// How the native module's return code is to be read.
#[derive(Debug, Clone, Copy, PartialEq, Eq, Structural)]
pub enum ReturnCode {
    /// `0`: the output buffer holds the answer.
    Success,
    /// `-1`: the output buffer was too small for the answer.
    BufferInsufficient,
    /// Any other value: the method is unknown or the module failed.
    Failure(i32),
}

/// The reading of a return code.
pub open spec fn classify_spec(code: i32) -> ReturnCode {
    if code == 0 {
        ReturnCode::Success
    } else if code == -1 {
        ReturnCode::BufferInsufficient
    } else {
        ReturnCode::Failure(code)
    }
}

/// Reads a return code of the native module.
pub fn classify(code: i32) -> (r: ReturnCode)
    ensures
        r == classify_spec(code),
{
    if code == 0 {
        ReturnCode::Success
    } else if code == -1 {
        ReturnCode::BufferInsufficient
    } else {
        ReturnCode::Failure(code)
    }
}

/// The capacity announced to the native module for a buffer of `capacity`
/// bytes: the capacity itself where a 32-bit signed integer holds it, and the
/// largest such integer otherwise, so that the buffer is never shorter than
/// announced.
pub open spec fn abi_capacity_spec(capacity: usize) -> i32 {
    if capacity <= i32::MAX {
        capacity as i32
    } else {
        i32::MAX
    }
}

/// Computes the capacity to announce for a buffer of `capacity` bytes.
pub fn abi_capacity(capacity: usize) -> (r: i32)
    ensures
        r == abi_capacity_spec(capacity),
        0 <= r <= capacity,
{
    if capacity <= 2147483647 {
        capacity as i32
    } else {
        i32::MAX
    }
}

/// The bytes of a buffer that come before its first zero byte; the whole
/// buffer where it holds none.
pub open spec fn until_nul(bytes: Seq<u8>) -> Seq<u8>
    decreases bytes.len(),
{
    if bytes.len() == 0 || bytes[0] == 0 {
        Seq::<u8>::empty()
    } else {
        seq![bytes[0]] + until_nul(bytes.drop_first())
    }
}

/// If the first `n` bytes are all nonzero, the terminated prefix starts with
/// them and continues with that of the rest.
pub proof fn lemma_until_nul_split(bytes: Seq<u8>, n: int)
    requires
        0 <= n <= bytes.len(),
        forall|j: int| 0 <= j < n ==> bytes[j] != 0,
    ensures
        until_nul(bytes) == bytes.take(n) + until_nul(bytes.skip(n)),
    decreases n,
{
    if n == 0 {
        assert(bytes.skip(0) =~= bytes);
        assert(bytes.take(0) + until_nul(bytes) =~= until_nul(bytes));
    } else {
        let rest = bytes.drop_first();
        lemma_until_nul_split(rest, n - 1);
        assert(rest.skip(n - 1) =~= bytes.skip(n));
        assert(seq![bytes[0]] + rest.take(n - 1) =~= bytes.take(n));
        assert(seq![bytes[0]] + (rest.take(n - 1) + until_nul(rest.skip(n - 1)))
            =~= (seq![bytes[0]] + rest.take(n - 1)) + until_nul(rest.skip(n - 1)));
    }
}

/// The terminated prefix holds no zero byte, is a prefix of the buffer, and
/// ends at the buffer's end or just before a zero byte.
pub proof fn lemma_until_nul_is_prefix(bytes: Seq<u8>)
    ensures
        until_nul(bytes).len() <= bytes.len(),
        until_nul(bytes) == bytes.take(until_nul(bytes).len() as int),
        !until_nul(bytes).contains(0u8),
        until_nul(bytes).len() == bytes.len() || bytes[until_nul(bytes).len() as int] == 0,
    decreases bytes.len(),
{
    if bytes.len() == 0 || bytes[0] == 0 {
        assert(until_nul(bytes) =~= bytes.take(0));
    } else {
        let rest = bytes.drop_first();
        lemma_until_nul_is_prefix(rest);
        let p = until_nul(rest);
        assert(until_nul(bytes) =~= bytes.take(p.len() as int + 1));
        assert forall|j: int| 0 <= j < until_nul(bytes).len() implies until_nul(bytes)[j] != 0 by {
            if j > 0 {
                assert(until_nul(bytes)[j] == p[j - 1]);
                assert(p.contains(p[j - 1]));
            }
        }
    }
}

/// Reads the output buffer as a NUL-terminated string: the bytes before the
/// first zero byte.
pub fn output_bytes(buffer: &[u8]) -> (out: &[u8])
    ensures
        out@ == until_nul(buffer@),
{
    let mut i: usize = 0;
    while i < buffer.len() && buffer[i] != 0
        invariant
            i <= buffer.len(),
            forall|j: int| 0 <= j < i ==> buffer@[j] != 0,
        decreases buffer.len() - i,
    {
        i += 1;
    }
    proof {
        lemma_until_nul_split(buffer@, i as int);
        assert(until_nul(buffer@.skip(i as int)) =~= Seq::<u8>::empty());
        assert(buffer@.take(i as int) + Seq::<u8>::empty() =~= buffer@.subrange(0, i as int));
    }
    slice_subrange(buffer, 0, i)
}

/// `std::str::from_utf8`: the bytes as text exactly when they are valid
/// UTF-8, and the text is then what the bytes encode.
#[verifier::external_body]
fn utf8_text(bytes: &[u8]) -> (r: Option<&str>)
    ensures
        r is Some <==> valid_utf8(bytes@),
        match r {
            Some(s) => s@ == decode_utf8(bytes@),
            None => true,
        },
{
    std::str::from_utf8(bytes).ok()
}

/// How one call of the native module ended, once its answer is decoded.
#[derive(Debug)]
pub enum CallOutcome {
    /// The module answered; the answer may still carry error text.
    Success(Response),
    /// The output buffer was too small; a larger one may do.
    BufferInsufficient,
    /// The call failed for good.
    Failed(THSError),
}

/// What is to be done with the module's raw answer.
#[derive(Debug)]
pub enum ReplyStep {
    /// The output is non-empty JSON text that has yet to be decoded.
    Decode(String),
    /// Nothing is left to decode.
    Settled(CallOutcome),
}

/// The message of a failure that the module reported by its return code.
pub open spec fn native_failure_text(code: i32, method: Seq<char>) -> Seq<char> {
    "error code: "@ + decimal(code as int) + ", method not found: "@ + method
}

/// The message for an output that is not valid UTF-8.
pub open spec fn output_failure_text() -> Seq<char> {
    "output decoding failed: invalid UTF-8"@
}

/// The message for an output that is not the expected JSON.
pub open spec fn decode_failure_text(reason: Seq<char>) -> Seq<char> {
    "JSON decode failed: "@ + reason
}

/// The message for a buffer that was too small.
pub open spec fn buffer_failure_text(capacity: usize) -> Seq<char> {
    "buffer too small, current size: "@ + decimal(capacity as int) + " bytes"@
}

/// Reads what the native module handed back for `method`: its return code
/// and the output buffer.
///
/// - Code `0` with an empty output settles as the canonical empty response.
/// - Code `0` with a non-empty output asks for that text to be decoded; an
///   output that is not valid UTF-8 settles as an `ApiError`.
/// - Code `-1` settles as buffer-insufficient.
/// - Any other code settles as an `ApiError` naming the code and the method.
pub fn read_reply(code: i32, method: &str, buffer: &[u8]) -> (step: ReplyStep)
    ensures
        code == 0 && until_nul(buffer@).len() == 0 ==> (step matches ReplyStep::Settled(
            CallOutcome::Success(r),
        ) && r.is_canonical_empty()),
        code == 0 && until_nul(buffer@).len() > 0 && valid_utf8(until_nul(buffer@)) ==> (
        step matches ReplyStep::Decode(text) && text@ == decode_utf8(until_nul(buffer@))),
        code == 0 && until_nul(buffer@).len() > 0 && !valid_utf8(until_nul(buffer@)) ==> (
        step matches ReplyStep::Settled(CallOutcome::Failed(e)) && e is ApiError && e.message()
            == output_failure_text()),
        code == -1 ==> step matches ReplyStep::Settled(CallOutcome::BufferInsufficient),
        code != 0 && code != -1 ==> (step matches ReplyStep::Settled(CallOutcome::Failed(e))
            && e is ApiError && e.message() == native_failure_text(code, method@)),
{
    match classify(code) {
        ReturnCode::Success => {
            let bytes = output_bytes(buffer);
            if bytes.len() == 0 {
                ReplyStep::Settled(CallOutcome::Success(Response::empty()))
            } else {
                match utf8_text(bytes) {
                    Some(s) => {
                        let text = String::from_str(s);
                        ReplyStep::Decode(text)
                    },
                    None => ReplyStep::Settled(
                        CallOutcome::Failed(
                            api_error(String::from_str("output decoding failed: invalid UTF-8")),
                        ),
                    ),
                }
            }
        },
        ReturnCode::BufferInsufficient => ReplyStep::Settled(CallOutcome::BufferInsufficient),
        ReturnCode::Failure(c) => {
            let mut msg = String::from_str("error code: ");
            push_decimal(&mut msg, c as i64);
            msg.append(", method not found: ");
            msg.append(method);
            ReplyStep::Settled(CallOutcome::Failed(api_error(msg)))
        },
    }
}

/// Settles a call whose output text has been decoded: the decoded response on
/// success, an `ApiError` carrying the decoder's reason otherwise.
pub fn decoded(parsed: Result<Response, String>) -> (outcome: CallOutcome)
    ensures
        match parsed {
            Ok(r) => outcome == CallOutcome::Success(r),
            Err(reason) => outcome matches CallOutcome::Failed(e) && e is ApiError && e.message()
                == decode_failure_text(reason@),
        },
{
    match parsed {
        Ok(r) => CallOutcome::Success(r),
        Err(reason) => {
            let mut msg = String::from_str("JSON decode failed: ");
            msg.append(reason.as_str());
            CallOutcome::Failed(api_error(msg))
        },
    }
}

impl CallOutcome {
    /// The outcome as the result of a single call made with a buffer of
    /// `capacity` bytes: a buffer that was too small is an `ApiError` that
    /// reports the capacity.
    pub fn into_result(self, capacity: usize) -> (r: Result<Response, THSError>)
        ensures
            match self {
                CallOutcome::Success(resp) => r == Ok::<Response, THSError>(resp),
                CallOutcome::BufferInsufficient => r matches Err(e) && e is ApiError
                    && e.message() == buffer_failure_text(capacity),
                CallOutcome::Failed(err) => r == Err::<Response, THSError>(err),
            },
    {
        match self {
            CallOutcome::Success(resp) => Ok(resp),
            CallOutcome::BufferInsufficient => {
                let mut msg = String::from_str("buffer too small, current size: ");
                push_decimal_usize(&mut msg, capacity);
                msg.append(" bytes");
                Err(api_error(msg))
            },
            CallOutcome::Failed(err) => Err(err),
        }
    }
}

} // verus!
