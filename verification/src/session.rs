//! A session with the native module's remote service: its options, its
//! connected state, its request counter, and the login and logout policies.
//!
//! Login and logout are decided here and carried out by the caller: the
//! session says when to call the module and how long to wait, and is told
//! how each call ended.

use vstd::prelude::*;
use vstd::string::StringExecFns;
use vstd::arithmetic::power2::{pow2, lemma2_to64};
use crate::error::{THSError, api_error};
use crate::envelope::{CallOutcome, Response, encode_request, request_text, buffer_failure_text};
use crate::envelope::{encode_failure_text, params_or_empty, abi_capacity, abi_capacity_spec};

verus! {

/// The number of login attempts before giving up.
pub const CONNECT_ATTEMPTS: u32 = 5;

/// The buffer capacity of a login call, in bytes.
pub const CONNECT_CAPACITY: usize = 10240;

/// The buffer capacity of a logout call, in bytes.
pub const DISCONNECT_CAPACITY: usize = 1024;

/// The options of a session.
#[derive(Debug, Clone)]
pub struct ThsOption {
    pub username: String,
    pub password: String,
    pub lib_ver: String,
}

/// The options of a session as plain text.
pub struct OptionText {
    pub username: Seq<char>,
    pub password: Seq<char>,
    pub lib_ver: Seq<char>,
}

impl View for ThsOption {
    type V = OptionText;

    open spec fn view(&self) -> OptionText {
        OptionText { username: self.username@, password: self.password@, lib_ver: self.lib_ver@ }
    }
}

impl Default for ThsOption {
    /// Options with every text empty.
    fn default() -> (o: ThsOption)
        ensures
            o@.username.len() == 0,
            o@.password.len() == 0,
            o@.lib_ver.len() == 0,
    {
        ThsOption { username: String::new(), password: String::new(), lib_ver: String::new() }
    }
}

/// The options that a session works with: those given, with the guest
/// account in place of the name and the secret where either is empty or no
/// options were given at all.
pub open spec fn resolved_options(
    ops: Option<ThsOption>,
    guest: (Seq<char>, Seq<char>),
) -> OptionText {
    match ops {
        Some(o) => if o@.username.len() == 0 || o@.password.len() == 0 {
            OptionText { username: guest.0, password: guest.1, lib_ver: o@.lib_ver }
        } else {
            o@
        },
        None => OptionText { username: guest.0, password: guest.1, lib_ver: Seq::empty() },
    }
}

/// The first instance id of a session seeded with `seed`:
/// `6666666 + |seed| mod 2222222`.
pub open spec fn seed_base(seed: i32) -> int {
    6666666 + (if seed < 0 {
        -(seed as int)
    } else {
        seed as int
    }) % 2222222
}

/// The instance id that follows `id`; the ids wrap around at the end of
/// their range.
pub open spec fn following_id(id: i32) -> i32 {
    if id == i32::MAX {
        i32::MIN
    } else {
        (id + 1) as i32
    }
}

/// What a session is, apart from the module it talks to.
pub struct SessionState {
    pub options: OptionText,
    pub connected: bool,
    pub instance_id: i32,
}

/// A session with the remote service.
#[derive(Debug, Clone)]
pub struct THS {
    ops: ThsOption,
    login: bool,
    share_instance_id: i32,
}

impl View for THS {
    type V = SessionState;

    closed spec fn view(&self) -> SessionState {
        SessionState {
            options: self.ops@,
            connected: self.login,
            instance_id: self.share_instance_id,
        }
    }
}

/// `rand::random::<i32>`: some 32-bit integer from the thread's generator.
#[verifier::external_body]
fn random_i32() -> i32 {
    rand::random::<i32>()
}

impl THS {
    /// A disconnected session with the resolved options and an instance
    /// counter that starts at a random base.
    pub fn new(ops: Option<ThsOption>, guest: (String, String)) -> (s: THS)
        ensures
            s@.options == resolved_options(ops, (guest.0@, guest.1@)),
            !s@.connected,
            6666666 <= s@.instance_id < 6666666 + 2222222,
    {
        let seed = random_i32();
        THS::with_seed(ops, guest, seed)
    }

    /// A disconnected session with the resolved options and an instance
    /// counter that starts at the base that `seed` gives.
    pub fn with_seed(ops: Option<ThsOption>, guest: (String, String), seed: i32) -> (s: THS)
        ensures
            s@.options == resolved_options(ops, (guest.0@, guest.1@)),
            !s@.connected,
            s@.instance_id == seed_base(seed),
    {
        let mut resolved = match ops {
            Some(o) => o,
            None => {
                let o = ThsOption::default();
                assert(o@.lib_ver =~= Seq::<char>::empty());
                o
            },
        };
        if resolved.username.as_str().is_empty() || resolved.password.as_str().is_empty() {
            resolved.username = guest.0;
            resolved.password = guest.1;
        }
        let magnitude: i64 = if seed < 0 {
            -(seed as i64)
        } else {
            seed as i64
        };
        let base: i64 = 6666666 + magnitude % 2222222;
        THS { ops: resolved, login: false, share_instance_id: base as i32 }
    }

    /// The options of the session.
    pub fn options(&self) -> (o: &ThsOption)
        ensures
            o@ == self@.options,
    {
        &self.ops
    }

    /// Whether the session is connected.
    pub fn is_connected(&self) -> (b: bool)
        ensures
            b == self@.connected,
    {
        self.login
    }

    /// The compression version that requests announce.
    pub fn zip_version(&self) -> (v: i32)
        ensures
            v == 2,
    {
        2
    }

    /// Hands out the current instance id and moves the counter on.
    pub fn next_share_instance_id(&mut self) -> (id: i32)
        ensures
            id == old(self)@.instance_id,
            final(self)@ == (SessionState { instance_id: following_id(id), ..old(self)@ }),
    {
        let id = self.share_instance_id;
        self.share_instance_id = if id == i32::MAX {
            i32::MIN
        } else {
            id + 1
        };
        id
    }
}

/// What is handed to the native module for one call.
#[derive(Debug, Clone)]
pub struct NativeCall {
    /// The request text; it holds no NUL, so it can be handed over as a
    /// NUL-terminated string.
    pub request: String,
    /// The length of the output buffer to provide, in bytes.
    pub buffer_size: usize,
    /// The capacity to announce for that buffer.
    pub announced_capacity: i32,
}

/// The wait after the failed login attempt numbered `attempt` (from zero),
/// in seconds: one second, doubled with each attempt.
pub open spec fn backoff_seconds(attempt: nat) -> nat {
    pow2(attempt)
}

/// Whether a call logged the session in: the module answered, and its answer
/// carries no error text.
pub open spec fn connect_succeeds(outcome: CallOutcome) -> bool {
    outcome matches CallOutcome::Success(r) && r.err_info@.len() == 0
}

/// What follows a login call.
pub enum ConnectNext {
    /// The session is connected; the login returns this answer.
    Connected(Response),
    /// Wait, then make the call numbered `attempt`.
    Retry { sleep_seconds: nat, attempt: nat },
    /// Wait, then fail.
    GaveUp { sleep_seconds: nat },
}

/// The decision after the login call numbered `attempt` (from zero) ended
/// with `outcome`.
pub open spec fn connect_next(attempt: nat, outcome: CallOutcome) -> ConnectNext {
    if connect_succeeds(outcome) {
        ConnectNext::Connected(outcome->Success_0)
    } else if attempt + 1 < CONNECT_ATTEMPTS {
        ConnectNext::Retry { sleep_seconds: backoff_seconds(attempt), attempt: attempt + 1 }
    } else {
        ConnectNext::GaveUp { sleep_seconds: backoff_seconds(attempt) }
    }
}

/// The message of a login that used up its attempts.
pub open spec fn connect_failure_text() -> Seq<char> {
    "connection failed after 5 attempts"@
}

/// A login call that is due: its number, counted from zero.
pub struct ConnectAttempt {
    attempt: u32,
}

impl View for ConnectAttempt {
    type V = nat;

    closed spec fn view(&self) -> nat {
        self.attempt as nat
    }
}

impl ConnectAttempt {
    #[verifier::type_invariant]
    spec fn inv(self) -> bool {
        self.attempt < CONNECT_ATTEMPTS
    }

    /// The number of the call, counted from zero.
    pub fn number(&self) -> (n: u32)
        ensures
            n == self@,
            n < CONNECT_ATTEMPTS,
    {
        proof {
            use_type_invariant(self);
        }
        self.attempt
    }
}

/// What the caller does after a login call.
pub enum ConnectStep {
    /// Return this answer: the session is connected.
    Connected(Response),
    /// Wait `sleep_seconds`, make the call `next`, and report its outcome.
    Retry { sleep_seconds: u64, next: ConnectAttempt },
    /// Wait `sleep_seconds`, then return this failure.
    GiveUp { sleep_seconds: u64, error: THSError },
}

/// How a login ended.
pub enum ConnectEnd {
    Connected(Response),
    GaveUp,
}

/// The course of a login: the calls made, the seconds waited, and the end
/// once it is reached.
pub struct ConnectRun {
    pub calls: nat,
    pub slept_seconds: nat,
    pub end: Option<ConnectEnd>,
}

/// The course of a login from the call numbered `attempt`, when the calls
/// end with `outcomes` in turn. Outcomes beyond the end are not consumed.
pub open spec fn connect_run(attempt: nat, outcomes: Seq<CallOutcome>) -> ConnectRun
    decreases outcomes.len(),
{
    if outcomes.len() == 0 {
        ConnectRun { calls: 0, slept_seconds: 0, end: None }
    } else {
        match connect_next(attempt, outcomes[0]) {
            ConnectNext::Connected(r) => ConnectRun {
                calls: 1,
                slept_seconds: 0,
                end: Some(ConnectEnd::Connected(r)),
            },
            ConnectNext::Retry { sleep_seconds, attempt: following } => {
                let rest = connect_run(following, outcomes.drop_first());
                ConnectRun {
                    calls: 1 + rest.calls,
                    slept_seconds: sleep_seconds + rest.slept_seconds,
                    end: rest.end,
                }
            },
            ConnectNext::GaveUp { sleep_seconds } => ConnectRun {
                calls: 1,
                slept_seconds: sleep_seconds,
                end: Some(ConnectEnd::GaveUp),
            },
        }
    }
}

/// The session after a logout.
pub open spec fn after_disconnect(s: SessionState) -> SessionState {
    SessionState { connected: false, ..s }
}

/// The native calls that a logout makes: one on a connected session, none
/// otherwise.
pub open spec fn disconnect_calls(s: SessionState) -> nat {
    if s.connected {
        1
    } else {
        0
    }
}

impl THS {
    /// Starts a login: the first call is due. Make it, and report how it
    /// ended to `connect_advance`.
    pub fn connect(&self) -> (first: ConnectAttempt)
        ensures
            first@ == 0,
    {
        ConnectAttempt { attempt: 0 }
    }

    /// Prepares a call of `method` with `params` and an output buffer of
    /// `buffer_size` bytes: the request text to hand over, and the capacity
    /// to announce. The call is refused with an `ApiError` exactly when the
    /// method or the parameters contain a NUL.
    pub fn call(&self, method: &str, params: Option<&str>, buffer_size: usize) -> (r: Result<
        NativeCall,
        THSError,
    >)
        ensures
            match r {
                Ok(c) => c.request@ == request_text(method@, params_or_empty(params))
                    && !c.request@.contains('\0') && c.buffer_size == buffer_size
                    && c.announced_capacity == abi_capacity_spec(buffer_size),
                Err(e) => e is ApiError && e.message() == encode_failure_text() && request_text(
                    method@,
                    params_or_empty(params),
                ).contains('\0'),
            },
    {
        match encode_request(method, params) {
            Ok(request) => Ok(
                NativeCall { request, buffer_size, announced_capacity: abi_capacity(buffer_size) },
            ),
            Err(e) => Err(e),
        }
    }

    /// The wire text of the login request for the serialized options.
    pub fn connect_request(options_json: &str) -> (r: Result<String, THSError>)
        ensures
            match r {
                Ok(text) => text@ == request_text("connect"@, options_json@) && !text@.contains(
                    '\0',
                ),
                Err(e) => e is ApiError && e.message() == encode_failure_text()
                    && options_json@.contains('\0'),
            },
    {
        let r = encode_request("connect", Some(options_json));
        proof {
            if r is Err {
                lemma_connect_text_nul(options_json@);
            }
        }
        r
    }

    /// Decides what follows the login call `attempt`, given how it ended. An
    /// answer without error text connects the session. Anything else leaves
    /// the session as it was, and is followed by a wait that doubles with
    /// each attempt and then by the next call, or, after the last attempt, by
    /// the failure of the login.
    pub fn connect_advance(&mut self, attempt: ConnectAttempt, outcome: CallOutcome) -> (step:
        ConnectStep)
        ensures
            match connect_next(attempt@, outcome) {
                ConnectNext::Connected(r) => step == ConnectStep::Connected(r) && final(self)@ == (
                SessionState { connected: true, ..old(self)@ }),
                ConnectNext::Retry { sleep_seconds, attempt: following } => final(self)@ == old(
                    self,
                )@ && (step matches ConnectStep::Retry { sleep_seconds: secs, next } && secs
                    == sleep_seconds && next@ == following),
                ConnectNext::GaveUp { sleep_seconds } => final(self)@ == old(self)@ && (
                step matches ConnectStep::GiveUp { sleep_seconds: secs, error } && secs
                    == sleep_seconds && error is ApiError && error.message()
                    == connect_failure_text()),
            },
    {
        proof {
            use_type_invariant(&attempt);
            lemma2_to64();
        }
        let n: u32 = attempt.attempt;
        match outcome {
            CallOutcome::Success(r) => {
                if r.is_clean() {
                    self.login = true;
                    return ConnectStep::Connected(r);
                }
            },
            _ => {},
        }
        let secs: u64 = backoff(n);
        if n + 1 < CONNECT_ATTEMPTS {
            ConnectStep::Retry { sleep_seconds: secs, next: ConnectAttempt { attempt: n + 1 } }
        } else {
            ConnectStep::GiveUp {
                sleep_seconds: secs,
                error: api_error(String::from_str("connection failed after 5 attempts")),
            }
        }
    }

    /// Starts a logout: marks the session disconnected and says whether the
    /// logout call is due, which it is exactly when the session was
    /// connected.
    pub fn disconnect(&mut self) -> (call_due: bool)
        ensures
            final(self)@ == after_disconnect(old(self)@),
            call_due == (disconnect_calls(old(self)@) == 1),
    {
        let was = self.login;
        self.login = false;
        was
    }

    /// The result of a logout whose call ended with `outcome`: any answer is
    /// a success; a failure of the call is the failure of the logout.
    pub fn finish_disconnect(outcome: CallOutcome) -> (r: Result<(), THSError>)
        ensures
            match outcome {
                CallOutcome::Success(_) => r is Ok,
                CallOutcome::BufferInsufficient => r matches Err(e) && e is ApiError
                    && e.message() == buffer_failure_text(DISCONNECT_CAPACITY),
                CallOutcome::Failed(err) => r == Err::<(), THSError>(err),
            },
    {
        match outcome.into_result(DISCONNECT_CAPACITY) {
            Ok(_) => Ok(()),
            Err(e) => Err(e),
        }
    }
}

/// The wait after the failed attempt numbered `n`.
fn backoff(n: u32) -> (secs: u64)
    requires
        n < CONNECT_ATTEMPTS,
    ensures
        secs == backoff_seconds(n as nat),
{
    proof {
        lemma2_to64();
    }
    if n == 0 {
        1
    } else if n == 1 {
        2
    } else if n == 2 {
        4
    } else if n == 3 {
        8
    } else {
        16
    }
}

/// A NUL in the text of a login request lies in the options.
proof fn lemma_connect_text_nul(options: Seq<char>)
    requires
        request_text("connect"@, options).contains('\0'),
    ensures
        options.contains('\0'),
{
    reveal_strlit("connect");
    reveal_strlit("{\"method\":\"");
    reveal_strlit("\",\"params\":");
    reveal_strlit("}");
    let a = "{\"method\":\""@;
    let b = "connect"@;
    let c = "\",\"params\":"@;
    let d = "}"@;
    let t = request_text(b, options);
    let i = choose|i: int| 0 <= i < t.len() && t[i] == '\0';
    assert(t =~= a + b + c + options + d);
    let pre = a.len() + b.len() + c.len();
    if i < pre {
        assert(t[i] == (a + b + c)[i]);
        assert(false);
    } else if i < pre + options.len() {
        assert(t[i] == options[i - pre]);
    } else {
        assert(t[i] == d[i - pre - options.len()]);
        assert(false);
    }
}

/// A login whose first five calls all fail makes exactly five calls, waits
/// 1 + 2 + 4 + 8 + 16 = 31 seconds in all, and gives up.
pub proof fn law_connect_gives_up(outcomes: Seq<CallOutcome>)
    requires
        outcomes.len() >= 5,
        forall|i: int| 0 <= i < 5 ==> !connect_succeeds(outcomes[i]),
    ensures
        connect_run(0, outcomes) == (ConnectRun {
            calls: 5,
            slept_seconds: 31,
            end: Some(ConnectEnd::GaveUp),
        }),
{
    lemma2_to64();
    let o1 = outcomes.drop_first();
    let o2 = o1.drop_first();
    let o3 = o2.drop_first();
    let o4 = o3.drop_first();
    assert(o1[0] == outcomes[1]);
    assert(o2[0] == outcomes[2]);
    assert(o3[0] == outcomes[3]);
    assert(o4[0] == outcomes[4]);
    assert(connect_run(4, o4).calls == 1);
    assert(connect_run(3, o3).calls == 2);
    assert(connect_run(2, o2).calls == 3);
    assert(connect_run(1, o1).calls == 4);
}

/// A login whose first `k` calls fail, with `k` below five, and whose next
/// call succeeds makes `k + 1` calls, waits `2^k - 1` seconds in all, and
/// ends connected with that call's answer.
pub proof fn law_connect_after_failures(outcomes: Seq<CallOutcome>, k: nat)
    requires
        k < 5,
        outcomes.len() > k,
        forall|i: int| 0 <= i < k ==> !connect_succeeds(outcomes[i]),
        connect_succeeds(outcomes[k as int]),
    ensures
        connect_run(0, outcomes) == (ConnectRun {
            calls: k + 1,
            slept_seconds: (pow2(k) - 1) as nat,
            end: Some(ConnectEnd::Connected(outcomes[k as int]->Success_0)),
        }),
{
    lemma2_to64();
    let o1 = outcomes.drop_first();
    let o2 = o1.drop_first();
    let o3 = o2.drop_first();
    let o4 = o3.drop_first();
    if k >= 1 {
        assert(o1[0] == outcomes[1]);
    }
    if k >= 2 {
        assert(o2[0] == outcomes[2]);
    }
    if k >= 3 {
        assert(o3[0] == outcomes[3]);
    }
    if k >= 4 {
        assert(o4[0] == outcomes[4]);
        assert(connect_run(4, o4).calls == 1);
    }
    if k >= 3 {
        assert(connect_run(3, o3).calls == k - 2);
    }
    if k >= 2 {
        assert(connect_run(2, o2).calls == k - 1);
    }
    if k >= 1 {
        assert(connect_run(1, o1).calls == k);
    }
}

/// A logout right after a logout makes no native call and changes nothing:
/// two logouts in a row make exactly one call on a connected session.
pub proof fn law_disconnect_idempotent(s: SessionState)
    ensures
        disconnect_calls(after_disconnect(s)) == 0,
        after_disconnect(after_disconnect(s)) == after_disconnect(s),
        s.connected ==> disconnect_calls(s) + disconnect_calls(after_disconnect(s)) == 1,
{
}

} // verus!
