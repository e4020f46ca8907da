//! Queries whose answer size is not known in advance: the call is repeated
//! with a buffer twice as large while the native module reports that the
//! buffer was too small, up to a fixed number of attempts.
//!
//! The policy is a state machine. [`AdaptiveQuery::start`] and
//! [`AdaptiveQuery::advance`] say what to do next; the caller makes the
//! native call, waits where asked to, and reports how each call ended.

use vstd::prelude::*;
use vstd::string::StringExecFns;
use vstd::arithmetic::power2::{pow2, lemma_pow2_unfold, lemma2_to64};
use crate::error::{THSError, api_error};
use crate::envelope::{CallOutcome, Response};
use crate::text::{push_decimal_usize, decimal};

verus! {

/// The wait before a retry, in milliseconds.
pub const RETRY_PAUSE_MS: u64 = 100;

/// Twice the capacity, or the largest size where the double does not fit.
pub open spec fn double_saturating(capacity: usize) -> usize {
    if 2 * capacity <= usize::MAX {
        (2 * capacity) as usize
    } else {
        usize::MAX
    }
}

/// The capacity after `k` doublings of `initial`.
pub open spec fn grown(initial: usize, k: nat) -> usize
    decreases k,
{
    if k == 0 {
        initial
    } else {
        double_saturating(grown(initial, (k - 1) as nat))
    }
}

/// While the product fits, `k` doublings multiply by two to the `k`.
pub proof fn lemma_grown_is_power(initial: usize, k: nat)
    requires
        initial * pow2(k) <= usize::MAX,
    ensures
        grown(initial, k) == initial * pow2(k),
    decreases k,
{
    if k == 0 {
        lemma2_to64();
        assert(initial * pow2(0) == initial) by (nonlinear_arith)
            requires
                pow2(0) == 1,
        ;
    } else {
        lemma_pow2_unfold(k);
        let j = (k - 1) as nat;
        let p = pow2(j);
        assert(initial * pow2(k) == 2 * (initial * p) && initial * p >= 0) by (nonlinear_arith)
            requires
                pow2(k) == 2 * p,
                initial >= 0,
                p >= 0,
        ;
        lemma_grown_is_power(initial, j);
    }
}

/// A query between two calls: the call numbered `attempt` (from one) is due
/// or under way.
pub struct QueryState {
    pub initial: usize,
    pub attempt: nat,
    pub max_attempts: nat,
}

impl QueryState {
    pub open spec fn wf(self) -> bool {
        1 <= self.attempt <= self.max_attempts
    }

    /// The buffer capacity of the call: the initial one doubled once for
    /// each call before it.
    pub open spec fn capacity(self) -> usize {
        grown(self.initial, (self.attempt - 1) as nat)
    }

    /// The wait before the call: none before the first.
    pub open spec fn pause_ms(self) -> u64 {
        if self.attempt == 1 {
            0
        } else {
            RETRY_PAUSE_MS
        }
    }
}

/// How a query ends.
pub enum QueryVerdict {
    /// The module answered.
    Answer(Response),
    /// The session was not connected; no call was made.
    NotConnected,
    /// Every allowed attempt ended with a buffer that was too small;
    /// `capacity` is that of the last attempt.
    Exhausted { capacity: usize },
    /// A call failed for a reason that a larger buffer does not mend.
    Failure(THSError),
}

/// What the policy decides: another call, or the end.
pub enum QueryNext {
    Retry(QueryState),
    Finished(QueryVerdict),
}

/// The decision at the start of a query.
pub open spec fn begin(connected: bool, initial: usize, max_attempts: nat) -> QueryNext {
    if !connected {
        QueryNext::Finished(QueryVerdict::NotConnected)
    } else if max_attempts == 0 {
        QueryNext::Finished(QueryVerdict::Exhausted { capacity: initial })
    } else {
        QueryNext::Retry(QueryState { initial, attempt: 1, max_attempts })
    }
}

/// The decision after the call of state `s` ended with `outcome`.
pub open spec fn next(s: QueryState, outcome: CallOutcome) -> QueryNext {
    match outcome {
        CallOutcome::Success(r) => QueryNext::Finished(QueryVerdict::Answer(r)),
        CallOutcome::Failed(e) => QueryNext::Finished(QueryVerdict::Failure(e)),
        CallOutcome::BufferInsufficient => if s.attempt < s.max_attempts {
            QueryNext::Retry(QueryState { attempt: s.attempt + 1, ..s })
        } else {
            QueryNext::Finished(QueryVerdict::Exhausted { capacity: s.capacity() })
        },
    }
}

/// The message of a query on a session that is not connected.
pub open spec fn not_connected_text() -> Seq<char> {
    "not logged in"@
}

/// The message of a query that used up its attempts.
pub open spec fn exhausted_text(request: Seq<char>, capacity: usize) -> Seq<char> {
    "maximum number of attempts reached, request: "@ + request + ", final buffer size: "@
        + decimal(capacity as int)
}

/// Whether `result` is what a query with the given verdict returns.
pub open spec fn returns_verdict(
    result: Result<Response, THSError>,
    verdict: QueryVerdict,
    request: Seq<char>,
) -> bool {
    match verdict {
        QueryVerdict::Answer(r) => result == Ok::<Response, THSError>(r),
        QueryVerdict::NotConnected => result matches Err(e) && e is ApiError && e.message()
            == not_connected_text(),
        QueryVerdict::Exhausted { capacity } => result matches Err(e) && e is ApiError
            && e.message() == exhausted_text(request, capacity),
        QueryVerdict::Failure(err) => result == Err::<Response, THSError>(err),
    }
}

/// A query with a call due: what the caller needs for that call.
pub struct AdaptiveQuery {
    initial: usize,
    capacity: usize,
    attempt: usize,
    max_attempts: usize,
}

/// What the caller does next.
pub enum QueryStep {
    /// Wait for the query's pause, make the call with a buffer of the
    /// query's capacity, and report the outcome to `advance`.
    Call(AdaptiveQuery),
    /// Return this result.
    Done(Result<Response, THSError>),
}

impl View for AdaptiveQuery {
    type V = QueryState;

    closed spec fn view(&self) -> QueryState {
        QueryState {
            initial: self.initial,
            attempt: self.attempt as nat,
            max_attempts: self.max_attempts as nat,
        }
    }
}

impl AdaptiveQuery {
    #[verifier::type_invariant]
    spec fn inv(self) -> bool {
        &&& self@.wf()
        &&& self.capacity == self@.capacity()
    }

    /// Starts a query for `request` on a session that is connected or not.
    pub fn start(connected: bool, request: &str, initial_capacity: usize, max_attempts: usize) -> (step:
        QueryStep)
        ensures
            match step {
                QueryStep::Call(q) => begin(connected, initial_capacity, max_attempts as nat)
                    == QueryNext::Retry(q@),
                QueryStep::Done(r) => begin(connected, initial_capacity, max_attempts as nat)
                    matches QueryNext::Finished(v) && returns_verdict(r, v, request@),
            },
    {
        if !connected {
            QueryStep::Done(Err(api_error(String::from_str("not logged in"))))
        } else if max_attempts == 0 {
            QueryStep::Done(Err(exhausted(request, initial_capacity)))
        } else {
            QueryStep::Call(
                AdaptiveQuery {
                    initial: initial_capacity,
                    capacity: initial_capacity,
                    attempt: 1,
                    max_attempts,
                },
            )
        }
    }

    /// The buffer capacity for the call that is due.
    pub fn capacity(&self) -> (c: usize)
        ensures
            c == self@.capacity(),
    {
        proof {
            use_type_invariant(self);
        }
        self.capacity
    }

    /// The number of the call that is due, counted from one.
    pub fn attempt(&self) -> (n: usize)
        ensures
            n == self@.attempt,
            self@.wf(),
    {
        proof {
            use_type_invariant(self);
        }
        self.attempt
    }

    /// The wait before the call that is due, in milliseconds.
    pub fn pause_ms(&self) -> (ms: u64)
        ensures
            ms == self@.pause_ms(),
    {
        if self.attempt == 1 {
            0
        } else {
            RETRY_PAUSE_MS
        }
    }

    /// Decides what follows the call that was due, given how it ended. A
    /// success and a failure end the query at once; a buffer that was too
    /// small leads to one more call with twice the capacity, unless this was
    /// the last attempt allowed.
    pub fn advance(self, outcome: CallOutcome, request: &str) -> (step: QueryStep)
        ensures
            self@.wf(),
            match step {
                QueryStep::Call(q) => next(self@, outcome) == QueryNext::Retry(q@),
                QueryStep::Done(r) => next(self@, outcome) matches QueryNext::Finished(v)
                    && returns_verdict(r, v, request@),
            },
    {
        proof {
            use_type_invariant(&self);
        }
        match outcome {
            CallOutcome::Success(r) => QueryStep::Done(Ok(r)),
            CallOutcome::Failed(e) => QueryStep::Done(Err(e)),
            CallOutcome::BufferInsufficient => {
                if self.attempt < self.max_attempts {
                    let doubled: usize = if self.capacity <= usize::MAX / 2 {
                        self.capacity * 2
                    } else {
                        usize::MAX
                    };
                    QueryStep::Call(
                        AdaptiveQuery {
                            initial: self.initial,
                            capacity: doubled,
                            attempt: self.attempt + 1,
                            max_attempts: self.max_attempts,
                        },
                    )
                } else {
                    QueryStep::Done(Err(exhausted(request, self.capacity)))
                }
            },
        }
    }
}

/// The failure of a query that used up its attempts.
fn exhausted(request: &str, capacity: usize) -> (e: THSError)
    ensures
        e is ApiError,
        e.message() == exhausted_text(request@, capacity),
{
    let mut msg = String::from_str("maximum number of attempts reached, request: ");
    msg.append(request);
    msg.append(", final buffer size: ");
    push_decimal_usize(&mut msg, capacity);
    api_error(msg)
}

/// The method name of a data query for the service `tag`.
pub open spec fn query_method_text(tag: Seq<char>) -> Seq<char> {
    "cmd.query_data."@ + tag
}

/// Builds the method name of a data query for the service `tag`.
pub fn query_method(tag: &str) -> (method: String)
    ensures
        method@ == query_method_text(tag@),
{
    let mut method = String::from_str("cmd.query_data.");
    method.append(tag);
    method
}

/// The course of a query: the capacities of the calls made, in order, and
/// the verdict once it is reached.
pub struct QueryRun {
    pub capacities: Seq<usize>,
    pub verdict: Option<QueryVerdict>,
}

/// The course of a query from the decision `at`, when the calls end with
/// `outcomes` in turn. Outcomes beyond the verdict are not consumed.
pub open spec fn run_from(at: QueryNext, outcomes: Seq<CallOutcome>) -> QueryRun
    decreases outcomes.len(),
{
    match at {
        QueryNext::Finished(v) => QueryRun { capacities: Seq::empty(), verdict: Some(v) },
        QueryNext::Retry(s) => if outcomes.len() == 0 {
            QueryRun { capacities: seq![s.capacity()], verdict: None }
        } else {
            let rest = run_from(next(s, outcomes[0]), outcomes.drop_first());
            QueryRun { capacities: seq![s.capacity()] + rest.capacities, verdict: rest.verdict }
        },
    }
}

/// The course of a whole query.
pub open spec fn run(
    connected: bool,
    initial: usize,
    max_attempts: nat,
    outcomes: Seq<CallOutcome>,
) -> QueryRun {
    run_from(begin(connected, initial, max_attempts), outcomes)
}

/// `k` calls in a row that end with a buffer that was too small.
pub open spec fn insufficient(k: nat) -> Seq<CallOutcome> {
    Seq::new(k, |i: int| CallOutcome::BufferInsufficient)
}

/// From any state, the calls still made are at most the attempts left, and
/// each is made with the capacity that its number gives.
pub proof fn lemma_run_from_state(s: QueryState, outcomes: Seq<CallOutcome>)
    requires
        s.wf(),
    ensures
        run_from(QueryNext::Retry(s), outcomes).capacities.len() <= s.max_attempts - s.attempt + 1,
        forall|i: int|
            0 <= i < run_from(QueryNext::Retry(s), outcomes).capacities.len() ==> run_from(
                QueryNext::Retry(s),
                outcomes,
            ).capacities[i] == grown(s.initial, (s.attempt - 1 + i) as nat),
    decreases outcomes.len(),
{
    let r = run_from(QueryNext::Retry(s), outcomes);
    if outcomes.len() == 0 {
        assert(r.capacities =~= seq![s.capacity()]);
    } else {
        let rest = run_from(next(s, outcomes[0]), outcomes.drop_first());
        assert(r.capacities =~= seq![s.capacity()] + rest.capacities);
        match next(s, outcomes[0]) {
            QueryNext::Retry(t) => {
                lemma_run_from_state(t, outcomes.drop_first());
                assert forall|i: int| 0 <= i < r.capacities.len() implies r.capacities[i] == grown(
                    s.initial,
                    (s.attempt - 1 + i) as nat,
                ) by {
                    if i > 0 {
                        assert(r.capacities[i] == rest.capacities[i - 1]);
                    }
                }
            },
            QueryNext::Finished(_) => {
                assert(rest.capacities.len() == 0);
            },
        }
    }
}

/// After `k` buffer-insufficient calls with attempts to spare, the query
/// stands at call `k` further on, having made `k` calls.
pub proof fn lemma_run_through_insufficient(s: QueryState, k: nat, rest: Seq<CallOutcome>)
    requires
        s.wf(),
        s.attempt + k <= s.max_attempts,
    ensures
        run_from(QueryNext::Retry(s), insufficient(k) + rest).verdict == run_from(
            QueryNext::Retry(QueryState { attempt: s.attempt + k, ..s }),
            rest,
        ).verdict,
        run_from(QueryNext::Retry(s), insufficient(k) + rest).capacities.len() == k + run_from(
            QueryNext::Retry(QueryState { attempt: s.attempt + k, ..s }),
            rest,
        ).capacities.len(),
    decreases k,
{
    if k == 0 {
        assert(insufficient(0) + rest =~= rest);
    } else {
        let all = insufficient(k) + rest;
        let t = QueryState { attempt: s.attempt + 1, ..s };
        assert(all[0] == CallOutcome::BufferInsufficient);
        assert(all.drop_first() =~= insufficient((k - 1) as nat) + rest);
        lemma_run_through_insufficient(t, (k - 1) as nat, rest);
    }
}

/// A query on a connected session whose first `k` calls find the buffer too
/// small, with `k` below the attempts allowed, and whose next call succeeds,
/// returns that call's answer. It makes `k + 1` calls, the `i`-th (from
/// zero) with the initial capacity doubled `i` times; so the last one is made
/// with `initial * 2^k` bytes, where that fits the machine's sizes.
pub proof fn law_success_after_growth(
    initial: usize,
    max_attempts: nat,
    k: nat,
    answer: Response,
)
    requires
        k < max_attempts,
    ensures
        ({
            let r = run(true, initial, max_attempts, insufficient(k).push(CallOutcome::Success(answer)));
            &&& r.verdict == Some(QueryVerdict::Answer(answer))
            &&& r.capacities.len() == k + 1
            &&& forall|i: int| 0 <= i <= k ==> r.capacities[i] == grown(initial, i as nat)
            &&& r.capacities.last() == grown(initial, k)
            &&& initial * pow2(k) <= usize::MAX ==> r.capacities.last() == initial * pow2(k)
        }),
{
    let s = QueryState { initial, attempt: 1, max_attempts };
    let tail = seq![CallOutcome::Success(answer)];
    let outcomes = insufficient(k).push(CallOutcome::Success(answer));
    assert(outcomes =~= insufficient(k) + tail);
    lemma_run_through_insufficient(s, k, tail);
    lemma_run_from_state(s, outcomes);
    let t = QueryState { attempt: 1 + k, ..s };
    assert(run_from(next(t, tail[0]), tail.drop_first()).capacities.len() == 0);
    assert(run_from(QueryNext::Retry(t), tail).capacities.len() == 1);
    if initial * pow2(k) <= usize::MAX {
        lemma_grown_is_power(initial, k);
    }
}

/// A query on a connected session whose calls all find the buffer too small
/// makes exactly as many calls as attempts are allowed, never one more, and
/// ends exhausted, reporting the capacity of the last call made.
pub proof fn law_exhaustion(initial: usize, max_attempts: nat, outcomes: Seq<CallOutcome>)
    requires
        outcomes.len() >= max_attempts,
        forall|i: int| 0 <= i < max_attempts ==> outcomes[i] == CallOutcome::BufferInsufficient,
    ensures
        ({
            let r = run(true, initial, max_attempts, outcomes);
            &&& r.capacities.len() == max_attempts
            &&& r.verdict == Some(
                QueryVerdict::Exhausted {
                    capacity: if max_attempts == 0 {
                        initial
                    } else {
                        grown(initial, (max_attempts - 1) as nat)
                    },
                },
            )
        }),
{
    if max_attempts > 0 {
        let s = QueryState { initial, attempt: 1, max_attempts };
        let k = (max_attempts - 1) as nat;
        let rest = outcomes.skip(k as int);
        assert(outcomes =~= insufficient(k) + rest);
        lemma_run_through_insufficient(s, k, rest);
        let t = QueryState { attempt: max_attempts, ..s };
        assert(rest[0] == CallOutcome::BufferInsufficient);
        assert(run_from(next(t, rest[0]), rest.drop_first()).capacities.len() == 0);
    }
}

/// Whatever the calls return, a query makes no more calls than the attempts
/// allowed, and none at all on a session that is not connected.
pub proof fn law_call_bound(
    connected: bool,
    initial: usize,
    max_attempts: nat,
    outcomes: Seq<CallOutcome>,
)
    ensures
        run(connected, initial, max_attempts, outcomes).capacities.len() <= max_attempts,
        !connected ==> run(connected, initial, max_attempts, outcomes).capacities.len() == 0
            && run(connected, initial, max_attempts, outcomes).verdict == Some(
            QueryVerdict::NotConnected,
        ),
{
    if connected && max_attempts > 0 {
        lemma_run_from_state(QueryState { initial, attempt: 1, max_attempts }, outcomes);
    }
}

/// A call that fails for another reason than the buffer ends the query at
/// once with that failure, and a call that succeeds ends it with its answer,
/// whatever error text the answer carries.
pub proof fn law_no_retry_on_other_outcomes(s: QueryState, outcome: CallOutcome)
    ensures
        outcome matches CallOutcome::Failed(e) ==> next(s, outcome) == QueryNext::Finished(
            QueryVerdict::Failure(e),
        ),
        outcome matches CallOutcome::Success(r) ==> next(s, outcome) == QueryNext::Finished(
            QueryVerdict::Answer(r),
        ),
{
}

} // verus!
