//! When a request is sent again, how long the client waits first, and how a
//! `Retry-After` header is read.
use vstd::prelude::*;

verus! {

/// The HTTP methods the API uses.
#[derive(Clone, Copy, Debug, PartialEq, Eq, Structural)]
pub enum Method {
    Get,
    Post,
    Put,
    Patch,
    Delete,
}

impl Method {
    /// The method's name on the wire.
    pub fn as_str(&self) -> (result: &'static str)
        ensures
            result@ == method_name(*self),
    {
        match self {
            Method::Get => "GET",
            Method::Post => "POST",
            Method::Put => "PUT",
            Method::Patch => "PATCH",
            Method::Delete => "DELETE",
        }
    }
}

pub open spec fn method_name(method: Method) -> Seq<char> {
    match method {
        Method::Get => "GET"@,
        Method::Post => "POST"@,
        Method::Put => "PUT"@,
        Method::Patch => "PATCH"@,
        Method::Delete => "DELETE"@,
    }
}

/// How often a GET is attempted, and the longest wait between attempts (in
/// nanoseconds) when the server names none.
#[derive(Clone, Copy, Debug, PartialEq, Eq)]
pub struct RetryPolicy {
    pub attempts: u8,
    pub max_backoff_nanos: u128,
}

impl Default for RetryPolicy {
    fn default() -> (result: RetryPolicy)
        ensures
            result.attempts == 3,
            result.max_backoff_nanos == 8_000_000_000,
    {
        RetryPolicy { attempts: 3, max_backoff_nanos: 8_000_000_000 }
    }
}

/// How many times a request may be sent again after its first attempt: only GET
/// requests are retried, up to `attempts - 1` times.
pub open spec fn retry_budget(attempts: u8, method: Method) -> nat {
    if method == Method::Get && attempts > 0 {
        (attempts - 1) as nat
    } else {
        0
    }
}

/// Where a request stands: which attempt this is (from 0) and how many retries it has.
#[derive(Clone, Copy, Debug, PartialEq, Eq, Structural)]
pub struct RetryState {
    pub attempt: u8,
    pub retries: u8,
}

/// What happened to one attempt.
#[derive(Clone, Copy, Debug, PartialEq, Eq, Structural)]
pub enum Outcome {
    /// No response: the request or its body failed on the way.
    Failed { timed_out: bool },
    /// A full response with this status and `Retry-After` value in seconds.
    Responded { status: u16, retry_after_secs: Option<u64> },
}

/// Why a request failed without a response.
#[derive(Clone, Copy, Debug, PartialEq, Eq, Structural)]
pub enum Failure {
    Timeout,
    Transport,
}

/// What the client does after an attempt.
#[derive(Clone, Copy, Debug, PartialEq, Eq, Structural)]
pub enum Action {
    /// Wait, then make the attempt `next`.
    Retry { next: RetryState, retry_after_secs: Option<u64> },
    /// Give up with this failure.
    Fail(Failure),
    /// Decode the body as the operation's data.
    DecodeData,
    /// Decode the body as an API error.
    DecodeError { status: u16, retry_after_secs: Option<u64> },
}

/// A successful HTTP status (2xx).
pub open spec fn is_success(status: u16) -> bool {
    200 <= status <= 299
}

/// A status after which a GET is worth retrying: 429 (too many requests) or 503
/// (service unavailable).
pub open spec fn is_retryable(status: u16) -> bool {
    status == 429 || status == 503
}

/// What follows an attempt: a failure without a response, or a 429 or 503, is retried
/// while retries remain (a failure names no wait, a response passes on its
/// `Retry-After`); a failure with none left ends the request; a success is decoded as
/// data; any other response is decoded as an API error.
pub open spec fn decide(state: RetryState, outcome: Outcome) -> Action {
    let next = RetryState { attempt: (state.attempt + 1) as u8, retries: state.retries };
    match outcome {
        Outcome::Failed { timed_out } => if state.may_retry() {
            Action::Retry { next, retry_after_secs: None }
        } else if timed_out {
            Action::Fail(Failure::Timeout)
        } else {
            Action::Fail(Failure::Transport)
        },
        Outcome::Responded { status, retry_after_secs } => if is_success(status) {
            Action::DecodeData
        } else if state.may_retry() && is_retryable(status) {
            Action::Retry { next, retry_after_secs }
        } else {
            Action::DecodeError { status, retry_after_secs }
        },
    }
}

/// How many attempts a request makes from this state when its attempts end in these
/// outcomes, one after the other: this attempt, and every one its retries lead to.
pub open spec fn attempts_made(state: RetryState, outcomes: Seq<Outcome>) -> nat
    decreases outcomes.len(),
{
    if outcomes.len() == 0 {
        1
    } else {
        match decide(state, outcomes[0]) {
            Action::Retry { next, .. } => 1 + attempts_made(next, outcomes.drop_first()),
            _ => 1,
        }
    }
}

impl RetryState {
    /// The first attempt of a request with this method under this policy.
    pub fn start(policy: &RetryPolicy, method: Method) -> (result: RetryState)
        ensures
            result.attempt == 0,
            result.retries == retry_budget(policy.attempts, method),
    {
        let retries = if method == Method::Get {
            policy.attempts.saturating_sub(1)
        } else {
            0
        };
        RetryState { attempt: 0, retries }
    }

    /// Whether another attempt may follow this one.
    pub open spec fn may_retry(self) -> bool {
        self.attempt < self.retries
    }

    /// Decides what follows an attempt with this outcome.
    pub fn next_action(self, outcome: Outcome) -> (result: Action)
        ensures
            result == decide(self, outcome),
    {
        let may_retry = self.attempt < self.retries;
        match outcome {
            Outcome::Failed { timed_out } => {
                if may_retry {
                    Action::Retry {
                        next: RetryState { attempt: self.attempt + 1, retries: self.retries },
                        retry_after_secs: None,
                    }
                } else if timed_out {
                    Action::Fail(Failure::Timeout)
                } else {
                    Action::Fail(Failure::Transport)
                }
            },
            Outcome::Responded { status, retry_after_secs } => {
                if 200 <= status && status <= 299 {
                    Action::DecodeData
                } else if may_retry && (status == 429 || status == 503) {
                    Action::Retry {
                        next: RetryState { attempt: self.attempt + 1, retries: self.retries },
                        retry_after_secs,
                    }
                } else {
                    Action::DecodeError { status, retry_after_secs }
                }
            },
        }
    }
}

/// Any 2xx response is a success, whatever the method and attempt: its body is decoded
/// as the operation's data. A 429 or 503 to a request with retries left is retried with
/// the server's `Retry-After`, and any other status outside 2xx is decoded as an API
/// error.
pub proof fn law_responses_are_classified(
    state: RetryState,
    status: u16,
    retry_after_secs: Option<u64>,
)
    ensures
        200 <= status <= 299 ==> decide(state, Outcome::Responded { status, retry_after_secs })
            == Action::DecodeData,
        (status == 429 || status == 503) && state.attempt < state.retries ==> decide(
            state,
            Outcome::Responded { status, retry_after_secs },
        ) == (Action::Retry {
            next: RetryState { attempt: (state.attempt + 1) as u8, retries: state.retries },
            retry_after_secs,
        }),
        !(200 <= status <= 299) && status != 429 && status != 503 ==> decide(
            state,
            Outcome::Responded { status, retry_after_secs },
        ) == (Action::DecodeError { status, retry_after_secs }),
        (status == 429 || status == 503) && state.attempt >= state.retries ==> decide(
            state,
            Outcome::Responded { status, retry_after_secs },
        ) == (Action::DecodeError { status, retry_after_secs }),
{
}

proof fn lemma_attempts_left(state: RetryState, outcomes: Seq<Outcome>)
    requires
        state.attempt <= state.retries,
    ensures
        attempts_made(state, outcomes) <= state.retries - state.attempt + 1,
    decreases outcomes.len(),
{
    if outcomes.len() > 0 {
        match decide(state, outcomes[0]) {
            Action::Retry { next, .. } => lemma_attempts_left(next, outcomes.drop_first()),
            _ => {},
        }
    }
}

/// Whatever its attempts end in, a request is sent at most `attempts` times (and at
/// least once), and a request other than GET exactly once.
pub proof fn law_attempts_are_bounded(attempts: u8, method: Method, outcomes: Seq<Outcome>)
    ensures
        ({
            let first = RetryState { attempt: 0, retries: retry_budget(attempts, method) as u8 };
            &&& 1 <= attempts_made(first, outcomes)
            &&& attempts_made(first, outcomes) <= if attempts == 0 {
                1
            } else {
                attempts as int
            }
            &&& method != Method::Get ==> attempts_made(first, outcomes) == 1
        }),
{
    let first = RetryState { attempt: 0, retries: retry_budget(attempts, method) as u8 };
    lemma_attempts_left(first, outcomes);
    if outcomes.len() > 0 {
        match decide(first, outcomes[0]) {
            Action::Retry { next, .. } => {},
            _ => {},
        }
    }
}

/// The exponential part of a backoff: 1, 2, 4, then 8 seconds, in nanoseconds.
pub open spec fn exponential_nanos(attempt: u8) -> int {
    if attempt == 0 {
        1_000_000_000
    } else if attempt == 1 {
        2_000_000_000
    } else if attempt == 2 {
        4_000_000_000
    } else {
        8_000_000_000
    }
}

/// The backoff before jitter: the exponential part, but no more than the maximum.
pub open spec fn base_backoff_nanos(attempt: u8, max_backoff_nanos: u128) -> int {
    if exponential_nanos(attempt) <= max_backoff_nanos {
        exponential_nanos(attempt)
    } else {
        max_backoff_nanos as int
    }
}

/// The most jitter added to a backoff: a quarter of the base backoff's whole
/// milliseconds, in milliseconds.
pub open spec fn jitter_limit_millis(attempt: u8, max_backoff_nanos: u128) -> int {
    base_backoff_nanos(attempt, max_backoff_nanos) / 1_000_000 / 4
}

/// The wait before the next attempt, in nanoseconds, given the jitter in milliseconds:
/// the server's `Retry-After` when it named one, else the base backoff plus the jitter,
/// capped at the maximum.
pub open spec fn backoff_nanos_spec(
    attempt: u8,
    retry_after_secs: Option<u64>,
    max_backoff_nanos: u128,
    jitter_millis: u64,
) -> int {
    match retry_after_secs {
        Some(secs) => secs * 1_000_000_000,
        None => {
            let total = base_backoff_nanos(attempt, max_backoff_nanos) + jitter_millis * 1_000_000;
            if total <= max_backoff_nanos {
                total
            } else {
                max_backoff_nanos as int
            }
        },
    }
}

/// The wait before the next attempt for a given jitter.
pub fn backoff_with_jitter(
    attempt: u8,
    retry_after_secs: Option<u64>,
    max_backoff_nanos: u128,
    jitter_millis: u64,
) -> (result: u128)
    ensures
        result == backoff_nanos_spec(attempt, retry_after_secs, max_backoff_nanos, jitter_millis),
{
    match retry_after_secs {
        Some(secs) => secs as u128 * 1_000_000_000,
        None => {
            let base = base_backoff(attempt, max_backoff_nanos);
            let total = base as u128 + jitter_millis as u128 * 1_000_000;
            if total <= max_backoff_nanos {
                total
            } else {
                max_backoff_nanos
            }
        },
    }
}

fn base_backoff(attempt: u8, max_backoff_nanos: u128) -> (result: u64)
    ensures
        result == base_backoff_nanos(attempt, max_backoff_nanos),
{
    let exponential: u64 = if attempt == 0 {
        1_000_000_000
    } else if attempt == 1 {
        2_000_000_000
    } else if attempt == 2 {
        4_000_000_000
    } else {
        8_000_000_000
    };
    if exponential as u128 <= max_backoff_nanos {
        exponential
    } else {
        max_backoff_nanos as u64
    }
}

/// Calls `fastrand::u64(0..=limit)`, which draws from the thread's generator.
/// Trusted: the result lies in `0..=limit`; nothing else is said of which value comes.
#[verifier::external_body]
fn random_jitter(limit: u64) -> (result: u64)
    ensures
        result <= limit,
{
    fastrand::u64(0..=limit)
}

/// The wait before the next attempt, in nanoseconds: the server's `Retry-After` when it
/// named one, else the base backoff plus a random jitter of whole milliseconds, up to a
/// quarter of the base backoff, never more than the maximum.
pub fn backoff_nanos(attempt: u8, retry_after_secs: Option<u64>, max_backoff_nanos: u128) -> (result:
    u128)
    ensures
        match retry_after_secs {
            Some(secs) => result == secs * 1_000_000_000,
            None => exists|jitter: u64|
                jitter <= jitter_limit_millis(attempt, max_backoff_nanos) && result
                    == backoff_nanos_spec(attempt, None, max_backoff_nanos, jitter),
        },
        retry_after_secs is None ==> base_backoff_nanos(attempt, max_backoff_nanos) <= result
            <= max_backoff_nanos,
{
    let limit = base_backoff(attempt, max_backoff_nanos) / 1_000_000 / 4;
    let jitter = random_jitter(limit);
    backoff_with_jitter(attempt, retry_after_secs, max_backoff_nanos, jitter)
}

/// A byte that may stand in an HTTP header value read as text: visible ASCII or tab.
pub open spec fn is_visible_ascii(b: u8) -> bool {
    (32 <= b && b < 127) || b == 9
}

pub open spec fn is_digit(b: u8) -> bool {
    48 <= b <= 57
}

/// The number that a string of decimal digits spells.
pub open spec fn digits_value(digits: Seq<u8>) -> int
    decreases digits.len(),
{
    if digits.len() == 0 {
        0
    } else {
        digits_value(digits.drop_last()) * 10 + (digits.last() - 48)
    }
}

/// The text without its leading `+`, if it has one.
pub open spec fn unsigned_digits(text: Seq<u8>) -> Seq<u8> {
    if text.len() > 0 && text[0] == 43 {
        text.drop_first()
    } else {
        text
    }
}

/// Every byte is a decimal digit.
pub open spec fn all_digits(bytes: Seq<u8>) -> bool {
    forall|i: int| 0 <= i < bytes.len() ==> is_digit(#[trigger] bytes[i])
}

/// Every byte is visible ASCII or a tab.
pub open spec fn all_visible_ascii(bytes: Seq<u8>) -> bool {
    forall|i: int| 0 <= i < bytes.len() ==> is_visible_ascii(#[trigger] bytes[i])
}

/// How `u64::from_str` reads a text: an optional `+`, then at least one decimal digit
/// and nothing else, of a value that fits in a `u64`.
pub open spec fn parsed_u64(text: Seq<u8>) -> Option<int> {
    let digits = unsigned_digits(text);
    if digits.len() > 0 && all_digits(digits) && digits_value(digits) <= u64::MAX {
        Some(digits_value(digits))
    } else {
        None
    }
}

/// The delay in seconds that a `Retry-After` header gives: its value read as text
/// (visible ASCII only) and then as a whole number of seconds.
pub open spec fn retry_after_spec(value: Option<Seq<u8>>) -> Option<int> {
    match value {
        None => None,
        Some(bytes) => if all_visible_ascii(bytes) {
            parsed_u64(bytes)
        } else {
            None
        },
    }
}

proof fn lemma_digits_value_push(digits: Seq<u8>, b: u8)
    ensures
        digits_value(digits.push(b)) == digits_value(digits) * 10 + (b - 48),
{
    assert(digits.push(b).drop_last() == digits);
}

proof fn lemma_digits_value_nonnegative(digits: Seq<u8>)
    requires
        all_digits(digits),
    ensures
        digits_value(digits) >= 0,
    decreases digits.len(),
{
    if digits.len() > 0 {
        lemma_digits_value_nonnegative(digits.drop_last());
    }
}

/// Reads the decimal digits of `bytes[start..]` as a `u64`.
fn parse_digits(bytes: &[u8], start: usize) -> (result: Option<u64>)
    requires
        start <= bytes@.len(),
    ensures
        ({
            let digits = bytes@.skip(start as int);
            match result {
                Some(v) => digits.len() > 0 && all_digits(digits) && v == digits_value(digits),
                None => !(digits.len() > 0 && all_digits(digits) && digits_value(digits)
                    <= u64::MAX),
            }
        }),
{
    let ghost digits = bytes@.skip(start as int);
    if start == bytes.len() {
        return None;
    }
    let mut value: u64 = 0;
    let mut i = start;
    let mut overflow = false;
    while i < bytes.len()
        invariant
            start <= i <= bytes@.len(),
            digits == bytes@.skip(start as int),
            forall|k: int| 0 <= k < i - start ==> is_digit(#[trigger] digits[k]),
            !overflow ==> value == digits_value(digits.take(i - start)),
            overflow ==> digits_value(digits.take(i - start)) > u64::MAX,
        decreases bytes@.len() - i,
    {
        let b = bytes[i];
        if b < 48 || b > 57 {
            assert(!is_digit(digits[i - start]));
            return None;
        }
        proof {
            assert(digits.take(i - start + 1) == digits.take(i - start).push(b));
            lemma_digits_value_push(digits.take(i - start), b);
            lemma_digits_value_nonnegative(digits.take(i - start));
        }
        if !overflow {
            match value.checked_mul(10) {
                Some(tens) => match tens.checked_add((b - 48) as u64) {
                    Some(next) => {
                        value = next;
                    },
                    None => {
                        overflow = true;
                    },
                },
                None => {
                    overflow = true;
                },
            }
        }
        i = i + 1;
    }
    assert(digits.take(i - start) == digits);
    if overflow {
        None
    } else {
        Some(value)
    }
}

/// The bytes of a header value, if there is one.
pub open spec fn header_bytes(value: Option<&[u8]>) -> Option<Seq<u8>> {
    match value {
        Some(bytes) => Some(bytes@),
        None => None,
    }
}

/// Reads a `Retry-After` header value as a whole number of seconds.
pub fn parse_retry_after(value: Option<&[u8]>) -> (result: Option<u64>)
    ensures
        result is None <==> retry_after_spec(header_bytes(value)) is None,
        result matches Some(secs) ==> retry_after_spec(header_bytes(value)) == Some(secs as int),
{
    match value {
        None => None,
        Some(bytes) => {
            assert(header_bytes(value) == Some(bytes@));
            let mut i: usize = 0;
            while i < bytes.len()
                invariant
                    i <= bytes@.len(),
                    header_bytes(value) == Some(bytes@),
                    forall|k: int| 0 <= k < i ==> is_visible_ascii(#[trigger] bytes@[k]),
                decreases bytes@.len() - i,
            {
                let b = bytes[i];
                if !((32 <= b && b < 127) || b == 9) {
                    assert(!is_visible_ascii(bytes@[i as int]));
                    assert(!all_visible_ascii(bytes@));
                    return None;
                }
                i = i + 1;
            }
            let start: usize = if bytes.len() > 0 && bytes[0] == 43 {
                1
            } else {
                0
            };
            if bytes.len() > 0 {
                assert(bytes@.skip(1) == bytes@.drop_first());
            }
            assert(bytes@.skip(0) == bytes@);
            parse_digits(bytes, start)
        },
    }
}

} // verus!
