//! The settings a client is built with, and their defaults.
use crate::errors::{checked_requests_per_hour, ClientBuildError};
use crate::limiter::MAX_REQUESTS_PER_HOUR;
use crate::retry::RetryPolicy;
use crate::text::owned;
use vstd::prelude::*;

verus! {

/// The rate a client keeps to unless told otherwise, below the API's ceiling.
pub const DEFAULT_REQUESTS_PER_HOUR: usize = 180;

/// How long a request may take, in nanoseconds, unless told otherwise.
pub const DEFAULT_TIMEOUT_NANOS: u128 = 30_000_000_000;

/// A client's timeout, user agent, rate limit and retry policy. The rate limit always
/// lies within the API's ceiling.
#[derive(Debug)]
pub struct ClientSettings {
    timeout_nanos: u128,
    user_agent: String,
    requests_per_hour: usize,
    retry: RetryPolicy,
}

impl ClientSettings {
    #[verifier::type_invariant]
    spec fn well_formed(self) -> bool {
        1 <= self.requests_per_hour <= MAX_REQUESTS_PER_HOUR
    }

    pub closed spec fn timeout_spec(self) -> u128 {
        self.timeout_nanos
    }

    pub closed spec fn user_agent_spec(self) -> Seq<char> {
        self.user_agent@
    }

    pub closed spec fn requests_per_hour_spec(self) -> usize {
        self.requests_per_hour
    }

    pub closed spec fn retry_spec(self) -> RetryPolicy {
        self.retry
    }

    /// The defaults: a 30 second timeout, the SDK's user agent, 180 requests an hour
    /// and the default retry policy.
    pub fn new() -> (result: ClientSettings)
        ensures
            result.timeout_spec() == DEFAULT_TIMEOUT_NANOS,
            result.user_agent_spec() == "ynab-sdk/0.1.0"@,
            result.requests_per_hour_spec() == DEFAULT_REQUESTS_PER_HOUR,
            result.retry_spec() == (RetryPolicy { attempts: 3, max_backoff_nanos: 8_000_000_000 }),
    {
        ClientSettings {
            timeout_nanos: DEFAULT_TIMEOUT_NANOS,
            user_agent: owned("ynab-sdk/0.1.0"),
            requests_per_hour: DEFAULT_REQUESTS_PER_HOUR,
            retry: RetryPolicy::default(),
        }
    }

    /// The same settings with another timeout, in nanoseconds.
    pub fn timeout(self, nanos: u128) -> (result: ClientSettings)
        ensures
            result.timeout_spec() == nanos,
            result.user_agent_spec() == self.user_agent_spec(),
            result.requests_per_hour_spec() == self.requests_per_hour_spec(),
            result.retry_spec() == self.retry_spec(),
    {
        proof {
            use_type_invariant(&self);
        }
        let ClientSettings { timeout_nanos: _, user_agent, requests_per_hour, retry } = self;
        ClientSettings { timeout_nanos: nanos, user_agent, requests_per_hour, retry }
    }

    /// The same settings with another user agent.
    pub fn user_agent(self, value: String) -> (result: ClientSettings)
        ensures
            result.timeout_spec() == self.timeout_spec(),
            result.user_agent_spec() == value@,
            result.requests_per_hour_spec() == self.requests_per_hour_spec(),
            result.retry_spec() == self.retry_spec(),
    {
        proof {
            use_type_invariant(&self);
        }
        let ClientSettings { timeout_nanos, user_agent: _, requests_per_hour, retry } = self;
        ClientSettings { timeout_nanos, user_agent: value, requests_per_hour, retry }
    }

    /// The same settings with another rate limit; a rate outside 1 to 200 requests per
    /// hour is refused.
    pub fn requests_per_hour(self, value: usize) -> (result: Result<ClientSettings, ClientBuildError>)
        ensures
            1 <= value <= MAX_REQUESTS_PER_HOUR ==> (result matches Ok(s)
                && s.requests_per_hour_spec() == value && s.timeout_spec() == self.timeout_spec()
                && s.user_agent_spec() == self.user_agent_spec() && s.retry_spec()
                == self.retry_spec()),
            !(1 <= value <= MAX_REQUESTS_PER_HOUR) ==> result matches Err(
                ClientBuildError::InvalidRateLimit,
            ),
    {
        match checked_requests_per_hour(value) {
            Ok(rate) => {
                let ClientSettings { timeout_nanos, user_agent, requests_per_hour: _, retry } =
                    self;
                Ok(ClientSettings { timeout_nanos, user_agent, requests_per_hour: rate, retry })
            },
            Err(error) => Err(error),
        }
    }

    /// The same settings with another retry policy.
    pub fn retry_policy(self, value: RetryPolicy) -> (result: ClientSettings)
        ensures
            result.timeout_spec() == self.timeout_spec(),
            result.user_agent_spec() == self.user_agent_spec(),
            result.requests_per_hour_spec() == self.requests_per_hour_spec(),
            result.retry_spec() == value,
    {
        proof {
            use_type_invariant(&self);
        }
        let ClientSettings { timeout_nanos, user_agent, requests_per_hour, retry: _ } = self;
        ClientSettings { timeout_nanos, user_agent, requests_per_hour, retry: value }
    }

    pub fn timeout_nanos(&self) -> (result: u128)
        ensures
            result == self.timeout_spec(),
    {
        self.timeout_nanos
    }

    pub fn user_agent_text(&self) -> (result: &str)
        ensures
            result@ == self.user_agent_spec(),
    {
        self.user_agent.as_str()
    }

    /// The rate limit, always within 1 to 200 requests per hour.
    pub fn requests_per_hour_limit(&self) -> (result: usize)
        ensures
            result == self.requests_per_hour_spec(),
            1 <= result <= MAX_REQUESTS_PER_HOUR,
    {
        proof {
            use_type_invariant(self);
        }
        self.requests_per_hour
    }

    pub fn retry(&self) -> (result: RetryPolicy)
        ensures
            result == self.retry_spec(),
    {
        self.retry
    }
}

} // verus!
