//! Settings of the scraping client and the decisions of its fetch loop: how a
//! response is classified, and what follows each outcome (return, wait out a
//! rate limit, or back off and retry).
use crate::scraping::error::{ScraperError, ScraperResult};
use crate::text::{parse_unsigned, parse_unsigned_str};
use std::time::Duration;
use vstd::prelude::*;

verus! {

/// The duration of `millis` milliseconds.
pub uninterp spec fn duration_from_millis(millis: u64) -> Duration;

/// `Duration::from_millis`: the duration of `millis` milliseconds. The
/// contract names the result and says nothing more of it.
#[verifier::external_body]
fn duration_millis(ms: u64) -> (d: Duration)
    ensures
        d == duration_from_millis(ms),
{
    Duration::from_millis(ms)
}

/// Number of requests in flight at once, unless configured otherwise.
pub const DEFAULT_MAX_CONCURRENCY: usize = 5;

/// Retries of a failing request, unless configured otherwise.
pub const DEFAULT_MAX_RETRIES: u32 = 3;

/// Pause after each successful request, in milliseconds, unless configured otherwise.
pub const DEFAULT_MIN_DELAY_MILLIS: u64 = 500;

/// First backoff between retries, in milliseconds, unless configured otherwise.
pub const DEFAULT_BACKOFF_BASE_MILLIS: u64 = 1000;

/// The settings from which a scraping client is built.
pub struct ScraperClientBuilder {
    pub max_concurrency: usize,
    pub min_delay: Duration,
    pub max_retries: u32,
    pub backoff_base: Duration,
}

impl ScraperClientBuilder {
    /// The default settings: five requests at once, half a second between
    /// requests, three retries, and a one second first backoff.
    pub fn new() -> (b: Self)
        ensures
            b.max_concurrency == DEFAULT_MAX_CONCURRENCY,
            b.min_delay == duration_from_millis(DEFAULT_MIN_DELAY_MILLIS),
            b.max_retries == DEFAULT_MAX_RETRIES,
            b.backoff_base == duration_from_millis(DEFAULT_BACKOFF_BASE_MILLIS),
    {
        ScraperClientBuilder {
            max_concurrency: DEFAULT_MAX_CONCURRENCY,
            min_delay: duration_millis(DEFAULT_MIN_DELAY_MILLIS),
            max_retries: DEFAULT_MAX_RETRIES,
            backoff_base: duration_millis(DEFAULT_BACKOFF_BASE_MILLIS),
        }
    }

    /// Sets the number of requests in flight at once.
    pub fn max_concurrency(self, n: usize) -> (b: Self)
        ensures
            b.max_concurrency == n,
            b.min_delay == self.min_delay,
            b.max_retries == self.max_retries,
            b.backoff_base == self.backoff_base,
    {
        ScraperClientBuilder { max_concurrency: n, ..self }
    }

    /// Sets the pause after each successful request.
    pub fn min_delay(self, delay: Duration) -> (b: Self)
        ensures
            b.max_concurrency == self.max_concurrency,
            b.min_delay == delay,
            b.max_retries == self.max_retries,
            b.backoff_base == self.backoff_base,
    {
        ScraperClientBuilder { min_delay: delay, ..self }
    }

    /// Sets how many times a retryable failure is retried.
    pub fn max_retries(self, retries: u32) -> (b: Self)
        ensures
            b.max_concurrency == self.max_concurrency,
            b.min_delay == self.min_delay,
            b.max_retries == retries,
            b.backoff_base == self.backoff_base,
    {
        ScraperClientBuilder { max_retries: retries, ..self }
    }

    /// Sets the first backoff; each further retry doubles it.
    pub fn backoff_base(self, base: Duration) -> (b: Self)
        ensures
            b.max_concurrency == self.max_concurrency,
            b.min_delay == self.min_delay,
            b.max_retries == self.max_retries,
            b.backoff_base == base,
    {
        ScraperClientBuilder { backoff_base: base, ..self }
    }
}

impl Default for ScraperClientBuilder {
    fn default() -> (b: Self)
        ensures
            b.max_concurrency == DEFAULT_MAX_CONCURRENCY,
            b.min_delay == duration_from_millis(DEFAULT_MIN_DELAY_MILLIS),
            b.max_retries == DEFAULT_MAX_RETRIES,
            b.backoff_base == duration_from_millis(DEFAULT_BACKOFF_BASE_MILLIS),
    {
        Self::new()
    }
}

/// Seconds to wait on a rate limit whose response names no usable wait.
pub const DEFAULT_RETRY_AFTER_SECS: u64 = 60;

/// The outcome of a response with HTTP status `status`: a rate limit (status
/// 429) that waits the seconds its `Retry-After` header gives, or a minute
/// when the header is missing or not a number; an HTTP error for any other
/// status outside 200 to 299; success otherwise.
pub open spec fn spec_check_status(status: u16, retry_after: Option<Seq<char>>) -> Result<(), (u16, u64)> {
    if status == 429 {
        Err((429, match retry_after {
            Some(s) => match parse_unsigned(s, u64::MAX as int) {
                Some(v) => v as u64,
                None => DEFAULT_RETRY_AFTER_SECS,
            },
            None => DEFAULT_RETRY_AFTER_SECS,
        }))
    } else if !(200 <= status <= 299) {
        Err((status, 0))
    } else {
        Ok(())
    }
}

/// Classifies a response by its status and `Retry-After` header.
pub fn check_status(status: u16, retry_after: Option<&str>, url: &str) -> (r: ScraperResult<()>)
    ensures
        match (spec_check_status(status, match retry_after { Some(s) => Some(s@), None => None }), r) {
            (Ok(()), Ok(())) => true,
            (Err((429, secs)), Err(ScraperError::RateLimited { retry_after_secs })) => retry_after_secs == secs,
            (Err((st, _)), Err(ScraperError::HttpError { status: s, url: u })) => st != 429 && s == st && u@ == url@,
            _ => false,
        },
{
    if status == 429 {
        let secs = match retry_after {
            Some(s) => match parse_unsigned_str(s, u64::MAX) {
                Some(v) => v,
                None => DEFAULT_RETRY_AFTER_SECS,
            },
            None => DEFAULT_RETRY_AFTER_SECS,
        };
        Err(ScraperError::RateLimited { retry_after_secs: secs })
    } else if status < 200 || status > 299 {
        Err(ScraperError::HttpError { status, url: url.to_owned() })
    } else {
        Ok(())
    }
}

/// Two to the power `n`.
pub open spec fn pow_two(n: nat) -> nat
    decreases n,
{
    if n == 0 { 1 } else { 2 * pow_two((n - 1) as nat) }
}

/// What the fetch loop does after an attempt.
#[derive(Debug, Clone, Copy, PartialEq, Eq, Structural)]
pub enum RetryStep {
    /// Hand the outcome to the caller (after the pause between requests, on success).
    Finish,
    /// Wait the given seconds and ask again, without counting an attempt.
    WaitThenRetry { secs: u64 },
    /// Wait the backoff base times `factor`, count an attempt, and ask again.
    BackoffThenRetry { factor: u32 },
}

/// The step after outcome `r` of a request, when `attempt` retries were
/// already spent out of `max_retries`: rate limits are waited out without
/// spending a retry, and a retryable failure is retried after a backoff that
/// doubles with each attempt while retries remain.
pub open spec fn spec_retry_step(attempt: u32, max_retries: u32, r: ScraperResult<String>) -> RetryStep {
    match r {
        Ok(_) => RetryStep::Finish,
        Err(ScraperError::RateLimited { retry_after_secs }) => RetryStep::WaitThenRetry { secs: retry_after_secs },
        Err(e) => if e.spec_is_retryable() && attempt < max_retries {
            RetryStep::BackoffThenRetry { factor: pow_two(attempt as nat) as u32 }
        } else {
            RetryStep::Finish
        },
    }
}

/// The inputs on which the step is defined: the doubled backoff factor must
/// fit its `u32`.
pub open spec fn retry_step_fits(attempt: u32, max_retries: u32, r: ScraperResult<String>) -> bool {
    match r {
        Err(e) => !(e is RateLimited) && e.spec_is_retryable() && attempt < max_retries ==> attempt < 32,
        Ok(_) => true,
    }
}

proof fn lemma_pow_two_bound(n: nat)
    requires
        n <= 30,
    ensures
        1 <= pow_two(n) <= 0x4000_0000,
    decreases 30 - n,
{
    if n < 30 {
        lemma_pow_two_bound(n + 1);
        assert(pow_two(n + 1) == 2 * pow_two(n));
    } else {
        reveal_with_fuel(pow_two, 31);
        assert(pow_two(30) == 0x4000_0000);
    }
}

/// Decides the step of the fetch loop after the outcome `r` of a request.
pub fn retry_step(attempt: u32, max_retries: u32, r: &ScraperResult<String>) -> (s: RetryStep)
    requires
        retry_step_fits(attempt, max_retries, *r),
    ensures
        s == spec_retry_step(attempt, max_retries, *r),
{
    match r {
        Ok(_) => RetryStep::Finish,
        Err(ScraperError::RateLimited { retry_after_secs }) => RetryStep::WaitThenRetry { secs: *retry_after_secs },
        Err(e) => {
            if e.is_retryable() && attempt < max_retries {
                let mut factor: u32 = 1;
                let mut i: u32 = 0;
                while i < attempt
                    invariant
                        i <= attempt < 32,
                        factor == pow_two(i as nat),
                    decreases attempt - i,
                {
                    proof {
                        lemma_pow_two_bound(i as nat);
                    }
                    factor = factor * 2;
                    i = i + 1;
                }
                RetryStep::BackoffThenRetry { factor }
            } else {
                RetryStep::Finish
            }
        },
    }
}

/// The number of requests that the fetch loop makes when the server answers
/// with the outcomes `outcomes`, in order, starting after `attempt` retries.
pub open spec fn requests_made(attempt: u32, max_retries: u32, outcomes: Seq<ScraperResult<String>>) -> nat
    decreases outcomes.len(),
{
    if outcomes.len() == 0 {
        0
    } else {
        match spec_retry_step(attempt, max_retries, outcomes[0]) {
            RetryStep::Finish => 1,
            RetryStep::WaitThenRetry { .. } => 1 + requests_made(attempt, max_retries, outcomes.drop_first()),
            RetryStep::BackoffThenRetry { .. } => 1 + requests_made((attempt + 1) as u32, max_retries, outcomes.drop_first()),
        }
    }
}

/// A server error, which the loop retries.
pub open spec fn is_server_error(r: ScraperResult<String>) -> bool {
    r matches Err(ScraperError::HttpError { status, .. }) && status >= 500
}

/// A server that keeps failing with server errors gets exactly one request
/// more than the retries allowed: the loop gives up after `max_retries`
/// retries.
pub proof fn law_gives_up_after_max_retries(attempt: u32, max_retries: u32, outcomes: Seq<ScraperResult<String>>)
    requires
        attempt <= max_retries,
        outcomes.len() > max_retries - attempt,
        forall|i: int| 0 <= i < outcomes.len() ==> is_server_error(#[trigger] outcomes[i]),
    ensures
        requests_made(attempt, max_retries, outcomes) == max_retries - attempt + 1,
    decreases max_retries - attempt,
{
    assert(is_server_error(outcomes[0]));
    if attempt < max_retries {
        let rest = outcomes.drop_first();
        assert forall|i: int| 0 <= i < rest.len() implies is_server_error(#[trigger] rest[i]) by {
            assert(rest[i] == outcomes[i + 1]);
        }
        law_gives_up_after_max_retries((attempt + 1) as u32, max_retries, rest);
    }
}

/// A rate-limited response costs one request and spends no retry: what
/// follows it goes exactly as it would have without it.
pub proof fn law_rate_limit_spends_no_retry(
    attempt: u32,
    max_retries: u32,
    secs: u64,
    outcomes: Seq<ScraperResult<String>>,
)
    ensures
        requests_made(attempt, max_retries, seq![Err(ScraperError::RateLimited { retry_after_secs: secs })] + outcomes)
            == 1 + requests_made(attempt, max_retries, outcomes),
{
    let all = seq![Err(ScraperError::RateLimited { retry_after_secs: secs })] + outcomes;
    assert(all.drop_first() =~= outcomes);
}

} // verus!
