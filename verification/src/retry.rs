//! Retry and timeout supervisor policy.
//!
//! Connection establishment is retried with an exponential backoff that
//! never decreases and is capped at the configured maximum delay; the
//! retry stops at the first success or after the configured number of
//! attempts. Only the initial connect is ever retried — a mid-session
//! connection failure is fatal (see the client core). The waiting side
//! of a timed-out operation is handled by `ClientCore::on_timeout`,
//! which pre-arms the demultiplexer for the one response that may still
//! arrive.

use vstd::prelude::*;

verus! {

/// Retry policy for connection establishment.
#[derive(Debug, Clone, Copy, PartialEq, Eq, Structural)]
pub struct RetryConfig {
    pub max_attempts: u32,
    pub base_delay_ms: u64,
    pub max_delay_ms: u64,
}

/// The delay after a given number of failed attempts: the base delay
/// doubled once per further failure, capped at the maximum delay.
pub open spec fn spec_backoff(cfg: RetryConfig, failures: nat) -> u64
    decreases failures,
{
    if failures == 0 {
        if cfg.base_delay_ms <= cfg.max_delay_ms {
            cfg.base_delay_ms
        } else {
            cfg.max_delay_ms
        }
    } else {
        let prev = spec_backoff(cfg, (failures - 1) as nat);
        if prev <= cfg.max_delay_ms / 2 {
            (2 * prev) as u64
        } else {
            cfg.max_delay_ms
        }
    }
}

/// Every backoff delay respects the cap.
pub proof fn lemma_backoff_capped(cfg: RetryConfig, failures: nat)
    ensures
        spec_backoff(cfg, failures) <= cfg.max_delay_ms,
    decreases failures,
{
    if failures > 0 {
        lemma_backoff_capped(cfg, (failures - 1) as nat);
    }
}

/// The backoff never decreases from one failure to the next.
proof fn lemma_backoff_step(cfg: RetryConfig, failures: nat)
    ensures
        spec_backoff(cfg, failures) <= spec_backoff(cfg, failures + 1),
{
    lemma_backoff_capped(cfg, failures);
}

/// The backoff is monotonically non-decreasing in the number of
/// failures.
pub proof fn lemma_backoff_monotone(cfg: RetryConfig, a: nat, b: nat)
    requires
        a <= b,
    ensures
        spec_backoff(cfg, a) <= spec_backoff(cfg, b),
    decreases b - a,
{
    if a < b {
        lemma_backoff_monotone(cfg, a, (b - 1) as nat);
        lemma_backoff_step(cfg, (b - 1) as nat);
    }
}

/// The delay to sleep after `failures` failed attempts.
pub fn backoff_delay(cfg: &RetryConfig, failures: u32) -> (d: u64)
    ensures
        d == spec_backoff(*cfg, failures as nat),
{
    let mut d: u64 = if cfg.base_delay_ms <= cfg.max_delay_ms {
        cfg.base_delay_ms
    } else {
        cfg.max_delay_ms
    };
    let mut k: u32 = 0;
    while k < failures
        invariant
            k <= failures,
            d == spec_backoff(*cfg, k as nat),
        decreases failures - k,
    {
        if d <= cfg.max_delay_ms / 2 {
            d = 2 * d;
        } else {
            d = cfg.max_delay_ms;
        }
        k = k + 1;
    }
    d
}

/// What the supervisor does after one more failed connection attempt.
#[derive(Debug, PartialEq, Eq)]
pub enum RetryDecision {
    /// Back off for the given delay, then attempt again.
    RetryAfter { delay_ms: u64 },
    /// The attempt budget is exhausted: surface the last connection
    /// error.
    GiveUp,
}

/// Decide after `failures` failed attempts (at least one) whether to
/// attempt again, and after which delay.
pub fn next_retry(cfg: &RetryConfig, failures: u32) -> (r: RetryDecision)
    requires
        failures >= 1,
    ensures
        failures < cfg.max_attempts ==> r == (RetryDecision::RetryAfter {
            delay_ms: spec_backoff(*cfg, (failures - 1) as nat),
        }),
        failures >= cfg.max_attempts ==> r == RetryDecision::GiveUp,
{
    if failures < cfg.max_attempts {
        RetryDecision::RetryAfter { delay_ms: backoff_delay(cfg, failures - 1) }
    } else {
        RetryDecision::GiveUp
    }
}

/// What a whole connect-with-retry run does: whether it connects, how
/// many attempts it makes, and the backoff delays it sleeps between
/// them.
#[derive(Debug, PartialEq, Eq)]
pub struct RetryRun {
    pub connected: bool,
    pub attempts: u32,
    pub delays: Vec<u64>,
}

/// Mathematical model of a connect-with-retry run.
pub struct RetryRunModel {
    pub connected: bool,
    pub attempts: int,
    pub delays: Seq<u64>,
}

/// The run that starts at attempt number `i`, given which attempts
/// would succeed: it stops at the first success or when the budget is
/// out, and sleeps one backoff delay before each further attempt. An
/// attempt beyond the end of `outcomes` fails.
pub open spec fn spec_retry_from(cfg: RetryConfig, outcomes: Seq<bool>, i: nat) -> RetryRunModel
    decreases cfg.max_attempts - i,
{
    if i >= cfg.max_attempts {
        RetryRunModel { connected: false, attempts: 0, delays: Seq::empty() }
    } else if i < outcomes.len() && outcomes[i as int] {
        RetryRunModel { connected: true, attempts: 1, delays: Seq::empty() }
    } else if i + 1 >= cfg.max_attempts {
        RetryRunModel { connected: false, attempts: 1, delays: Seq::empty() }
    } else {
        let rest = spec_retry_from(cfg, outcomes, i + 1);
        RetryRunModel {
            connected: rest.connected,
            attempts: 1 + rest.attempts,
            delays: seq![spec_backoff(cfg, i)] + rest.delays,
        }
    }
}

/// The whole run from the first attempt.
pub open spec fn spec_retry_run(cfg: RetryConfig, outcomes: Seq<bool>) -> RetryRunModel {
    spec_retry_from(cfg, outcomes, 0)
}

fn retry_from(cfg: &RetryConfig, outcomes: &Vec<bool>, i: u32) -> (r: RetryRun)
    requires
        i <= cfg.max_attempts,
    ensures
        r.connected == spec_retry_from(*cfg, outcomes@, i as nat).connected,
        r.attempts as int == spec_retry_from(*cfg, outcomes@, i as nat).attempts,
        r.delays@ == spec_retry_from(*cfg, outcomes@, i as nat).delays,
        r.attempts as int <= cfg.max_attempts - i,
    decreases cfg.max_attempts - i,
{
    if i >= cfg.max_attempts {
        RetryRun { connected: false, attempts: 0, delays: Vec::new() }
    } else if (i as usize) < outcomes.len() && outcomes[i as usize] {
        RetryRun { connected: true, attempts: 1, delays: Vec::new() }
    } else if i + 1 >= cfg.max_attempts {
        RetryRun { connected: false, attempts: 1, delays: Vec::new() }
    } else {
        let d = backoff_delay(cfg, i);
        let mut rest = retry_from(cfg, outcomes, i + 1);
        rest.delays.insert(0, d);
        proof {
            assert(rest.delays@ =~= seq![spec_backoff(*cfg, i as nat)] + spec_retry_from(
                *cfg,
                outcomes@,
                (i + 1) as nat,
            ).delays);
        }
        RetryRun { connected: rest.connected, attempts: 1 + rest.attempts, delays: rest.delays }
    }
}

/// The connect-with-retry policy, with the attempts' outcomes given:
/// `outcomes[i]` says whether attempt number `i` would succeed. The run
/// connects exactly when some attempt within the budget succeeds, makes
/// no attempt past the first success, and records one capped,
/// non-decreasing backoff delay between consecutive attempts.
pub fn retry_run(cfg: &RetryConfig, outcomes: &Vec<bool>) -> (r: RetryRun)
    ensures
        r.connected == spec_retry_run(*cfg, outcomes@).connected,
        r.attempts as int == spec_retry_run(*cfg, outcomes@).attempts,
        r.delays@ == spec_retry_run(*cfg, outcomes@).delays,
{
    retry_from(cfg, outcomes, 0)
}

} // verus!
