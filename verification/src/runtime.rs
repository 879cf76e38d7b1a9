//! Startup retry policy: how often a dependency is tried and how long to wait
//! between attempts.
//!
//! The waiting and the attempts themselves are done by the caller; this module
//! decides, after each failed attempt, whether to try again and after how
//! long.
use vstd::prelude::*;
use crate::env_config::{setting_or_default, EnvConfig, EnvLookup, LookupView};

verus! {

/// Retry settings, with delays in milliseconds.
#[derive(Debug, Clone, Copy)]
pub struct RetryConfig {
    pub max_attempts: u32,
    pub initial_delay_ms: u64,
    pub max_delay_ms: u64,
}

/// Shortest wait before the first retry, in milliseconds.
pub const MIN_INITIAL_DELAY_MS: u64 = 100;

impl RetryConfig {
    /// Retry settings from the `STARTUP_RETRY_MAX_ATTEMPTS`,
    /// `STARTUP_RETRY_INITIAL_DELAY_MS` and `STARTUP_RETRY_MAX_DELAY_MS`
    /// variables.
    pub fn from_env(max_attempts: EnvLookup, initial_delay_ms: EnvLookup, max_delay_ms: EnvLookup) -> (r:
        RetryConfig)
        ensures
            r.max_attempts == setting_or_default::<u32>(max_attempts@, 30, |v: u32| v > 0),
            r.initial_delay_ms == setting_or_default::<u64>(
                initial_delay_ms@,
                1000,
                |v: u64| v > 0,
            ),
            r.max_delay_ms == setting_or_default::<u64>(max_delay_ms@, 30000, |v: u64| v > 0),
    {
        RetryConfig {
            max_attempts: EnvConfig::get_startup_retry_max_attempts(max_attempts),
            initial_delay_ms: EnvConfig::get_startup_retry_initial_delay_ms(initial_delay_ms),
            max_delay_ms: EnvConfig::get_startup_retry_max_delay_ms(max_delay_ms),
        }
    }
}

/// Number of attempts that a configuration allows: at least one.
pub open spec fn attempt_limit(c: RetryConfig) -> nat {
    if c.max_attempts == 0 {
        1
    } else {
        c.max_attempts as nat
    }
}

/// Wait before the first retry.
pub open spec fn first_delay(c: RetryConfig) -> nat {
    if c.initial_delay_ms < MIN_INITIAL_DELAY_MS {
        MIN_INITIAL_DELAY_MS as nat
    } else {
        c.initial_delay_ms as nat
    }
}

/// The next wait: twice the previous one, but no more than the maximum.
pub open spec fn next_delay(c: RetryConfig, d: nat) -> nat {
    if 2 * d <= c.max_delay_ms {
        2 * d
    } else {
        c.max_delay_ms as nat
    }
}

/// Wait after failed attempt number `n` (counting from 1).
pub open spec fn delay_after_attempt(c: RetryConfig, n: nat) -> nat
    decreases n,
{
    if n <= 1 {
        first_delay(c)
    } else {
        next_delay(c, delay_after_attempt(c, (n - 1) as nat))
    }
}

/// What to do after a failed attempt.
#[derive(Debug, Clone, Copy, PartialEq, Eq)]
pub enum RetryDecision {
    /// Give up and report the failure.
    Stop,
    /// Wait this many milliseconds, then try again.
    RetryAfter(u64),
}

/// Progress through the attempts that a configuration allows.
#[derive(Debug, Clone, Copy)]
pub struct RetryState {
    config: RetryConfig,
    attempt: u32,
    delay_ms: u64,
}

impl RetryState {
    /// The configuration in force.
    pub closed spec fn config(self) -> RetryConfig {
        self.config
    }

    /// Number of the attempt that is under way, counting from 1.
    pub closed spec fn attempt(self) -> nat {
        self.attempt as nat
    }

    /// Well-formed: the attempt number is within the limit, and the pending
    /// delay is the one that the schedule gives for this attempt.
    pub closed spec fn wf(self) -> bool {
        &&& 1 <= self.attempt <= attempt_limit(self.config)
        &&& self.delay_ms as nat == delay_after_attempt(self.config, self.attempt as nat)
    }

    /// The state before the first attempt.
    pub fn start(config: RetryConfig) -> (r: RetryState)
        ensures
            r.wf(),
            r.config() == config,
            r.attempt() == 1,
    {
        let delay = if config.initial_delay_ms < MIN_INITIAL_DELAY_MS {
            MIN_INITIAL_DELAY_MS
        } else {
            config.initial_delay_ms
        };
        RetryState { config, attempt: 1, delay_ms: delay }
    }

    /// Number of the attempt that is under way, counting from 1.
    pub fn attempt_number(&self) -> (r: u32)
        ensures
            r == self.attempt(),
    {
        self.attempt
    }

    /// Decides what follows a failed attempt: give up after the last allowed
    /// attempt, otherwise wait the scheduled delay and move to the next
    /// attempt.
    pub fn after_failure(&mut self) -> (d: RetryDecision)
        requires
            old(self).wf(),
        ensures
            final(self).wf(),
            final(self).config() == old(self).config(),
            old(self).attempt() == attempt_limit(old(self).config()) ==> d == RetryDecision::Stop
                && *final(self) == *old(self),
            old(self).attempt() < attempt_limit(old(self).config()) ==> d
                == RetryDecision::RetryAfter(
                delay_after_attempt(old(self).config(), old(self).attempt()) as u64,
            ) && final(self).attempt() == old(self).attempt() + 1,
    {
        let limit: u32 = if self.config.max_attempts == 0 {
            1
        } else {
            self.config.max_attempts
        };
        if self.attempt >= limit {
            return RetryDecision::Stop;
        }
        let wait = self.delay_ms;
        self.delay_ms = if self.delay_ms <= self.config.max_delay_ms / 2 {
            self.delay_ms * 2
        } else {
            self.config.max_delay_ms
        };
        self.attempt = self.attempt + 1;
        RetryDecision::RetryAfter(wait)
    }
}

/// No wait is longer than the larger of the first wait and the maximum.
pub proof fn lemma_delay_bounded(c: RetryConfig, n: nat)
    ensures
        delay_after_attempt(c, n) <= if first_delay(c) >= c.max_delay_ms {
            first_delay(c)
        } else {
            c.max_delay_ms as nat
        },
    decreases n,
{
    if n > 1 {
        lemma_delay_bounded(c, (n - 1) as nat);
    }
}

/// Failed attempts until the policy gives up: the attempt limit of the
/// configuration, whatever the failures are.
pub open spec fn failures_until_stop(c: RetryConfig) -> nat {
    attempt_limit(c)
}

/// Law: starting from any configuration, every retry decision is preceded by
/// fewer than `attempt_limit` failures, so the policy gives up after exactly
/// that many failed attempts.
pub proof fn lemma_attempts_bounded(s: RetryState)
    requires
        s.wf(),
    ensures
        1 <= s.attempt() <= failures_until_stop(s.config()),
        s.config().max_attempts > 0 ==> s.attempt() <= s.config().max_attempts,
{
}

} // verus!
