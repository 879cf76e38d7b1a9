use idklol::env_config::EnvLookup;
use idklol::runtime::{RetryConfig, RetryDecision, RetryState};

#[test]
fn retry_config_from_env_defaults() {
    let c = RetryConfig::from_env(EnvLookup::NotPresent, EnvLookup::NotPresent, EnvLookup::NotPresent);
    assert_eq!(c.max_attempts, 30);
    assert_eq!(c.initial_delay_ms, 1000);
    assert_eq!(c.max_delay_ms, 30000);
}

#[test]
fn retry_schedule_doubles_up_to_the_maximum_and_stops() {
    let config = RetryConfig { max_attempts: 5, initial_delay_ms: 1000, max_delay_ms: 5000 };
    let mut state = RetryState::start(config);
    let mut waits = Vec::new();
    loop {
        match state.after_failure() {
            RetryDecision::RetryAfter(ms) => waits.push(ms),
            RetryDecision::Stop => break,
        }
    }
    assert_eq!(waits, vec![1000, 2000, 4000, 5000]);
    assert_eq!(state.attempt_number(), 5);
}

#[test]
fn retry_short_initial_delay_is_raised_and_zero_attempts_means_one() {
    let config = RetryConfig { max_attempts: 3, initial_delay_ms: 10, max_delay_ms: 30000 };
    let mut state = RetryState::start(config);
    assert_eq!(state.after_failure(), RetryDecision::RetryAfter(100));
    assert_eq!(state.after_failure(), RetryDecision::RetryAfter(200));
    assert_eq!(state.after_failure(), RetryDecision::Stop);

    let config = RetryConfig { max_attempts: 0, initial_delay_ms: 10, max_delay_ms: 30000 };
    let mut state = RetryState::start(config);
    assert_eq!(state.after_failure(), RetryDecision::Stop);
}
