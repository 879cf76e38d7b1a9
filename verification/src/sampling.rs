//! How the harness runs its samples through the bridge: which samples are
//! sent and which are skipped, what each recorded sample holds, and when a
//! timeout in strict serial mode stops the rest of the run. The caller sends
//! the requests and hands back what the bridge answered.
use vstd::prelude::*;
use crate::harness::{halts_run, timed_out, SKIPPED_AFTER_GLOBAL_TIMEOUT, SKIPPED_AFTER_TIMEOUT};
use crate::text::{append_str, chars_of, opt_string_view, string_from_chars, to_owned_string};

verus! {

/// Where a run of samples stands.
#[derive(Debug, Clone, Copy, PartialEq, Eq)]
pub enum RunPhase {
    /// Requests are sent.
    Running,
    /// A request of the candidate with this index timed out in strict serial
    /// mode: nothing more is sent.
    HaltedIn(usize),
}

/// What is done for the next sample.
#[derive(Debug, PartialEq, Eq)]
pub enum SampleAction {
    /// The request is sent to the bridge.
    Send,
    /// The sample is recorded as skipped, with this error, without a request.
    Skip(String),
}

/// The reply body of the bridge.
#[derive(Debug)]
pub struct BridgeReply {
    pub response: Option<String>,
    pub model: Option<String>,
    pub error: Option<String>,
}

/// What came of a request sent to the bridge.
#[derive(Debug)]
pub enum BridgeOutcome {
    /// The bridge answered with this body.
    Replied(BridgeReply),
    /// The bridge answered with a body that could not be read; the detail
    /// of the parse error.
    Unreadable(String),
    /// No answer came: the request error (a timeout among them).
    Failed(String),
}

/// A recorded sample.
#[derive(Debug, PartialEq, Eq)]
pub struct SampleRecord {
    pub candidate_key: String,
    pub test_id: String,
    pub response: Option<String>,
    pub model: Option<String>,
    pub latency_ms: u128,
    pub bridge_error: Option<String>,
}

/// The action for a sample of the candidate with index `candidate_index`:
/// while running, it is sent; once halted, it is skipped, as the candidate
/// that timed out or as a later one.
pub open spec fn sample_action_spec(phase: RunPhase, candidate_index: usize) -> Option<Seq<char>> {
    match phase {
        RunPhase::Running => None,
        RunPhase::HaltedIn(k) => if candidate_index == k {
            Some(SKIPPED_AFTER_TIMEOUT@)
        } else {
            Some(SKIPPED_AFTER_GLOBAL_TIMEOUT@)
        },
    }
}

/// Decides what is done for the next sample (see `sample_action_spec`).
pub fn next_sample_action(phase: RunPhase, candidate_index: usize) -> (r: SampleAction)
    ensures
        match sample_action_spec(phase, candidate_index) {
            None => r is Send,
            Some(e) => r matches SampleAction::Skip(x) && x@ == e,
        },
{
    match phase {
        RunPhase::Running => SampleAction::Send,
        RunPhase::HaltedIn(k) => if candidate_index == k {
            SampleAction::Skip(to_owned_string(SKIPPED_AFTER_TIMEOUT))
        } else {
            SampleAction::Skip(to_owned_string(SKIPPED_AFTER_GLOBAL_TIMEOUT))
        },
    }
}

/// Whether an outcome stops the run: a request that failed with a timeout,
/// in strict serial mode.
pub open spec fn outcome_halts(strict_serial_mode: bool, outcome: BridgeOutcome) -> bool {
    match outcome {
        BridgeOutcome::Failed(e) => strict_serial_mode && timed_out(Some(e@)),
        _ => false,
    }
}

/// The phase after a request of the candidate with index `candidate_index`
/// was answered: halted in that candidate if the outcome stops the run,
/// otherwise as before.
pub fn phase_after(strict_serial_mode: bool, phase: RunPhase, candidate_index: usize, outcome: &BridgeOutcome) -> (r:
    RunPhase)
    ensures
        outcome_halts(strict_serial_mode, *outcome) ==> r == RunPhase::HaltedIn(candidate_index),
        !outcome_halts(strict_serial_mode, *outcome) ==> r == phase,
{
    match outcome {
        BridgeOutcome::Failed(e) => if halts_run(strict_serial_mode, e.as_str()) {
            RunPhase::HaltedIn(candidate_index)
        } else {
            phase
        },
        _ => phase,
    }
}

/// The record of a skipped sample: no reply, no latency, the skip error.
pub fn skipped_sample(candidate_key: &str, test_id: &str, error: String) -> (r: SampleRecord)
    ensures
        r.candidate_key@ == candidate_key@,
        r.test_id@ == test_id@,
        r.response is None,
        r.model is None,
        r.latency_ms == 0,
        r.bridge_error == Some(error),
{
    SampleRecord {
        candidate_key: to_owned_string(candidate_key),
        test_id: to_owned_string(test_id),
        response: None,
        model: None,
        latency_ms: 0,
        bridge_error: Some(error),
    }
}

/// The error a sent sample is recorded with: the bridge's own error, the
/// parse error as `parse error: <detail>`, or the request error.
pub open spec fn outcome_error(outcome: BridgeOutcome) -> Option<Seq<char>> {
    match outcome {
        BridgeOutcome::Replied(b) => opt_string_view(b.error),
        BridgeOutcome::Unreadable(d) => Some("parse error: "@ + d@),
        BridgeOutcome::Failed(e) => Some(e@),
    }
}

/// The record of a sent sample: the reply and model if the bridge gave a
/// readable body, the measured latency, and the error (see `outcome_error`).
pub fn sent_sample(candidate_key: &str, test_id: &str, outcome: BridgeOutcome, latency_ms: u128) -> (r:
    SampleRecord)
    ensures
        r.candidate_key@ == candidate_key@,
        r.test_id@ == test_id@,
        r.latency_ms == latency_ms,
        opt_string_view(r.bridge_error) == outcome_error(outcome),
        match outcome {
            BridgeOutcome::Replied(b) => r.response == b.response && r.model == b.model,
            _ => r.response is None && r.model is None,
        },
{
    let (response, model, bridge_error) = match outcome {
        BridgeOutcome::Replied(b) => (b.response, b.model, b.error),
        BridgeOutcome::Unreadable(d) => {
            let mut v = chars_of("parse error: ");
            append_str(&mut v, d.as_str());
            (None, None, Some(string_from_chars(v.as_slice())))
        },
        BridgeOutcome::Failed(e) => (None, None, Some(e)),
    };
    SampleRecord {
        candidate_key: to_owned_string(candidate_key),
        test_id: to_owned_string(test_id),
        response,
        model,
        latency_ms,
        bridge_error,
    }
}

} // verus!
