//! The harness's course: whether it goes on after the preflight, and after
//! each evaluation cycle whether and how the winning prompt is promoted and
//! whether the cycles go on. The scores that pick the winner are floating
//! point and are computed by the caller.
use vstd::prelude::*;
use crate::harness::{promotes_globally, should_promote_global_template, CandidatePrompt};
use crate::text::{chars_eq_str, chars_of, string_views};

verus! {

/// The error the harness stops with when the preflight is required to pass
/// and did not.
pub const PREFLIGHT_GATE_FAILED: &'static str = "preflight stability gate failed; not calling OpenAI";

/// What the harness does once the preflight samples are summarised.
#[derive(Debug, Clone, Copy, PartialEq, Eq)]
pub enum AfterPreflight {
    /// Write the preflight report and stop with `PREFLIGHT_GATE_FAILED`.
    GateFailed,
    /// Write the preflight report and stop successfully.
    PreflightOnly,
    /// Go on to the evaluation cycles.
    RunCycles,
}

/// Decides the course after the preflight: a failed preflight stops the
/// harness when stability is required; otherwise preflight-only mode stops
/// it after the preflight report; otherwise the cycles run.
pub fn after_preflight(require_stable_before_openai: bool, preflight_only: bool, preflight_passed: bool) -> (r:
    AfterPreflight)
    ensures
        require_stable_before_openai && !preflight_passed ==> r == AfterPreflight::GateFailed,
        !(require_stable_before_openai && !preflight_passed) && preflight_only ==> r
            == AfterPreflight::PreflightOnly,
        !(require_stable_before_openai && !preflight_passed) && !preflight_only ==> r
            == AfterPreflight::RunCycles,
{
    if require_stable_before_openai && !preflight_passed {
        AfterPreflight::GateFailed
    } else if preflight_only {
        AfterPreflight::PreflightOnly
    } else {
        AfterPreflight::RunCycles
    }
}

/// What happens after an evaluation cycle.
#[derive(Debug, Clone, Copy, PartialEq, Eq)]
pub enum PromotionStep {
    /// Promotion is off: the cycles go on.
    Off,
    /// No candidate was eligible for promotion: the cycles stop.
    NoEligible,
    /// The winner is not among the cycle's candidates: the cycles stop.
    WinnerMissing,
    /// The candidate at this index is promoted, to the global template too
    /// if `global`; its family templates are written; the cycles go on.
    Promote { index: usize, global: bool },
}

/// Whether a candidate has the key.
pub open spec fn has_key(c: CandidatePrompt, key: Seq<char>) -> bool {
    c.key@ == key
}

/// Decides the promotion after a cycle whose promoted winner, if any, is
/// `promoted`: the first candidate with the winner's key is promoted, and
/// globally iff `promotes_globally`.
pub fn promotion_step(
    autopromote: bool,
    promoted: Option<&str>,
    candidates: &Vec<CandidatePrompt>,
    scenario_families: &Vec<String>,
) -> (r: PromotionStep)
    ensures
        !autopromote ==> r == PromotionStep::Off,
        autopromote && promoted is None ==> r == PromotionStep::NoEligible,
        autopromote && promoted is Some ==> match r {
            PromotionStep::WinnerMissing => forall|i: int|
                0 <= i < candidates.len() ==> !has_key(#[trigger] candidates@[i], promoted->0@),
            PromotionStep::Promote { index, global } => {
                &&& index < candidates.len()
                &&& has_key(candidates@[index as int], promoted->0@)
                &&& forall|j: int| 0 <= j < index ==> !has_key(#[trigger] candidates@[j], promoted->0@)
                &&& global == promotes_globally(
                    candidates@[index as int],
                    string_views(scenario_families@),
                )
            },
            _ => false,
        },
{
    if !autopromote {
        return PromotionStep::Off;
    }
    let key = match promoted {
        Some(k) => k,
        None => return PromotionStep::NoEligible,
    };
    let mut i: usize = 0;
    while i < candidates.len()
        invariant
            i <= candidates.len(),
            autopromote,
            promoted == Some(key),
            forall|j: int| 0 <= j < i ==> !has_key(#[trigger] candidates@[j], key@),
        decreases candidates.len() - i,
    {
        let k = chars_of(candidates[i].key.as_str());
        if chars_eq_str(k.as_slice(), key) {
            let global = should_promote_global_template(&candidates[i], scenario_families);
            return PromotionStep::Promote { index: i, global };
        }
        i = i + 1;
    }
    PromotionStep::WinnerMissing
}

/// Whether the cycles go on after a promotion step.
pub fn cycles_go_on(step: PromotionStep) -> (r: bool)
    ensures
        r <==> !(step == PromotionStep::NoEligible || step == PromotionStep::WinnerMissing),
{
    match step {
        PromotionStep::NoEligible => false,
        PromotionStep::WinnerMissing => false,
        _ => true,
    }
}

} // verus!
