//! The candidate prompts the prompt generator proposes: missing fields take
//! their defaults, a key proposed again is dropped, and at most the
//! requested number are kept. The generator's JSON is read by the caller.
use vstd::prelude::*;
use crate::harness::CandidatePrompt;
use crate::text::{chars_eq, chars_of, to_owned_string};

verus! {

/// Key of a proposed candidate without one.
pub const DEFAULT_CANDIDATE_KEY: &'static str = "prompt_auto";

/// Title of a proposed candidate without one.
pub const DEFAULT_CANDIDATE_TITLE: &'static str = "Auto Prompt";

/// System prompt of a proposed candidate without one.
pub const DEFAULT_CANDIDATE_PROMPT: &'static str = "You are an NPC. Reply in one short spoken line.";

/// The answer when the generator proposed no candidate.
pub const NO_CANDIDATES: &'static str = "generator returned no prompt candidates";

/// A candidate as the generator proposed it: each field that was given as a
/// string.
pub struct ProposedCandidate {
    pub key: Option<String>,
    pub title: Option<String>,
    pub system_prompt: Option<String>,
}

/// The key, title and system prompt of a candidate.
pub open spec fn candidate_view(c: CandidatePrompt) -> (Seq<char>, Seq<char>, Seq<char>) {
    (c.key@, c.title@, c.system_prompt@)
}

pub open spec fn or_default(v: Option<String>, d: Seq<char>) -> Seq<char> {
    match v {
        Some(s) => s@,
        None => d,
    }
}

/// A proposed candidate with its missing fields filled in.
pub open spec fn filled(p: ProposedCandidate) -> (Seq<char>, Seq<char>, Seq<char>) {
    (
        or_default(p.key, DEFAULT_CANDIDATE_KEY@),
        or_default(p.title, DEFAULT_CANDIDATE_TITLE@),
        or_default(p.system_prompt, DEFAULT_CANDIDATE_PROMPT@),
    )
}

/// Whether an earlier candidate than the one at `i` has its key.
pub open spec fn key_seen_before(s: Seq<(Seq<char>, Seq<char>, Seq<char>)>, i: int) -> bool {
    exists|j: int| 0 <= j < i && (#[trigger] s[j]).0 == s[i].0
}

/// The candidates whose key no earlier candidate has, in order.
pub open spec fn first_by_key(s: Seq<(Seq<char>, Seq<char>, Seq<char>)>) -> Seq<(Seq<char>, Seq<char>, Seq<char>)>
    decreases s.len(),
{
    if s.len() == 0 {
        s
    } else if key_seen_before(s, s.len() - 1) {
        first_by_key(s.drop_last())
    } else {
        first_by_key(s.drop_last()).push(s.last())
    }
}

fn fill(p: &ProposedCandidate) -> (r: CandidatePrompt)
    ensures
        candidate_view(r) == filled(*p),
{
    let key = match &p.key {
        Some(k) => k.clone(),
        None => to_owned_string(DEFAULT_CANDIDATE_KEY),
    };
    let title = match &p.title {
        Some(t) => t.clone(),
        None => to_owned_string(DEFAULT_CANDIDATE_TITLE),
    };
    let system_prompt = match &p.system_prompt {
        Some(s) => s.clone(),
        None => to_owned_string(DEFAULT_CANDIDATE_PROMPT),
    };
    CandidatePrompt { key, title, system_prompt }
}

/// The candidates to evaluate: the proposed ones with defaults filled in,
/// each key once (its first proposal), at most `limit` of them; an error
/// when none was proposed.
pub fn select_candidates(proposed: &Vec<ProposedCandidate>, limit: usize) -> (r: Result<Vec<CandidatePrompt>, String>)
    ensures
        ({
            let kept = first_by_key(proposed@.map_values(|p: ProposedCandidate| filled(p)));
            &&& kept.len() == 0 ==> (r matches Err(m) && m@ == NO_CANDIDATES@)
            &&& kept.len() > 0 ==> (r matches Ok(v) && v@.map_values(|c: CandidatePrompt| candidate_view(c))
                == kept.take(if limit < kept.len() { limit as int } else { kept.len() as int }))
        }),
{
    let ghost all = proposed@.map_values(|p: ProposedCandidate| filled(p));
    let mut kept: Vec<CandidatePrompt> = Vec::new();
    let mut i: usize = 0;
    while i < proposed.len()
        invariant
            i <= proposed.len(),
            all == proposed@.map_values(|p: ProposedCandidate| filled(p)),
            kept@.map_values(|c: CandidatePrompt| candidate_view(c)) == first_by_key(all.take(i as int)),
        decreases proposed.len() - i,
    {
        let ci = fill(&proposed[i]);
        let ki = chars_of(ci.key.as_str());
        let mut seen = false;
        let mut j: usize = 0;
        while j < i
            invariant
                j <= i < proposed.len(),
                all == proposed@.map_values(|p: ProposedCandidate| filled(p)),
                ki@ == all[i as int].0,
                seen <==> exists|m: int| 0 <= m < j && (#[trigger] all[m]).0 == all[i as int].0,
            decreases i - j,
        {
            let cj = fill(&proposed[j]);
            let kj = chars_of(cj.key.as_str());
            assert(kj@ == all[j as int].0);
            if chars_eq(kj.as_slice(), ki.as_slice()) {
                seen = true;
            }
            j = j + 1;
        }
        let ghost t = all.take(i as int + 1);
        assert(t.drop_last() =~= all.take(i as int));
        assert(t.last() == all[i as int]);
        assert(key_seen_before(t, i as int) <==> seen) by {
            if seen {
                let m = choose|m: int| 0 <= m < i && (#[trigger] all[m]).0 == all[i as int].0;
                assert(t[m] == all[m]);
            }
            if key_seen_before(t, i as int) {
                let m = choose|m: int| 0 <= m < i && (#[trigger] t[m]).0 == t[i as int].0;
                assert(t[m] == all[m]);
            }
        }
        let ghost before = kept@.map_values(|c: CandidatePrompt| candidate_view(c));
        if !seen {
            kept.push(ci);
            assert(kept@.map_values(|c: CandidatePrompt| candidate_view(c)) =~= before.push(all[i as int]));
        }
        i = i + 1;
    }
    assert(all.take(proposed.len() as int) =~= all);
    if kept.len() == 0 {
        return Err(to_owned_string(NO_CANDIDATES));
    }
    let ghost full = kept@.map_values(|c: CandidatePrompt| candidate_view(c));
    if limit < kept.len() {
        kept.truncate(limit);
        assert(kept@.map_values(|c: CandidatePrompt| candidate_view(c)) =~= full.take(limit as int));
    } else {
        assert(full.take(kept.len() as int) =~= full);
    }
    Ok(kept)
}

} // verus!
