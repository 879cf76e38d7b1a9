//! The prompt evaluation harness's rules: the seeded test cases it sends
//! through the bridge, how it classifies bridge errors, how it fills prompt
//! templates and which scenario families a candidate prompt serves.
use vstd::prelude::*;
use crate::order::{Comparison, compare_text, lemma_text_lt_irreflexive, lemma_text_lt_transitive, text_lt};
use crate::env_config::{EnvLookup, EnvValue, LookupView};
use crate::prompts::{extension, file_name, file_stem, file_stem_of, is_name_exec, last_dot_index};
use crate::text::{
    find,
    first_occurrence,
    is_whitespace,
    is_ws,
    occurs_at,
    trim_end,
    trim_start,
    split_at_char,
    split_char,
    views,
    has_suffix,
    ends_with,
    slice_range,
    apply_replacement_list,
    apply_replacements,
    pair_views,
    trim,
    trim_chars,
    append_chars,
    append_str,
    chars_eq_str,
    chars_of,
    contains,
    contains_exec,
    decimal_text,
    has_prefix,
    lower,
    lower_chars,
    push_decimal,
    starts_with,
    string_from_chars,
    string_views,
    to_owned_string,
};

verus! {

/// A scripted exchange the harness sends through the bridge, with what a
/// good answer shows.
#[derive(Debug)]
pub struct TestCase {
    pub test_id: String,
    pub category: String,
    pub npc_id: String,
    pub player_id: String,
    pub context: Option<String>,
    pub player_message: String,
    pub expected_properties: Vec<String>,
    pub hard_checks: Vec<String>,
    pub soft_checks: Vec<String>,
    pub forbidden_behaviors: Vec<String>,
    pub notes: Option<String>,
}

/// The text of every field of a test case.
pub struct TestCaseView {
    pub test_id: Seq<char>,
    pub category: Seq<char>,
    pub npc_id: Seq<char>,
    pub player_id: Seq<char>,
    pub context: Option<Seq<char>>,
    pub player_message: Seq<char>,
    pub expected_properties: Seq<Seq<char>>,
    pub hard_checks: Seq<Seq<char>>,
    pub soft_checks: Seq<Seq<char>>,
    pub forbidden_behaviors: Seq<Seq<char>>,
    pub notes: Option<Seq<char>>,
}

impl View for TestCase {
    type V = TestCaseView;

    open spec fn view(&self) -> TestCaseView {
        TestCaseView {
            test_id: self.test_id@,
            category: self.category@,
            npc_id: self.npc_id@,
            player_id: self.player_id@,
            context: crate::text::opt_string_view(self.context),
            player_message: self.player_message@,
            expected_properties: string_views(self.expected_properties@),
            hard_checks: string_views(self.hard_checks@),
            soft_checks: string_views(self.soft_checks@),
            forbidden_behaviors: string_views(self.forbidden_behaviors@),
            notes: crate::text::opt_string_view(self.notes),
        }
    }
}

/// The hash of a family name that picks a message variant: each byte of
/// its UTF-8 encoding folded in as `acc * 31 + byte`, wrapping at 64 bits.
pub open spec fn family_hash(bytes: Seq<u8>) -> u64
    decreases bytes.len(),
{
    if bytes.len() == 0 {
        0
    } else {
        family_hash(bytes.drop_last()).wrapping_mul(31).wrapping_add(bytes.last() as u64)
    }
}

/// The variant a seeded test case uses: the seed, the family's hash and 17
/// times the case's index added with wrapping, modulo `modulo` (0 when
/// `modulo` is 0).
pub open spec fn variant_of(seed: u64, family: Seq<char>, index: usize, modulo: usize) -> usize {
    if modulo == 0 {
        0
    } else {
        ((seed.wrapping_add(family_hash(vstd::utf8::encode_utf8(family))).wrapping_add(
            (index * 17) as u64,
        )) as usize) % modulo
    }
}

/// The variant a seeded test case uses (see `variant_of`).
pub fn deterministic_variant(seed: u64, family: &str, index: usize, modulo: usize) -> (r: usize)
    requires
        index * 17 <= u64::MAX,
    ensures
        r == variant_of(seed, family@, index, modulo),
        modulo > 0 ==> r < modulo,
{
    if modulo == 0 {
        return 0;
    }
    let bytes = family.as_bytes();
    let mut acc: u64 = 0;
    let mut i: usize = 0;
    assert(bytes@.take(0) =~= Seq::<u8>::empty());
    while i < bytes.len()
        invariant
            i <= bytes.len(),
            bytes@ == vstd::utf8::encode_utf8(family@),
            acc == family_hash(bytes@.take(i as int)),
        decreases bytes.len() - i,
    {
        assert(bytes@.take(i + 1).drop_last() =~= bytes@.take(i as int));
        acc = acc.wrapping_mul(31).wrapping_add(bytes[i] as u64);
        i = i + 1;
    }
    assert(bytes@.take(bytes.len() as int) =~= bytes@);
    let idx: u64 = index as u64 * 17;
    (seed.wrapping_add(acc).wrapping_add(idx) as usize) % modulo
}

/// A number in decimal, padded with zeros on the left to `width` digits.
pub open spec fn zero_padded(n: nat, width: nat) -> Seq<char> {
    let d = decimal_text(n);
    if d.len() >= width {
        d
    } else {
        Seq::new((width - d.len()) as nat, |i: int| '0') + d
    }
}

fn push_zero_padded(v: &mut Vec<char>, n: u64, width: usize)
    ensures
        final(v)@ == old(v)@ + zero_padded(n as nat, width as nat),
{
    let mut d: Vec<char> = Vec::new();
    push_decimal(&mut d, n);
    assert(d@ =~= decimal_text(n as nat));
    if d.len() < width {
        let ghost start = v@;
        let mut k: usize = 0;
        while k < width - d.len()
            invariant
                k <= width - d.len(),
                d.len() < width,
                v@ == start + Seq::new(k as nat, |i: int| '0'),
            decreases width - d.len() - k,
        {
            v.push('0');
            k = k + 1;
            assert(v@ =~= start + Seq::new(k as nat, |i: int| '0'));
        }
        append_chars(v, d.as_slice());
        assert(v@ =~= start + zero_padded(n as nat, width as nat));
    } else {
        append_chars(v, d.as_slice());
    }
}

/// The messages of the merchant greeting family.
pub open spec fn merchant_messages() -> Seq<Seq<char>> {
    seq![
        "Good day! What are you selling today?"@,
        "Hello merchant, any discounts for travelers?"@,
        "Morning. I need supplies for a long road."@,
    ]
}

/// The messages of the busy worker family.
pub open spec fn worker_messages() -> Seq<Seq<char>> {
    seq![
        "Hey, can you stop and help me for a minute?"@,
        "Worker, I need directions but you look busy."@,
        "Sorry to interrupt—can you point me to the foundry?"@,
    ]
}

/// The messages of the guard challenge family.
pub open spec fn guard_messages() -> Seq<Seq<char>> {
    seq![
        "State your business. Why are you blocking the checkpoint?"@,
        "Guard, relax. I just need to pass through."@,
        "Captain, I have a permit—do we still have a problem?"@,
    ]
}

/// The test case of a scenario family for a seed and an index: the
/// family's fixed expectations, with the message picked by
/// `variant_of(seed, family, index, 3)` and the id numbered `index + 1`.
/// Families other than the merchant and worker ones get the guard case.
#[verifier::opaque]
pub open spec fn scenario_case(family: Seq<char>, seed: u64, index: usize) -> TestCaseView {
    let variant = variant_of(seed, family, index, 3) as int;
    let number = zero_padded((index + 1) as nat, 3);
    if family == "merchant_greeting"@ {
        TestCaseView {
            test_id: "merchant_"@ + number,
            category: "merchant_greeting"@,
            npc_id: "market_merchant"@,
            player_id: "player-1"@,
            context: Some("A bustling market square at midday."@),
            player_message: merchant_messages()[variant],
            expected_properties: seq![
                "speaker_is_npc"@,
                "addresses_listener"@,
                "tone_trade_friendly"@,
                "no_narration"@,
            ],
            hard_checks: seq!["spoken_dialogue_only"@, "no_narration"@, "one_or_two_sentences"@],
            soft_checks: seq!["uses_role_specific_vocabulary"@, "offers_clear_next_step"@],
            forbidden_behaviors: seq!["invented_fact"@, "generic_stock_phrase"@],
            notes: Some("Merchant should feel practical and transactional."@),
        }
    } else if family == "busy_worker_reply"@ {
        TestCaseView {
            test_id: "worker_"@ + number,
            category: "busy_worker_reply"@,
            npc_id: "forge_worker"@,
            player_id: "player-1"@,
            context: Some("A hot forge with ongoing hammer strikes and urgent deadlines."@),
            player_message: worker_messages()[variant],
            expected_properties: seq![
                "speaker_is_npc"@,
                "acknowledges_busy_context"@,
                "no_narration"@,
                "concise"@,
            ],
            hard_checks: seq!["spoken_dialogue_only"@, "no_narration"@, "one_or_two_sentences"@],
            soft_checks: seq!["maintains_worker_voice"@, "answers_or_defers_politely"@],
            forbidden_behaviors: seq!["role_switch"@, "invented_fact"@],
            notes: Some("Worker can be curt but should remain in world and helpful."@),
        }
    } else {
        TestCaseView {
            test_id: "guard_"@ + number,
            category: "guard_challenge"@,
            npc_id: "gate_guard"@,
            player_id: "player-1"@,
            context: Some("City gate inspection during heightened security alert."@),
            player_message: guard_messages()[variant],
            expected_properties: seq![
                "speaker_is_guard"@,
                "tone_stern"@,
                "addresses_listener"@,
                "no_narration"@,
            ],
            hard_checks: seq!["spoken_dialogue_only"@, "no_narration"@, "one_sentence"@],
            soft_checks: seq!["uses_authoritative_language"@, "clear_gatekeeping_intent"@],
            forbidden_behaviors: seq!["asked_question_when_forbidden"@, "generic_stock_phrase"@],
            notes: Some("Guard should remain authoritative and concise."@),
        }
    }
}

fn strings2(a: &str, b: &str) -> (r: Vec<String>)
    ensures
        string_views(r@) == seq![a@, b@],
{
    let mut r: Vec<String> = Vec::new();
    r.push(to_owned_string(a));
    r.push(to_owned_string(b));
    assert(string_views(r@) =~= seq![a@, b@]);
    r
}

fn strings3(a: &str, b: &str, c: &str) -> (r: Vec<String>)
    ensures
        string_views(r@) == seq![a@, b@, c@],
{
    let mut r: Vec<String> = Vec::new();
    r.push(to_owned_string(a));
    r.push(to_owned_string(b));
    r.push(to_owned_string(c));
    assert(string_views(r@) =~= seq![a@, b@, c@]);
    r
}

fn strings4(a: &str, b: &str, c: &str, d: &str) -> (r: Vec<String>)
    ensures
        string_views(r@) == seq![a@, b@, c@, d@],
{
    let mut r: Vec<String> = Vec::new();
    r.push(to_owned_string(a));
    r.push(to_owned_string(b));
    r.push(to_owned_string(c));
    r.push(to_owned_string(d));
    assert(string_views(r@) =~= seq![a@, b@, c@, d@]);
    r
}

fn numbered_id(prefix: &str, index: usize) -> (r: String)
    requires
        index < usize::MAX,
    ensures
        r@ == prefix@ + zero_padded((index + 1) as nat, 3),
{
    let mut v = chars_of(prefix);
    push_zero_padded(&mut v, (index + 1) as u64, 3);
    string_from_chars(v.as_slice())
}

fn pick3(variant: usize, a: &str, b: &str, c: &str) -> (r: String)
    requires
        variant < 3,
    ensures
        r@ == seq![a@, b@, c@][variant as int],
{
    if variant == 0 {
        to_owned_string(a)
    } else if variant == 1 {
        to_owned_string(b)
    } else {
        to_owned_string(c)
    }
}

/// The test case of a scenario family (see `scenario_case`).
pub fn scenario_template_for(family: &str, seed: u64, index: usize) -> (r: TestCase)
    requires
        index * 17 <= u64::MAX,
        index < usize::MAX,
    ensures
        r@ == scenario_case(family@, seed, index),
{
    proof {
        reveal(scenario_case);
    }
    let variant = deterministic_variant(seed, family, index, 3);
    let f = chars_of(family);
    if chars_eq_str(f.as_slice(), "merchant_greeting") {
        TestCase {
            test_id: numbered_id("merchant_", index),
            category: to_owned_string("merchant_greeting"),
            npc_id: to_owned_string("market_merchant"),
            player_id: to_owned_string("player-1"),
            context: Some(to_owned_string("A bustling market square at midday.")),
            player_message: pick3(
                variant,
                "Good day! What are you selling today?",
                "Hello merchant, any discounts for travelers?",
                "Morning. I need supplies for a long road.",
            ),
            expected_properties: strings4(
                "speaker_is_npc",
                "addresses_listener",
                "tone_trade_friendly",
                "no_narration",
            ),
            hard_checks: strings3("spoken_dialogue_only", "no_narration", "one_or_two_sentences"),
            soft_checks: strings2("uses_role_specific_vocabulary", "offers_clear_next_step"),
            forbidden_behaviors: strings2("invented_fact", "generic_stock_phrase"),
            notes: Some(to_owned_string("Merchant should feel practical and transactional.")),
        }
    } else if chars_eq_str(f.as_slice(), "busy_worker_reply") {
        TestCase {
            test_id: numbered_id("worker_", index),
            category: to_owned_string("busy_worker_reply"),
            npc_id: to_owned_string("forge_worker"),
            player_id: to_owned_string("player-1"),
            context: Some(
                to_owned_string("A hot forge with ongoing hammer strikes and urgent deadlines."),
            ),
            player_message: pick3(
                variant,
                "Hey, can you stop and help me for a minute?",
                "Worker, I need directions but you look busy.",
                "Sorry to interrupt—can you point me to the foundry?",
            ),
            expected_properties: strings4(
                "speaker_is_npc",
                "acknowledges_busy_context",
                "no_narration",
                "concise",
            ),
            hard_checks: strings3("spoken_dialogue_only", "no_narration", "one_or_two_sentences"),
            soft_checks: strings2("maintains_worker_voice", "answers_or_defers_politely"),
            forbidden_behaviors: strings2("role_switch", "invented_fact"),
            notes: Some(
                to_owned_string("Worker can be curt but should remain in world and helpful."),
            ),
        }
    } else {
        TestCase {
            test_id: numbered_id("guard_", index),
            category: to_owned_string("guard_challenge"),
            npc_id: to_owned_string("gate_guard"),
            player_id: to_owned_string("player-1"),
            context: Some(to_owned_string("City gate inspection during heightened security alert.")),
            player_message: pick3(
                variant,
                "State your business. Why are you blocking the checkpoint?",
                "Guard, relax. I just need to pass through.",
                "Captain, I have a permit—do we still have a problem?",
            ),
            expected_properties: strings4(
                "speaker_is_guard",
                "tone_stern",
                "addresses_listener",
                "no_narration",
            ),
            hard_checks: strings3("spoken_dialogue_only", "no_narration", "one_sentence"),
            soft_checks: strings2("uses_authoritative_language", "clear_gatekeeping_intent"),
            forbidden_behaviors: strings2("asked_question_when_forbidden", "generic_stock_phrase"),
            notes: Some(to_owned_string("Guard should remain authoritative and concise.")),
        }
    }
}

/// The scenario families used when none are configured.
pub open spec fn default_families() -> Seq<Seq<char>> {
    seq!["merchant_greeting"@, "guard_challenge"@, "busy_worker_reply"@]
}

/// The families test cases are drawn from: the configured ones, or the
/// default ones when none are configured.
pub open spec fn case_families(configured: Seq<Seq<char>>) -> Seq<Seq<char>> {
    if configured.len() > 0 {
        configured
    } else {
        default_families()
    }
}

/// The seeded test cases: case `i` is the scenario case of family
/// `i mod (number of families)` (see `case_families`).
pub fn generate_seeded_test_cases(scenario_families: &Vec<String>, test_cases: usize, seed: u64) -> (r:
    Vec<TestCase>)
    requires
        test_cases * 17 <= u64::MAX,
    ensures
        r.len() == test_cases,
        forall|i: int|
            0 <= i < test_cases ==> (#[trigger] r@[i])@ == scenario_case(
                case_families(string_views(scenario_families@))[i % case_families(
                    string_views(scenario_families@),
                ).len() as int],
                seed,
                i as usize,
            ),
{
    let families = if scenario_families.len() > 0 {
        let mut f: Vec<String> = Vec::new();
        let mut k: usize = 0;
        while k < scenario_families.len()
            invariant
                k <= scenario_families.len(),
                string_views(f@) == string_views(scenario_families@).take(k as int),
            decreases scenario_families.len() - k,
        {
            let ghost before = f@;
            f.push(scenario_families[k].clone());
            assert(string_views(f@) =~= string_views(before).push(scenario_families@[k as int]@));
            assert(string_views(scenario_families@).take(k + 1) =~= string_views(
                scenario_families@,
            ).take(k as int).push(scenario_families@[k as int]@));
            k = k + 1;
        }
        assert(string_views(scenario_families@).take(k as int) =~= string_views(scenario_families@));
        f
    } else {
        strings3("merchant_greeting", "guard_challenge", "busy_worker_reply")
    };
    let ghost fams = string_views(families@);
    assert(fams == case_families(string_views(scenario_families@)));
    let mut tests: Vec<TestCase> = Vec::new();
    let mut i: usize = 0;
    while i < test_cases
        invariant
            i <= test_cases,
            test_cases * 17 <= u64::MAX,
            families.len() > 0,
            fams == string_views(families@),
            fams == case_families(string_views(scenario_families@)),
            tests.len() == i,
            forall|j: int|
                0 <= j < i ==> (#[trigger] tests@[j])@ == scenario_case(
                    fams[j % fams.len() as int],
                    seed,
                    j as usize,
                ),
        decreases test_cases - i,
    {
        let family = &families[i % families.len()];
        assert(fams[(i % families.len()) as int] == family@);
        let case = scenario_template_for(family.as_str(), seed, i);
        tests.push(case);
        i = i + 1;
    }
    tests
}

/// Whether a bridge error is worth another try: a timeout, a closed
/// subscription or a NATS publish or flush error, in any ASCII case.
pub open spec fn retryable(error: Seq<char>) -> bool {
    let l = lower(error);
    contains(l, "timeout"@) || contains(l, "subscription closed"@) || contains(
        l,
        "nats publish error"@,
    ) || contains(l, "nats flush error"@)
}

/// Law: a bridge error is retried when its text, in any ASCII case, tells
/// of a timeout, a closed subscription, or a failed NATS publish or flush.
pub proof fn lemma_retryable_errors(error: Seq<char>)
    ensures
        contains(lower(error), "timeout"@) ==> retryable(error),
        contains(lower(error), "subscription closed"@) ==> retryable(error),
        contains(lower(error), "nats publish error"@) ==> retryable(error),
        contains(lower(error), "nats flush error"@) ==> retryable(error),
        !contains(lower(error), "timeout"@) && !contains(lower(error), "subscription closed"@)
            && !contains(lower(error), "nats publish error"@) && !contains(
            lower(error),
            "nats flush error"@,
        ) ==> !retryable(error),
{
}

/// Law: a text that mentions a closed subscription, whatever surrounds it,
/// is a retryable bridge error; so is one that mentions a timeout.
pub proof fn lemma_mentioned_failures_retryable(before: Seq<char>, after: Seq<char>)
    ensures
        retryable(before + "subscription closed"@ + after),
        retryable(before + "timeout"@ + after),
{
    reveal_strlit("subscription closed");
    reveal_strlit("timeout");
    let p1 = "subscription closed"@;
    let e1 = before + p1 + after;
    assert(lower(e1).subrange(before.len() as int, (before.len() + p1.len()) as int) =~= p1);
    assert(occurs_at(lower(e1), p1, before.len() as int));
    let p2 = "timeout"@;
    let e2 = before + p2 + after;
    assert(lower(e2).subrange(before.len() as int, (before.len() + p2.len()) as int) =~= p2);
    assert(occurs_at(lower(e2), p2, before.len() as int));
}

/// Law: an error that mentions a timeout in words (`timed out`, `deadline
/// has elapsed`), whatever surrounds it, counts as a timeout; no error at
/// all does not.
pub proof fn lemma_timeout_errors(before: Seq<char>, after: Seq<char>)
    ensures
        timed_out(Some(before + "timed out"@ + after)),
        timed_out(Some(before + "deadline has elapsed"@ + after)),
        !timed_out(None),
{
    reveal_strlit("timed out");
    reveal_strlit("deadline has elapsed");
    let p1 = "timed out"@;
    let e1 = before + p1 + after;
    assert(lower(e1).subrange(before.len() as int, (before.len() + p1.len()) as int) =~= p1);
    assert(occurs_at(lower(e1), p1, before.len() as int));
    let p2 = "deadline has elapsed"@;
    let e2 = before + p2 + after;
    assert(lower(e2).subrange(before.len() as int, (before.len() + p2.len()) as int) =~= p2);
    assert(occurs_at(lower(e2), p2, before.len() as int));
}

fn lower_of(s: &str) -> (r: Vec<char>)
    ensures
        r@ == lower(s@),
{
    let c = chars_of(s);
    lower_chars(c.as_slice())
}

fn has_text(s: &[char], p: &str) -> (r: bool)
    ensures
        r == contains(s@, p@),
{
    let pc = chars_of(p);
    contains_exec(s, pc.as_slice())
}

/// Whether a bridge error is worth another try (see `retryable`).
pub fn is_retryable_bridge_error(error: &str) -> (r: bool)
    ensures
        r == retryable(error@),
{
    let l = lower_of(error);
    has_text(l.as_slice(), "timeout") || has_text(l.as_slice(), "subscription closed") || has_text(
        l.as_slice(),
        "nats publish error",
    ) || has_text(l.as_slice(), "nats flush error")
}

/// Whether a sample's error is a timeout: the harness's own timeout
/// message, or an error that says it timed out or that a deadline elapsed,
/// in any ASCII case.
pub open spec fn timed_out(error: Option<Seq<char>>) -> bool {
    match error {
        Some(e) => {
            let l = lower(e);
            l == "timeout waiting for bridge reply"@ || contains(l, "timed out"@) || contains(
                l,
                "deadline has elapsed"@,
            )
        },
        None => false,
    }
}

/// Whether a sample's error is a timeout (see `timed_out`).
pub fn is_timeout_error(error: Option<&str>) -> (r: bool)
    ensures
        r == timed_out(
            match error {
                Some(e) => Some(e@),
                None => None,
            },
        ),
{
    match error {
        Some(value) => {
            let l = lower_of(value);
            chars_eq_str(l.as_slice(), "timeout waiting for bridge reply") || has_text(
                l.as_slice(),
                "timed out",
            ) || has_text(l.as_slice(), "deadline has elapsed")
        },
        None => false,
    }
}

/// Whether a sample was skipped in strict serial mode after a timeout.
pub open spec fn strict_skip(error: Option<Seq<char>>) -> bool {
    match error {
        Some(e) => has_prefix(lower(e), "skipped after timeout"@) || has_prefix(
            lower(e),
            "skipped after global timeout"@,
        ),
        None => false,
    }
}

fn begins_with(s: &[char], p: &str) -> (r: bool)
    ensures
        r == has_prefix(s@, p@),
{
    let pc = chars_of(p);
    starts_with(s, pc.as_slice())
}

/// Whether a sample was skipped after a timeout (see `strict_skip`).
pub fn is_strict_skip_error(error: Option<&str>) -> (r: bool)
    ensures
        r == strict_skip(
            match error {
                Some(e) => Some(e@),
                None => None,
            },
        ),
{
    match error {
        Some(value) => {
            let l = lower_of(value);
            begins_with(l.as_slice(), "skipped after timeout") || begins_with(
                l.as_slice(),
                "skipped after global timeout",
            )
        },
        None => false,
    }
}

/// Whether a grading model takes an explicit temperature: all but the
/// `gpt-5` models (in any ASCII case) do.
pub fn supports_explicit_temperature(model: &str) -> (r: bool)
    ensures
        r == !has_prefix(lower(model@), "gpt-5"@),
{
    let l = lower_of(model);
    !begins_with(l.as_slice(), "gpt-5")
}

/// A character kept in a file-name key: ASCII letters and digits stay, any
/// other character becomes `-`.
pub open spec fn key_char(c: char) -> char {
    if ('a' <= c && c <= 'z') || ('A' <= c && c <= 'Z') || ('0' <= c && c <= '9') {
        c
    } else {
        '-'
    }
}

/// A text made safe for a file name (see `key_char`).
pub fn sanitize_key(value: &str) -> (r: String)
    ensures
        r@ == value@.map_values(|c: char| key_char(c)),
{
    let c = chars_of(value);
    let mut out: Vec<char> = Vec::new();
    let mut i: usize = 0;
    while i < c.len()
        invariant
            i <= c.len(),
            out@ == c@.take(i as int).map_values(|c: char| key_char(c)),
        decreases c.len() - i,
    {
        let ch = c[i];
        let k = if ('a' <= ch && ch <= 'z') || ('A' <= ch && ch <= 'Z') || ('0' <= ch && ch <= '9') {
            ch
        } else {
            '-'
        };
        out.push(k);
        assert(c@.take(i + 1).map_values(|c: char| key_char(c)) =~= c@.take(i as int).map_values(
            |c: char| key_char(c),
        ).push(k));
        i = i + 1;
    }
    assert(c@.take(c.len() as int) =~= c@);
    string_from_chars(out.as_slice())
}

/// A system prompt proposed for evaluation.
#[derive(Debug)]
pub struct CandidatePrompt {
    pub key: String,
    pub title: String,
    pub system_prompt: String,
}

/// The placeholders a test case fills in a prompt template, each in four
/// spellings, and what replaces them: the NPC id stands for the NPC's name
/// and the player id for the player's name.
pub open spec fn case_replacements(c: TestCaseView) -> Seq<(Seq<char>, Seq<char>)> {
    let context = match c.context {
        Some(x) => x,
        None => Seq::empty(),
    };
    seq![
        ("{{npc-name}}"@, c.npc_id),
        ("{{npc_name}}"@, c.npc_id),
        ("{npc-name}"@, c.npc_id),
        ("{npc_name}"@, c.npc_id),
        ("{{npc-id}}"@, c.npc_id),
        ("{{npc_id}}"@, c.npc_id),
        ("{npc-id}"@, c.npc_id),
        ("{npc_id}"@, c.npc_id),
        ("{{player-name}}"@, c.player_id),
        ("{{player_name}}"@, c.player_id),
        ("{player-name}"@, c.player_id),
        ("{player_name}"@, c.player_id),
        ("{{player-id}}"@, c.player_id),
        ("{{player_id}}"@, c.player_id),
        ("{player-id}"@, c.player_id),
        ("{player_id}"@, c.player_id),
        ("{{scenario-family}}"@, c.category),
        ("{{scenario_family}}"@, c.category),
        ("{scenario-family}"@, c.category),
        ("{scenario_family}"@, c.category),
        ("{{world-context}}"@, context),
        ("{{world_context}}"@, context),
        ("{world-context}"@, context),
        ("{world_context}"@, context),
        ("{{player-message}}"@, c.player_message),
        ("{{player_message}}"@, c.player_message),
        ("{player-message}"@, c.player_message),
        ("{player_message}"@, c.player_message),
    ]
}

fn push_four(reps: &mut Vec<(Vec<char>, Vec<char>)>, a: &str, b: &str, c: &str, d: &str, value: &[char])
    ensures
        pair_views(final(reps)@) == pair_views(old(reps)@).push((a@, value@)).push(
            (b@, value@),
        ).push((c@, value@)).push((d@, value@)),
{
    let ghost start = pair_views(reps@);
    let v = crate::text::slice_range(value, 0, value.len());
    assert(v@ =~= value@);
    reps.push((chars_of(a), v));
    assert(pair_views(reps@) =~= start.push((a@, value@)));
    let v = crate::text::slice_range(value, 0, value.len());
    assert(v@ =~= value@);
    reps.push((chars_of(b), v));
    assert(pair_views(reps@) =~= start.push((a@, value@)).push((b@, value@)));
    let v = crate::text::slice_range(value, 0, value.len());
    assert(v@ =~= value@);
    reps.push((chars_of(c), v));
    assert(pair_views(reps@) =~= start.push((a@, value@)).push((b@, value@)).push((c@, value@)));
    let v = crate::text::slice_range(value, 0, value.len());
    assert(v@ =~= value@);
    reps.push((chars_of(d), v));
    assert(pair_views(reps@) =~= start.push((a@, value@)).push((b@, value@)).push((c@, value@)).push(
        (d@, value@),
    ));
}

/// A prompt template filled in for a test case (see `case_replacements`).
pub fn render_prompt_template_with_case(template: &str, case: &TestCase) -> (r: String)
    ensures
        r@ == apply_replacements(template@, case_replacements(case@)),
{
    let npc = chars_of(case.npc_id.as_str());
    let player = chars_of(case.player_id.as_str());
    let category = chars_of(case.category.as_str());
    let context = match &case.context {
        Some(c) => chars_of(c.as_str()),
        None => Vec::new(),
    };
    let message = chars_of(case.player_message.as_str());
    let mut reps: Vec<(Vec<char>, Vec<char>)> = Vec::new();
    push_four(&mut reps, "{{npc-name}}", "{{npc_name}}", "{npc-name}", "{npc_name}", npc.as_slice());
    push_four(&mut reps, "{{npc-id}}", "{{npc_id}}", "{npc-id}", "{npc_id}", npc.as_slice());
    push_four(
        &mut reps,
        "{{player-name}}",
        "{{player_name}}",
        "{player-name}",
        "{player_name}",
        player.as_slice(),
    );
    push_four(&mut reps, "{{player-id}}", "{{player_id}}", "{player-id}", "{player_id}", player.as_slice());
    push_four(
        &mut reps,
        "{{scenario-family}}",
        "{{scenario_family}}",
        "{scenario-family}",
        "{scenario_family}",
        category.as_slice(),
    );
    push_four(
        &mut reps,
        "{{world-context}}",
        "{{world_context}}",
        "{world-context}",
        "{world_context}",
        context.as_slice(),
    );
    push_four(
        &mut reps,
        "{{player-message}}",
        "{{player_message}}",
        "{player-message}",
        "{player_message}",
        message.as_slice(),
    );
    assert(pair_views(reps@) =~= case_replacements(case@));
    let t = chars_of(template);
    let out = apply_replacement_list(t.as_slice(), &reps);
    string_from_chars(out.as_slice())
}

/// The words that show a prompt serves a family (the family lower-cased).
pub open spec fn family_aliases(family: Seq<char>) -> Seq<Seq<char>> {
    if family == "merchant_greeting"@ {
        seq![family, "merchant"@]
    } else if family == "guard_challenge"@ {
        seq![family, "guard"@]
    } else if family == "busy_worker_reply"@ {
        seq![family, "worker"@, "forge"@]
    } else {
        seq![family]
    }
}

/// The words that show a prompt serves a family (see `family_aliases`).
pub fn candidate_family_aliases(family: &str) -> (r: Vec<String>)
    ensures
        string_views(r@) == family_aliases(family@),
{
    let f = chars_of(family);
    if chars_eq_str(f.as_slice(), "merchant_greeting") {
        strings2(family, "merchant")
    } else if chars_eq_str(f.as_slice(), "guard_challenge") {
        strings2(family, "guard")
    } else if chars_eq_str(f.as_slice(), "busy_worker_reply") {
        strings3(family, "worker", "forge")
    } else {
        let mut r: Vec<String> = Vec::new();
        r.push(to_owned_string(family));
        assert(string_views(r@) =~= seq![family@]);
        r
    }
}

/// The text a candidate is searched in: its key, title and prompt,
/// lower-cased and separated by spaces.
pub open spec fn candidate_text(c: CandidatePrompt) -> Seq<char> {
    lower(c.key@) + " "@ + lower(c.title@) + " "@ + lower(c.system_prompt@)
}

/// Whether a candidate's text names a family by one of its aliases.
pub open spec fn serves_family(text: Seq<char>, family: Seq<char>) -> bool {
    exists|k: int|
        0 <= k < family_aliases(lower(family)).len() && contains(
            text,
            #[trigger] family_aliases(lower(family))[k],
        )
}

/// The families a candidate's text names, in their order.
pub open spec fn named_families(text: Seq<char>, families: Seq<Seq<char>>) -> Seq<Seq<char>>
    decreases families.len(),
{
    if families.len() == 0 {
        Seq::empty()
    } else if serves_family(text, families.last()) {
        named_families(text, families.drop_last()).push(families.last())
    } else {
        named_families(text, families.drop_last())
    }
}

/// The families a candidate serves: those its text names, or the first
/// family when it names none.
pub open spec fn served_families(c: CandidatePrompt, families: Seq<Seq<char>>) -> Seq<Seq<char>> {
    let named = named_families(candidate_text(c), families);
    if named.len() == 0 && families.len() > 0 {
        seq![families[0]]
    } else {
        named
    }
}

/// Texts in strictly increasing order.
pub open spec fn strictly_sorted(v: Seq<Seq<char>>) -> bool {
    forall|a: int, b: int| 0 <= a < b < v.len() ==> text_lt(#[trigger] v[a], #[trigger] v[b])
}

/// Inserts a text into a strictly sorted vector unless it is there already.
fn insert_sorted_unique(v: &mut Vec<String>, s: String)
    requires
        strictly_sorted(string_views(old(v)@)),
    ensures
        strictly_sorted(string_views(final(v)@)),
        forall|x: Seq<char>|
            string_views(final(v)@).contains(x) <==> (string_views(old(v)@).contains(x) || x
                == s@),
{
    let ghost old_v = string_views(v@);
    let sc = chars_of(s.as_str());
    let mut p: usize = 0;
    let mut stop = false;
    while !stop && p < v.len()
        invariant
            p <= v.len(),
            sc@ == s@,
            old_v == string_views(v@),
            strictly_sorted(old_v),
            forall|a: int| 0 <= a < p ==> text_lt(#[trigger] old_v[a], sc@),
            stop ==> p < v.len() && text_lt(sc@, old_v[p as int]),
        decreases v.len() - p + (if stop { 0int } else { 1int }),
    {
        let vc = chars_of(v[p].as_str());
        assert(old_v[p as int] == vc@);
        let c = compare_text(vc.as_slice(), sc.as_slice());
        if c == Comparison::Equal {
            assert(old_v[p as int] == s@);
            assert(old_v.contains(s@));
            assert forall|x: Seq<char>|
                string_views(v@).contains(x) <==> (old_v.contains(x) || x == s@) by {}
            return;
        }
        if c == Comparison::Greater {
            stop = true;
        } else {
            p = p + 1;
        }
    }
    proof {
        lemma_text_lt_irreflexive(s@);
    }
    v.insert(p, s);
    proof {
        let nv = string_views(v@);
        assert(nv =~= old_v.insert(p as int, sc@));
        assert forall|a: int, b: int| 0 <= a < b < nv.len() implies text_lt(
            #[trigger] nv[a],
            #[trigger] nv[b],
        ) by {
            if b < p {
                assert(text_lt(old_v[a], old_v[b]));
            } else if b == p {
            } else if a < p {
                assert(text_lt(old_v[a], old_v[b - 1]));
            } else if a == p {
                if b - 1 > p {
                    assert(text_lt(old_v[p as int], old_v[b - 1]));
                    lemma_text_lt_transitive(sc@, old_v[p as int], old_v[b - 1]);
                }
            } else {
                assert(text_lt(old_v[a - 1], old_v[b - 1]));
            }
        }
        assert forall|x: Seq<char>| nv.contains(x) <==> (old_v.contains(x) || x == s@) by {
            if nv.contains(x) {
                let k = choose|k: int| 0 <= k < nv.len() && nv[k] == x;
                if k < p {
                    assert(old_v[k] == x);
                } else if k > p {
                    assert(old_v[k - 1] == x);
                }
            }
            if old_v.contains(x) {
                let k = choose|k: int| 0 <= k < old_v.len() && old_v[k] == x;
                if k < p {
                    assert(nv[k] == x);
                } else {
                    assert(nv[k + 1] == x);
                }
            }
            if x == s@ {
                assert(nv[p as int] == x);
            }
        }
    }
}

fn any_alias_in(text: &[char], aliases: &Vec<String>) -> (r: bool)
    ensures
        r == exists|k: int|
            0 <= k < aliases.len() && contains(text@, #[trigger] string_views(aliases@)[k]),
{
    let mut k: usize = 0;
    while k < aliases.len()
        invariant
            k <= aliases.len(),
            forall|j: int| 0 <= j < k ==> !contains(text@, #[trigger] string_views(aliases@)[j]),
        decreases aliases.len() - k,
    {
        let a = chars_of(aliases[k].as_str());
        assert(string_views(aliases@)[k as int] == a@);
        if contains_exec(text, a.as_slice()) {
            return true;
        }
        k = k + 1;
    }
    false
}

/// The families a candidate serves (see `served_families`), sorted and
/// without repeats.
pub fn infer_candidate_categories(candidate: &CandidatePrompt, scenario_families: &Vec<String>) -> (r:
    Vec<String>)
    ensures
        strictly_sorted(string_views(r@)),
        forall|x: Seq<char>|
            string_views(r@).contains(x) <==> served_families(
                *candidate,
                string_views(scenario_families@),
            ).contains(x),
{
    let mut text = lower_of(candidate.key.as_str());
    append_str(&mut text, " ");
    let t2 = lower_of(candidate.title.as_str());
    append_chars(&mut text, t2.as_slice());
    append_str(&mut text, " ");
    let t3 = lower_of(candidate.system_prompt.as_str());
    append_chars(&mut text, t3.as_slice());
    assert(text@ =~= candidate_text(*candidate));
    let ghost fams = string_views(scenario_families@);
    let mut r: Vec<String> = Vec::new();
    let mut named_count: usize = 0;
    let mut i: usize = 0;
    assert(fams.take(0) =~= Seq::<Seq<char>>::empty());
    while i < scenario_families.len()
        invariant
            i <= scenario_families.len(),
            fams == string_views(scenario_families@),
            text@ == candidate_text(*candidate),
            strictly_sorted(string_views(r@)),
            named_count <= i,
            named_count == named_families(text@, fams.take(i as int)).len(),
            forall|x: Seq<char>|
                string_views(r@).contains(x) <==> named_families(text@, fams.take(i as int)).contains(
                    x,
                ),
        decreases scenario_families.len() - i,
    {
        let fam = &scenario_families[i];
        let fl = lower_of(fam.as_str());
        let fl_s = string_from_chars(fl.as_slice());
        let aliases = candidate_family_aliases(fl_s.as_str());
        let hit = any_alias_in(text.as_slice(), &aliases);
        proof {
            let t = fams.take(i + 1);
            assert(t.drop_last() =~= fams.take(i as int));
            assert(t.last() == fam@);
            assert(serves_family(text@, fam@) == hit);
        }
        if hit {
            insert_sorted_unique(&mut r, fam.clone());
            named_count = named_count + 1;
            proof {
                let prev = named_families(text@, fams.take(i as int));
                assert forall|x: Seq<char>|
                    string_views(r@).contains(x) <==> prev.push(fam@).contains(x) by {
                    if prev.push(fam@).contains(x) {
                        let k = choose|k: int| 0 <= k < prev.push(fam@).len() && prev.push(fam@)[k] == x;
                        if k < prev.len() {
                            assert(prev.contains(x));
                        }
                    }
                    if prev.contains(x) {
                        let k = choose|k: int| 0 <= k < prev.len() && prev[k] == x;
                        assert(prev.push(fam@)[k] == x);
                    }
                    if x == fam@ {
                        assert(prev.push(fam@)[prev.len() as int] == x);
                    }
                }
            }
        }
        i = i + 1;
    }
    assert(fams.take(scenario_families.len() as int) =~= fams);
    if named_count == 0 && scenario_families.len() > 0 {
        proof {
            if r.len() > 0 {
                assert(string_views(r@).contains(string_views(r@)[0]));
            }
        }
        r.push(scenario_families[0].clone());
        proof {
            assert(string_views(r@) =~= seq![fams[0]]);
            assert forall|x: Seq<char>| string_views(r@).contains(x) <==> seq![fams[0]].contains(x) by {
                if seq![fams[0]].contains(x) {
                    assert(string_views(r@)[0] == x);
                }
            }
        }
    }
    r
}

/// Whether a winning candidate is promoted to the global template: when no
/// families are configured, or when it serves as many families as are
/// configured (the served families, strictly sorted, are that many).
pub open spec fn promotes_globally(candidate: CandidatePrompt, scenario_families: Seq<Seq<char>>) -> bool {
    scenario_families.len() == 0 || exists|served: Seq<Seq<char>>|
        #![trigger strictly_sorted(served)]
        strictly_sorted(served) && (forall|x: Seq<char>|
            served.contains(x) <==> served_families(candidate, scenario_families).contains(x))
            && served.len() >= scenario_families.len()
}

/// Whether the winning candidate is promoted to the global template (see
/// `promotes_globally`).
pub fn should_promote_global_template(candidate: &CandidatePrompt, scenario_families: &Vec<String>) -> (r:
    bool)
    ensures
        r == promotes_globally(*candidate, string_views(scenario_families@)),
{
    if scenario_families.len() == 0 {
        return true;
    }
    let categories = infer_candidate_categories(candidate, scenario_families);
    let r = categories.len() >= scenario_families.len();
    proof {
        let c = string_views(categories@);
        assert(strictly_sorted(c));
        if !r {
            assert forall|served: Seq<Seq<char>>|
                strictly_sorted(served) && (forall|x: Seq<char>|
                    served.contains(x) <==> served_families(
                        *candidate,
                        string_views(scenario_families@),
                    ).contains(x)) implies served.len() == c.len() by {
                lemma_sorted_same_elements(served, c);
            }
        }
    }
    r
}

/// Two strictly sorted sequences with the same elements are equal.
pub proof fn lemma_sorted_same_elements(a: Seq<Seq<char>>, b: Seq<Seq<char>>)
    requires
        strictly_sorted(a),
        strictly_sorted(b),
        forall|x: Seq<char>| a.contains(x) <==> b.contains(x),
    ensures
        a == b,
    decreases a.len() + b.len(),
{
    if a.len() == 0 {
        if b.len() > 0 {
            assert(b.contains(b[0]));
        }
        assert(a =~= b);
    } else if b.len() == 0 {
        assert(a.contains(a[0]));
    } else {
        // The first elements are the least of each, hence equal.
        assert(a.contains(a[0]));
        assert(b.contains(b[0]));
        let i = choose|i: int| 0 <= i < b.len() && b[i] == a[0];
        let j = choose|j: int| 0 <= j < a.len() && a[j] == b[0];
        lemma_text_lt_irreflexive(a[0]);
        lemma_text_lt_irreflexive(b[0]);
        if i > 0 {
            assert(text_lt(b[0], b[i]));
            if j > 0 {
                assert(text_lt(a[0], a[j]));
                lemma_text_lt_transitive(a[0], a[j], a[0]);
            }
        }
        assert(a[0] == b[0]);
        let a1 = a.drop_first();
        let b1 = b.drop_first();
        assert forall|x: Seq<char>| a1.contains(x) <==> b1.contains(x) by {
            if a1.contains(x) {
                let k = choose|k: int| 0 <= k < a1.len() && a1[k] == x;
                assert(text_lt(a[0], a[k + 1]));
                assert(a.contains(x));
                assert(b.contains(x));
                let m = choose|m: int| 0 <= m < b.len() && b[m] == x;
                if m == 0 {
                    lemma_text_lt_irreflexive(x);
                }
                assert(b1[m - 1] == x);
            }
            if b1.contains(x) {
                let k = choose|k: int| 0 <= k < b1.len() && b1[k] == x;
                assert(text_lt(b[0], b[k + 1]));
                assert(b.contains(x));
                assert(a.contains(x));
                let m = choose|m: int| 0 <= m < a.len() && a[m] == x;
                if m == 0 {
                    lemma_text_lt_irreflexive(x);
                }
                assert(a1[m - 1] == x);
            }
        }
        assert forall|p: int, q: int| 0 <= p < q < a1.len() implies text_lt(
            #[trigger] a1[p],
            #[trigger] a1[q],
        ) by {
            assert(text_lt(a[p + 1], a[q + 1]));
        }
        assert forall|p: int, q: int| 0 <= p < q < b1.len() implies text_lt(
            #[trigger] b1[p],
            #[trigger] b1[q],
        ) by {
            assert(text_lt(b[p + 1], b[q + 1]));
        }
        lemma_sorted_same_elements(a1, b1);
        assert(a =~= seq![a[0]] + a1);
        assert(b =~= seq![b[0]] + b1);
    }
}

/// The style a family's template asks for.
pub open spec fn style_hint(family: Seq<char>) -> Seq<char> {
    if family == "merchant_greeting"@ {
        "friendly trade tone, practical offers, no lore invention."@
    } else if family == "guard_challenge"@ {
        "stern authority, checkpoint control, concise warnings."@
    } else if family == "busy_worker_reply"@ {
        "busy but grounded, short and useful responses."@
    } else {
        "stay in character and answer in one to two spoken sentences."@
    }
}

/// The style a family's template asks for (see `style_hint`).
pub fn family_style_hint(family: &str) -> (r: &'static str)
    ensures
        r@ == style_hint(family@),
{
    let f = chars_of(family);
    if chars_eq_str(f.as_slice(), "merchant_greeting") {
        "friendly trade tone, practical offers, no lore invention."
    } else if chars_eq_str(f.as_slice(), "guard_challenge") {
        "stern authority, checkpoint control, concise warnings."
    } else if chars_eq_str(f.as_slice(), "busy_worker_reply") {
        "busy but grounded, short and useful responses."
    } else {
        "stay in character and answer in one to two spoken sentences."
    }
}

/// The variables a family template documents, after its title line.
pub const FAMILY_TEMPLATE_VARIABLES: &'static str = "\n# Variables available at runtime:\n# - {{npc-name}} / {{npc-id}}\n# - {{player-name}} / {{player-id}}\n# - {{scenario-family}}\n# - {{world-context}}\n# - {{player-message}}\n\nYou are {{npc-name}}, speaking to {{player-name}} in an in-world fantasy setting.\nStay in role, keep responses concise, and never narrate actions.\nScenario family: {{scenario-family}}.\nWorld context: {{world-context}}.\nStyle guidance: ";

/// The template written for a family that has none: a commented header
/// listing the variables, the role instructions and the family's style.
pub open spec fn family_template(family: Seq<char>) -> Seq<char> {
    "# Family template: "@ + family + FAMILY_TEMPLATE_VARIABLES@ + style_hint(family) + "\n"@
}

/// The template written for a family that has none (see `family_template`).
pub fn default_family_template(family: &str) -> (r: String)
    ensures
        r@ == family_template(family@),
{
    let mut v = chars_of("# Family template: ");
    append_str(&mut v, family);
    append_str(&mut v, FAMILY_TEMPLATE_VARIABLES);
    append_str(&mut v, family_style_hint(family));
    append_str(&mut v, "\n");
    string_from_chars(v.as_slice())
}

/// The opening of a promoted family template, before the family name.
pub const PROMOTED_TEMPLATE_HEAD: &'static str = "You are {{npc-name}} (id: {{npc-id}}), responding to {{player-name}} (id: {{player-id}}).\nScenario family: {{scenario-family}} (expected: ";

/// The rest of a promoted family template's header, after the family name.
pub const PROMOTED_TEMPLATE_TAIL: &'static str = ").\nWorld context: {{world-context}}.\nPlayer message summary: {{player-message}}.\n\n";

/// A winning prompt promoted into a family template: a header naming the
/// variables and the expected family, then the prompt, trimmed.
pub open spec fn promoted_template(family: Seq<char>, winning_prompt: Seq<char>) -> Seq<char> {
    PROMOTED_TEMPLATE_HEAD@ + family + PROMOTED_TEMPLATE_TAIL@ + trim(winning_prompt)
}

/// A winning prompt promoted into a family template (see
/// `promoted_template`).
pub fn promoted_template_with_variables(family: &str, winning_prompt: &str) -> (r: String)
    ensures
        r@ == promoted_template(family@, winning_prompt@),
{
    let mut v = chars_of(PROMOTED_TEMPLATE_HEAD);
    append_str(&mut v, family);
    append_str(&mut v, PROMOTED_TEMPLATE_TAIL);
    let w = chars_of(winning_prompt);
    let t = trim_chars(w.as_slice());
    append_chars(&mut v, t.as_slice());
    string_from_chars(v.as_slice())
}

/// The text with every leading copy of `p` removed (`trim_start_matches`).
pub open spec fn strip_prefix_all(s: Seq<char>, p: Seq<char>) -> Seq<char>
    decreases s.len(),
{
    if p.len() > 0 && has_prefix(s, p) {
        strip_prefix_all(s.skip(p.len() as int), p)
    } else {
        s
    }
}

/// The text with every trailing copy of `p` removed (`trim_end_matches`).
pub open spec fn strip_suffix_all(s: Seq<char>, p: Seq<char>) -> Seq<char>
    decreases s.len(),
{
    if p.len() > 0 && has_suffix(s, p) {
        strip_suffix_all(s.take(s.len() - p.len()), p)
    } else {
        s
    }
}

fn strip_prefix_all_exec(s: &[char], p: &str) -> (r: Vec<char>)
    ensures
        r@ == strip_prefix_all(s@, p@),
{
    let pc = chars_of(p);
    let mut cur = slice_range(s, 0, s.len());
    assert(cur@ =~= s@);
    while pc.len() > 0 && starts_with(cur.as_slice(), pc.as_slice())
        invariant
            pc@ == p@,
            strip_prefix_all(cur@, p@) == strip_prefix_all(s@, p@),
        decreases cur.len(),
    {
        let next = slice_range(cur.as_slice(), pc.len(), cur.len());
        assert(next@ =~= cur@.skip(pc.len() as int));
        cur = next;
    }
    cur
}

fn strip_suffix_all_exec(s: &[char], p: &str) -> (r: Vec<char>)
    ensures
        r@ == strip_suffix_all(s@, p@),
{
    let pc = chars_of(p);
    let mut cur = slice_range(s, 0, s.len());
    assert(cur@ =~= s@);
    while pc.len() > 0 && ends_with(cur.as_slice(), pc.as_slice())
        invariant
            pc@ == p@,
            strip_suffix_all(cur@, p@) == strip_suffix_all(s@, p@),
        decreases cur.len(),
    {
        let next = slice_range(cur.as_slice(), 0, cur.len() - pc.len());
        assert(next@ =~= cur@.take(cur.len() - pc.len()));
        cur = next;
    }
    cur
}

/// Position of the first `c` in a text.
pub open spec fn first_index_of(s: Seq<char>, c: char) -> Option<int>
    decreases s.len(),
{
    if s.len() == 0 {
        None
    } else {
        match first_index_of(s.drop_last(), c) {
            Some(i) => Some(i),
            None => if s.last() == c {
                Some(s.len() - 1)
            } else {
                None
            },
        }
    }
}

/// Position of the last `c` in a text.
pub open spec fn last_index_of(s: Seq<char>, c: char) -> Option<int>
    decreases s.len(),
{
    if s.len() == 0 {
        None
    } else if s.last() == c {
        Some(s.len() - 1)
    } else {
        last_index_of(s.drop_last(), c)
    }
}

proof fn lemma_first_index_prefix(s: Seq<char>, c: char, n: int)
    requires
        0 <= n <= s.len(),
        first_index_of(s.take(n), c) is Some,
    ensures
        first_index_of(s, c) == first_index_of(s.take(n), c),
    decreases s.len(),
{
    if n == s.len() {
        assert(s.take(n) =~= s);
    } else {
        assert(s.drop_last().take(n) =~= s.take(n));
        lemma_first_index_prefix(s.drop_last(), c, n);
    }
}

fn first_index_exec(s: &[char], c: char) -> (r: Option<usize>)
    ensures
        match r {
            Some(i) => first_index_of(s@, c) == Some(i as int) && i < s.len(),
            None => first_index_of(s@, c) is None,
        },
{
    let mut i: usize = 0;
    assert(s@.take(0) =~= Seq::<char>::empty());
    while i < s.len()
        invariant
            i <= s.len(),
            first_index_of(s@.take(i as int), c) is None,
        decreases s.len() - i,
    {
        assert(s@.take(i + 1).drop_last() =~= s@.take(i as int));
        if s[i] == c {
            proof {
                lemma_first_index_prefix(s@, c, i + 1);
            }
            return Some(i);
        }
        i = i + 1;
    }
    assert(s@.take(s.len() as int) =~= s@);
    None
}

fn last_index_exec(s: &[char], c: char) -> (r: Option<usize>)
    ensures
        match r {
            Some(i) => last_index_of(s@, c) == Some(i as int) && i < s.len(),
            None => last_index_of(s@, c) is None,
        },
{
    let mut n: usize = s.len();
    assert(s@.take(n as int) =~= s@);
    while n > 0
        invariant
            n <= s.len(),
            last_index_of(s@, c) == last_index_of(s@.take(n as int), c),
        decreases n,
    {
        assert(s@.take(n as int).last() == s@[n - 1]);
        if s[n - 1] == c {
            return Some(n - 1);
        }
        assert(s@.take(n as int).drop_last() =~= s@.take(n - 1));
        n = n - 1;
    }
    None
}

/// The body of a fenced reply: the trimmed text without its leading
/// ```` ```json ```` and ```` ``` ```` marks and its trailing ```` ``` ````
/// marks, trimmed again.
pub open spec fn fenced_body(t: Seq<char>) -> Seq<char> {
    trim(strip_suffix_all(strip_prefix_all(strip_prefix_all(t, "```json"@), "```"@), "```"@))
}

/// The JSON object in a model's reply: the body of a fenced reply if it is
/// braced; otherwise the text from the first `{` to the last `}` of the
/// trimmed reply, if the first comes before the last.
pub open spec fn json_object_in(raw: Seq<char>) -> Option<Seq<char>> {
    let t = trim(raw);
    let b = fenced_body(t);
    if has_prefix(t, "```"@) && has_prefix(b, seq!['{']) && has_suffix(b, seq!['}']) {
        Some(b)
    } else {
        match (first_index_of(t, '{'), last_index_of(t, '}')) {
            (Some(f), Some(l)) => if f < l {
                Some(t.subrange(f, l + 1))
            } else {
                None
            },
            _ => None,
        }
    }
}

/// The JSON object in a model's reply (see `json_object_in`).
pub fn extract_json_object(raw: &str) -> (r: Option<String>)
    ensures
        match r {
            Some(o) => json_object_in(raw@) == Some(o@),
            None => json_object_in(raw@) is None,
        },
{
    let c = chars_of(raw);
    let t = trim_chars(c.as_slice());
    let fence = chars_of("```");
    if starts_with(t.as_slice(), fence.as_slice()) {
        let a = strip_prefix_all_exec(t.as_slice(), "```json");
        let b = strip_prefix_all_exec(a.as_slice(), "```");
        let d = strip_suffix_all_exec(b.as_slice(), "```");
        let w = trim_chars(d.as_slice());
        if w.len() > 0 && w[0] == '{' && w[w.len() - 1] == '}' {
            assert(w@.subrange(0, 1) =~= seq!['{']);
            assert(w@.subrange(w.len() - 1, w.len() as int) =~= seq!['}']);
            return Some(string_from_chars(w.as_slice()));
        }
        proof {
            if has_prefix(w@, seq!['{']) && has_suffix(w@, seq!['}']) {
                assert(w@.subrange(0, 1)[0] == w@[0]);
                assert(w@.subrange(w.len() - 1, w.len() as int)[0] == w@[w.len() - 1]);
            }
        }
    }
    let first = match first_index_exec(t.as_slice(), '{') {
        Some(i) => i,
        None => {
            return None;
        },
    };
    let last = match last_index_exec(t.as_slice(), '}') {
        Some(i) => i,
        None => {
            return None;
        },
    };
    if first >= last {
        return None;
    }
    Some(string_from_chars(slice_range(t.as_slice(), first, last + 1).as_slice()))
}

/// The file name of a cycle's report when several cycles run: the base
/// report's stem (or `prompt-harness-report`), `-cycle-`, the cycle number
/// in two digits, and the base's extension (or `md`).
pub open spec fn cycle_report_name(base: Seq<Seq<char>>, cycle_number: nat) -> Seq<char> {
    let stem = match file_name(base) {
        Some(n) => file_stem(n),
        None => "prompt-harness-report"@,
    };
    let ext = match file_name(base) {
        Some(n) => match extension(n) {
            Some(e) => e,
            None => "md"@,
        },
        None => "md"@,
    };
    stem + "-cycle-"@ + zero_padded(cycle_number, 2) + "."@ + ext
}

/// Where a cycle's report goes: the base path when one cycle runs,
/// otherwise the base path with its file name replaced by the cycle's (or
/// the cycle's added, when the base has no file name).
pub open spec fn cycle_report_path(base: Seq<Seq<char>>, cycle_number: nat, cycle_count: nat) -> Seq<
    Seq<char>,
> {
    if cycle_count <= 1 {
        base
    } else {
        let name = cycle_report_name(base, cycle_number);
        match file_name(base) {
            Some(_) => base.drop_last().push(name),
            None => base.push(name),
        }
    }
}

/// Where a cycle's report goes (see `cycle_report_path`); paths are given
/// as their components.
pub fn cycle_output_report_path(base_output_path: &Vec<String>, cycle_number: usize, cycle_count: usize) -> (r:
    Vec<String>)
    ensures
        string_views(r@) == cycle_report_path(
            string_views(base_output_path@),
            cycle_number as nat,
            cycle_count as nat,
        ),
{
    let ghost base = string_views(base_output_path@);
    let mut out: Vec<String> = Vec::new();
    let mut k: usize = 0;
    while k < base_output_path.len()
        invariant
            k <= base_output_path.len(),
            base == string_views(base_output_path@),
            string_views(out@) == base.take(k as int),
        decreases base_output_path.len() - k,
    {
        let ghost before = string_views(out@);
        out.push(base_output_path[k].clone());
        assert(string_views(out@) =~= before.push(base[k as int]));
        assert(base.take(k + 1) =~= base.take(k as int).push(base[k as int]));
        k = k + 1;
    }
    assert(base.take(k as int) =~= base);
    if cycle_count <= 1 {
        return out;
    }
    let n = base_output_path.len();
    let name: Option<Vec<char>> = if n > 0 {
        let last = chars_of(base_output_path[n - 1].as_str());
        assert(base.last() == last@);
        if is_name_exec(last.as_slice()) {
            Some(last)
        } else {
            None
        }
    } else {
        None
    };
    let mut new_name: Vec<char> = Vec::new();
    match &name {
        Some(nm) => {
            let stem = file_stem_of(nm.as_slice());
            append_chars(&mut new_name, stem.as_slice());
        },
        None => append_str(&mut new_name, "prompt-harness-report"),
    }
    append_str(&mut new_name, "-cycle-");
    push_zero_padded(&mut new_name, cycle_number as u64, 2);
    append_str(&mut new_name, ".");
    match &name {
        Some(nm) => match last_dot_index(nm.as_slice()) {
            Some(i) => {
                if i > 0 {
                    let e = slice_range(nm.as_slice(), i + 1, nm.len());
                    assert(e@ =~= nm@.skip(i + 1));
                    append_chars(&mut new_name, e.as_slice());
                } else {
                    append_str(&mut new_name, "md");
                }
            },
            None => append_str(&mut new_name, "md"),
        },
        None => append_str(&mut new_name, "md"),
    }
    assert(new_name@ =~= cycle_report_name(base, cycle_number as nat));
    if name.is_some() {
        let ghost before = string_views(out@);
        out.pop();
        assert(string_views(out@) =~= before.drop_last());
    }
    let ghost before = string_views(out@);
    out.push(string_from_chars(new_name.as_slice()));
    assert(string_views(out@) =~= before.push(new_name@));
    out
}

/// A timestamp for reports: the Unix time in seconds, marked as such.
pub fn iso_like_timestamp(unix_secs: u64) -> (r: String)
    ensures
        r@ == decimal_text(unix_secs as nat) + " (unix-seconds)"@,
{
    let mut v: Vec<char> = Vec::new();
    push_decimal(&mut v, unix_secs);
    append_str(&mut v, " (unix-seconds)");
    string_from_chars(v.as_slice())
}

/// The non-empty trimmed pieces of a list, in order.
pub open spec fn nonempty_trimmed(pieces: Seq<Seq<char>>) -> Seq<Seq<char>>
    decreases pieces.len(),
{
    if pieces.len() == 0 {
        Seq::empty()
    } else if trim(pieces.last()).len() > 0 {
        nonempty_trimmed(pieces.drop_last()).push(trim(pieces.last()))
    } else {
        nonempty_trimmed(pieces.drop_last())
    }
}

/// The scenario families of a comma-separated list: each entry trimmed,
/// empty entries left out.
pub fn parse_scenario_families(list: &str) -> (r: Vec<String>)
    ensures
        string_views(r@) == nonempty_trimmed(split_char(list@, ',')),
{
    let c = chars_of(list);
    let pieces = split_at_char(c.as_slice(), ',');
    let ghost ps = views(pieces@);
    let mut r: Vec<String> = Vec::new();
    let mut i: usize = 0;
    assert(ps.take(0) =~= Seq::<Seq<char>>::empty());
    while i < pieces.len()
        invariant
            i <= pieces.len(),
            ps == views(pieces@),
            string_views(r@) == nonempty_trimmed(ps.take(i as int)),
        decreases pieces.len() - i,
    {
        let t = trim_chars(pieces[i].as_slice());
        let ghost before = string_views(r@);
        assert(ps.take(i + 1).drop_last() =~= ps.take(i as int));
        assert(ps.take(i + 1).last() == pieces@[i as int]@);
        if t.len() > 0 {
            r.push(string_from_chars(t.as_slice()));
            assert(string_views(r@) =~= before.push(t@));
        }
        i = i + 1;
    }
    assert(ps.take(pieces.len() as int) =~= ps);
    r
}

/// A yes/no setting: `1`, `true`, `yes` or `y` (in any ASCII case) mean
/// yes, `0`, `false`, `no` or `n` mean no; anything else, or an unset or
/// unreadable variable, gives the default.
pub open spec fn flag_value(lookup: LookupView, default: bool) -> bool {
    match lookup {
        LookupView::Present(v) => {
            let l = lower(v);
            if l == "1"@ || l == "true"@ || l == "yes"@ || l == "y"@ {
                true
            } else if l == "0"@ || l == "false"@ || l == "no"@ || l == "n"@ {
                false
            } else {
                default
            }
        },
        _ => default,
    }
}

/// A yes/no setting (see `flag_value`).
pub fn env_bool(lookup: EnvLookup, default: bool) -> (r: bool)
    ensures
        r == flag_value(lookup@, default),
{
    match lookup {
        EnvLookup::Present(v) => {
            let l = lower_of(v.as_str());
            let l = l.as_slice();
            if chars_eq_str(l, "1") || chars_eq_str(l, "true") || chars_eq_str(l, "yes")
                || chars_eq_str(l, "y") {
                true
            } else if chars_eq_str(l, "0") || chars_eq_str(l, "false") || chars_eq_str(l, "no")
                || chars_eq_str(l, "n") {
                false
            } else {
                default
            }
        },
        _ => default,
    }
}

/// A numeric setting: the variable's value if it parses, otherwise the
/// default.
pub open spec fn number_value<T: EnvValue>(lookup: LookupView, default: T) -> T {
    match lookup {
        LookupView::Present(v) => match T::parse_result(v) {
            Ok(n) => n,
            Err(_) => default,
        },
        _ => default,
    }
}

/// A numeric setting (see `number_value`).
pub fn env_number<T: EnvValue>(lookup: EnvLookup, default: T) -> (r: T)
    ensures
        r == number_value(lookup@, default),
{
    match lookup {
        EnvLookup::Present(v) => match T::parse_env_value(v.as_str()) {
            Ok(n) => n,
            Err(_) => default,
        },
        _ => default,
    }
}

/// A line without the carriage return before its line feed.
pub open spec fn strip_cr(l: Seq<char>) -> Seq<char> {
    if l.len() > 0 && l.last() == '\r' {
        l.drop_last()
    } else {
        l
    }
}

/// The lines of a text (`str::lines`): cut at each line feed, a carriage
/// return before a line feed dropped, no empty last line after a final line
/// feed.
pub open spec fn text_lines(s: Seq<char>) -> Seq<Seq<char>> {
    let p = split_char(s, '\n');
    let body = p.drop_last().map_values(|l: Seq<char>| strip_cr(l));
    if p.last().len() == 0 {
        body
    } else {
        body.push(p.last())
    }
}

fn lines_of(s: &[char]) -> (r: Vec<Vec<char>>)
    ensures
        views(r@) == text_lines(s@),
{
    let pieces = split_at_char(s, '\n');
    proof {
        crate::text::lemma_split_char_nonempty(s@, '\n');
    }
    let ghost ps = views(pieces@);
    let n = pieces.len();
    let mut r: Vec<Vec<char>> = Vec::new();
    let mut i: usize = 0;
    while i + 1 < n
        invariant
            n == pieces.len(),
            n >= 1,
            i + 1 <= n,
            ps == views(pieces@),
            views(r@) == ps.drop_last().take(i as int).map_values(|l: Seq<char>| strip_cr(l)),
        decreases n - i,
    {
        let l = &pieces[i];
        let line = if l.len() > 0 && l[l.len() - 1] == '\r' {
            slice_range(l.as_slice(), 0, l.len() - 1)
        } else {
            slice_range(l.as_slice(), 0, l.len())
        };
        assert(line@ =~= strip_cr(ps[i as int]));
        let ghost before = views(r@);
        r.push(line);
        assert(views(r@) =~= before.push(line@));
        assert(ps.drop_last().take(i + 1).map_values(|l: Seq<char>| strip_cr(l)) =~= ps.drop_last().take(
            i as int,
        ).map_values(|l: Seq<char>| strip_cr(l)).push(strip_cr(ps[i as int])));
        i = i + 1;
    }
    assert(ps.drop_last().take(i as int) =~= ps.drop_last());
    if pieces[n - 1].len() > 0 {
        let last = slice_range(pieces[n - 1].as_slice(), 0, pieces[n - 1].len());
        assert(last@ =~= pieces@[n - 1]@);
        assert(ps.last() == pieces@[n - 1]@);
        let ghost before = views(r@);
        r.push(last);
        assert(views(r@) =~= before.push(ps.last()));
    }
    r
}

fn trim_end_exec(s: &[char]) -> (r: Vec<char>)
    ensures
        r@ == trim_end(s@),
{
    let mut n: usize = s.len();
    assert(s@.take(n as int) =~= s@);
    while n > 0 && is_whitespace(s[n - 1])
        invariant
            n <= s.len(),
            trim_end(s@) == trim_end(s@.take(n as int)),
        decreases n,
    {
        assert(s@.take(n as int).last() == s@[n - 1]);
        assert(s@.take(n as int).drop_last() =~= s@.take(n - 1));
        n = n - 1;
    }
    if n > 0 {
        assert(s@.take(n as int).last() == s@[n - 1]);
    }
    let r = slice_range(s, 0, n);
    assert(r@ =~= s@.take(n as int));
    r
}

fn trim_start_exec(s: &[char]) -> (r: Vec<char>)
    ensures
        r@ == trim_start(s@),
{
    let mut i: usize = 0;
    assert(s@.skip(0) =~= s@);
    while i < s.len() && is_whitespace(s[i])
        invariant
            i <= s.len(),
            trim_start(s@) == trim_start(s@.skip(i as int)),
        decreases s.len() - i,
    {
        assert(s@.skip(i as int)[0] == s@[i as int]);
        assert(s@.skip(i as int).drop_first() =~= s@.skip(i + 1));
        i = i + 1;
    }
    if i < s.len() {
        assert(s@.skip(i as int)[0] == s@[i as int]);
    }
    let r = slice_range(s, i, s.len());
    assert(r@ =~= s@.skip(i as int));
    r
}

/// The heading of the recommendations section of a report.
pub const GLOBAL_RECOMMENDATIONS_HEADING: &'static str = "## Global Recommendations";

/// The items of the recommendations section, from the lines after the
/// heading's first occurrence: a line that is the heading opens the
/// section, the next `## ` heading closes it, and each `- ` line in it
/// gives its trimmed text if that is not empty.
pub open spec fn section_items(lines: Seq<Seq<char>>, in_section: bool) -> Seq<Seq<char>>
    decreases lines.len(),
{
    if lines.len() == 0 {
        Seq::empty()
    } else {
        let line = lines[0];
        let rest = lines.drop_first();
        if has_prefix(line, "## "@) {
            if in_section {
                Seq::empty()
            } else {
                section_items(rest, trim(line) == GLOBAL_RECOMMENDATIONS_HEADING@)
            }
        } else if !in_section {
            section_items(rest, in_section)
        } else if has_prefix(line, "- "@) && trim(line.skip(2)).len() > 0 {
            seq![trim(line.skip(2))] + section_items(rest, in_section)
        } else {
            section_items(rest, in_section)
        }
    }
}

/// The prompt change ideas of a report: after a `- Prompt change ideas:`
/// line, each indented `- ` item (two spaces or a tab before the dash)
/// gives its trimmed text if that is not empty; a heading or a blank line
/// ends the list.
pub open spec fn idea_items(lines: Seq<Seq<char>>, in_ideas: bool) -> Seq<Seq<char>>
    decreases lines.len(),
{
    if lines.len() == 0 {
        Seq::empty()
    } else {
        let t = trim_end(lines[0]);
        let rest = lines.drop_first();
        if trim(t) == "- Prompt change ideas:"@ {
            idea_items(rest, true)
        } else if !in_ideas {
            idea_items(rest, false)
        } else if has_prefix(trim_start(t), "- "@) && (has_prefix(t, "  - "@) || has_prefix(
            t,
            "\t- "@,
        )) {
            let v = trim(trim_start(t).skip(2));
            if v.len() > 0 {
                seq![v] + idea_items(rest, true)
            } else {
                idea_items(rest, true)
            }
        } else if has_prefix(t, "### "@) || has_prefix(t, "## "@) || trim(t).len() == 0 {
            idea_items(rest, false)
        } else {
            idea_items(rest, true)
        }
    }
}

/// The items without repeats, each where it first occurs.
pub open spec fn first_occurrences(items: Seq<Seq<char>>) -> Seq<Seq<char>>
    decreases items.len(),
{
    if items.len() == 0 {
        Seq::empty()
    } else {
        let d = first_occurrences(items.drop_last());
        if d.contains(items.last()) {
            d
        } else {
            d.push(items.last())
        }
    }
}

/// The recommendations a previous report gives: the items of its
/// recommendations section, then its prompt change ideas, without repeats,
/// at most `limit` of them.
pub open spec fn report_recommendations(report: Seq<char>, limit: nat) -> Seq<Seq<char>> {
    let global = match first_occurrence(report, GLOBAL_RECOMMENDATIONS_HEADING@) {
        Some(start) => section_items(text_lines(report.skip(start)), false),
        None => Seq::empty(),
    };
    let all = first_occurrences(global + idea_items(text_lines(report), false));
    if all.len() <= limit {
        all
    } else {
        all.take(limit as int)
    }
}

proof fn lemma_find_is_first(s: Seq<char>, p: Seq<char>, i: int)
    requires
        occurs_at(s, p, i),
        forall|j: int| 0 <= j < i ==> !occurs_at(s, p, j),
    ensures
        first_occurrence(s, p) == Some(i),
{
    assert(contains(s, p));
    let k = choose|k: int| occurs_at(s, p, k) && forall|j: int| 0 <= j < k ==> !occurs_at(s, p, j);
    if k < i {
    } else if k > i {
        assert(!occurs_at(s, p, i));
    }
}

fn push_text(out: &mut Vec<Vec<char>>, v: Vec<char>)
    ensures
        views(final(out)@) == views(old(out)@).push(v@),
{
    let ghost before = views(out@);
    out.push(v);
    assert(views(out@) =~= before.push(v@));
}

fn collect_section_items(lines: &Vec<Vec<char>>) -> (r: Vec<Vec<char>>)
    ensures
        views(r@) == section_items(views(lines@), false),
{
    let ghost ls = views(lines@);
    proof {
        reveal_strlit("- ");
    }
    let mut out: Vec<Vec<char>> = Vec::new();
    let mut in_section = false;
    let mut i: usize = 0;
    let heading = chars_of("## ");
    let dash = chars_of("- ");
    assert(ls.skip(0) =~= ls);
    while i < lines.len()
        invariant
            i <= lines.len(),
            ls == views(lines@),
            heading@ == "## "@,
            dash@ == "- "@,
            "- "@.len() == 2,
            views(out@) + section_items(ls.skip(i as int), in_section) == section_items(ls, false),
        decreases lines.len() - i,
    {
        let line = &lines[i];
        let ghost rest = ls.skip(i as int);
        assert(rest[0] == line@);
        assert(rest.drop_first() =~= ls.skip(i + 1));
        if starts_with(line.as_slice(), heading.as_slice()) {
            if in_section {
                assert(section_items(rest, true) == Seq::<Seq<char>>::empty());
                assert(views(out@) + Seq::<Seq<char>>::empty() =~= views(out@));
                return out;
            }
            let t = trim_chars(line.as_slice());
            in_section = chars_eq_str(t.as_slice(), GLOBAL_RECOMMENDATIONS_HEADING);
        } else if in_section && starts_with(line.as_slice(), dash.as_slice()) {
            let item = slice_range(line.as_slice(), 2, line.len());
            assert(item@ =~= line@.skip(2));
            let v = trim_chars(item.as_slice());
            if v.len() > 0 {
                let ghost before = views(out@);
                push_text(&mut out, v);
                assert(before + (seq![trim(line@.skip(2))] + section_items(ls.skip(i + 1), true))
                    =~= views(out@) + section_items(ls.skip(i + 1), true));
            }
        }
        i = i + 1;
    }
    assert(ls.skip(i as int).len() == 0);
    assert(views(out@) + Seq::<Seq<char>>::empty() =~= views(out@));
    out
}

fn collect_idea_items(lines: &Vec<Vec<char>>) -> (r: Vec<Vec<char>>)
    ensures
        views(r@) == idea_items(views(lines@), false),
{
    let ghost ls = views(lines@);
    proof {
        reveal_strlit("- ");
    }
    let mut out: Vec<Vec<char>> = Vec::new();
    let mut in_ideas = false;
    let mut i: usize = 0;
    let dash = chars_of("- ");
    let indented = chars_of("  - ");
    let tabbed = chars_of("\t- ");
    let h3 = chars_of("### ");
    let h2 = chars_of("## ");
    assert(ls.skip(0) =~= ls);
    while i < lines.len()
        invariant
            i <= lines.len(),
            ls == views(lines@),
            dash@ == "- "@,
            "- "@.len() == 2,
            indented@ == "  - "@,
            tabbed@ == "\t- "@,
            h3@ == "### "@,
            h2@ == "## "@,
            views(out@) + idea_items(ls.skip(i as int), in_ideas) == idea_items(ls, false),
        decreases lines.len() - i,
    {
        let line = &lines[i];
        let ghost rest = ls.skip(i as int);
        assert(rest[0] == line@);
        assert(rest.drop_first() =~= ls.skip(i + 1));
        let t = trim_end_exec(line.as_slice());
        let tt = trim_chars(t.as_slice());
        if chars_eq_str(tt.as_slice(), "- Prompt change ideas:") {
            in_ideas = true;
        } else if in_ideas {
            let ts = trim_start_exec(t.as_slice());
            if starts_with(ts.as_slice(), dash.as_slice()) && (starts_with(
                t.as_slice(),
                indented.as_slice(),
            ) || starts_with(t.as_slice(), tabbed.as_slice())) {
                let item = slice_range(ts.as_slice(), 2, ts.len());
                assert(item@ =~= ts@.skip(2));
                let v = trim_chars(item.as_slice());
                if v.len() > 0 {
                    let ghost before = views(out@);
                    push_text(&mut out, v);
                    assert(before + (seq![trim(trim_start(t@).skip(2))] + idea_items(
                        ls.skip(i + 1),
                        true,
                    )) =~= views(out@) + idea_items(ls.skip(i + 1), true));
                }
            } else if starts_with(t.as_slice(), h3.as_slice()) || starts_with(
                t.as_slice(),
                h2.as_slice(),
            ) || tt.len() == 0 {
                in_ideas = false;
            }
        }
        i = i + 1;
    }
    assert(ls.skip(i as int).len() == 0);
    assert(views(out@) + Seq::<Seq<char>>::empty() =~= views(out@));
    out
}

fn contains_text(v: &Vec<String>, x: &[char]) -> (r: bool)
    ensures
        r == string_views(v@).contains(x@),
{
    let mut k: usize = 0;
    while k < v.len()
        invariant
            k <= v.len(),
            forall|j: int| 0 <= j < k ==> string_views(v@)[j] != x@,
        decreases v.len() - k,
    {
        let c = chars_of(v[k].as_str());
        if crate::text::chars_eq(c.as_slice(), x) {
            assert(string_views(v@)[k as int] == x@);
            return true;
        }
        k = k + 1;
    }
    false
}

/// The recommendations a previous report gives (see
/// `report_recommendations`).
pub fn extract_recommendations_from_report(report_markdown: &str, limit: usize) -> (r: Vec<String>)
    ensures
        string_views(r@) == report_recommendations(report_markdown@, limit as nat),
{
    let text = chars_of(report_markdown);
    let heading = chars_of(GLOBAL_RECOMMENDATIONS_HEADING);
    let global = match find(text.as_slice(), heading.as_slice()) {
        Some(start) => {
            proof {
                lemma_find_is_first(text@, heading@, start as int);
            }
            let section = slice_range(text.as_slice(), start, text.len());
            assert(section@ =~= text@.skip(start as int));
            let ls = lines_of(section.as_slice());
            collect_section_items(&ls)
        },
        None => {
            assert(first_occurrence(text@, heading@) is None);
            Vec::new()
        },
    };
    let all_lines = lines_of(text.as_slice());
    let ideas = collect_idea_items(&all_lines);
    let ghost items = views(global@) + views(ideas@);
    let mut deduped: Vec<String> = Vec::new();
    let mut i: usize = 0;
    assert(items.take(0) =~= Seq::<Seq<char>>::empty());
    while i < global.len()
        invariant
            i <= global.len(),
            items == views(global@) + views(ideas@),
            string_views(deduped@) == first_occurrences(items.take(i as int)),
        decreases global.len() - i,
    {
        let item = &global[i];
        assert(items[i as int] == item@);
        assert(items.take(i + 1).drop_last() =~= items.take(i as int));
        if !contains_text(&deduped, item.as_slice()) {
            let ghost before = string_views(deduped@);
            deduped.push(string_from_chars(item.as_slice()));
            assert(string_views(deduped@) =~= before.push(item@));
        }
        i = i + 1;
    }
    let mut j: usize = 0;
    while j < ideas.len()
        invariant
            j <= ideas.len(),
            items == views(global@) + views(ideas@),
            string_views(deduped@) == first_occurrences(items.take(global.len() + j)),
        decreases ideas.len() - j,
    {
        let item = &ideas[j];
        let ghost k = global.len() + j;
        assert(items[k] == item@);
        assert(items.take(k + 1).drop_last() =~= items.take(k));
        if !contains_text(&deduped, item.as_slice()) {
            let ghost before = string_views(deduped@);
            deduped.push(string_from_chars(item.as_slice()));
            assert(string_views(deduped@) =~= before.push(item@));
        }
        j = j + 1;
    }
    assert(items.take(global.len() + ideas.len()) =~= items);
    if deduped.len() > limit {
        let ghost before = string_views(deduped@);
        deduped.truncate(limit);
        assert(string_views(deduped@) =~= before.take(limit as int));
    }
    deduped
}

/// The positions of the test cases a candidate runs: those whose category
/// is one of the candidate's categories, or all when it has none.
pub open spec fn case_selected(categories: Seq<Seq<char>>, category: Seq<char>) -> bool {
    categories.len() == 0 || categories.contains(category)
}

/// The positions of the test cases a candidate runs, in order (see
/// `case_selected`).
pub fn candidate_case_indices(categories: &Vec<String>, case_categories: &Vec<String>) -> (r: Vec<usize>)
    ensures
        forall|k: int| 0 <= k < r.len() ==> r@[k] < case_categories.len(),
        forall|k: int, l: int| 0 <= k < l < r.len() ==> r@[k] < r@[l],
        forall|i: int|
            0 <= i < case_categories.len() ==> (r@.contains(i as usize) <==> case_selected(
                string_views(categories@),
                case_categories@[i]@,
            )),
{
    let mut r: Vec<usize> = Vec::new();
    let mut i: usize = 0;
    while i < case_categories.len()
        invariant
            i <= case_categories.len(),
            forall|k: int| 0 <= k < r.len() ==> r@[k] < i,
            forall|k: int, l: int| 0 <= k < l < r.len() ==> r@[k] < r@[l],
            forall|j: int|
                0 <= j < i ==> (r@.contains(j as usize) <==> case_selected(
                    string_views(categories@),
                    case_categories@[j]@,
                )),
        decreases case_categories.len() - i,
    {
        let c = chars_of(case_categories[i].as_str());
        let selected = categories.len() == 0 || contains_text(categories, c.as_slice());
        let ghost before = r@;
        if selected {
            r.push(i);
        }
        proof {
            assert forall|j: int|
                0 <= j < i + 1 implies (r@.contains(j as usize) <==> case_selected(
                string_views(categories@),
                case_categories@[j]@,
            )) by {
                if j < i {
                    if r@.contains(j as usize) {
                        let k = choose|k: int| 0 <= k < r@.len() && r@[k] == j as usize;
                        if k < before.len() {
                            assert(before[k] == j as usize);
                        }
                    }
                    if before.contains(j as usize) {
                        let k = choose|k: int| 0 <= k < before.len() && before[k] == j as usize;
                        assert(r@[k] == j as usize);
                    }
                } else {
                    if selected {
                        assert(r@[before.len() as int] == i);
                    } else {
                        if r@.contains(i) {
                            let k = choose|k: int| 0 <= k < r@.len() && r@[k] == i;
                            assert(before[k] < i);
                        }
                    }
                }
            }
        }
        i = i + 1;
    }
    r
}

/// The id of a harness request: `harness-`, the candidate key and the
/// test id made safe for file names, and the time in milliseconds.
pub fn harness_request_id(candidate_key: &str, test_id: &str, unix_millis: u128) -> (r: String)
    ensures
        r@ == "harness-"@ + candidate_key@.map_values(|c: char| key_char(c)) + "-"@ + test_id@.map_values(
            |c: char| key_char(c),
        ) + "-"@ + decimal_text(unix_millis as nat),
{
    let mut v = chars_of("harness-");
    let k = sanitize_key(candidate_key);
    append_str(&mut v, k.as_str());
    append_str(&mut v, "-");
    let t = sanitize_key(test_id);
    append_str(&mut v, t.as_str());
    append_str(&mut v, "-");
    crate::text::push_decimal_u128(&mut v, unix_millis);
    string_from_chars(v.as_slice())
}

/// The error of a case skipped after a timeout, for the candidate that
/// timed out.
pub const SKIPPED_AFTER_TIMEOUT: &'static str = "skipped after timeout to enforce strict serial mode";

/// The error of a case skipped after a timeout, for the candidates after
/// the one that timed out.
pub const SKIPPED_AFTER_GLOBAL_TIMEOUT: &'static str =
    "skipped after global timeout to enforce strict serial mode";

/// Whether a failed sample stops the run: in strict serial mode, a timeout
/// does.
pub fn halts_run(strict_serial_mode: bool, error: &str) -> (r: bool)
    ensures
        r == (strict_serial_mode && timed_out(Some(error@))),
{
    strict_serial_mode && is_timeout_error(Some(error))
}

/// The order of counted strings in a summary: higher counts first, equal
/// counts by text.
pub open spec fn count_before(a: (Seq<char>, usize), b: (Seq<char>, usize)) -> bool {
    a.1 > b.1 || (a.1 == b.1 && text_lt(a.0, b.0))
}

/// Counted strings in summary order.
pub open spec fn in_count_order(s: Seq<(Seq<char>, usize)>) -> bool {
    forall|i: int, j: int| 0 <= i < j < s.len() ==> count_before(#[trigger] s[i], #[trigger] s[j])
}

/// How a counted string is shown: `text (count)`.
pub open spec fn count_line(e: (Seq<char>, usize)) -> Seq<char> {
    e.0 + " ("@ + decimal_text(e.1 as nat) + ")"@
}

/// The texts and counts of counted strings.
pub open spec fn count_views(v: Seq<(String, usize)>) -> Seq<(Seq<char>, usize)> {
    v.map_values(|e: (String, usize)| (e.0@, e.1))
}

/// No text is counted twice.
pub open spec fn distinct_texts(v: Seq<(Seq<char>, usize)>) -> bool {
    forall|i: int, j: int| 0 <= i < j < v.len() ==> (#[trigger] v[i]).0 != (#[trigger] v[j]).0
}

proof fn lemma_count_order(a: (Seq<char>, usize), b: (Seq<char>, usize), c: (Seq<char>, usize))
    ensures
        !count_before(a, a),
        count_before(a, b) && count_before(b, c) ==> count_before(a, c),
        a.0 != b.0 ==> count_before(a, b) || count_before(b, a),
        count_before(a, b) ==> !count_before(b, a),
{
    lemma_text_lt_irreflexive(a.0);
    crate::order::lemma_text_lt_total(a.0, b.0);
    if text_lt(a.0, b.0) && text_lt(b.0, c.0) {
        lemma_text_lt_transitive(a.0, b.0, c.0);
    }
    if text_lt(a.0, b.0) {
        crate::order::lemma_text_lt_asymmetric(a.0, b.0);
    }
}

/// The `limit` most counted strings, shown as `text (count)`: counts
/// descending, equal counts in text order.
pub fn top_strings_by_count(counts: &Vec<(String, usize)>, limit: usize) -> (r: Vec<String>)
    requires
        distinct_texts(count_views(counts@)),
    ensures
        exists|s: Seq<(Seq<char>, usize)>|
            #![trigger in_count_order(s)]
            in_count_order(s) && (forall|e: (Seq<char>, usize)|
                s.contains(e) <==> count_views(counts@).contains(e)) && string_views(r@)
                == s.take(if limit < s.len() {
                limit as int
            } else {
                s.len() as int
            }).map_values(|e: (Seq<char>, usize)| count_line(e)),
{
    let ghost input = count_views(counts@);
    let mut sorted: Vec<(String, usize)> = Vec::new();
    let mut i: usize = 0;
    while i < counts.len()
        invariant
            i <= counts.len(),
            input == count_views(counts@),
            distinct_texts(input),
            in_count_order(count_views(sorted@)),
            forall|e: (Seq<char>, usize)|
                count_views(sorted@).contains(e) <==> input.take(i as int).contains(e),
        decreases counts.len() - i,
    {
        let ghost sv = count_views(sorted@);
        let e = (counts[i].0.clone(), counts[i].1);
        let ghost ev = (e.0@, e.1);
        assert(input[i as int] == ev);
        // The new text differs from every text placed so far.
        assert forall|k: int| 0 <= k < sv.len() implies (#[trigger] sv[k]).0 != ev.0 by {
            assert(sv.contains(sv[k]));
            let j = choose|j: int| 0 <= j < i && input.take(i as int)[j] == sv[k];
            assert(input[j] == sv[k]);
        }
        let ec = chars_of(e.0.as_str());
        let mut p: usize = 0;
        let mut stop = false;
        while !stop && p < sorted.len()
            invariant
                p <= sorted.len(),
                sv == count_views(sorted@),
                ec@ == ev.0,
                e.1 == ev.1,
                forall|a: int| 0 <= a < p ==> count_before(#[trigger] sv[a], ev),
                stop ==> p < sorted.len() && count_before(ev, sv[p as int]),
                forall|k: int| 0 <= k < sv.len() ==> (#[trigger] sv[k]).0 != ev.0,
            decreases sorted.len() - p + (if stop { 0int } else { 1int }),
        {
            let pc = chars_of(sorted[p].0.as_str());
            assert(sv[p as int] == (pc@, sorted@[p as int].1));
            let c = sorted[p].1;
            let before = if c > e.1 {
                true
            } else if c < e.1 {
                false
            } else {
                compare_text(pc.as_slice(), ec.as_slice()) == Comparison::Less
            };
            proof {
                lemma_count_order(sv[p as int], ev, ev);
            }
            if before {
                p = p + 1;
            } else {
                stop = true;
            }
        }
        sorted.insert(p, e);
        proof {
            let nv = count_views(sorted@);
            assert(nv =~= sv.insert(p as int, ev));
            assert forall|a: int, b: int| 0 <= a < b < nv.len() implies count_before(
                #[trigger] nv[a],
                #[trigger] nv[b],
            ) by {
                if b < p {
                    assert(count_before(sv[a], sv[b]));
                } else if b == p {
                } else if a < p {
                    assert(count_before(sv[a], sv[b - 1]));
                } else if a == p {
                    if b - 1 > p {
                        assert(count_before(sv[p as int], sv[b - 1]));
                        lemma_count_order(ev, sv[p as int], sv[b - 1]);
                    }
                } else {
                    assert(count_before(sv[a - 1], sv[b - 1]));
                }
            }
            let t0 = input.take(i as int);
            let t1 = input.take(i + 1);
            assert(t1 =~= t0.push(ev));
            assert forall|x: (Seq<char>, usize)| nv.contains(x) <==> t1.contains(x) by {
                if nv.contains(x) {
                    let k = choose|k: int| 0 <= k < nv.len() && nv[k] == x;
                    if k < p {
                        assert(sv.contains(x));
                    } else if k > p {
                        assert(sv[k - 1] == x);
                        assert(sv.contains(x));
                    } else {
                        assert(t1[i as int] == x);
                    }
                    if x != ev {
                        let j = choose|j: int| 0 <= j < i && t0[j] == x;
                        assert(t1[j] == x);
                    }
                }
                if t1.contains(x) {
                    let j = choose|j: int| 0 <= j < i + 1 && t1[j] == x;
                    if j < i {
                        assert(t0[j] == x);
                        assert(sv.contains(x));
                        let k = choose|k: int| 0 <= k < sv.len() && sv[k] == x;
                        if k < p {
                            assert(nv[k] == x);
                        } else {
                            assert(nv[k + 1] == x);
                        }
                    } else {
                        assert(nv[p as int] == x);
                    }
                }
            }
        }
        i = i + 1;
    }
    assert(input.take(counts.len() as int) =~= input);
    let ghost sv = count_views(sorted@);
    let n = if limit < sorted.len() {
        limit
    } else {
        sorted.len()
    };
    let mut r: Vec<String> = Vec::new();
    let mut k: usize = 0;
    while k < n
        invariant
            k <= n,
            n <= sorted.len(),
            sv == count_views(sorted@),
            string_views(r@) == sv.take(k as int).map_values(|e: (Seq<char>, usize)| count_line(e)),
        decreases n - k,
    {
        let mut line = chars_of(sorted[k].0.as_str());
        append_str(&mut line, " (");
        push_decimal(&mut line, sorted[k].1 as u64);
        append_str(&mut line, ")");
        assert(sv[k as int] == (sorted@[k as int].0@, sorted@[k as int].1));
        let ghost before = string_views(r@);
        r.push(string_from_chars(line.as_slice()));
        assert(string_views(r@) =~= before.push(count_line(sv[k as int])));
        assert(sv.take(k + 1).map_values(|e: (Seq<char>, usize)| count_line(e)) =~= sv.take(
            k as int,
        ).map_values(|e: (Seq<char>, usize)| count_line(e)).push(count_line(sv[k as int])));
        k = k + 1;
    }
    assert(in_count_order(sv));
    r
}

/// A bridge reply as the harness's summaries read it: the candidate prompt
/// it was requested for and the bridge error, if there was one.
pub struct SampleOutcome {
    pub candidate_key: String,
    pub bridge_error: Option<String>,
}

/// How the replies to a set of requests went.
#[derive(Debug, Clone, Copy, PartialEq, Eq)]
pub struct SampleTally {
    pub sample_count: usize,
    pub success_count: usize,
    pub error_count: usize,
    pub timeout_count: usize,
    pub skipped_count: usize,
}

/// The bridge errors of a sequence of replies.
pub open spec fn error_views(v: Seq<Option<String>>) -> Seq<Option<Seq<char>>> {
    v.map_values(|e: Option<String>| crate::text::opt_string_view(e))
}

/// How many replies carry a bridge error.
pub open spec fn failures(errors: Seq<Option<Seq<char>>>) -> nat {
    errors.filter(|e: Option<Seq<char>>| e is Some).len()
}

/// How many replies timed out (see `timed_out`).
pub open spec fn timeouts(errors: Seq<Option<Seq<char>>>) -> nat {
    errors.filter(|e: Option<Seq<char>>| timed_out(e)).len()
}

/// How many requests were skipped in strict serial mode (see `strict_skip`).
pub open spec fn skips(errors: Seq<Option<Seq<char>>>) -> nat {
    errors.filter(|e: Option<Seq<char>>| strict_skip(e)).len()
}

proof fn lemma_counts_step(errors: Seq<Option<Seq<char>>>, i: int)
    requires
        0 <= i < errors.len(),
    ensures
        failures(errors.take(i + 1)) == failures(errors.take(i)) + if errors[i] is Some {
            1int
        } else {
            0int
        },
        timeouts(errors.take(i + 1)) == timeouts(errors.take(i)) + if timed_out(errors[i]) {
            1int
        } else {
            0int
        },
        skips(errors.take(i + 1)) == skips(errors.take(i)) + if strict_skip(errors[i]) {
            1int
        } else {
            0int
        },
{
    reveal(Seq::filter);
    assert(errors.take(i + 1).drop_last() =~= errors.take(i));
    assert(errors.take(i + 1).last() == errors[i]);
}

proof fn lemma_errors_for_step(key: Seq<char>, results: Seq<SampleOutcome>, i: int)
    requires
        0 <= i < results.len(),
    ensures
        errors_for(key, results.take(i + 1)) == if results[i].candidate_key@ == key {
            errors_for(key, results.take(i)).push(crate::text::opt_string_view(results[i].bridge_error))
        } else {
            errors_for(key, results.take(i))
        },
{
    reveal(Seq::filter);
    assert(results.take(i + 1).drop_last() =~= results.take(i));
    assert(results.take(i + 1).last() == results[i]);
    let f = results.take(i).filter(|o: SampleOutcome| o.candidate_key@ == key);
    if results[i].candidate_key@ == key {
        assert(results.take(i + 1).filter(|o: SampleOutcome| o.candidate_key@ == key) == f.push(results[i]));
        assert(f.push(results[i]).map_values(|o: SampleOutcome| crate::text::opt_string_view(o.bridge_error))
            =~= f.map_values(|o: SampleOutcome| crate::text::opt_string_view(o.bridge_error)).push(
            crate::text::opt_string_view(results[i].bridge_error),
        ));
    }
}

/// Counts the replies, those that failed, those that timed out and those
/// that were skipped; every reply without a bridge error succeeded.
pub fn tally_samples(errors: &Vec<Option<String>>) -> (r: SampleTally)
    ensures
        r.sample_count == errors.len(),
        r.error_count == failures(error_views(errors@)),
        r.success_count == errors.len() - failures(error_views(errors@)),
        r.timeout_count == timeouts(error_views(errors@)),
        r.skipped_count == skips(error_views(errors@)),
{
    let ghost ev = error_views(errors@);
    let mut failed: usize = 0;
    let mut timed: usize = 0;
    let mut skipped: usize = 0;
    let mut i: usize = 0;
    while i < errors.len()
        invariant
            i <= errors.len(),
            ev == error_views(errors@),
            failed == failures(ev.take(i as int)),
            timed == timeouts(ev.take(i as int)),
            skipped == skips(ev.take(i as int)),
            failed <= i,
            timed <= i,
            skipped <= i,
        decreases errors.len() - i,
    {
        proof {
            lemma_counts_step(ev, i as int);
        }
        let e: Option<&str> = match &errors[i] {
            Some(s) => Some(s.as_str()),
            None => None,
        };
        assert(ev[i as int] == match e {
            Some(t) => Some(t@),
            None => None::<Seq<char>>,
        });
        if e.is_some() {
            failed = failed + 1;
        }
        if is_timeout_error(e) {
            timed = timed + 1;
        }
        if is_strict_skip_error(e) {
            skipped = skipped + 1;
        }
        i = i + 1;
    }
    assert(ev.take(errors.len() as int) =~= ev);
    SampleTally {
        sample_count: errors.len(),
        success_count: errors.len() - failed,
        error_count: failed,
        timeout_count: timed,
        skipped_count: skipped,
    }
}

/// The bridge errors of the replies requested for the candidate `key`, in
/// the order the replies came.
pub open spec fn errors_for(key: Seq<char>, results: Seq<SampleOutcome>) -> Seq<Option<Seq<char>>> {
    results.filter(|o: SampleOutcome| o.candidate_key@ == key).map_values(
        |o: SampleOutcome| crate::text::opt_string_view(o.bridge_error),
    )
}

/// Picks out the bridge errors of the replies for one candidate prompt.
pub fn candidate_errors(key: &str, results: &Vec<SampleOutcome>) -> (r: Vec<Option<String>>)
    ensures
        error_views(r@) == errors_for(key@, results@),
{
    let mut r: Vec<Option<String>> = Vec::new();
    let mut i: usize = 0;
    while i < results.len()
        invariant
            i <= results.len(),
            error_views(r@) == errors_for(key@, results@.take(i as int)),
        decreases results.len() - i,
    {
        let ghost before = error_views(r@);
        let ck = chars_of(results[i].candidate_key.as_str());
        proof {
            lemma_errors_for_step(key@, results@, i as int);
        }
        if chars_eq_str(ck.as_slice(), key) {
            let e = match &results[i].bridge_error {
                Some(s) => Some(s.clone()),
                None => None,
            };
            r.push(e);
            assert(error_views(r@) =~= before.push(crate::text::opt_string_view(results@[i as int].bridge_error)));
        } else {
            assert(error_views(r@) =~= before);
        }
        i = i + 1;
    }
    assert(results@.take(results.len() as int) =~= results@);
    r
}

} // verus!
