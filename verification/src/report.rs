//! The markdown report of an evaluation cycle. Scores are floating point and
//! come already formatted, as do the JSON dumps of the test cases, candidate
//! prompts, raw samples and grader output; the caller writes the file.
use vstd::prelude::*;
use crate::harness_settings::HarnessSettings;
use crate::text::{
    append_chars, append_str, chars_of, decimal_text, join, join_chars, push_decimal, push_decimal_u128,
    string_from_chars, string_views, strings_to_chars, views,
};

verus! {

/// The floating-point settings shown in the report, formatted.
pub struct ReportFloats {
    pub latency_target_ms: String,
    pub quality_weight: String,
    pub speed_weight: String,
    pub min_operational_score: String,
    pub min_quality_score: String,
}

/// The preflight summary shown in the report; the success rate formatted.
pub struct ReportPreflight {
    pub passed: bool,
    pub success_rate: String,
    pub timeout_count: usize,
    pub p95_latency_ms: u128,
}

/// One row of the runtime metrics table; rates, scores and the mean
/// latency formatted.
pub struct MetricRow {
    pub candidate_key: String,
    pub candidate_title: String,
    pub success_count: usize,
    pub error_count: usize,
    pub timeout_count: usize,
    pub skipped_count: usize,
    pub success_rate: String,
    pub operational_score: String,
    pub speed_score: String,
    pub performance_score: String,
    pub promotion_eligible: bool,
    pub avg_latency_ms: String,
    pub p95_latency_ms: u128,
}

/// The execution figures of a candidate with metrics, formatted.
pub struct ExecutionScores {
    pub success_rate: String,
    pub operational_score: String,
}

/// The quality scores of a candidate, formatted, with its top failure tags
/// and prompt change ideas.
pub struct QualityScores {
    pub overall: String,
    pub role_fidelity: String,
    pub format_compliance: String,
    pub immersion: String,
    pub context_use: String,
    pub top_failures: Vec<String>,
    pub prompt_change_ideas: Vec<String>,
}

/// The quality section of one candidate.
pub struct ScoreSection {
    pub candidate_key: String,
    pub candidate_title: String,
    pub execution: Option<ExecutionScores>,
    pub graded_sample_count: usize,
    pub speed_score: String,
    pub performance_score: String,
    pub promotion_eligible: bool,
    pub promotion_blockers: Vec<String>,
    pub quality: QualityScores,
}

/// Everything a cycle's report shows.
pub struct ReportInputs {
    pub generated_at: String,
    pub settings: HarnessSettings,
    pub floats: ReportFloats,
    pub feedback_count: usize,
    pub feedback_source: Option<String>,
    pub preflight: ReportPreflight,
    pub test_cases_json: String,
    pub candidates_json: String,
    pub metrics: Vec<MetricRow>,
    pub promoted_candidate: Option<String>,
    pub best_candidate: String,
    pub grader_rubric_version: String,
    pub scores: Vec<ScoreSection>,
    pub global_recommendations: Vec<String>,
    pub samples_json: String,
    pub grader_json: String,
}

/// How a flag is shown.
pub open spec fn bool_text(b: bool) -> Seq<char> {
    if b {
        "true"@
    } else {
        "false"@
    }
}

/// A list item with a value in backticks: `- <label>: \`<value>\``.
pub open spec fn item(label: Seq<char>, value: Seq<char>) -> Seq<char> {
    "- "@ + label + ": `"@ + value + "`\n"@
}

/// One line per entry, each `<prefix><entry>`.
pub open spec fn lines_with(prefix: Seq<char>, entries: Seq<Seq<char>>) -> Seq<char>
    decreases entries.len(),
{
    if entries.len() == 0 {
        Seq::empty()
    } else {
        lines_with(prefix, entries.drop_last()) + prefix + entries.last() + "\n"@
    }
}

fn push_item(v: &mut Vec<char>, label: &str, value: &str)
    ensures
        final(v)@ == old(v)@ + item(label@, value@),
{
    let ghost start = v@;
    append_str(v, "- ");
    append_str(v, label);
    append_str(v, ": `");
    append_str(v, value);
    append_str(v, "`\n");
    assert(v@ =~= start + item(label@, value@));
}

fn push_item_chars(v: &mut Vec<char>, label: &str, value: &[char])
    ensures
        final(v)@ == old(v)@ + item(label@, value@),
{
    let ghost start = v@;
    append_str(v, "- ");
    append_str(v, label);
    append_str(v, ": `");
    append_chars(v, value);
    append_str(v, "`\n");
    assert(v@ =~= start + item(label@, value@));
}

fn push_item_number(v: &mut Vec<char>, label: &str, n: u64)
    ensures
        final(v)@ == old(v)@ + item(label@, decimal_text(n as nat)),
{
    let mut d: Vec<char> = Vec::new();
    push_decimal(&mut d, n);
    assert(d@ =~= decimal_text(n as nat));
    push_item_chars(v, label, d.as_slice());
}

fn push_item_flag(v: &mut Vec<char>, label: &str, b: bool)
    ensures
        final(v)@ == old(v)@ + item(label@, bool_text(b)),
{
    if b {
        push_item(v, label, "true");
    } else {
        push_item(v, label, "false");
    }
}

fn push_lines(v: &mut Vec<char>, prefix: &str, entries: &Vec<String>)
    ensures
        final(v)@ == old(v)@ + lines_with(prefix@, string_views(entries@)),
{
    let ghost start = v@;
    let ghost es = string_views(entries@);
    let mut i: usize = 0;
    assert(es.take(0) =~= Seq::<Seq<char>>::empty());
    assert(v@ =~= start + lines_with(prefix@, es.take(0)));
    while i < entries.len()
        invariant
            i <= entries.len(),
            es == string_views(entries@),
            v@ == start + lines_with(prefix@, es.take(i as int)),
        decreases entries.len() - i,
    {
        append_str(v, prefix);
        append_str(v, entries[i].as_str());
        append_str(v, "\n");
        assert(es.take(i + 1).drop_last() =~= es.take(i as int));
        assert(es.take(i + 1).last() == entries@[i as int]@);
        assert(v@ =~= start + lines_with(prefix@, es.take(i + 1)));
        i = i + 1;
    }
    assert(es.take(entries.len() as int) =~= es);
}

/// The report's title, time and pipeline.
pub open spec fn head_text(generated_at: Seq<char>) -> Seq<char> {
    "# NPC Bridge Prompt Harness Report\n\nGenerated at: "@ + generated_at
        + "\n\n## Pipeline\n\nscenario spec -> generator -> cli payloads -> bridge/ollama run -> raw outputs -> grader -> report\n\n"@
}

/// The settings the cycle ran with.
pub open spec fn config_text(
    s: HarnessSettings,
    f: ReportFloats,
    feedback_count: usize,
    feedback_source: Option<String>,
) -> Seq<char> {
    "## Config\n\n"@ + item("Rubric version"@, s.rubric_version@) + item(
        "Seed"@,
        decimal_text(s.seed as nat),
    ) + item("Scenario families"@, join(string_views(s.scenario_families@), ", "@)) + item(
        "OpenAI model"@,
        s.openai_model@,
    ) + item("Request timeout seconds"@, decimal_text(s.request_timeout_seconds as nat)) + item(
        "Request retries"@,
        decimal_text(s.request_retries as nat),
    ) + item("Request retry backoff ms"@, decimal_text(s.request_retry_backoff_ms as nat)) + item(
        "Candidate family matching"@,
        bool_text(s.match_candidate_family),
    ) + item("Performance latency target (ms)"@, f.latency_target_ms@) + item(
        "Performance weights (quality/speed)"@,
        f.quality_weight@ + "` / `"@ + f.speed_weight@,
    ) + item("Promotion min operational score"@, f.min_operational_score@) + item(
        "Promotion min quality score"@,
        f.min_quality_score@,
    ) + item("Promotion min graded samples"@, decimal_text(s.promotion_min_graded_samples as nat))
        + item("Promotion max timeouts"@, decimal_text(s.promotion_max_timeouts as nat)) + item(
        "Iteration cycle count"@,
        decimal_text(s.cycle_count as nat),
    ) + item("Auto-promote winning template"@, bool_text(s.autopromote_to_prompts)) + item(
        "Prompts directory"@,
        s.prompts_dir@,
    ) + item("Promotion template path"@, s.promotion_template_path@) + item(
        "Family templates directory"@,
        s.family_templates_dir@,
    ) + item("Materialize family templates"@, bool_text(s.materialize_family_templates))
        + "- Prompt source during harness run: `inline system_prompt` (no prompt key lookup)\n"@
        + item("Previous recommendations injected"@, decimal_text(feedback_count as nat)) + item(
        "Previous recommendations source"@,
        match feedback_source {
            Some(x) => x@,
            None => "none"@,
        },
    ) + "- Objective: "@ + s.evaluation_objective@ + "\n\n"@
}

fn config_part(s: &HarnessSettings, f: &ReportFloats, feedback_count: usize, feedback_source: &Option<String>) -> (r:
    Vec<char>)
    ensures
        r@ == config_text(*s, *f, feedback_count, *feedback_source),
{
    let mut v = chars_of("## Config\n\n");
    push_item(&mut v, "Rubric version", s.rubric_version.as_str());
    push_item_number(&mut v, "Seed", s.seed);
    let fam = strings_to_chars(&s.scenario_families);
    let sep = chars_of(", ");
    let joined = join_chars(&fam, sep.as_slice());
    push_item_chars(&mut v, "Scenario families", joined.as_slice());
    push_item(&mut v, "OpenAI model", s.openai_model.as_str());
    push_item_number(&mut v, "Request timeout seconds", s.request_timeout_seconds);
    push_item_number(&mut v, "Request retries", s.request_retries as u64);
    push_item_number(&mut v, "Request retry backoff ms", s.request_retry_backoff_ms);
    push_item_flag(&mut v, "Candidate family matching", s.match_candidate_family);
    push_item(&mut v, "Performance latency target (ms)", f.latency_target_ms.as_str());
    let mut w = chars_of(f.quality_weight.as_str());
    append_str(&mut w, "` / `");
    append_str(&mut w, f.speed_weight.as_str());
    push_item_chars(&mut v, "Performance weights (quality/speed)", w.as_slice());
    push_item(&mut v, "Promotion min operational score", f.min_operational_score.as_str());
    push_item(&mut v, "Promotion min quality score", f.min_quality_score.as_str());
    push_item_number(&mut v, "Promotion min graded samples", s.promotion_min_graded_samples as u64);
    push_item_number(&mut v, "Promotion max timeouts", s.promotion_max_timeouts as u64);
    push_item_number(&mut v, "Iteration cycle count", s.cycle_count as u64);
    push_item_flag(&mut v, "Auto-promote winning template", s.autopromote_to_prompts);
    push_item(&mut v, "Prompts directory", s.prompts_dir.as_str());
    push_item(&mut v, "Promotion template path", s.promotion_template_path.as_str());
    push_item(&mut v, "Family templates directory", s.family_templates_dir.as_str());
    push_item_flag(&mut v, "Materialize family templates", s.materialize_family_templates);
    append_str(&mut v, "- Prompt source during harness run: `inline system_prompt` (no prompt key lookup)\n");
    push_item_number(&mut v, "Previous recommendations injected", feedback_count as u64);
    match feedback_source {
        Some(x) => push_item(&mut v, "Previous recommendations source", x.as_str()),
        None => push_item(&mut v, "Previous recommendations source", "none"),
    }
    append_str(&mut v, "- Objective: ");
    append_str(&mut v, s.evaluation_objective.as_str());
    append_str(&mut v, "\n\n");
    v
}

/// The preflight summary.
pub open spec fn preflight_text(p: ReportPreflight) -> Seq<char> {
    "## Preflight\n\n"@ + item("Passed"@, bool_text(p.passed)) + item("Success rate"@, p.success_rate@)
        + item("Timeout count"@, decimal_text(p.timeout_count as nat)) + item(
        "P95 latency"@,
        decimal_text(p.p95_latency_ms as nat),
    ) + "\n"@
}

fn preflight_part(p: &ReportPreflight) -> (r: Vec<char>)
    ensures
        r@ == preflight_text(*p),
{
    let mut v = chars_of("## Preflight\n\n");
    push_item_flag(&mut v, "Passed", p.passed);
    push_item(&mut v, "Success rate", p.success_rate.as_str());
    push_item_number(&mut v, "Timeout count", p.timeout_count as u64);
    let mut d: Vec<char> = Vec::new();
    push_decimal_u128(&mut d, p.p95_latency_ms);
    push_item_chars(&mut v, "P95 latency", d.as_slice());
    append_str(&mut v, "\n");
    v
}

/// The heading and column line of the runtime metrics table.
pub open spec fn metrics_head() -> Seq<char> {
    "| Candidate | Success | Errors | Timeouts | Skipped | Execution Success Rate | Operational Score (0-10) | Speed Score (0-10) | Performance Score (0-10) | Promotion Eligible | Avg Latency (ms) | P95 Latency (ms) |\n|---|---:|---:|---:|---:|---:|---:|---:|---:|---:|---:|---:|\n"@
}

/// One row of the runtime metrics table.
pub open spec fn metric_row_text(m: MetricRow) -> Seq<char> {
    "| "@ + m.candidate_key@ + " ("@ + m.candidate_title@ + ") | "@ + decimal_text(m.success_count as nat)
        + " | "@ + decimal_text(m.error_count as nat) + " | "@ + decimal_text(m.timeout_count as nat)
        + " | "@ + decimal_text(m.skipped_count as nat) + " | "@ + m.success_rate@ + " | "@
        + m.operational_score@ + " | "@ + m.speed_score@ + " | "@ + m.performance_score@ + " | "@
        + bool_text(m.promotion_eligible) + " | "@ + m.avg_latency_ms@ + " | "@ + decimal_text(
        m.p95_latency_ms as nat,
    ) + " |\n"@
}

/// The rows of the runtime metrics table, in order.
pub open spec fn metric_rows_text(ms: Seq<MetricRow>) -> Seq<char>
    decreases ms.len(),
{
    if ms.len() == 0 {
        Seq::empty()
    } else {
        metric_rows_text(ms.drop_last()) + metric_row_text(ms.last())
    }
}

fn metric_row_part(v: &mut Vec<char>, m: &MetricRow)
    ensures
        final(v)@ == old(v)@ + metric_row_text(*m),
{
    let ghost start = v@;
    let mut r = chars_of("| ");
    append_str(&mut r, m.candidate_key.as_str());
    append_str(&mut r, " (");
    append_str(&mut r, m.candidate_title.as_str());
    append_str(&mut r, ") | ");
    push_decimal(&mut r, m.success_count as u64);
    append_str(&mut r, " | ");
    push_decimal(&mut r, m.error_count as u64);
    append_str(&mut r, " | ");
    push_decimal(&mut r, m.timeout_count as u64);
    append_str(&mut r, " | ");
    push_decimal(&mut r, m.skipped_count as u64);
    append_str(&mut r, " | ");
    append_str(&mut r, m.success_rate.as_str());
    append_str(&mut r, " | ");
    append_str(&mut r, m.operational_score.as_str());
    append_str(&mut r, " | ");
    append_str(&mut r, m.speed_score.as_str());
    append_str(&mut r, " | ");
    append_str(&mut r, m.performance_score.as_str());
    append_str(&mut r, " | ");
    if m.promotion_eligible {
        append_str(&mut r, "true");
    } else {
        append_str(&mut r, "false");
    }
    append_str(&mut r, " | ");
    append_str(&mut r, m.avg_latency_ms.as_str());
    append_str(&mut r, " | ");
    push_decimal_u128(&mut r, m.p95_latency_ms);
    append_str(&mut r, " |\n");
    assert(r@ == metric_row_text(*m));
    append_chars(v, r.as_slice());
}

fn metric_rows_part(v: &mut Vec<char>, ms: &Vec<MetricRow>)
    ensures
        final(v)@ == old(v)@ + metric_rows_text(ms@),
{
    let ghost start = v@;
    let mut i: usize = 0;
    assert(ms@.take(0) =~= Seq::<MetricRow>::empty());
    assert(v@ =~= start + metric_rows_text(ms@.take(0)));
    while i < ms.len()
        invariant
            i <= ms.len(),
            v@ == start + metric_rows_text(ms@.take(i as int)),
        decreases ms.len() - i,
    {
        metric_row_part(v, &ms[i]);
        assert(ms@.take(i + 1).drop_last() =~= ms@.take(i as int));
        assert(ms@.take(i + 1).last() == ms@[i as int]);
        assert(v@ =~= start + metric_rows_text(ms@.take(i + 1)));
        i = i + 1;
    }
    assert(ms@.take(ms.len() as int) =~= ms@);
}

/// The quality section of one candidate.
pub open spec fn score_text(s: ScoreSection) -> Seq<char> {
    "### "@ + s.candidate_key@ + " ("@ + s.candidate_title@ + ")\n\n"@ + match s.execution {
        Some(e) => item("Execution success rate"@, e.success_rate@) + item(
            "Operational score (0-10)"@,
            e.operational_score@,
        ),
        None => Seq::empty(),
    } + item("Quality graded samples"@, decimal_text(s.graded_sample_count as nat)) + item(
        "Speed score (0-10)"@,
        s.speed_score@,
    ) + item("Performance score (0-10)"@, s.performance_score@) + item(
        "Promotion eligible"@,
        bool_text(s.promotion_eligible),
    ) + if s.promotion_eligible {
        Seq::empty()
    } else {
        "- Promotion blockers:\n"@ + lines_with("  - "@, string_views(s.promotion_blockers@))
    } + if s.graded_sample_count == 0 {
        "- Quality score: `N/A` (no completed samples to grade)\n\n"@
    } else {
        item("Quality overall"@, s.quality.overall@) + item("Role fidelity"@, s.quality.role_fidelity@)
            + item("Format compliance"@, s.quality.format_compliance@) + item(
            "Immersion"@,
            s.quality.immersion@,
        ) + item("Context use"@, s.quality.context_use@) + "- Top failure tags:\n"@ + lines_with(
            "  - "@,
            string_views(s.quality.top_failures@),
        ) + "- Prompt change ideas:\n"@ + lines_with(
            "  - "@,
            string_views(s.quality.prompt_change_ideas@),
        ) + "\n"@
    }
}

/// The quality sections of the candidates, in order.
pub open spec fn scores_text(ss: Seq<ScoreSection>) -> Seq<char>
    decreases ss.len(),
{
    if ss.len() == 0 {
        Seq::empty()
    } else {
        scores_text(ss.drop_last()) + score_text(ss.last())
    }
}

fn score_part(v: &mut Vec<char>, s: &ScoreSection)
    ensures
        final(v)@ == old(v)@ + score_text(*s),
{
    let mut h = chars_of("### ");
    append_str(&mut h, s.candidate_key.as_str());
    append_str(&mut h, " (");
    append_str(&mut h, s.candidate_title.as_str());
    append_str(&mut h, ")\n\n");
    let mut e: Vec<char> = Vec::new();
    match &s.execution {
        Some(x) => {
            push_item(&mut e, "Execution success rate", x.success_rate.as_str());
            push_item(&mut e, "Operational score (0-10)", x.operational_score.as_str());
        },
        None => {},
    }
    let mut m: Vec<char> = Vec::new();
    push_item_number(&mut m, "Quality graded samples", s.graded_sample_count as u64);
    push_item(&mut m, "Speed score (0-10)", s.speed_score.as_str());
    push_item(&mut m, "Performance score (0-10)", s.performance_score.as_str());
    push_item_flag(&mut m, "Promotion eligible", s.promotion_eligible);
    let mut b: Vec<char> = Vec::new();
    if !s.promotion_eligible {
        append_str(&mut b, "- Promotion blockers:\n");
        push_lines(&mut b, "  - ", &s.promotion_blockers);
    }
    let mut q: Vec<char> = Vec::new();
    if s.graded_sample_count == 0 {
        append_str(&mut q, "- Quality score: `N/A` (no completed samples to grade)\n\n");
    } else {
        push_item(&mut q, "Quality overall", s.quality.overall.as_str());
        push_item(&mut q, "Role fidelity", s.quality.role_fidelity.as_str());
        push_item(&mut q, "Format compliance", s.quality.format_compliance.as_str());
        push_item(&mut q, "Immersion", s.quality.immersion.as_str());
        push_item(&mut q, "Context use", s.quality.context_use.as_str());
        append_str(&mut q, "- Top failure tags:\n");
        push_lines(&mut q, "  - ", &s.quality.top_failures);
        append_str(&mut q, "- Prompt change ideas:\n");
        push_lines(&mut q, "  - ", &s.quality.prompt_change_ideas);
        append_str(&mut q, "\n");
    }
    let ghost hv = h@;
    let ghost ev = e@;
    let ghost mv = m@;
    let ghost bv = b@;
    let ghost qv = q@;
    assert(ev =~= match s.execution {
        Some(x) => item("Execution success rate"@, x.success_rate@) + item(
            "Operational score (0-10)"@,
            x.operational_score@,
        ),
        None => Seq::<char>::empty(),
    });
    assert(bv =~= if s.promotion_eligible {
        Seq::<char>::empty()
    } else {
        "- Promotion blockers:\n"@ + lines_with("  - "@, string_views(s.promotion_blockers@))
    });
    if s.graded_sample_count != 0 {
        assert(qv =~= item("Quality overall"@, s.quality.overall@) + item(
            "Role fidelity"@,
            s.quality.role_fidelity@,
        ) + item("Format compliance"@, s.quality.format_compliance@) + item(
            "Immersion"@,
            s.quality.immersion@,
        ) + item("Context use"@, s.quality.context_use@) + "- Top failure tags:\n"@ + lines_with(
            "  - "@,
            string_views(s.quality.top_failures@),
        ) + "- Prompt change ideas:\n"@ + lines_with(
            "  - "@,
            string_views(s.quality.prompt_change_ideas@),
        ) + "\n"@);
    }
    append_chars(&mut h, e.as_slice());
    append_chars(&mut h, m.as_slice());
    append_chars(&mut h, b.as_slice());
    append_chars(&mut h, q.as_slice());
    assert(h@ =~= score_text(*s));
    append_chars(v, h.as_slice());
}

fn scores_part(v: &mut Vec<char>, ss: &Vec<ScoreSection>)
    ensures
        final(v)@ == old(v)@ + scores_text(ss@),
{
    let ghost start = v@;
    let mut i: usize = 0;
    assert(ss@.take(0) =~= Seq::<ScoreSection>::empty());
    assert(v@ =~= start + scores_text(ss@.take(0)));
    while i < ss.len()
        invariant
            i <= ss.len(),
            v@ == start + scores_text(ss@.take(i as int)),
        decreases ss.len() - i,
    {
        score_part(v, &ss[i]);
        assert(ss@.take(i + 1).drop_last() =~= ss@.take(i as int));
        assert(ss@.take(i + 1).last() == ss@[i as int]);
        assert(v@ =~= start + scores_text(ss@.take(i + 1)));
        i = i + 1;
    }
    assert(ss@.take(ss.len() as int) =~= ss@);
}

/// The whole report of a cycle.
pub open spec fn full_report_text(r: ReportInputs) -> Seq<char> {
    head_text(r.generated_at@) + config_text(r.settings, r.floats, r.feedback_count, r.feedback_source)
        + preflight_text(r.preflight) + "## Lane 1 - Test Generation\n\n"@ + r.test_cases_json@
        + "\n\n## Lane 1 - Prompt Candidates\n\n"@ + r.candidates_json@ + "\n\n## Runtime Metrics\n\n"@
        + metrics_head() + metric_rows_text(r.metrics@)
        + "\n## Lane 2 - Quality Summary (Completed Samples Only)\n\n"@ + item(
        "Promotion gate winner"@,
        match r.promoted_candidate {
            Some(x) => x@,
            None => "none"@,
        },
    ) + item("Best candidate"@, r.best_candidate@) + item("Grader rubric version"@, r.grader_rubric_version@)
        + "\n"@ + scores_text(r.scores@) + "## Global Recommendations\n\n"@ + lines_with(
        "- "@,
        string_views(r.global_recommendations@),
    ) + "\n## Raw Samples\n\n"@ + r.samples_json@ + "\n\n## Raw Grader Output\n\n"@ + r.grader_json@
        + "\n"@
}

/// Builds the markdown report of a cycle (see `full_report_text`).
pub fn full_report_markdown(r: &ReportInputs) -> (md: String)
    ensures
        md@ == full_report_text(*r),
{
    let mut v = chars_of("# NPC Bridge Prompt Harness Report\n\nGenerated at: ");
    append_str(&mut v, r.generated_at.as_str());
    append_str(
        &mut v,
        "\n\n## Pipeline\n\nscenario spec -> generator -> cli payloads -> bridge/ollama run -> raw outputs -> grader -> report\n\n",
    );
    let c = config_part(&r.settings, &r.floats, r.feedback_count, &r.feedback_source);
    append_chars(&mut v, c.as_slice());
    let p = preflight_part(&r.preflight);
    append_chars(&mut v, p.as_slice());
    append_str(&mut v, "## Lane 1 - Test Generation\n\n");
    append_str(&mut v, r.test_cases_json.as_str());
    append_str(&mut v, "\n\n## Lane 1 - Prompt Candidates\n\n");
    append_str(&mut v, r.candidates_json.as_str());
    append_str(&mut v, "\n\n## Runtime Metrics\n\n");
    append_str(
        &mut v,
        "| Candidate | Success | Errors | Timeouts | Skipped | Execution Success Rate | Operational Score (0-10) | Speed Score (0-10) | Performance Score (0-10) | Promotion Eligible | Avg Latency (ms) | P95 Latency (ms) |\n|---|---:|---:|---:|---:|---:|---:|---:|---:|---:|---:|---:|\n",
    );
    metric_rows_part(&mut v, &r.metrics);
    append_str(&mut v, "\n## Lane 2 - Quality Summary (Completed Samples Only)\n\n");
    match &r.promoted_candidate {
        Some(x) => push_item(&mut v, "Promotion gate winner", x.as_str()),
        None => push_item(&mut v, "Promotion gate winner", "none"),
    }
    push_item(&mut v, "Best candidate", r.best_candidate.as_str());
    push_item(&mut v, "Grader rubric version", r.grader_rubric_version.as_str());
    append_str(&mut v, "\n");
    scores_part(&mut v, &r.scores);
    append_str(&mut v, "## Global Recommendations\n\n");
    push_lines(&mut v, "- ", &r.global_recommendations);
    append_str(&mut v, "\n## Raw Samples\n\n");
    append_str(&mut v, r.samples_json.as_str());
    append_str(&mut v, "\n\n## Raw Grader Output\n\n");
    append_str(&mut v, r.grader_json.as_str());
    append_str(&mut v, "\n");
    string_from_chars(v.as_slice())
}

} // verus!
