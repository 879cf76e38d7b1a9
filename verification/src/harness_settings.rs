//! The harness's settings: each read from its environment variable, or its
//! default when the variable is unset or unreadable. The floating-point
//! settings (temperature, thresholds and weights) are read by the caller.
use vstd::prelude::*;
use crate::chat::value_or;
use crate::env_config::{EnvLookup, LookupView};
use crate::harness::{default_families, env_bool, env_number, flag_value, nonempty_trimmed, number_value, parse_scenario_families};
use crate::text::{append_str, chars_of, decimal_text, push_decimal, split_char, string_from_chars, string_views, to_owned_string};

verus! {
/// Default of `OPENAI_MODEL`.
pub const DEFAULT_OPENAI_MODEL: &'static str = "gpt-4.1-mini";
/// Default of `HARNESS_COMPOSE_FILE`.
pub const DEFAULT_COMPOSE_FILE: &'static str = "docker-compose.yml";
/// Default of `HARNESS_NATS_URL`.
pub const DEFAULT_NATS_URL: &'static str = "nats://127.0.0.1:4222";
/// Default of `HARNESS_REQUEST_SUBJECT`.
pub const DEFAULT_REQUEST_SUBJECT: &'static str = "npc.interactions.request";
/// Default of `HARNESS_RESPONSE_SUBJECT`.
pub const DEFAULT_RESPONSE_SUBJECT: &'static str = "npc.interactions.response";
/// Default of `HARNESS_NATS_MONITOR_SUBSZ_URL`.
pub const DEFAULT_NATS_MONITOR_SUBSZ_URL: &'static str = "http://127.0.0.1:8222/subsz?subs=1";
/// Default of `HARNESS_PROMPTS_DIR`.
pub const DEFAULT_PROMPTS_DIR: &'static str = "npc-interactions-bridge/prompts";
/// Default of `HARNESS_PROMOTION_TEMPLATE_PATH`.
pub const DEFAULT_PROMOTION_TEMPLATE_PATH: &'static str = "templates/auto/system.prompt";
/// Default of `HARNESS_FAMILY_TEMPLATES_DIR`.
pub const DEFAULT_FAMILY_TEMPLATES_DIR: &'static str = "templates/families";
/// Default of `HARNESS_EVAL_OBJECTIVE`.
pub const DEFAULT_EVALUATION_OBJECTIVE: &'static str = "Optimize NPC immersion, role consistency, concise usefulness, and low latency for in-game dialogue.";
/// Default of `HARNESS_RUBRIC_VERSION`.
pub const DEFAULT_RUBRIC_VERSION: &'static str = "rubric_v1";
/// Directory and name prefix of the default report file.
pub const DEFAULT_REPORT_PREFIX: &'static str = "npc-interactions-bridge/reports/prompt-harness-report-";

/// What the environment holds for each setting.
pub struct HarnessEnv {
    /// `OPENAI_API_KEY`
    pub openai_api_key: EnvLookup,
    /// `OPENAI_MODEL`
    pub openai_model: EnvLookup,
    /// `HARNESS_COMPOSE_FILE`
    pub compose_file: EnvLookup,
    /// `HARNESS_AUTO_START_SERVICES`
    pub auto_start_services: EnvLookup,
    /// `HARNESS_PREFLIGHT_ONLY`
    pub preflight_only: EnvLookup,
    /// `HARNESS_REQUIRE_STABLE_BEFORE_OPENAI`
    pub require_stable_before_openai: EnvLookup,
    /// `HARNESS_NATS_URL`
    pub nats_url: EnvLookup,
    /// `HARNESS_REQUEST_SUBJECT`
    pub request_subject: EnvLookup,
    /// `HARNESS_RESPONSE_SUBJECT`
    pub response_subject: EnvLookup,
    /// `HARNESS_NATS_MONITOR_SUBSZ_URL`
    pub nats_monitor_subsz_url: EnvLookup,
    /// `HARNESS_PROMPT_CANDIDATES`
    pub prompt_candidates: EnvLookup,
    /// `HARNESS_TEST_CASES`
    pub test_cases: EnvLookup,
    /// `HARNESS_SCENARIO_FAMILIES`
    pub scenario_families: EnvLookup,
    /// `HARNESS_SEED`
    pub seed: EnvLookup,
    /// `HARNESS_REQUEST_TIMEOUT_SECONDS`
    pub request_timeout_seconds: EnvLookup,
    /// `HARNESS_REQUEST_MAX_TOKENS`
    pub request_max_tokens: EnvLookup,
    /// `HARNESS_REQUEST_RETRIES`
    pub request_retries: EnvLookup,
    /// `HARNESS_REQUEST_RETRY_BACKOFF_MS`
    pub request_retry_backoff_ms: EnvLookup,
    /// `HARNESS_STRICT_SERIAL_MODE`
    pub strict_serial_mode: EnvLookup,
    /// `HARNESS_MATCH_CANDIDATE_FAMILY`
    pub match_candidate_family: EnvLookup,
    /// `HARNESS_INCLUDE_PREVIOUS_RECOMMENDATIONS`
    pub include_previous_recommendations: EnvLookup,
    /// `HARNESS_PREVIOUS_REPORT`
    pub previous_report_path: EnvLookup,
    /// `HARNESS_PREVIOUS_RECOMMENDATIONS_LIMIT`
    pub previous_recommendations_limit: EnvLookup,
    /// `HARNESS_PREFLIGHT_MAX_TIMEOUTS`
    pub preflight_max_timeouts: EnvLookup,
    /// `HARNESS_PROMOTION_MIN_GRADED_SAMPLES`
    pub promotion_min_graded_samples: EnvLookup,
    /// `HARNESS_PROMOTION_MAX_TIMEOUTS`
    pub promotion_max_timeouts: EnvLookup,
    /// `HARNESS_CYCLE_COUNT`
    pub cycle_count: EnvLookup,
    /// `HARNESS_AUTOPROMOTE_TO_PROMPTS`
    pub autopromote_to_prompts: EnvLookup,
    /// `HARNESS_PROMPTS_DIR`
    pub prompts_dir: EnvLookup,
    /// `HARNESS_PROMOTION_TEMPLATE_PATH`
    pub promotion_template_path: EnvLookup,
    /// `HARNESS_FAMILY_TEMPLATES_DIR`
    pub family_templates_dir: EnvLookup,
    /// `HARNESS_MATERIALIZE_FAMILY_TEMPLATES`
    pub materialize_family_templates: EnvLookup,
    /// `HARNESS_OUTPUT_REPORT`
    pub output_report_path: EnvLookup,
    /// `HARNESS_EVAL_OBJECTIVE`
    pub evaluation_objective: EnvLookup,
    /// `HARNESS_RUBRIC_VERSION`
    pub rubric_version: EnvLookup,
}

/// The harness's settings, but for those in floating point.
#[derive(Debug)]
pub struct HarnessSettings {
    pub openai_api_key: Option<String>,
    pub openai_model: String,
    pub compose_file: String,
    pub auto_start_services: bool,
    pub preflight_only: bool,
    pub require_stable_before_openai: bool,
    pub nats_url: String,
    pub request_subject: String,
    pub response_subject: String,
    pub nats_monitor_subsz_url: String,
    pub prompt_candidates: usize,
    pub test_cases: usize,
    pub scenario_families: Vec<String>,
    pub seed: u64,
    pub request_timeout_seconds: u64,
    pub request_max_tokens: u32,
    pub request_retries: usize,
    pub request_retry_backoff_ms: u64,
    pub strict_serial_mode: bool,
    pub match_candidate_family: bool,
    pub include_previous_recommendations: bool,
    pub previous_report_path: Option<String>,
    pub previous_recommendations_limit: usize,
    pub preflight_max_timeouts: usize,
    pub promotion_min_graded_samples: usize,
    pub promotion_max_timeouts: usize,
    pub cycle_count: usize,
    pub autopromote_to_prompts: bool,
    pub prompts_dir: String,
    pub promotion_template_path: String,
    pub family_templates_dir: String,
    pub materialize_family_templates: bool,
    pub output_report_path: String,
    pub evaluation_objective: String,
    pub rubric_version: String,
}

/// An optional setting: its value if set and readable.
pub open spec fn optional_value(lookup: LookupView) -> Option<Seq<char>> {
    match lookup {
        LookupView::Present(v) => Some(v),
        _ => None,
    }
}

fn optional_setting(lookup: EnvLookup) -> (r: Option<String>)
    ensures
        crate::text::opt_string_view(r) == optional_value(lookup@),
{
    match lookup {
        EnvLookup::Present(v) => Some(v),
        _ => None,
    }
}

fn text_setting(lookup: EnvLookup, default: &str) -> (r: String)
    ensures
        r@ == value_or(lookup@, default@),
{
    match lookup {
        EnvLookup::Present(v) => v,
        _ => to_owned_string(default),
    }
}

/// The scenario families: the comma-separated list set, trimmed and without
/// empty entries, or the three default families when it is unset.
pub open spec fn families_value(lookup: LookupView) -> Seq<Seq<char>> {
    match lookup {
        LookupView::Present(v) => nonempty_trimmed(split_char(v, ',')),
        _ => default_families(),
    }
}

fn families_setting(lookup: EnvLookup) -> (r: Vec<String>)
    ensures
        string_views(r@) == families_value(lookup@),
{
    match lookup {
        EnvLookup::Present(v) => parse_scenario_families(v.as_str()),
        _ => {
            let r = vec![
                to_owned_string("merchant_greeting"),
                to_owned_string("guard_challenge"),
                to_owned_string("busy_worker_reply"),
            ];
            assert(string_views(r@) =~= default_families());
            r
        },
    }
}

/// The report path: the one set, or the reports directory with a file named
/// after the time in seconds.
pub open spec fn report_value(lookup: LookupView, unix_secs: u64) -> Seq<char> {
    value_or(lookup, DEFAULT_REPORT_PREFIX@ + decimal_text(unix_secs as nat) + ".md"@)
}

fn report_setting(lookup: EnvLookup, unix_secs: u64) -> (r: String)
    ensures
        r@ == report_value(lookup@, unix_secs),
{
    match lookup {
        EnvLookup::Present(v) => v,
        _ => {
            let mut c = chars_of(DEFAULT_REPORT_PREFIX);
            push_decimal(&mut c, unix_secs);
            append_str(&mut c, ".md");
            string_from_chars(c.as_slice())
        },
    }
}

/// The number of cycles: the count set, or one, and never less than one.
pub open spec fn cycles_value(lookup: LookupView) -> usize {
    let n = number_value::<usize>(lookup, 1);
    if n < 1 { 1 } else { n }
}

impl HarnessSettings {
    /// Reads the settings; `unix_secs` names the default report file.
    pub fn from_env(env: HarnessEnv, unix_secs: u64) -> (r: HarnessSettings)
        ensures
            crate::text::opt_string_view(r.openai_api_key) == optional_value(env.openai_api_key@),
            r.openai_model@ == value_or(env.openai_model@, DEFAULT_OPENAI_MODEL@),
            r.compose_file@ == value_or(env.compose_file@, DEFAULT_COMPOSE_FILE@),
            r.auto_start_services == flag_value(env.auto_start_services@, true),
            r.preflight_only == flag_value(env.preflight_only@, false),
            r.require_stable_before_openai == flag_value(env.require_stable_before_openai@, true),
            r.nats_url@ == value_or(env.nats_url@, DEFAULT_NATS_URL@),
            r.request_subject@ == value_or(env.request_subject@, DEFAULT_REQUEST_SUBJECT@),
            r.response_subject@ == value_or(env.response_subject@, DEFAULT_RESPONSE_SUBJECT@),
            r.nats_monitor_subsz_url@ == value_or(env.nats_monitor_subsz_url@, DEFAULT_NATS_MONITOR_SUBSZ_URL@),
            r.prompt_candidates == number_value::<usize>(env.prompt_candidates@, 3),
            r.test_cases == number_value::<usize>(env.test_cases@, 12),
            string_views(r.scenario_families@) == families_value(env.scenario_families@),
            r.seed == number_value::<u64>(env.seed@, 42),
            r.request_timeout_seconds == number_value::<u64>(env.request_timeout_seconds@, 300),
            r.request_max_tokens == number_value::<u32>(env.request_max_tokens@, 64),
            r.request_retries == number_value::<usize>(env.request_retries@, 2),
            r.request_retry_backoff_ms == number_value::<u64>(env.request_retry_backoff_ms@, 1500),
            r.strict_serial_mode == flag_value(env.strict_serial_mode@, true),
            r.match_candidate_family == flag_value(env.match_candidate_family@, true),
            r.include_previous_recommendations == flag_value(env.include_previous_recommendations@, true),
            crate::text::opt_string_view(r.previous_report_path) == optional_value(env.previous_report_path@),
            r.previous_recommendations_limit == number_value::<usize>(env.previous_recommendations_limit@, 20),
            r.preflight_max_timeouts == number_value::<usize>(env.preflight_max_timeouts@, 2),
            r.promotion_min_graded_samples == number_value::<usize>(env.promotion_min_graded_samples@, 6),
            r.promotion_max_timeouts == number_value::<usize>(env.promotion_max_timeouts@, 0),
            r.cycle_count == cycles_value(env.cycle_count@),
            r.cycle_count >= 1,
            r.autopromote_to_prompts == flag_value(env.autopromote_to_prompts@, false),
            r.prompts_dir@ == value_or(env.prompts_dir@, DEFAULT_PROMPTS_DIR@),
            r.promotion_template_path@ == value_or(env.promotion_template_path@, DEFAULT_PROMOTION_TEMPLATE_PATH@),
            r.family_templates_dir@ == value_or(env.family_templates_dir@, DEFAULT_FAMILY_TEMPLATES_DIR@),
            r.materialize_family_templates == flag_value(env.materialize_family_templates@, true),
            r.output_report_path@ == report_value(env.output_report_path@, unix_secs),
            r.evaluation_objective@ == value_or(env.evaluation_objective@, DEFAULT_EVALUATION_OBJECTIVE@),
            r.rubric_version@ == value_or(env.rubric_version@, DEFAULT_RUBRIC_VERSION@),
    {
        let openai_api_key = optional_setting(env.openai_api_key);
        let openai_model = text_setting(env.openai_model, DEFAULT_OPENAI_MODEL);
        let compose_file = text_setting(env.compose_file, DEFAULT_COMPOSE_FILE);
        let auto_start_services = env_bool(env.auto_start_services, true);
        let preflight_only = env_bool(env.preflight_only, false);
        let require_stable_before_openai = env_bool(env.require_stable_before_openai, true);
        let nats_url = text_setting(env.nats_url, DEFAULT_NATS_URL);
        let request_subject = text_setting(env.request_subject, DEFAULT_REQUEST_SUBJECT);
        let response_subject = text_setting(env.response_subject, DEFAULT_RESPONSE_SUBJECT);
        let nats_monitor_subsz_url = text_setting(env.nats_monitor_subsz_url, DEFAULT_NATS_MONITOR_SUBSZ_URL);
        let prompt_candidates = env_number::<usize>(env.prompt_candidates, 3);
        let test_cases = env_number::<usize>(env.test_cases, 12);
        let scenario_families = families_setting(env.scenario_families);
        let seed = env_number::<u64>(env.seed, 42);
        let request_timeout_seconds = env_number::<u64>(env.request_timeout_seconds, 300);
        let request_max_tokens = env_number::<u32>(env.request_max_tokens, 64);
        let request_retries = env_number::<usize>(env.request_retries, 2);
        let request_retry_backoff_ms = env_number::<u64>(env.request_retry_backoff_ms, 1500);
        let strict_serial_mode = env_bool(env.strict_serial_mode, true);
        let match_candidate_family = env_bool(env.match_candidate_family, true);
        let include_previous_recommendations = env_bool(env.include_previous_recommendations, true);
        let previous_report_path = optional_setting(env.previous_report_path);
        let previous_recommendations_limit = env_number::<usize>(env.previous_recommendations_limit, 20);
        let preflight_max_timeouts = env_number::<usize>(env.preflight_max_timeouts, 2);
        let promotion_min_graded_samples = env_number::<usize>(env.promotion_min_graded_samples, 6);
        let promotion_max_timeouts = env_number::<usize>(env.promotion_max_timeouts, 0);
        let cycle_count = { let n = env_number::<usize>(env.cycle_count, 1); if n < 1 { 1 } else { n } };
        let autopromote_to_prompts = env_bool(env.autopromote_to_prompts, false);
        let prompts_dir = text_setting(env.prompts_dir, DEFAULT_PROMPTS_DIR);
        let promotion_template_path = text_setting(env.promotion_template_path, DEFAULT_PROMOTION_TEMPLATE_PATH);
        let family_templates_dir = text_setting(env.family_templates_dir, DEFAULT_FAMILY_TEMPLATES_DIR);
        let materialize_family_templates = env_bool(env.materialize_family_templates, true);
        let output_report_path = report_setting(env.output_report_path, unix_secs);
        let evaluation_objective = text_setting(env.evaluation_objective, DEFAULT_EVALUATION_OBJECTIVE);
        let rubric_version = text_setting(env.rubric_version, DEFAULT_RUBRIC_VERSION);
        HarnessSettings {
            openai_api_key,
            openai_model,
            compose_file,
            auto_start_services,
            preflight_only,
            require_stable_before_openai,
            nats_url,
            request_subject,
            response_subject,
            nats_monitor_subsz_url,
            prompt_candidates,
            test_cases,
            scenario_families,
            seed,
            request_timeout_seconds,
            request_max_tokens,
            request_retries,
            request_retry_backoff_ms,
            strict_serial_mode,
            match_candidate_family,
            include_previous_recommendations,
            previous_report_path,
            previous_recommendations_limit,
            preflight_max_timeouts,
            promotion_min_graded_samples,
            promotion_max_timeouts,
            cycle_count,
            autopromote_to_prompts,
            prompts_dir,
            promotion_template_path,
            family_templates_dir,
            materialize_family_templates,
            output_report_path,
            evaluation_objective,
            rubric_version,
        }
    }
}

} // verus!
