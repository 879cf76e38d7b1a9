use idklol::auth::{IntrospectionOutcome, JwtValidatorService, UserClaims, ValidationStep};
use idklol::bridge::{
    answer_subject, interaction_answer, prompts_reload_lines, unreadable_request_answer, InteractionAnswer,
    ModelReply,
};
use idklol::candidates::{select_candidates, ProposedCandidate};
use idklol::characters::{creation_step, CharacterStatus, CreationAction, CreationEvent};
use idklol::cycles::{after_preflight, cycles_go_on, promotion_step, AfterPreflight, PromotionStep};
use idklol::env_config::EnvLookup;
use idklol::harness::CandidatePrompt;
use idklol::harness_settings::{HarnessEnv, HarnessSettings};
use idklol::prompts::{LoadedPrompt, PromptPath, PromptStore};
use idklol::harness::extract_recommendations_from_report;
use idklol::report::{
    full_report_markdown, ExecutionScores, MetricRow, QualityScores, ReportFloats, ReportInputs, ReportPreflight,
    ScoreSection,
};
use idklol::requests::{admin_step, AdminEvent, AdminAccess};
use idklol::sampling::{
    next_sample_action, phase_after, sent_sample, skipped_sample, BridgeOutcome, BridgeReply, RunPhase,
    SampleAction,
};

fn set(v: &str) -> EnvLookup {
    EnvLookup::Present(v.to_string())
}

#[test]
fn samples_are_skipped_once_a_strict_run_times_out() {
    assert_eq!(next_sample_action(RunPhase::Running, 0), SampleAction::Send);
    let timeout = BridgeOutcome::Failed("timeout waiting for bridge reply".to_string());
    let halted = phase_after(true, RunPhase::Running, 1, &timeout);
    assert_eq!(halted, RunPhase::HaltedIn(1));
    assert_eq!(phase_after(false, RunPhase::Running, 1, &timeout), RunPhase::Running);
    let refused = BridgeOutcome::Failed("connection refused".to_string());
    assert_eq!(phase_after(true, RunPhase::Running, 1, &refused), RunPhase::Running);
    assert_eq!(
        next_sample_action(halted, 1),
        SampleAction::Skip("skipped after timeout to enforce strict serial mode".to_string())
    );
    assert_eq!(
        next_sample_action(halted, 2),
        SampleAction::Skip("skipped after global timeout to enforce strict serial mode".to_string())
    );

    let skipped = skipped_sample("prompt_v2", "t-3", "skipped".to_string());
    assert_eq!(skipped.candidate_key, "prompt_v2");
    assert_eq!(skipped.latency_ms, 0);
    assert!(skipped.response.is_none());

    let reply = BridgeOutcome::Replied(BridgeReply {
        response: Some("Welcome!".to_string()),
        model: Some("llama".to_string()),
        error: None,
    });
    let sent = sent_sample("prompt_v1", "t-1", reply, 120);
    assert_eq!(sent.response.as_deref(), Some("Welcome!"));
    assert_eq!(sent.latency_ms, 120);
    assert!(sent.bridge_error.is_none());
    let unreadable = sent_sample("prompt_v1", "t-2", BridgeOutcome::Unreadable("eof".to_string()), 5);
    assert_eq!(unreadable.bridge_error.as_deref(), Some("parse error: eof"));
    assert!(unreadable.model.is_none());
}

fn candidate(key: &str) -> CandidatePrompt {
    CandidatePrompt { key: key.to_string(), title: "T".to_string(), system_prompt: "S".to_string() }
}

#[test]
fn harness_course_after_preflight_and_cycles() {
    assert_eq!(after_preflight(true, false, false), AfterPreflight::GateFailed);
    assert_eq!(after_preflight(true, true, false), AfterPreflight::GateFailed);
    assert_eq!(after_preflight(false, true, false), AfterPreflight::PreflightOnly);
    assert_eq!(after_preflight(true, false, true), AfterPreflight::RunCycles);

    let candidates = vec![candidate("prompt_v1"), candidate("prompt_v2"), candidate("prompt_v2")];
    let families: Vec<String> = Vec::new();
    assert_eq!(promotion_step(false, Some("prompt_v1"), &candidates, &families), PromotionStep::Off);
    assert_eq!(promotion_step(true, None, &candidates, &families), PromotionStep::NoEligible);
    assert_eq!(promotion_step(true, Some("prompt_v9"), &candidates, &families), PromotionStep::WinnerMissing);
    assert_eq!(
        promotion_step(true, Some("prompt_v2"), &candidates, &families),
        PromotionStep::Promote { index: 1, global: true }
    );
    let scoped = vec!["merchant_greeting".to_string(), "guard_challenge".to_string()];
    let merchant = vec![CandidatePrompt {
        key: "merchant_focus".to_string(),
        title: "Merchant".to_string(),
        system_prompt: "Trade talk".to_string(),
    }];
    assert_eq!(
        promotion_step(true, Some("merchant_focus"), &merchant, &scoped),
        PromotionStep::Promote { index: 0, global: false }
    );
    assert!(!cycles_go_on(PromotionStep::NoEligible));
    assert!(!cycles_go_on(PromotionStep::WinnerMissing));
    assert!(cycles_go_on(PromotionStep::Off));
}

fn unset_env() -> HarnessEnv {
    HarnessEnv {
        openai_api_key: EnvLookup::NotPresent,
        openai_model: EnvLookup::NotPresent,
        compose_file: EnvLookup::NotPresent,
        auto_start_services: EnvLookup::NotPresent,
        preflight_only: EnvLookup::NotPresent,
        require_stable_before_openai: EnvLookup::NotPresent,
        nats_url: EnvLookup::NotPresent,
        request_subject: EnvLookup::NotPresent,
        response_subject: EnvLookup::NotPresent,
        nats_monitor_subsz_url: EnvLookup::NotPresent,
        prompt_candidates: EnvLookup::NotPresent,
        test_cases: EnvLookup::NotPresent,
        scenario_families: EnvLookup::NotPresent,
        seed: EnvLookup::NotPresent,
        request_timeout_seconds: EnvLookup::NotPresent,
        request_max_tokens: EnvLookup::NotPresent,
        request_retries: EnvLookup::NotPresent,
        request_retry_backoff_ms: EnvLookup::NotPresent,
        strict_serial_mode: EnvLookup::NotPresent,
        match_candidate_family: EnvLookup::NotPresent,
        include_previous_recommendations: EnvLookup::NotPresent,
        previous_report_path: EnvLookup::NotPresent,
        previous_recommendations_limit: EnvLookup::NotPresent,
        preflight_max_timeouts: EnvLookup::NotPresent,
        promotion_min_graded_samples: EnvLookup::NotPresent,
        promotion_max_timeouts: EnvLookup::NotPresent,
        cycle_count: EnvLookup::NotPresent,
        autopromote_to_prompts: EnvLookup::NotPresent,
        prompts_dir: EnvLookup::NotPresent,
        promotion_template_path: EnvLookup::NotPresent,
        family_templates_dir: EnvLookup::NotPresent,
        materialize_family_templates: EnvLookup::NotPresent,
        output_report_path: EnvLookup::NotPresent,
        evaluation_objective: EnvLookup::NotPresent,
        rubric_version: EnvLookup::NotPresent,
    }
}

#[test]
fn harness_settings_fall_back_to_defaults() {
    let s = HarnessSettings::from_env(unset_env(), 1700000000);
    assert_eq!(s.openai_api_key, None);
    assert_eq!(s.openai_model, "gpt-4.1-mini");
    assert_eq!(s.nats_url, "nats://127.0.0.1:4222");
    assert_eq!(s.prompt_candidates, 3);
    assert_eq!(s.test_cases, 12);
    assert_eq!(s.seed, 42);
    assert_eq!(s.request_timeout_seconds, 300);
    assert_eq!(s.request_max_tokens, 64);
    assert_eq!(s.cycle_count, 1);
    assert!(s.strict_serial_mode && s.auto_start_services && !s.preflight_only && !s.autopromote_to_prompts);
    assert_eq!(s.scenario_families, vec!["merchant_greeting", "guard_challenge", "busy_worker_reply"]);
    assert_eq!(s.output_report_path, "npc-interactions-bridge/reports/prompt-harness-report-1700000000.md");
    assert_eq!(s.rubric_version, "rubric_v1");
}

#[test]
fn harness_settings_read_the_environment() {
    let mut env = unset_env();
    env.scenario_families = set(" guard_challenge , ,merchant_greeting");
    env.cycle_count = set("0");
    env.seed = set("7");
    env.prompt_candidates = set("lots");
    env.preflight_only = set("YES");
    env.openai_api_key = set("SECRET-REDACTED");
    let s = HarnessSettings::from_env(env, 1);
    assert_eq!(s.scenario_families, vec!["guard_challenge", "merchant_greeting"]);
    assert_eq!(s.cycle_count, 1);
    assert_eq!(s.seed, 7);
    assert_eq!(s.prompt_candidates, 3);
    assert!(s.preflight_only);
    assert_eq!(s.openai_api_key.as_deref(), Some("SECRET-REDACTED"));
}

#[test]
fn interaction_answers() {
    assert_eq!(answer_subject(Some("_INBOX.1".to_string()), "npc.out"), "_INBOX.1");
    assert_eq!(answer_subject(None, "npc.out"), "npc.out");
    match unreadable_request_answer("expected value") {
        InteractionAnswer::Failure { request_id, npc_id, error } => {
            assert!(request_id.is_none() && npc_id.is_none());
            assert_eq!(error, "invalid request payload: expected value");
        }
        other => panic!("unexpected {other:?}"),
    }
    let reply = ModelReply { response: "  Hail, traveler!\n".to_string(), model: "llama".to_string(), done: true };
    match interaction_answer(Some("r-1".to_string()), "npc-1".to_string(), Some("p-1".to_string()), Ok(reply)) {
        InteractionAnswer::Reply { request_id, npc_id, player_id, response, model, done } => {
            assert_eq!(request_id.as_deref(), Some("r-1"));
            assert_eq!(npc_id, "npc-1");
            assert_eq!(player_id.as_deref(), Some("p-1"));
            assert_eq!(response, "Hail, traveler!");
            assert_eq!(model, "llama");
            assert!(done);
        }
        other => panic!("unexpected {other:?}"),
    }
    match interaction_answer(None, "npc-1".to_string(), None, Err("refused".to_string())) {
        InteractionAnswer::Failure { request_id, npc_id, error } => {
            assert!(request_id.is_none());
            assert_eq!(npc_id.as_deref(), Some("npc-1"));
            assert_eq!(error, "ollama request failed: refused");
        }
        other => panic!("unexpected {other:?}"),
    }
}

#[test]
fn failed_reload_names_the_first_bad_file() {
    let root = PromptPath { display: "/p".to_string(), components: vec!["/".to_string(), "p".to_string()] };
    let good = LoadedPrompt {
        path: PromptPath {
            display: "/p/a.md".to_string(),
            components: vec!["/".to_string(), "p".to_string(), "a.md".to_string()],
        },
        content: Ok("A".to_string()),
    };
    let mut s = PromptStore::load(root, vec![good], None).unwrap();
    let bad = LoadedPrompt {
        path: PromptPath {
            display: "/p/b.md".to_string(),
            components: vec!["/".to_string(), "p".to_string(), "b.md".to_string()],
        },
        content: Err("permission denied".to_string()),
    };
    assert_eq!(
        prompts_reload_lines(&mut s, vec![bad]),
        vec!["failed to reload prompts: io error at /p/b.md: permission denied".to_string()]
    );
    assert_eq!(s.list_prompt_keys(), vec!["a".to_string()]);
}

#[test]
fn token_validation_first_step() {
    let mut service = JwtValidatorService::token_cache();
    let hash = JwtValidatorService::compute_token_hash("tok");
    let step = service.begin_validation(
        hash.clone(),
        10,
        300,
        Some(100),
        200,
        set("https://kc"),
        EnvLookup::NotPresent,
        EnvLookup::NotPresent,
    );
    assert!(matches!(step, ValidationStep::Decided(false)));
    let again = service.begin_validation(
        hash.clone(),
        20,
        300,
        Some(1000),
        200,
        set("https://kc"),
        EnvLookup::NotPresent,
        EnvLookup::NotPresent,
    );
    assert!(matches!(again, ValidationStep::Decided(false)));

    let mut fresh = JwtValidatorService::token_cache();
    match fresh.begin_validation(
        hash.clone(),
        10,
        300,
        Some(1000),
        200,
        set("https://kc/realms/r"),
        EnvLookup::NotPresent,
        set("s3"),
    ) {
        ValidationStep::Introspect(t) => {
            assert_eq!(t.url, "https://kc/realms/r/protocol/openid-connect/token/introspect");
            assert_eq!(t.client_id, "idklol-chat");
            assert_eq!(t.client_secret, "s3");
        }
        other => panic!("unexpected {other:?}"),
    }
    let outcome = IntrospectionOutcome::Active { email: None, roles: None, sub: None };
    assert!(fresh.record_introspection(hash.clone(), outcome, 11));
    let cached = fresh.begin_validation(hash, 12, 300, None, 200, EnvLookup::NotPresent, EnvLookup::NotPresent, EnvLookup::NotPresent);
    assert!(matches!(cached, ValidationStep::Decided(true)));

    let mut unconfigured = JwtValidatorService::token_cache();
    let h2 = JwtValidatorService::compute_token_hash("other");
    let step = unconfigured.begin_validation(
        h2,
        10,
        300,
        Some(1000),
        200,
        EnvLookup::NotPresent,
        EnvLookup::NotPresent,
        EnvLookup::NotPresent,
    );
    assert!(matches!(step, ValidationStep::Decided(false)));
}

fn proposed(key: Option<&str>, title: Option<&str>) -> ProposedCandidate {
    ProposedCandidate {
        key: key.map(|k| k.to_string()),
        title: title.map(|t| t.to_string()),
        system_prompt: Some("P".to_string()),
    }
}

#[test]
fn proposed_candidates_are_filled_deduplicated_and_cut() {
    let list = vec![
        proposed(Some("prompt_v1"), Some("One")),
        proposed(Some("prompt_v1"), Some("Again")),
        proposed(None, None),
        proposed(Some("prompt_v2"), Some("Two")),
    ];
    let all = select_candidates(&list, 10).unwrap();
    let keys: Vec<&str> = all.iter().map(|c| c.key.as_str()).collect();
    assert_eq!(keys, vec!["prompt_v1", "prompt_auto", "prompt_v2"]);
    assert_eq!(all[0].title, "One");
    assert_eq!(all[1].title, "Auto Prompt");
    let cut = select_candidates(&list, 2).unwrap();
    assert_eq!(cut.len(), 2);
    assert_eq!(select_candidates(&Vec::new(), 3).unwrap_err(), "generator returned no prompt candidates");
}

fn claims(roles: &[&str]) -> UserClaims {
    UserClaims {
        email: "a@b.c".to_string(),
        roles: roles.iter().map(|r| r.to_string()).collect(),
        sub: "u-1".to_string(),
    }
}

#[test]
fn admin_gate_serves_admins_only() {
    assert!(matches!(admin_step(AdminEvent::Received(None)), AdminAccess::Refuse(m) if m == "Missing Authorization header"));
    assert!(matches!(
        admin_step(AdminEvent::Received(Some("Basic x".to_string()))),
        AdminAccess::Refuse(m) if m == "Missing Authorization header"
    ));
    assert!(matches!(
        admin_step(AdminEvent::Received(Some("Bearer tok".to_string()))),
        AdminAccess::Validate(t) if t == "tok"
    ));
    assert!(matches!(admin_step(AdminEvent::Validated(None)), AdminAccess::Refuse(m) if m == "Invalid or expired token"));
    assert!(matches!(
        admin_step(AdminEvent::Validated(Some(claims(&["user"])))),
        AdminAccess::Refuse(m) if m == "Admin role required"
    ));
    assert!(matches!(admin_step(AdminEvent::Validated(Some(claims(&["admin"])))), AdminAccess::Serve(_)));
}

#[test]
fn character_creation_course() {
    assert!(matches!(
        creation_step(CreationEvent::Received(None)),
        CreationAction::Refuse(CharacterStatus::Unauthenticated(m)) if m == "missing or invalid authorization header"
    ));
    assert!(matches!(creation_step(CreationEvent::Received(Some("t".to_string()))), CreationAction::Validate(t) if t == "t"));
    assert!(matches!(
        creation_step(CreationEvent::Authenticated { email: None, name: "  ".to_string() }),
        CreationAction::Refuse(CharacterStatus::Unauthenticated(m)) if m == "invalid token or missing email claim"
    ));
    assert!(matches!(
        creation_step(CreationEvent::Authenticated { email: Some("e".to_string()), name: "  ".to_string() }),
        CreationAction::Refuse(CharacterStatus::InvalidArgument(m)) if m == "character name cannot be empty"
    ));
    assert!(matches!(
        creation_step(CreationEvent::Authenticated { email: Some("e".to_string()), name: "Ari".to_string() }),
        CreationAction::CheckName(e) if e == "e"
    ));
    assert!(matches!(
        creation_step(CreationEvent::NameChecked { email: "e".to_string(), taken: Ok(true) }),
        CreationAction::Refuse(CharacterStatus::AlreadyExists(_))
    ));
    assert!(matches!(
        creation_step(CreationEvent::NameChecked { email: "e".to_string(), taken: Ok(false) }),
        CreationAction::Create(e) if e == "e"
    ));
    assert!(matches!(
        creation_step(CreationEvent::Created(Err("insert violates foreign key constraint x".to_string()))),
        CreationAction::Refuse(CharacterStatus::InvalidArgument(_))
    ));
    assert!(matches!(creation_step(CreationEvent::Created(Ok(()))), CreationAction::Answer));
}

fn report_inputs() -> ReportInputs {
    ReportInputs {
        generated_at: "1700000000 (unix-seconds)".to_string(),
        settings: HarnessSettings::from_env(unset_env(), 1700000000),
        floats: ReportFloats {
            latency_target_ms: "2500.0".to_string(),
            quality_weight: "0.75".to_string(),
            speed_weight: "0.25".to_string(),
            min_operational_score: "9.00".to_string(),
            min_quality_score: "7.50".to_string(),
        },
        feedback_count: 0,
        feedback_source: None,
        preflight: ReportPreflight {
            passed: true,
            success_rate: "1.00".to_string(),
            timeout_count: 0,
            p95_latency_ms: 812,
        },
        test_cases_json: "[]".to_string(),
        candidates_json: "[]".to_string(),
        metrics: vec![MetricRow {
            candidate_key: "prompt_v1".to_string(),
            candidate_title: "One".to_string(),
            success_count: 3,
            error_count: 1,
            timeout_count: 1,
            skipped_count: 0,
            success_rate: "0.75".to_string(),
            operational_score: "7.50".to_string(),
            speed_score: "8.00".to_string(),
            performance_score: "7.62".to_string(),
            promotion_eligible: false,
            avg_latency_ms: "640.5".to_string(),
            p95_latency_ms: 900,
        }],
        promoted_candidate: None,
        best_candidate: "prompt_v1".to_string(),
        grader_rubric_version: "rubric_v1".to_string(),
        scores: vec![ScoreSection {
            candidate_key: "prompt_v1".to_string(),
            candidate_title: "One".to_string(),
            execution: Some(ExecutionScores { success_rate: "0.75".to_string(), operational_score: "7.50".to_string() }),
            graded_sample_count: 3,
            speed_score: "8.00".to_string(),
            performance_score: "7.62".to_string(),
            promotion_eligible: false,
            promotion_blockers: vec!["timeouts above 0".to_string()],
            quality: QualityScores {
                overall: "7.00".to_string(),
                role_fidelity: "8.00".to_string(),
                format_compliance: "6.00".to_string(),
                immersion: "7.00".to_string(),
                context_use: "7.00".to_string(),
                top_failures: vec!["narration".to_string()],
                prompt_change_ideas: vec!["Name the player".to_string()],
            },
        }],
        global_recommendations: vec!["Keep replies short".to_string(), "Name the player".to_string()],
        samples_json: "[]".to_string(),
        grader_json: "{}".to_string(),
    }
}

#[test]
fn cycle_report_is_built_and_read_back() {
    let md = full_report_markdown(&report_inputs());
    assert!(md.starts_with("# NPC Bridge Prompt Harness Report\n\nGenerated at: 1700000000 (unix-seconds)\n\n## Pipeline\n\n"));
    assert!(md.contains("## Config\n\n- Rubric version: `rubric_v1`\n- Seed: `42`\n- Scenario families: `merchant_greeting, guard_challenge, busy_worker_reply`\n"));
    assert!(md.contains("- Performance weights (quality/speed): `0.75` / `0.25`\n"));
    assert!(md.contains("- Previous recommendations source: `none`\n- Objective: Optimize NPC immersion"));
    assert!(md.contains("## Preflight\n\n- Passed: `true`\n- Success rate: `1.00`\n- Timeout count: `0`\n- P95 latency: `812`\n\n## Lane 1 - Test Generation\n\n[]\n\n"));
    assert!(md.contains("| prompt_v1 (One) | 3 | 1 | 1 | 0 | 0.75 | 7.50 | 8.00 | 7.62 | false | 640.5 | 900 |\n"));
    assert!(md.contains("- Promotion gate winner: `none`\n- Best candidate: `prompt_v1`\n- Grader rubric version: `rubric_v1`\n\n### prompt_v1 (One)\n\n- Execution success rate: `0.75`\n"));
    assert!(md.contains("- Promotion eligible: `false`\n- Promotion blockers:\n  - timeouts above 0\n- Quality overall: `7.00`\n"));
    assert!(md.contains("- Prompt change ideas:\n  - Name the player\n\n## Global Recommendations\n\n- Keep replies short\n- Name the player\n\n## Raw Samples\n\n[]\n\n## Raw Grader Output\n\n{}\n"));
    assert!(md.ends_with("{}\n"));
    assert_eq!(
        extract_recommendations_from_report(&md, 10),
        vec!["Keep replies short".to_string(), "Name the player".to_string()]
    );
    assert_eq!(extract_recommendations_from_report(&md, 1), vec!["Keep replies short".to_string()]);

    let mut ungraded = report_inputs();
    ungraded.scores[0].graded_sample_count = 0;
    ungraded.scores[0].promotion_eligible = true;
    ungraded.scores[0].execution = None;
    let md = full_report_markdown(&ungraded);
    assert!(md.contains("### prompt_v1 (One)\n\n- Quality graded samples: `0`\n- Speed score (0-10): `8.00`\n- Performance score (0-10): `7.62`\n- Promotion eligible: `true`\n- Quality score: `N/A` (no completed samples to grade)\n\n## Global Recommendations"));
}
