use idklol::env_config::EnvLookup;
use idklol::harness::{
    candidate_case_indices, candidate_family_aliases, cycle_output_report_path, default_family_template,
    deterministic_variant, env_bool, env_number, extract_json_object, extract_recommendations_from_report,
    family_style_hint, generate_seeded_test_cases, halts_run, harness_request_id, infer_candidate_categories,
    is_retryable_bridge_error, is_strict_skip_error, is_timeout_error, iso_like_timestamp,
    parse_scenario_families, promoted_template_with_variables, render_prompt_template_with_case,
    sanitize_key, scenario_template_for, should_promote_global_template, supports_explicit_temperature,
    top_strings_by_count, tally_samples, candidate_errors, CandidatePrompt, SampleOutcome, SampleTally,
};

fn strings(v: &[&str]) -> Vec<String> {
    v.iter().map(|s| s.to_string()).collect()
}

#[test]
fn variants_follow_the_seeded_hash() {
    assert_eq!(deterministic_variant(42, "merchant_greeting", 0, 3), 0);
    assert_eq!(deterministic_variant(42, "guard_challenge", 1, 3), 0);
    assert_eq!(deterministic_variant(42, "busy_worker_reply", 2, 3), 2);
    assert_eq!(deterministic_variant(42, "anything", 5, 0), 0);
    assert_eq!(deterministic_variant(0, "", 0, 7), 0);
    assert_eq!(deterministic_variant(0, "", 1, 7), 3);
}

#[test]
fn scenario_cases_per_family() {
    let c = scenario_template_for("merchant_greeting", 42, 0);
    assert_eq!(c.test_id, "merchant_001");
    assert_eq!(c.npc_id, "market_merchant");
    assert_eq!(c.player_message, "Good day! What are you selling today?");
    assert_eq!(c.hard_checks, strings(&["spoken_dialogue_only", "no_narration", "one_or_two_sentences"]));
    let w = scenario_template_for("busy_worker_reply", 42, 2);
    assert_eq!(w.test_id, "worker_003");
    assert_eq!(w.player_message, "Sorry to interrupt—can you point me to the foundry?");
    assert_eq!(w.forbidden_behaviors, strings(&["role_switch", "invented_fact"]));
    let g = scenario_template_for("unknown_family", 42, 999);
    assert_eq!(g.test_id, "guard_1000");
    assert_eq!(g.category, "guard_challenge");
    assert_eq!(g.notes.as_deref(), Some("Guard should remain authoritative and concise."));
}

#[test]
fn seeded_cases_cycle_through_families() {
    let cases = generate_seeded_test_cases(&Vec::new(), 4, 42);
    let ids: Vec<&str> = cases.iter().map(|c| c.test_id.as_str()).collect();
    assert_eq!(ids, vec!["merchant_001", "guard_002", "worker_003", "merchant_004"]);
    let cases = generate_seeded_test_cases(&strings(&["busy_worker_reply"]), 2, 1);
    assert!(cases.iter().all(|c| c.category == "busy_worker_reply"));
    assert!(generate_seeded_test_cases(&Vec::new(), 0, 42).is_empty());
}

#[test]
fn bridge_error_classes() {
    assert!(is_retryable_bridge_error("Request TIMEOUT after 5s"));
    assert!(is_retryable_bridge_error("nats publish error: broken pipe"));
    assert!(!is_retryable_bridge_error("invalid json"));
    assert!(is_timeout_error(Some("timeout waiting for bridge reply")));
    assert!(is_timeout_error(Some("operation Timed Out")));
    assert!(is_timeout_error(Some("deadline has elapsed")));
    assert!(!is_timeout_error(Some("timeout")));
    assert!(!is_timeout_error(None));
    assert!(is_strict_skip_error(Some("Skipped after timeout to enforce strict serial mode")));
    assert!(is_strict_skip_error(Some("skipped after global timeout to enforce strict serial mode")));
    assert!(!is_strict_skip_error(Some("was skipped after timeout")));
    assert!(halts_run(true, "deadline has elapsed"));
    assert!(!halts_run(false, "deadline has elapsed"));
    assert!(!supports_explicit_temperature("GPT-5-mini"));
    assert!(supports_explicit_temperature("gpt-4.1-mini"));
}

#[test]
fn keys_are_sanitized() {
    assert_eq!(sanitize_key("merchant_greeting/v2 é"), "merchant-greeting-v2--");
    assert_eq!(
        harness_request_id("cand.1", "merchant_001", 17),
        "harness-cand-1-merchant-001-17"
    );
}

#[test]
fn case_templates_are_filled() {
    let c = scenario_template_for("merchant_greeting", 42, 0);
    let t = "{{npc_name}} meets {player-id} ({{scenario-family}}) in {world-context}: {player_message}";
    assert_eq!(
        render_prompt_template_with_case(t, &c),
        "market_merchant meets player-1 (merchant_greeting) in A bustling market square at midday.: Good day! What are you selling today?"
    );
}

fn candidate(key: &str, title: &str, prompt: &str) -> CandidatePrompt {
    CandidatePrompt { key: key.to_string(), title: title.to_string(), system_prompt: prompt.to_string() }
}

#[test]
fn candidate_categories() {
    assert_eq!(candidate_family_aliases("busy_worker_reply"), strings(&["busy_worker_reply", "worker", "forge"]));
    assert_eq!(candidate_family_aliases("x"), strings(&["x"]));
    let families = strings(&["merchant_greeting", "guard_challenge", "busy_worker_reply"]);
    let c = candidate("c1", "Forge and Guard voice", "Speak tersely.");
    assert_eq!(infer_candidate_categories(&c, &families), strings(&["busy_worker_reply", "guard_challenge"]));
    let none = candidate("c2", "Plain", "Nothing relevant.");
    assert_eq!(infer_candidate_categories(&none, &families), strings(&["merchant_greeting"]));
    assert!(infer_candidate_categories(&none, &Vec::new()).is_empty());
    let all = candidate("merchant-guard-worker", "", "");
    assert!(should_promote_global_template(&all, &families));
    assert!(!should_promote_global_template(&c, &families));
    assert!(should_promote_global_template(&c, &Vec::new()));
}

#[test]
fn family_templates() {
    assert_eq!(family_style_hint("guard_challenge"), "stern authority, checkpoint control, concise warnings.");
    assert_eq!(family_style_hint("x"), "stay in character and answer in one to two spoken sentences.");
    let t = default_family_template("guard_challenge");
    assert!(t.starts_with("# Family template: guard_challenge\n# Variables available at runtime:\n# - {{npc-name}} / {{npc-id}}\n"));
    assert!(t.contains("\n\nYou are {{npc-name}}, speaking to {{player-name}} in an in-world fantasy setting.\n"));
    assert!(t.ends_with("Style guidance: stern authority, checkpoint control, concise warnings.\n"));
    assert_eq!(
        promoted_template_with_variables("guard_challenge", "  Be brief.  \n"),
        "You are {{npc-name}} (id: {{npc-id}}), responding to {{player-name}} (id: {{player-id}}).\nScenario family: {{scenario-family}} (expected: guard_challenge).\nWorld context: {{world-context}}.\nPlayer message summary: {{player-message}}.\n\nBe brief."
    );
}

#[test]
fn json_objects_are_found_in_replies() {
    assert_eq!(extract_json_object("```json\n{\"a\":1}\n```"), Some("{\"a\":1}".to_string()));
    assert_eq!(extract_json_object("  Here: {\"a\":{\"b\":2}} done "), Some("{\"a\":{\"b\":2}}".to_string()));
    assert_eq!(extract_json_object("no braces"), None);
    assert_eq!(extract_json_object("} {"), None);
    assert_eq!(extract_json_object("```\nsay {x} then\n```"), Some("{x}".to_string()));
}

#[test]
fn cycle_report_paths() {
    let base = strings(&["reports", "prompt-harness-report-1.md"]);
    assert_eq!(cycle_output_report_path(&base, 3, 1), base);
    assert_eq!(
        cycle_output_report_path(&base, 3, 4),
        strings(&["reports", "prompt-harness-report-1-cycle-03.md"])
    );
    assert_eq!(
        cycle_output_report_path(&strings(&["out", "report"]), 12, 2),
        strings(&["out", "report-cycle-12.md"])
    );
    assert_eq!(
        cycle_output_report_path(&strings(&["out", ".."]), 1, 2),
        strings(&["out", "..", "prompt-harness-report-cycle-01.md"])
    );
    assert_eq!(iso_like_timestamp(1700000000), "1700000000 (unix-seconds)");
}

#[test]
fn harness_settings() {
    assert_eq!(
        parse_scenario_families(" merchant_greeting, ,guard_challenge ,"),
        strings(&["merchant_greeting", "guard_challenge"])
    );
    assert!(parse_scenario_families("").is_empty());
    assert!(env_bool(EnvLookup::Present("YES".to_string()), false));
    assert!(!env_bool(EnvLookup::Present("n".to_string()), true));
    assert!(env_bool(EnvLookup::Present("maybe".to_string()), true));
    assert!(!env_bool(EnvLookup::NotPresent, false));
    assert_eq!(env_number(EnvLookup::Present("17".to_string()), 3usize), 17);
    assert_eq!(env_number(EnvLookup::Present("x".to_string()), 3u64), 3);
    assert_eq!(env_number(EnvLookup::NotUnicode, 64u32), 64);
}

#[test]
fn recommendations_are_read_from_reports() {
    let report = "# Report\n\n## Global Recommendations\n- Keep replies short\n-   \n- Name the player\n## Other\n- not this\n\n### Candidate A\n- Prompt change ideas:\n  - Add a greeting\n\t- Keep replies short\n- not indented\n  - After a plain line\n\n  - gone\n";
    assert_eq!(
        extract_recommendations_from_report(report, 10),
        strings(&["Keep replies short", "Name the player", "Add a greeting", "After a plain line"])
    );
    assert_eq!(extract_recommendations_from_report(report, 2), strings(&["Keep replies short", "Name the player"]));
    assert!(extract_recommendations_from_report("nothing here", 5).is_empty());
}

#[test]
fn candidates_run_the_cases_of_their_categories() {
    let cases = strings(&["merchant_greeting", "guard_challenge", "merchant_greeting"]);
    assert_eq!(candidate_case_indices(&strings(&["merchant_greeting"]), &cases), vec![0, 2]);
    assert_eq!(candidate_case_indices(&Vec::new(), &cases), vec![0, 1, 2]);
    assert!(candidate_case_indices(&strings(&["busy_worker_reply"]), &cases).is_empty());
}

#[test]
fn counted_strings_come_most_frequent_first_then_by_name() {
    let counts = vec![("b".to_string(), 2usize), ("a".to_string(), 2usize), ("c".to_string(), 5usize)];
    assert_eq!(top_strings_by_count(&counts, 2), strings(&["c (5)", "a (2)"]));
    assert_eq!(top_strings_by_count(&counts, 10), strings(&["c (5)", "a (2)", "b (2)"]));
    assert!(top_strings_by_count(&counts, 0).is_empty());
    assert!(top_strings_by_count(&Vec::new(), 3).is_empty());
}

#[test]
fn replies_are_tallied_by_outcome() {
    let errors = vec![
        None,
        Some("Timeout waiting for bridge reply".to_string()),
        Some("skipped after timeout in strict serial mode".to_string()),
        Some("connection refused".to_string()),
        None,
    ];
    assert_eq!(
        tally_samples(&errors),
        SampleTally { sample_count: 5, success_count: 2, error_count: 3, timeout_count: 1, skipped_count: 1 }
    );
    assert_eq!(
        tally_samples(&Vec::new()),
        SampleTally { sample_count: 0, success_count: 0, error_count: 0, timeout_count: 0, skipped_count: 0 }
    );
}

#[test]
fn errors_are_grouped_by_candidate_in_reply_order() {
    let results = vec![
        SampleOutcome { candidate_key: "a".to_string(), bridge_error: None },
        SampleOutcome { candidate_key: "b".to_string(), bridge_error: Some("x".to_string()) },
        SampleOutcome { candidate_key: "a".to_string(), bridge_error: Some("y".to_string()) },
    ];
    assert_eq!(candidate_errors("a", &results), vec![None, Some("y".to_string())]);
    assert_eq!(candidate_errors("b", &results), vec![Some("x".to_string())]);
    assert!(candidate_errors("c", &results).is_empty());
}
