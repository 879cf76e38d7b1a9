use idklol::bridge::{
    bridge_custom_commands, build_cli_request_id, build_prompt, chat_command_text, generate_endpoint,
    invalid_payload_message, model_failure_message, prompt_show_lines, prompt_use_lines,
    prompts_list_lines, prompts_reload_lines, render_system_prompt_template, route_bridge_command,
    select_system_prompt, BridgeStep, PromptInputs, RuntimeAction,
};
use idklol::command::{build_help_text, ServiceCommandEvent, ServiceControlCommand};
use idklol::prompts::{LoadedPrompt, PromptPath, PromptStore};

fn inputs() -> PromptInputs {
    PromptInputs {
        npc_id: "npc-7".to_string(),
        npc_name: Some("Bram".to_string()),
        npc_role: None,
        player_id: Some("p-1".to_string()),
        player_name: None,
        nearby_player_names: Some(vec!["Ari".to_string(), "Cy".to_string()]),
        message: "Hello there".to_string(),
        context: Some("night".to_string()),
    }
}

fn store(active: Option<&str>) -> PromptStore {
    let root = PromptPath { display: "/p".to_string(), components: vec!["/".to_string(), "p".to_string()] };
    let files = vec![
        LoadedPrompt {
            path: PromptPath {
                display: "/p/a.md".to_string(),
                components: vec!["/".to_string(), "p".to_string(), "a.md".to_string()],
            },
            content: Ok("Speak as {{npc-name}}.".to_string()),
        },
        LoadedPrompt {
            path: PromptPath {
                display: "/p/b.md".to_string(),
                components: vec!["/".to_string(), "p".to_string(), "b.md".to_string()],
            },
            content: Ok("B prompt".to_string()),
        },
    ];
    PromptStore::load(root, files, active.map(|a| a.to_string())).unwrap()
}

#[test]
fn model_prompt_lists_the_known_facts() {
    let expected = [
        "NPC ID: npc-7",
        "NPC Name: Bram",
        "Player ID: p-1",
        "Nearby Players: Ari, Cy",
        "World Context: night",
        "Player Message: Hello there",
        "If nearby players are listed, greet them by name in the response.",
        "Respond as the NPC with concise, role-appropriate dialogue.",
    ]
    .join("\n");
    assert_eq!(build_prompt(&inputs()), expected);

    let bare = PromptInputs {
        npc_id: "n".to_string(),
        npc_name: None,
        npc_role: Some("guard".to_string()),
        player_id: None,
        player_name: Some("Ari".to_string()),
        nearby_player_names: Some(Vec::new()),
        message: "m".to_string(),
        context: None,
    };
    let expected = [
        "NPC ID: n",
        "NPC Role: guard",
        "Player ID: unknown",
        "Player Name: Ari",
        "Player Message: m",
        "If nearby players are listed, greet them by name in the response.",
        "Respond as the NPC with concise, role-appropriate dialogue.",
    ]
    .join("\n");
    assert_eq!(build_prompt(&bare), expected);
}

#[test]
fn system_prompt_templates_are_filled() {
    let t = "I am {{npc-name}} ({npc_id}), role '{npc-role}', talking to {{player_name}} / {player-id} near {{nearby-players}} in {world_context}: {{player-message}}";
    assert_eq!(
        render_system_prompt_template(t, &inputs()),
        "I am Bram (npc-7), role '', talking to p-1 / p-1 near Ari, Cy in night: Hello there"
    );
    let mut no_player = inputs();
    no_player.player_id = None;
    assert_eq!(render_system_prompt_template("{{player-id}}|{{player-name}}", &no_player), "unknown-player|unknown-player");
}

#[test]
fn endpoint_and_messages() {
    assert_eq!(generate_endpoint("http://ollama:11434/"), "http://ollama:11434/api/generate");
    assert_eq!(generate_endpoint("http://ollama:11434//"), "http://ollama:11434/api/generate");
    assert_eq!(generate_endpoint("http://o"), "http://o/api/generate");
    assert_eq!(invalid_payload_message("eof"), "invalid request payload: eof");
    assert_eq!(model_failure_message("refused"), "ollama request failed: refused");
    assert_eq!(build_cli_request_id(1700000000123), "cli-1700000000123");
    assert_eq!(build_cli_request_id(0), "cli-0");
}

#[test]
fn inline_system_prompts_win() {
    let s = store(None);
    assert_eq!(
        select_system_prompt(&s, Some("b"), Some("inline".to_string())).unwrap(),
        (Some("inline/system".to_string()), Some("inline".to_string()))
    );
    assert_eq!(
        select_system_prompt(&s, Some("b"), None).unwrap(),
        (Some("b".to_string()), Some("B prompt".to_string()))
    );
    assert_eq!(select_system_prompt(&s, None, None).unwrap().0.as_deref(), Some("a"));
    assert!(select_system_prompt(&s, Some("zz"), None).is_err());
}

#[test]
fn bridge_commands_route() {
    assert_eq!(
        route_bridge_command(ServiceCommandEvent::Control(ServiceControlCommand::Help)),
        BridgeStep::ShowHelp
    );
    assert_eq!(
        route_bridge_command(ServiceCommandEvent::Control(ServiceControlCommand::Restart)),
        BridgeStep::Runtime(RuntimeAction::Restart)
    );
    assert_eq!(
        route_bridge_command(ServiceCommandEvent::Custom { name: "chat".to_string(), args: "hi".to_string() }),
        BridgeStep::Chat("hi".to_string())
    );
    assert_eq!(
        route_bridge_command(ServiceCommandEvent::Custom { name: "prompt.use".to_string(), args: "b".to_string() }),
        BridgeStep::UsePrompt("b".to_string())
    );
    assert_eq!(
        route_bridge_command(ServiceCommandEvent::Custom { name: "dance".to_string(), args: String::new() }),
        BridgeStep::Unknown("unknown command: .dance. Try .help".to_string())
    );
}

#[test]
fn bridge_help_lists_its_commands() {
    let commands = bridge_custom_commands();
    assert_eq!(commands.len(), 5);
    let help = build_help_text("npc-interactions-bridge", &commands);
    assert!(help.contains("  .prompt.use <prompt-key>\n      Set active prompt key used by requests without inline prompt override."));
    assert!(help.contains("  .prompts.list\n"));
}

#[test]
fn prompt_commands_print() {
    let mut s = store(Some("b"));
    assert_eq!(
        prompts_list_lines(&s),
        vec!["discovered prompts in /p:".to_string(), "    a".to_string(), "  * b".to_string()]
    );
    assert_eq!(prompt_use_lines(&mut s, "  "), vec!["usage: .prompt.use <prompt-key>".to_string()]);
    assert_eq!(prompt_use_lines(&mut s, " a "), vec!["active prompt set to a".to_string()]);
    assert_eq!(
        prompt_use_lines(&mut s, "zz"),
        vec!["failed to set active prompt: prompt key not found: zz".to_string()]
    );
    assert_eq!(
        prompt_show_lines(&s),
        vec!["active prompt: a".to_string(), "preview: Speak as {{npc-name}}.".to_string()]
    );
    let lines = prompts_reload_lines(&mut s, Vec::new());
    assert_eq!(lines, vec!["reloaded 0 prompts from /p".to_string(), "active prompt: <none>".to_string()]);
    assert_eq!(prompts_list_lines(&s), vec!["no prompts discovered in /p".to_string()]);
    assert_eq!(prompt_show_lines(&s), vec!["active prompt: <none>".to_string()]);
}

#[test]
fn chat_command_needs_text() {
    assert_eq!(chat_command_text("  hi there "), Ok("hi there".to_string()));
    assert_eq!(chat_command_text("   "), Err("usage: .chat <free text>".to_string()));
}
