use idklol::command::{
    build_help_text, parse_service_command_line, CustomCommandSpec, ServiceCommandEvent,
    ServiceControlCommand,
};

#[test]
fn parses_help_command() {
    let parsed = parse_service_command_line(".help").expect("command should parse");
    assert_eq!(parsed, ServiceCommandEvent::Control(ServiceControlCommand::Help));
}

#[test]
fn parses_restart_alias() {
    let parsed = parse_service_command_line(".rs").expect("command should parse");
    assert_eq!(parsed, ServiceCommandEvent::Control(ServiceControlCommand::Restart));
}

#[test]
fn parses_shutdown_alias() {
    let parsed = parse_service_command_line(".exit").expect("command should parse");
    assert_eq!(
        parsed,
        ServiceCommandEvent::Control(ServiceControlCommand::Shutdown)
    );
}

#[test]
fn parses_custom_chat_with_args() {
    let parsed = parse_service_command_line(".chat hello there")
        .expect("command should parse");

    assert_eq!(
        parsed,
        ServiceCommandEvent::Custom {
            name: "chat".to_string(),
            args: "hello there".to_string(),
        }
    );
}

#[test]
fn maps_plain_text_to_chat_command() {
    let parsed = parse_service_command_line("hello npc")
        .expect("plain text should be mapped to chat");

    assert_eq!(
        parsed,
        ServiceCommandEvent::Custom {
            name: "chat".to_string(),
            args: "hello npc".to_string(),
        }
    );
}

#[test]
fn blank_line_is_no_command() {
    assert_eq!(parse_service_command_line(""), None);
    assert_eq!(parse_service_command_line(" \t\n "), None);
}

#[test]
fn command_names_ignore_case_and_surrounding_space() {
    assert_eq!(
        parse_service_command_line("   .HeLp   "),
        Some(ServiceCommandEvent::Control(ServiceControlCommand::Help))
    );
    assert_eq!(
        parse_service_command_line(".h"),
        Some(ServiceCommandEvent::Control(ServiceControlCommand::Help))
    );
    assert_eq!(
        parse_service_command_line(".RESTART now"),
        Some(ServiceCommandEvent::Control(ServiceControlCommand::Restart))
    );
    assert_eq!(
        parse_service_command_line(".quit"),
        Some(ServiceCommandEvent::Control(ServiceControlCommand::Shutdown))
    );
    assert_eq!(
        parse_service_command_line(".shutdown"),
        Some(ServiceCommandEvent::Control(ServiceControlCommand::Shutdown))
    );
}

#[test]
fn custom_command_arguments_are_trimmed() {
    assert_eq!(
        parse_service_command_line(".Prompt.Use   guard/gate  "),
        Some(ServiceCommandEvent::Custom {
            name: "prompt.use".to_string(),
            args: "guard/gate".to_string(),
        })
    );
    assert_eq!(
        parse_service_command_line(".prompts.list"),
        Some(ServiceCommandEvent::Custom {
            name: "prompts.list".to_string(),
            args: String::new(),
        })
    );
    assert_eq!(
        parse_service_command_line("."),
        Some(ServiceCommandEvent::Custom {
            name: String::new(),
            args: String::new(),
        })
    );
}

#[test]
fn help_text_without_custom_commands() {
    let text = build_help_text("svc", &[]);
    let expected = [
        "svc command interface",
        "Built-in commands:",
        "  .help                    Show this help",
        "  .rs                      Graceful service restart",
        "  .shutdown                Graceful service shutdown",
        "Tip: plain text without a dot is treated as chat input.",
    ]
    .join("\n");
    assert_eq!(text, expected);
}

#[test]
fn help_text_lists_custom_commands() {
    let customs = [
        CustomCommandSpec {
            name: "chat",
            usage: "<free text>",
            description: "Send free text.",
        },
        CustomCommandSpec {
            name: "prompts.list",
            usage: "",
            description: "List prompts.",
        },
    ];
    let text = build_help_text("bridge", &customs);
    let expected = [
        "bridge command interface",
        "Built-in commands:",
        "  .help                    Show this help",
        "  .rs                      Graceful service restart",
        "  .shutdown                Graceful service shutdown",
        "Custom commands:",
        "  .chat <free text>",
        "      Send free text.",
        "  .prompts.list",
        "      List prompts.",
        "Tip: plain text without a dot is treated as chat input.",
    ]
    .join("\n");
    assert_eq!(text, expected);
}
