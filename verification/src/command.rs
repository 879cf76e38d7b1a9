//! The line-oriented service command interface: parsing of operator input
//! and the help text that lists the available commands.
use vstd::prelude::*;
use crate::text::{
    append_chars, append_str, chars_eq_str, chars_of, is_ws, join, join_chars, lower, lower_chars,
    split_once_whitespace, split_once_ws, string_from_chars, trim, trim_chars, trim_end, views,
};

verus! {

/// Built-in commands that every service understands.
#[derive(Debug, Clone, Copy, PartialEq, Eq)]
pub enum ServiceControlCommand {
    Help,
    Restart,
    Shutdown,
}

/// One parsed line of operator input.
#[derive(Debug, Clone, PartialEq, Eq)]
pub enum ServiceCommandEvent {
    Control(ServiceControlCommand),
    Custom { name: String, args: String },
}

/// Abstract value of a parsed command line.
pub enum CommandView {
    Control(ServiceControlCommand),
    Custom { name: Seq<char>, args: Seq<char> },
}

impl View for ServiceCommandEvent {
    type V = CommandView;

    open spec fn view(&self) -> CommandView {
        match self {
            ServiceCommandEvent::Control(c) => CommandView::Control(*c),
            ServiceCommandEvent::Custom { name, args } => CommandView::Custom {
                name: name@,
                args: args@,
            },
        }
    }
}

/// A service-specific command, listed in the help text.
#[derive(Debug, Clone, Copy)]
pub struct CustomCommandSpec {
    pub name: &'static str,
    pub usage: &'static str,
    pub description: &'static str,
}

/// The command that a dot-prefixed word names, with its arguments.
pub open spec fn command_for(name: Seq<char>, args: Seq<char>) -> CommandView {
    if name == "help"@ || name == "h"@ {
        CommandView::Control(ServiceControlCommand::Help)
    } else if name == "rs"@ || name == "restart"@ {
        CommandView::Control(ServiceControlCommand::Restart)
    } else if name == "shutdown"@ || name == "quit"@ || name == "exit"@ {
        CommandView::Control(ServiceControlCommand::Shutdown)
    } else {
        CommandView::Custom { name, args }
    }
}

/// What a line of operator input means. Blank lines mean nothing; text that
/// does not start with a dot is chat; otherwise the first word after the dot,
/// lower-cased, names the command and the rest of the line is its argument.
pub open spec fn parse_command(line: Seq<char>) -> Option<CommandView> {
    let t = trim(line);
    if t.len() == 0 {
        None
    } else if t[0] != '.' {
        Some(CommandView::Custom { name: "chat"@, args: t })
    } else {
        let (first, rest) = split_once_ws(t.drop_first());
        let name = lower(trim(first));
        let args = trim(
            match rest {
                Some(r) => r,
                None => Seq::empty(),
            },
        );
        Some(command_for(name, args))
    }
}

/// Parses one line of operator input into a command event.
pub fn parse_service_command_line(line: &str) -> (r: Option<ServiceCommandEvent>)
    ensures
        match r {
            Some(e) => parse_command(line@) == Some(e@),
            None => parse_command(line@) is None,
        },
{
    let chars = chars_of(line);
    let trimmed = trim_chars(chars.as_slice());
    if trimmed.len() == 0 {
        return None;
    }
    if trimmed[0] != '.' {
        return Some(
            ServiceCommandEvent::Custom {
                name: string_from_chars(chars_of("chat").as_slice()),
                args: string_from_chars(trimmed.as_slice()),
            },
        );
    }
    let without_prefix = crate::text::slice_range(trimmed.as_slice(), 1, trimmed.len());
    assert(without_prefix@ == trimmed@.drop_first());
    let (first, rest) = split_once_whitespace(without_prefix.as_slice());
    let name_trimmed = trim_chars(first.as_slice());
    let name = lower_chars(name_trimmed.as_slice());
    let args = match rest {
        Some(r) => trim_chars(r.as_slice()),
        None => trim_chars(Vec::new().as_slice()),
    };
    let event = if chars_eq_str(name.as_slice(), "help") || chars_eq_str(name.as_slice(), "h") {
        ServiceCommandEvent::Control(ServiceControlCommand::Help)
    } else if chars_eq_str(name.as_slice(), "rs") || chars_eq_str(name.as_slice(), "restart") {
        ServiceCommandEvent::Control(ServiceControlCommand::Restart)
    } else if chars_eq_str(name.as_slice(), "shutdown") || chars_eq_str(name.as_slice(), "quit")
        || chars_eq_str(name.as_slice(), "exit") {
        ServiceCommandEvent::Control(ServiceControlCommand::Shutdown)
    } else {
        ServiceCommandEvent::Custom {
            name: string_from_chars(name.as_slice()),
            args: string_from_chars(args.as_slice()),
        }
    };
    Some(event)
}

/// The help line of one custom command: its name and usage, with trailing
/// white space removed.
pub open spec fn custom_usage_line(name: Seq<char>, usage: Seq<char>) -> Seq<char> {
    trim_end("  ."@ + name + " "@ + usage)
}

/// The description line of one custom command.
pub open spec fn custom_description_line(description: Seq<char>) -> Seq<char> {
    "      "@ + description
}

/// The two help lines of each custom command, in order.
pub open spec fn custom_lines(customs: Seq<CustomCommandSpec>) -> Seq<Seq<char>>
    decreases customs.len(),
{
    if customs.len() == 0 {
        Seq::empty()
    } else {
        custom_lines(customs.drop_last()).push(
            custom_usage_line(customs.last().name@, customs.last().usage@),
        ).push(custom_description_line(customs.last().description@))
    }
}

/// All lines of the help text of a service.
pub open spec fn help_lines(service_name: Seq<char>, customs: Seq<CustomCommandSpec>) -> Seq<
    Seq<char>,
> {
    let header = seq![
        service_name + " command interface"@,
        "Built-in commands:"@,
        "  .help                    Show this help"@,
        "  .rs                      Graceful service restart"@,
        "  .shutdown                Graceful service shutdown"@,
    ];
    let body = if customs.len() == 0 {
        header
    } else {
        header.push("Custom commands:"@) + custom_lines(customs)
    };
    body.push("Tip: plain text without a dot is treated as chat input."@)
}

/// The help text of a service: its lines joined by newlines.
pub open spec fn help_text(service_name: Seq<char>, customs: Seq<CustomCommandSpec>) -> Seq<char> {
    join(help_lines(service_name, customs), "\n"@)
}

fn trim_end_chars(s: &[char]) -> (r: Vec<char>)
    ensures
        r@ == trim_end(s@),
{
    let mut k: usize = s.len();
    assert(s@.subrange(0, k as int) =~= s@);
    while k > 0 && crate::text::is_whitespace(s[k - 1])
        invariant
            k <= s.len(),
            trim_end(s@) == trim_end(s@.subrange(0, k as int)),
        decreases k,
    {
        proof {
            let t = s@.subrange(0, k as int);
            assert(t.drop_last() =~= s@.subrange(0, k - 1));
        }
        k = k - 1;
    }
    let r = crate::text::slice_range(s, 0, k);
    assert(r@.len() == 0 || !is_ws(r@.last()));
    r
}

fn str_line(s: &str) -> (r: Vec<char>)
    ensures
        r@ == s@,
{
    chars_of(s)
}

/// Builds the help text that lists the built-in and custom commands.
pub fn build_help_text(service_name: &str, custom_commands: &[CustomCommandSpec]) -> (r: String)
    ensures
        r@ == help_text(service_name@, custom_commands@),
{
    let mut lines: Vec<Vec<char>> = Vec::new();
    let mut header = chars_of(service_name);
    append_str(&mut header, " command interface");
    lines.push(header);
    lines.push(str_line("Built-in commands:"));
    lines.push(str_line("  .help                    Show this help"));
    lines.push(str_line("  .rs                      Graceful service restart"));
    lines.push(str_line("  .shutdown                Graceful service shutdown"));
    let ghost head = views(lines@);
    assert(head =~= seq![
        service_name@ + " command interface"@,
        "Built-in commands:"@,
        "  .help                    Show this help"@,
        "  .rs                      Graceful service restart"@,
        "  .shutdown                Graceful service shutdown"@,
    ]);
    if custom_commands.len() > 0 {
        lines.push(str_line("Custom commands:"));
        let ghost prefix = views(lines@);
        let mut i: usize = 0;
        while i < custom_commands.len()
            invariant
                i <= custom_commands.len(),
                views(lines@) == prefix + custom_lines(custom_commands@.take(i as int)),
            decreases custom_commands.len() - i,
        {
            let custom = custom_commands[i];
            let mut usage_line = chars_of("  .");
            append_str(&mut usage_line, custom.name);
            append_str(&mut usage_line, " ");
            append_str(&mut usage_line, custom.usage);
            let usage_line = trim_end_chars(usage_line.as_slice());
            let mut description_line = chars_of("      ");
            append_str(&mut description_line, custom.description);
            let ghost before = lines@;
            lines.push(usage_line);
            lines.push(description_line);
            proof {
                let cs = custom_commands@.take(i + 1);
                assert(cs.drop_last() =~= custom_commands@.take(i as int));
                assert(cs.last() == custom);
                assert(views(lines@) =~= views(before).push(usage_line@).push(
                    description_line@,
                ));
            }
            i = i + 1;
        }
        assert(custom_commands@.take(custom_commands.len() as int) =~= custom_commands@);
    }
    let ghost before_tip = lines@;
    proof {
        let header = seq![
            service_name@ + " command interface"@,
            "Built-in commands:"@,
            "  .help                    Show this help"@,
            "  .rs                      Graceful service restart"@,
            "  .shutdown                Graceful service shutdown"@,
        ];
        if custom_commands@.len() == 0 {
            assert(views(before_tip) == header);
        } else {
            assert(views(before_tip) == header.push("Custom commands:"@) + custom_lines(
                custom_commands@,
            ));
        }
    }
    lines.push(str_line("Tip: plain text without a dot is treated as chat input."));
    assert(views(lines@) =~= views(before_tip).push(
        "Tip: plain text without a dot is treated as chat input."@,
    ));
    assert(views(lines@) == help_lines(service_name@, custom_commands@));
    let text = join_chars(&lines, chars_of("\n").as_slice());
    string_from_chars(text.as_slice())
}

} // verus!
