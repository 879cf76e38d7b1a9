//! The chat service's rules: which chat messages are commands to spawn an
//! NPC, what the system answers to them, and the service's settings.
use vstd::prelude::*;
use crate::env_config::{EnvLookup, LookupView};
use crate::text::{
    append_str,
    chars_eq,
    chars_eq_str,
    chars_of,
    has_prefix,
    lower,
    lower_chars,
    slice_range,
    split_words,
    string_from_chars,
    to_owned_string,
    trim,
    trim_chars,
    views,
    words,
};

verus! {

/// A chat command asking for an NPC to be spawned.
#[derive(Debug)]
pub struct SpawnCommand {
    pub npc_id: String,
}

/// The text after the command mark (`!` or `.`) of a trimmed message.
pub open spec fn command_body(message: Seq<char>) -> Option<Seq<char>> {
    let t = trim(message);
    if has_prefix(t, "!"@) || has_prefix(t, "."@) {
        Some(t.skip(1))
    } else {
        None
    }
}

/// The NPC a chat message asks to spawn: the message, trimmed, starts with
/// `!` or `.`, its first word is `spawnnpc` or `spawn` in any ASCII case,
/// and its second word is the NPC id.
pub open spec fn spawn_target(message: Seq<char>) -> Option<Seq<char>> {
    match command_body(message) {
        Some(body) => {
            let w = words(body);
            if w.len() >= 2 && (lower(w[0]) == "spawnnpc"@ || lower(w[0]) == "spawn"@) {
                Some(w[1])
            } else {
                None
            }
        },
        None => None,
    }
}

/// Law: the command word is read in any ASCII case. Two spawn commands
/// whose words are the same but for the case of the command word name the
/// same NPC, or both are no spawn command.
pub proof fn lemma_command_word_case_insensitive(m1: Seq<char>, m2: Seq<char>)
    requires
        command_body(m1) is Some,
        command_body(m2) is Some,
        words(command_body(m1)->0).len() == words(command_body(m2)->0).len(),
        words(command_body(m1)->0).len() > 0,
        lower(words(command_body(m1)->0)[0]) == lower(words(command_body(m2)->0)[0]),
        forall|k: int|
            1 <= k < words(command_body(m1)->0).len() ==> words(command_body(m1)->0)[k] == words(
                command_body(m2)->0,
            )[k],
    ensures
        spawn_target(m1) == spawn_target(m2),
{
    if words(command_body(m1)->0).len() >= 2 {
        assert(words(command_body(m1)->0)[1] == words(command_body(m2)->0)[1]);
    }
}

/// Law: a command word that is `spawn` or `spawnnpc` in any ASCII case,
/// followed by a word, asks to spawn the NPC that word names; with any
/// other command word nothing is spawned.
pub proof fn lemma_spawn_word_any_case(m: Seq<char>)
    requires
        command_body(m) is Some,
        words(command_body(m)->0).len() >= 2,
    ensures
        lower(words(command_body(m)->0)[0]) == "spawn"@ ==> spawn_target(m) == Some(
            words(command_body(m)->0)[1],
        ),
        lower(words(command_body(m)->0)[0]) == "spawnnpc"@ ==> spawn_target(m) == Some(
            words(command_body(m)->0)[1],
        ),
        lower(words(command_body(m)->0)[0]) != "spawn"@ && lower(words(command_body(m)->0)[0])
            != "spawnnpc"@ ==> spawn_target(m) is None,
{
}

/// The spawn command a chat message holds, if any (see `spawn_target`).
pub fn parse_spawn_command(message: &str) -> (r: Option<SpawnCommand>)
    ensures
        match r {
            Some(c) => spawn_target(message@) == Some(c.npc_id@),
            None => spawn_target(message@) is None,
        },
{
    let m = chars_of(message);
    let t = trim_chars(m.as_slice());
    let bang = chars_of("!");
    let dot = chars_of(".");
    proof {
        reveal_strlit("!");
        reveal_strlit(".");
    }
    if t.len() == 0 {
        return None;
    }
    let first = slice_range(t.as_slice(), 0, 1);
    assert(first@ =~= t@.subrange(0, 1));
    if !chars_eq(first.as_slice(), bang.as_slice()) && !chars_eq(first.as_slice(), dot.as_slice()) {
        return None;
    }
    let body = slice_range(t.as_slice(), 1, t.len());
    assert(body@ =~= t@.skip(1));
    let ws = split_words(body.as_slice());
    if ws.len() < 2 {
        return None;
    }
    let name = lower_chars(ws[0].as_slice());
    assert(views(ws@)[0] == ws@[0]@);
    assert(views(ws@)[1] == ws@[1]@);
    if !chars_eq_str(name.as_slice(), "spawnnpc") && !chars_eq_str(name.as_slice(), "spawn") {
        return None;
    }
    Some(SpawnCommand { npc_id: string_from_chars(ws[1].as_slice()) })
}

/// The system's answer to a spawn command: that the spawn was requested
/// near the sender, or why it failed.
pub open spec fn spawn_status(npc_id: Seq<char>, sender: Seq<char>, outcome: Result<(), Seq<char>>) -> Seq<
    char,
> {
    match outcome {
        Ok(_) => "Spawn requested for NPC '"@ + npc_id + "' near "@ + sender + "."@,
        Err(e) => "Spawn request failed for NPC '"@ + npc_id + "': "@ + e,
    }
}

/// The system's answer to a spawn command (see `spawn_status`).
pub fn spawn_status_text(npc_id: &str, sender: &str, outcome: &Result<(), String>) -> (r: String)
    ensures
        r@ == spawn_status(
            npc_id@,
            sender@,
            match outcome {
                Ok(u) => Ok(*u),
                Err(e) => Err(e@),
            },
        ),
{
    let mut v: Vec<char> = Vec::new();
    match outcome {
        Ok(_) => {
            append_str(&mut v, "Spawn requested for NPC '");
            append_str(&mut v, npc_id);
            append_str(&mut v, "' near ");
            append_str(&mut v, sender);
            append_str(&mut v, ".");
        },
        Err(e) => {
            append_str(&mut v, "Spawn request failed for NPC '");
            append_str(&mut v, npc_id);
            append_str(&mut v, "': ");
            append_str(&mut v, e.as_str());
        },
    }
    string_from_chars(v.as_slice())
}

/// The character a spawn is requested for: the `x-character-id` the
/// message came with, which must be present and non-empty.
pub fn spawn_character_id(sender_character_id: Option<&str>) -> (r: Result<String, String>)
    ensures
        match sender_character_id {
            Some(c) if c@.len() > 0 => r matches Ok(id) && id@ == c@,
            _ => r matches Err(m) && m@ == "missing x-character-id metadata"@,
        },
{
    match sender_character_id {
        Some(c) => {
            let v = chars_of(c);
            if v.len() > 0 {
                Ok(to_owned_string(c))
            } else {
                Err(to_owned_string("missing x-character-id metadata"))
            }
        },
        None => Err(to_owned_string("missing x-character-id metadata")),
    }
}

/// What a spawn request needs of the player context reply: the reply's
/// error, the zone the player is in, and whether each coordinate of the
/// player's position and facing came with it.
pub struct PlayerContextFields {
    pub error: Option<String>,
    pub zone_id: Option<String>,
    pub has_position_x: bool,
    pub has_position_y: bool,
    pub has_position_z: bool,
    pub has_yaw: bool,
}

/// The zone an NPC is spawned in from a player context reply: the reply's
/// own error if it has one, else the first field that is missing, in the
/// order zone, x, y, z, yaw; else the player's zone.
pub open spec fn spawn_zone(ctx: PlayerContextFields) -> Result<Seq<char>, Seq<char>> {
    match ctx.error {
        Some(e) => Err(e@),
        None => match ctx.zone_id {
            None => Err("missing zone_id in player context response"@),
            Some(z) => if !ctx.has_position_x {
                Err("missing position_x in player context response"@)
            } else if !ctx.has_position_y {
                Err("missing position_y in player context response"@)
            } else if !ctx.has_position_z {
                Err("missing position_z in player context response"@)
            } else if !ctx.has_yaw {
                Err("missing yaw in player context response"@)
            } else {
                Ok(z@)
            },
        },
    }
}

/// Checks a player context reply before a spawn is requested (see
/// `spawn_zone`).
pub fn check_player_context(ctx: &PlayerContextFields) -> (r: Result<String, String>)
    ensures
        match spawn_zone(*ctx) {
            Ok(z) => r matches Ok(x) && x@ == z,
            Err(m) => r matches Err(x) && x@ == m,
        },
{
    match &ctx.error {
        Some(e) => Err(e.clone()),
        None => match &ctx.zone_id {
            None => Err(to_owned_string("missing zone_id in player context response")),
            Some(z) => {
                if !ctx.has_position_x {
                    Err(to_owned_string("missing position_x in player context response"))
                } else if !ctx.has_position_y {
                    Err(to_owned_string("missing position_y in player context response"))
                } else if !ctx.has_position_z {
                    Err(to_owned_string("missing position_z in player context response"))
                } else if !ctx.has_yaw {
                    Err(to_owned_string("missing yaw in player context response"))
                } else {
                    Ok(z.clone())
                }
            },
        },
    }
}

/// Default NATS server of the chat service.
pub const DEFAULT_CHAT_NATS_URL: &'static str = "nats://nats:4222";

/// Default subject of spawn requests.
pub const DEFAULT_SPAWN_SUBJECT: &'static str = "npc.spawn.request";

/// Default subject of player context requests.
pub const DEFAULT_PLAYER_CONTEXT_SUBJECT: &'static str = "server.player_context.get";

/// Where the chat service connects and publishes.
#[derive(Debug)]
pub struct ChatSettings {
    pub nats_url: String,
    pub spawn_subject: String,
    pub player_context_subject: String,
}

/// A setting's value, or the default when it is unset or unreadable.
pub open spec fn value_or(lookup: LookupView, default: Seq<char>) -> Seq<char> {
    match lookup {
        LookupView::Present(v) => v,
        _ => default,
    }
}

fn value_or_default(lookup: EnvLookup, default: &str) -> (r: String)
    ensures
        r@ == value_or(lookup@, default@),
{
    match lookup {
        EnvLookup::Present(v) => v,
        _ => to_owned_string(default),
    }
}

impl ChatSettings {
    /// The settings from `NATS_URL`, `CHAT_NPC_SPAWN_SUBJECT` and
    /// `CHAT_PLAYER_CONTEXT_SUBJECT`, each falling back to its default.
    pub fn from_env(nats_url: EnvLookup, spawn_subject: EnvLookup, player_context_subject: EnvLookup) -> (r:
        ChatSettings)
        ensures
            r.nats_url@ == value_or(nats_url@, DEFAULT_CHAT_NATS_URL@),
            r.spawn_subject@ == value_or(spawn_subject@, DEFAULT_SPAWN_SUBJECT@),
            r.player_context_subject@ == value_or(
                player_context_subject@,
                DEFAULT_PLAYER_CONTEXT_SUBJECT@,
            ),
    {
        ChatSettings {
            nats_url: value_or_default(nats_url, DEFAULT_CHAT_NATS_URL),
            spawn_subject: value_or_default(spawn_subject, DEFAULT_SPAWN_SUBJECT),
            player_context_subject: value_or_default(
                player_context_subject,
                DEFAULT_PLAYER_CONTEXT_SUBJECT,
            ),
        }
    }

    /// The settings of a chat service without configuration.
    pub fn defaults() -> (r: ChatSettings)
        ensures
            r.nats_url@ == DEFAULT_CHAT_NATS_URL@,
            r.spawn_subject@ == DEFAULT_SPAWN_SUBJECT@,
            r.player_context_subject@ == DEFAULT_PLAYER_CONTEXT_SUBJECT@,
    {
        ChatSettings {
            nats_url: to_owned_string(DEFAULT_CHAT_NATS_URL),
            spawn_subject: to_owned_string(DEFAULT_SPAWN_SUBJECT),
            player_context_subject: to_owned_string(DEFAULT_PLAYER_CONTEXT_SUBJECT),
        }
    }
}

} // verus!
