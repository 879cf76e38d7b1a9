//! NPC metadata: the request shapes of the metadata service and the rules
//! that turn an NPC's definition into the context of an interaction with a
//! player (who speaks, to whom, in what scene, with what goal).
use vstd::prelude::*;
use crate::text::{append_str, chars_eq_str, chars_of, opt_string_view, string_from_chars, to_owned_string};

verus! {

/// A party of an interaction: the NPC that speaks or the player it speaks to.
#[derive(Debug)]
pub struct InteractionActor {
    pub id: String,
    pub name: String,
    pub role: String,
    pub faction: Option<String>,
}

/// The body of an error answer.
#[derive(Debug)]
pub struct ErrorResponse {
    pub error: String,
}

/// A request for one NPC.
#[derive(Debug)]
pub struct NpcGetRequest {
    pub npc_id: String,
}

/// A request for several NPCs.
#[derive(Debug)]
pub struct NpcBatchGetRequest {
    pub npc_ids: Vec<String>,
}

/// A request for the NPCs of a zone.
#[derive(Debug)]
pub struct NpcByZoneRequest {
    pub zone_id: String,
}

/// A request for the context of an interaction between an NPC and a player.
#[derive(Debug)]
pub struct NpcResolveContextRequest {
    pub npc_id: String,
    pub player_id: String,
    pub player_name: Option<String>,
    pub player_role: Option<String>,
    /// A description of the world at this moment; replaces the zone's
    /// default scene.
    pub world_snapshot: Option<String>,
}

/// A request to delete an NPC.
#[derive(Debug)]
pub struct NpcDeleteRequest {
    pub npc_id: String,
}

/// The zone whose scene has a written description.
pub const TAVERN_DISTRICT_ZONE: &'static str = "zone_tavern_district";

/// The scene of the tavern district.
pub const TAVERN_DISTRICT_SCENE: &'static str =
    "a lively tavern district with merchants, travelers, and city guards";

/// The zone assumed for an NPC without spawn points.
pub const UNKNOWN_ZONE: &'static str = "unknown_zone";

/// The name a player without one is called by.
pub const DEFAULT_PLAYER_NAME: &'static str = "Adventurer";

/// The role a player without one has.
pub const DEFAULT_PLAYER_ROLE: &'static str = "player";

/// The spawn policy of a spawn point that names none.
pub const DEFAULT_SPAWN_POLICY: &'static str = "always";

/// The zone id with every `_` read as a space.
pub open spec fn underscores_to_spaces(s: Seq<char>) -> Seq<char> {
    s.map_values(|c: char| if c == '_' { ' ' } else { c })
}

/// The scene of a zone: the written description of the tavern district,
/// otherwise the zone id with `_` read as spaces.
pub open spec fn zone_scene(zone_id: Seq<char>) -> Seq<char> {
    if zone_id == TAVERN_DISTRICT_ZONE@ {
        TAVERN_DISTRICT_SCENE@
    } else {
        underscores_to_spaces(zone_id)
    }
}

/// The goal of an NPC in an interaction, by its role.
pub open spec fn role_goal(role: Seq<char>) -> Seq<char> {
    if role == "guard"@ {
        "Maintain checkpoint control while answering briefly and in character."@
    } else if role == "merchant"@ {
        "Provide concise in-character trade dialogue and guide the player to next steps."@
    } else if role == "innkeeper"@ {
        "Provide concise in-character hospitality dialogue and relevant local guidance."@
    } else if role == "worker"@ {
        "Respond briefly in a busy worker voice while staying helpful and grounded."@
    } else {
        "Respond in-character as a "@ + role + " and stay concise and consistent."@
    }
}

/// The scene of a zone (see `zone_scene`).
pub fn zone_scene_description(zone_id: &str) -> (r: String)
    ensures
        r@ == zone_scene(zone_id@),
{
    let c = chars_of(zone_id);
    if chars_eq_str(c.as_slice(), TAVERN_DISTRICT_ZONE) {
        return to_owned_string(TAVERN_DISTRICT_SCENE);
    }
    let mut out: Vec<char> = Vec::new();
    let mut i: usize = 0;
    while i < c.len()
        invariant
            i <= c.len(),
            out@ == underscores_to_spaces(c@.take(i as int)),
        decreases c.len() - i,
    {
        let ch = if c[i] == '_' {
            ' '
        } else {
            c[i]
        };
        out.push(ch);
        assert(underscores_to_spaces(c@.take(i + 1)) =~= underscores_to_spaces(c@.take(i as int)).push(ch));
        i = i + 1;
    }
    assert(c@.take(c.len() as int) =~= c@);
    string_from_chars(out.as_slice())
}

/// The goal of an NPC by its role (see `role_goal`).
pub fn default_goal_for_role(role: &str) -> (r: String)
    ensures
        r@ == role_goal(role@),
{
    let c = chars_of(role);
    if chars_eq_str(c.as_slice(), "guard") {
        to_owned_string("Maintain checkpoint control while answering briefly and in character.")
    } else if chars_eq_str(c.as_slice(), "merchant") {
        to_owned_string(
            "Provide concise in-character trade dialogue and guide the player to next steps.",
        )
    } else if chars_eq_str(c.as_slice(), "innkeeper") {
        to_owned_string(
            "Provide concise in-character hospitality dialogue and relevant local guidance.",
        )
    } else if chars_eq_str(c.as_slice(), "worker") {
        to_owned_string(
            "Respond briefly in a busy worker voice while staying helpful and grounded.",
        )
    } else {
        let mut v: Vec<char> = Vec::new();
        append_str(&mut v, "Respond in-character as a ");
        append_str(&mut v, role);
        append_str(&mut v, " and stay concise and consistent.");
        string_from_chars(v.as_slice())
    }
}

/// The spawn policy of a spawn point that names none.
pub fn default_spawn_policy() -> (r: String)
    ensures
        r@ == DEFAULT_SPAWN_POLICY@,
{
    to_owned_string(DEFAULT_SPAWN_POLICY)
}

/// What an NPC definition says of the NPC itself.
#[derive(Debug)]
pub struct NpcIdentity {
    pub npc_id: String,
    pub display_name: String,
    pub role: String,
    pub faction: String,
}

/// The parties, scene and goal of an interaction.
#[derive(Debug)]
pub struct InteractionParts {
    pub speaker: InteractionActor,
    pub listener: InteractionActor,
    pub scene: String,
    pub goal: String,
}

/// The zone an NPC is met in: that of its first spawn point, or the unknown
/// zone.
pub open spec fn meeting_zone(spawn_zones: Seq<String>) -> Seq<char> {
    if spawn_zones.len() > 0 {
        spawn_zones[0]@
    } else {
        UNKNOWN_ZONE@
    }
}

/// The parties, scene and goal of an interaction between an NPC and a
/// player: the NPC speaks, under its id, name, role and faction; the player
/// listens, called `Adventurer` and with role `player` unless told
/// otherwise; the scene is the world snapshot if given, otherwise the scene
/// of the zone of the NPC's first spawn point; the goal follows the NPC's
/// role.
pub fn interaction_context_parts(
    npc: &NpcIdentity,
    spawn_zones: &Vec<String>,
    player_id: &str,
    player_name: Option<&str>,
    player_role: Option<&str>,
    world_snapshot: Option<&str>,
) -> (r: InteractionParts)
    ensures
        r.speaker.id@ == npc.npc_id@,
        r.speaker.name@ == npc.display_name@,
        r.speaker.role@ == npc.role@,
        opt_string_view(r.speaker.faction) == Some(npc.faction@),
        r.listener.id@ == player_id@,
        r.listener.name@ == match player_name {
            Some(n) => n@,
            None => DEFAULT_PLAYER_NAME@,
        },
        r.listener.role@ == match player_role {
            Some(n) => n@,
            None => DEFAULT_PLAYER_ROLE@,
        },
        r.listener.faction is None,
        r.scene@ == match world_snapshot {
            Some(s) => s@,
            None => zone_scene(meeting_zone(spawn_zones@)),
        },
        r.goal@ == role_goal(npc.role@),
{
    let scene = match world_snapshot {
        Some(s) => to_owned_string(s),
        None => {
            if spawn_zones.len() > 0 {
                zone_scene_description(spawn_zones[0].as_str())
            } else {
                zone_scene_description(UNKNOWN_ZONE)
            }
        },
    };
    let speaker = InteractionActor {
        id: npc.npc_id.clone(),
        name: npc.display_name.clone(),
        role: npc.role.clone(),
        faction: Some(npc.faction.clone()),
    };
    let listener = InteractionActor {
        id: to_owned_string(player_id),
        name: to_owned_string(
            match player_name {
                Some(n) => n,
                None => DEFAULT_PLAYER_NAME,
            },
        ),
        role: to_owned_string(
            match player_role {
                Some(n) => n,
                None => DEFAULT_PLAYER_ROLE,
            },
        ),
        faction: None,
    };
    InteractionParts { speaker, listener, scene, goal: default_goal_for_role(npc.role.as_str()) }
}

} // verus!
