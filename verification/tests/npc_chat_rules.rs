use idklol::chat::{
    check_player_context, parse_spawn_command, spawn_character_id, spawn_status_text, ChatSettings,
    PlayerContextFields,
};
use idklol::env_config::EnvLookup;
use idklol::npc::{
    default_goal_for_role, default_spawn_policy, interaction_context_parts, zone_scene_description,
    NpcIdentity,
};

#[test]
fn zone_scenes() {
    assert_eq!(
        zone_scene_description("zone_tavern_district"),
        "a lively tavern district with merchants, travelers, and city guards"
    );
    assert_eq!(zone_scene_description("north_gate_zone"), "north gate zone");
    assert_eq!(zone_scene_description("plain"), "plain");
}

#[test]
fn role_goals() {
    assert_eq!(
        default_goal_for_role("guard"),
        "Maintain checkpoint control while answering briefly and in character."
    );
    assert_eq!(
        default_goal_for_role("merchant"),
        "Provide concise in-character trade dialogue and guide the player to next steps."
    );
    assert_eq!(
        default_goal_for_role("innkeeper"),
        "Provide concise in-character hospitality dialogue and relevant local guidance."
    );
    assert_eq!(
        default_goal_for_role("worker"),
        "Respond briefly in a busy worker voice while staying helpful and grounded."
    );
    assert_eq!(
        default_goal_for_role("bard"),
        "Respond in-character as a bard and stay concise and consistent."
    );
    assert_eq!(default_spawn_policy(), "always");
}

fn npc() -> NpcIdentity {
    NpcIdentity {
        npc_id: "11111111-1111-1111-1111-111111111111".to_string(),
        display_name: "Bram".to_string(),
        role: "guard".to_string(),
        faction: "city_watch".to_string(),
    }
}

#[test]
fn interaction_context_defaults_and_overrides() {
    let zones = vec!["zone_tavern_district".to_string(), "other_zone".to_string()];
    let parts = interaction_context_parts(&npc(), &zones, "player-42", None, None, None);
    assert_eq!(parts.speaker.id, "11111111-1111-1111-1111-111111111111");
    assert_eq!(parts.speaker.name, "Bram");
    assert_eq!(parts.speaker.faction.as_deref(), Some("city_watch"));
    assert_eq!(parts.listener.id, "player-42");
    assert_eq!(parts.listener.name, "Adventurer");
    assert_eq!(parts.listener.role, "player");
    assert_eq!(parts.listener.faction, None);
    assert_eq!(parts.scene, "a lively tavern district with merchants, travelers, and city guards");
    assert_eq!(parts.goal, "Maintain checkpoint control while answering briefly and in character.");

    let parts = interaction_context_parts(
        &npc(),
        &Vec::new(),
        "player-42",
        Some("Ari"),
        Some("adventurer"),
        Some("rainy evening at the tavern"),
    );
    assert_eq!(parts.listener.name, "Ari");
    assert_eq!(parts.listener.role, "adventurer");
    assert_eq!(parts.scene, "rainy evening at the tavern");

    let parts = interaction_context_parts(&npc(), &Vec::new(), "p", None, None, None);
    assert_eq!(parts.scene, "unknown zone");
}

#[test]
fn spawn_commands_are_recognised() {
    assert_eq!(parse_spawn_command("!spawn guard_1").unwrap().npc_id, "guard_1");
    assert_eq!(parse_spawn_command("  .SpawnNpc   merchant  extra ").unwrap().npc_id, "merchant");
    assert!(parse_spawn_command("!spawn").is_none());
    assert!(parse_spawn_command("spawn guard").is_none());
    assert!(parse_spawn_command("!summon guard").is_none());
    assert!(parse_spawn_command("").is_none());
    assert!(parse_spawn_command("hello there").is_none());
}

#[test]
fn spawn_status_messages() {
    assert_eq!(
        spawn_status_text("guard_1", "Ari", &Ok(())),
        "Spawn requested for NPC 'guard_1' near Ari."
    );
    assert_eq!(
        spawn_status_text("guard_1", "Ari", &Err("NATS client unavailable".to_string())),
        "Spawn request failed for NPC 'guard_1': NATS client unavailable"
    );
}

#[test]
fn spawn_needs_a_character_id() {
    assert_eq!(spawn_character_id(Some("c-1")), Ok("c-1".to_string()));
    assert_eq!(spawn_character_id(Some("")), Err("missing x-character-id metadata".to_string()));
    assert_eq!(spawn_character_id(None), Err("missing x-character-id metadata".to_string()));
}

#[test]
fn chat_settings_defaults() {
    let s = ChatSettings::from_env(EnvLookup::NotPresent, EnvLookup::Present("x.spawn".to_string()), EnvLookup::NotUnicode);
    assert_eq!(s.nats_url, "nats://nats:4222");
    assert_eq!(s.spawn_subject, "x.spawn");
    assert_eq!(s.player_context_subject, "server.player_context.get");
    let d = ChatSettings::defaults();
    assert_eq!(d.spawn_subject, "npc.spawn.request");
}

fn full_context() -> PlayerContextFields {
    PlayerContextFields {
        error: None,
        zone_id: Some("zone_tavern_district".to_string()),
        has_position_x: true,
        has_position_y: true,
        has_position_z: true,
        has_yaw: true,
    }
}

#[test]
fn player_context_gives_the_spawn_zone_or_what_is_missing() {
    assert_eq!(check_player_context(&full_context()), Ok("zone_tavern_district".to_string()));

    let mut failed = full_context();
    failed.error = Some("character not found".to_string());
    failed.zone_id = None;
    assert_eq!(check_player_context(&failed), Err("character not found".to_string()));

    let mut no_zone = full_context();
    no_zone.zone_id = None;
    no_zone.has_yaw = false;
    assert_eq!(
        check_player_context(&no_zone),
        Err("missing zone_id in player context response".to_string())
    );

    let mut no_y = full_context();
    no_y.has_position_y = false;
    no_y.has_yaw = false;
    assert_eq!(
        check_player_context(&no_y),
        Err("missing position_y in player context response".to_string())
    );

    let mut no_yaw = full_context();
    no_yaw.has_yaw = false;
    assert_eq!(check_player_context(&no_yaw), Err("missing yaw in player context response".to_string()));
}
