//! The NPC interaction bridge's rules: the prompt sent to the language
//! model for an interaction request, the system prompt rendered from a
//! template, and the operator commands of the bridge with what they print.
use vstd::prelude::*;
use crate::command::{CustomCommandSpec, ServiceCommandEvent, ServiceControlCommand};
use crate::prompts::{
    LoadedPrompt,
    PromptStore,
    PromptStoreError,
    first_key,
    has_key,
    path_view,
    preview,
    prompt_text,
    resolution,
    table_keys,
};
use crate::text::{
    append_chars,
    append_str,
    apply_replacement_list,
    apply_replacements,
    contains,
    lemma_absent_by_char,
    lemma_apply_replacements_absent,
    lemma_apply_replacements_split,
    lemma_replace_all_whole,
    chars_eq_str,
    chars_of,
    decimal_text,
    join,
    join_chars,
    opt_string_view,
    pair_views,
    push_decimal,
    push_decimal_u128,
    string_from_chars,
    string_views,
    strings_to_chars,
    to_owned_string,
    trim,
    trim_chars,
    views,
};

verus! {

/// What an interaction request says about the NPC, the player and the
/// message.
#[derive(Debug)]
pub struct PromptInputs {
    pub npc_id: String,
    pub npc_name: Option<String>,
    pub npc_role: Option<String>,
    pub player_id: Option<String>,
    pub player_name: Option<String>,
    pub nearby_player_names: Option<Vec<String>>,
    pub message: String,
    pub context: Option<String>,
}

/// The closing instruction about nearby players.
pub const GREETING_INSTRUCTION: &'static str =
    "If nearby players are listed, greet them by name in the response.";

/// The closing instruction about the answer's form.
pub const RESPONSE_INSTRUCTION: &'static str =
    "Respond as the NPC with concise, role-appropriate dialogue.";

/// The nearby players' names joined by `, `, if any are listed.
pub open spec fn nearby_list(i: PromptInputs) -> Option<Seq<char>> {
    match i.nearby_player_names {
        Some(v) => if v.len() > 0 {
            Some(join(string_views(v@), ", "@))
        } else {
            None
        },
        None => None,
    }
}

/// The lines of the model prompt: the NPC's id, name and role, the
/// player's id (or `unknown`) and name, the nearby players, the world
/// context, the player's message and two closing instructions; absent
/// facts are left out.
pub open spec fn prompt_sections(i: PromptInputs) -> Seq<Seq<char>> {
    let s1 = seq!["NPC ID: "@ + i.npc_id@];
    let s2 = match i.npc_name {
        Some(n) => s1.push("NPC Name: "@ + n@),
        None => s1,
    };
    let s3 = match i.npc_role {
        Some(n) => s2.push("NPC Role: "@ + n@),
        None => s2,
    };
    let s4 = s3.push(
        match i.player_id {
            Some(p) => "Player ID: "@ + p@,
            None => "Player ID: unknown"@,
        },
    );
    let s5 = match i.player_name {
        Some(n) => s4.push("Player Name: "@ + n@),
        None => s4,
    };
    let s6 = match nearby_list(i) {
        Some(l) => s5.push("Nearby Players: "@ + l),
        None => s5,
    };
    let s7 = match i.context {
        Some(c) => s6.push("World Context: "@ + c@),
        None => s6,
    };
    s7.push("Player Message: "@ + i.message@).push(GREETING_INSTRUCTION@).push(
        RESPONSE_INSTRUCTION@,
    )
}

fn labelled(label: &str, value: &[char]) -> (r: Vec<char>)
    ensures
        r@ == label@ + value@,
{
    let mut v = chars_of(label);
    append_chars(&mut v, value);
    v
}

fn nearby_text(i: &PromptInputs) -> (r: Option<Vec<char>>)
    ensures
        match r {
            Some(t) => nearby_list(*i) == Some(t@),
            None => nearby_list(*i) is None,
        },
{
    match &i.nearby_player_names {
        Some(v) => {
            if v.len() > 0 {
                let parts = strings_to_chars(v);
                let sep = chars_of(", ");
                Some(join_chars(&parts, sep.as_slice()))
            } else {
                None
            }
        },
        None => None,
    }
}

/// The prompt sent to the model: the lines of `prompt_sections`, one per
/// line.
pub fn build_prompt(request: &PromptInputs) -> (r: String)
    ensures
        r@ == join(prompt_sections(*request), "\n"@),
{
    let mut s: Vec<Vec<char>> = Vec::new();
    let ghost mut spec_s: Seq<Seq<char>> = Seq::empty();
    let id = chars_of(request.npc_id.as_str());
    s.push(labelled("NPC ID: ", id.as_slice()));
    if let Some(n) = &request.npc_name {
        let c = chars_of(n.as_str());
        s.push(labelled("NPC Name: ", c.as_slice()));
    }
    if let Some(n) = &request.npc_role {
        let c = chars_of(n.as_str());
        s.push(labelled("NPC Role: ", c.as_slice()));
    }
    match &request.player_id {
        Some(p) => {
            let c = chars_of(p.as_str());
            s.push(labelled("Player ID: ", c.as_slice()));
        },
        None => {
            s.push(chars_of("Player ID: unknown"));
        },
    }
    if let Some(n) = &request.player_name {
        let c = chars_of(n.as_str());
        s.push(labelled("Player Name: ", c.as_slice()));
    }
    if let Some(l) = nearby_text(request) {
        s.push(labelled("Nearby Players: ", l.as_slice()));
    }
    if let Some(c) = &request.context {
        let cc = chars_of(c.as_str());
        s.push(labelled("World Context: ", cc.as_slice()));
    }
    let m = chars_of(request.message.as_str());
    s.push(labelled("Player Message: ", m.as_slice()));
    s.push(chars_of(GREETING_INSTRUCTION));
    s.push(chars_of(RESPONSE_INSTRUCTION));
    assert(views(s@) =~= prompt_sections(*request));
    let nl = chars_of("\n");
    let joined = join_chars(&s, nl.as_slice());
    string_from_chars(joined.as_slice())
}

/// The values a system prompt template is filled with.
pub open spec fn template_values(i: PromptInputs) -> (
    Seq<char>,
    Seq<char>,
    Seq<char>,
    Seq<char>,
    Seq<char>,
    Seq<char>,
) {
    let player_id = match i.player_id {
        Some(p) => p@,
        None => "unknown-player"@,
    };
    let player_name = match i.player_name {
        Some(p) => p@,
        None => player_id,
    };
    let npc_name = match i.npc_name {
        Some(n) => n@,
        None => i.npc_id@,
    };
    let npc_role = match i.npc_role {
        Some(n) => n@,
        None => Seq::empty(),
    };
    let world_context = match i.context {
        Some(c) => c@,
        None => Seq::empty(),
    };
    let nearby = match i.nearby_player_names {
        Some(v) => join(string_views(v@), ", "@),
        None => Seq::empty(),
    };
    (npc_name, npc_role, player_name, player_id, nearby, world_context)
}

/// The placeholders of a system prompt template, each in four spellings,
/// and what replaces them.
pub open spec fn system_prompt_replacements(i: PromptInputs) -> Seq<(Seq<char>, Seq<char>)> {
    let (npc_name, npc_role, player_name, player_id, nearby, world_context) = template_values(i);
    seq![
        ("{{npc-name}}"@, npc_name),
        ("{{npc_name}}"@, npc_name),
        ("{npc-name}"@, npc_name),
        ("{npc_name}"@, npc_name),
        ("{{npc-id}}"@, i.npc_id@),
        ("{{npc_id}}"@, i.npc_id@),
        ("{npc-id}"@, i.npc_id@),
        ("{npc_id}"@, i.npc_id@),
        ("{{npc-role}}"@, npc_role),
        ("{{npc_role}}"@, npc_role),
        ("{npc-role}"@, npc_role),
        ("{npc_role}"@, npc_role),
        ("{{player-name}}"@, player_name),
        ("{{player_name}}"@, player_name),
        ("{player-name}"@, player_name),
        ("{player_name}"@, player_name),
        ("{{player-id}}"@, player_id),
        ("{{player_id}}"@, player_id),
        ("{player-id}"@, player_id),
        ("{player_id}"@, player_id),
        ("{{nearby-players}}"@, nearby),
        ("{{nearby_players}}"@, nearby),
        ("{nearby-players}"@, nearby),
        ("{nearby_players}"@, nearby),
        ("{{world-context}}"@, world_context),
        ("{{world_context}}"@, world_context),
        ("{world-context}"@, world_context),
        ("{world_context}"@, world_context),
        ("{{player-message}}"@, i.message@),
        ("{{player_message}}"@, i.message@),
        ("{player-message}"@, i.message@),
        ("{player_message}"@, i.message@),
    ]
}

/// Whether a text holds no opening brace, so that no placeholder can occur
/// in it.
pub open spec fn brace_free(s: Seq<char>) -> bool {
    forall|k: int| 0 <= k < s.len() ==> s[k] != '{'
}

/// The placeholder texts of the system prompt template: each starts with a
/// brace; the NPC ones (the first twelve) name `npc`.
proof fn lemma_placeholder_texts(i: PromptInputs)
    ensures
        system_prompt_replacements(i).len() == 32,
        forall|k: int|
            0 <= k < system_prompt_replacements(i).len() ==> (#[trigger] system_prompt_replacements(i)[k]).0.len()
                > 4 && system_prompt_replacements(i)[k].0[0] == '{',
        forall|k: int|
            0 <= k < 12 ==> (#[trigger] system_prompt_replacements(i)[k]).0[3] == 'c'
                || system_prompt_replacements(i)[k].0[4] == 'c',
{
    reveal_strlit("{{npc-name}}");
    reveal_strlit("{{npc_name}}");
    reveal_strlit("{npc-name}");
    reveal_strlit("{npc_name}");
    reveal_strlit("{{npc-id}}");
    reveal_strlit("{{npc_id}}");
    reveal_strlit("{npc-id}");
    reveal_strlit("{npc_id}");
    reveal_strlit("{{npc-role}}");
    reveal_strlit("{{npc_role}}");
    reveal_strlit("{npc-role}");
    reveal_strlit("{npc_role}");
    reveal_strlit("{{player-name}}");
    reveal_strlit("{{player_name}}");
    reveal_strlit("{player-name}");
    reveal_strlit("{player_name}");
    reveal_strlit("{{player-id}}");
    reveal_strlit("{{player_id}}");
    reveal_strlit("{player-id}");
    reveal_strlit("{player_id}");
    reveal_strlit("{{nearby-players}}");
    reveal_strlit("{{nearby_players}}");
    reveal_strlit("{nearby-players}");
    reveal_strlit("{nearby_players}");
    reveal_strlit("{{world-context}}");
    reveal_strlit("{{world_context}}");
    reveal_strlit("{world-context}");
    reveal_strlit("{world_context}");
    reveal_strlit("{{player-message}}");
    reveal_strlit("{{player_message}}");
    reveal_strlit("{player-message}");
    reveal_strlit("{player_message}");
}

/// A placeholder whose earlier replacements do not occur in it renders as
/// its value, when that value holds no brace.
proof fn lemma_placeholder_renders(i: PromptInputs, idx: int)
    requires
        0 <= idx < system_prompt_replacements(i).len(),
        brace_free(system_prompt_replacements(i)[idx].1),
        forall|k: int|
            0 <= k < idx ==> !contains(
                system_prompt_replacements(i)[idx].0,
                (#[trigger] system_prompt_replacements(i)[k]).0,
            ),
    ensures
        apply_replacements(system_prompt_replacements(i)[idx].0, system_prompt_replacements(i))
            == system_prompt_replacements(i)[idx].1,
{
    let reps = system_prompt_replacements(i);
    let p = reps[idx].0;
    let n = reps[idx].1;
    lemma_placeholder_texts(i);
    lemma_apply_replacements_split(p, reps, idx);
    assert forall|k: int| 0 <= k < reps.take(idx).len() implies (#[trigger] reps.take(idx)[k]).0.len() > 0
        && !contains(p, reps.take(idx)[k].0) by {
        assert(reps.take(idx)[k] == reps[k]);
    }
    lemma_apply_replacements_absent(p, reps.take(idx));
    let rest = reps.skip(idx);
    assert(rest[0] == reps[idx]);
    lemma_replace_all_whole(p, n);
    assert(rest.drop_first() =~= reps.skip(idx + 1));
    assert forall|k: int| 0 <= k < reps.skip(idx + 1).len() implies (#[trigger] reps.skip(idx + 1)[k]).0.len() > 0
        && !contains(n, reps.skip(idx + 1)[k].0) by {
        assert(reps.skip(idx + 1)[k] == reps[idx + 1 + k]);
        lemma_absent_by_char(n, reps[idx + 1 + k].0, 0);
    }
    lemma_apply_replacements_absent(n, reps.skip(idx + 1));
}

proof fn lemma_npc_texts_absent(i: PromptInputs, idx: int)
    requires
        12 <= idx < system_prompt_replacements(i).len(),
        forall|m: int| 0 <= m < system_prompt_replacements(i)[idx].0.len() ==> system_prompt_replacements(i)[idx].0[m] != 'c',
    ensures
        forall|k: int|
            0 <= k < 12 ==> !contains(
                system_prompt_replacements(i)[idx].0,
                (#[trigger] system_prompt_replacements(i)[k]).0,
            ),
{
    lemma_placeholder_texts(i);
    let reps = system_prompt_replacements(i);
    assert forall|k: int| 0 <= k < 12 implies !contains(reps[idx].0, (#[trigger] reps[k]).0) by {
        if reps[k].0[3] == 'c' {
            lemma_absent_by_char(reps[idx].0, reps[k].0, 3);
        } else {
            lemma_absent_by_char(reps[idx].0, reps[k].0, 4);
        }
    }
}

proof fn lemma_longer_absent(s: Seq<char>, p: Seq<char>)
    requires
        p.len() > s.len(),
    ensures
        !contains(s, p),
{
}

/// Law: when an interaction request gives a player name that holds no
/// brace, each spelling of the player-name placeholder
/// (`{{player-name}}`, `{{player_name}}`, `{player-name}`, `{player_name}`)
/// renders as that name, whatever the player id.
pub proof fn lemma_player_name_placeholder(i: PromptInputs)
    requires
        i.player_name is Some,
        brace_free(i.player_name->0@),
    ensures
        apply_replacements("{{player-name}}"@, system_prompt_replacements(i)) == i.player_name->0@,
        apply_replacements("{{player_name}}"@, system_prompt_replacements(i)) == i.player_name->0@,
        apply_replacements("{player-name}"@, system_prompt_replacements(i)) == i.player_name->0@,
        apply_replacements("{player_name}"@, system_prompt_replacements(i)) == i.player_name->0@,
{
    reveal_strlit("{{npc-name}}");
    reveal_strlit("{{npc_name}}");
    reveal_strlit("{npc-name}");
    reveal_strlit("{npc_name}");
    reveal_strlit("{{npc-id}}");
    reveal_strlit("{{npc_id}}");
    reveal_strlit("{npc-id}");
    reveal_strlit("{npc_id}");
    reveal_strlit("{{npc-role}}");
    reveal_strlit("{{npc_role}}");
    reveal_strlit("{npc-role}");
    reveal_strlit("{npc_role}");
    reveal_strlit("{{player-name}}");
    reveal_strlit("{{player_name}}");
    reveal_strlit("{player-name}");
    reveal_strlit("{player_name}");
    reveal_strlit("{{player-id}}");
    reveal_strlit("{{player_id}}");
    reveal_strlit("{player-id}");
    reveal_strlit("{player_id}");
    reveal_strlit("{{nearby-players}}");
    reveal_strlit("{{nearby_players}}");
    reveal_strlit("{nearby-players}");
    reveal_strlit("{nearby_players}");
    reveal_strlit("{{world-context}}");
    reveal_strlit("{{world_context}}");
    reveal_strlit("{world-context}");
    reveal_strlit("{world_context}");
    reveal_strlit("{{player-message}}");
    reveal_strlit("{{player_message}}");
    reveal_strlit("{player-message}");
    reveal_strlit("{player_message}");
    lemma_placeholder_texts(i);
    let reps = system_prompt_replacements(i);
    assert(reps[12].0 == "{{player-name}}"@ && reps[12].1 == i.player_name->0@);
    assert(reps[13].0 == "{{player_name}}"@ && reps[13].1 == i.player_name->0@);
    assert(reps[14].0 == "{player-name}"@ && reps[14].1 == i.player_name->0@);
    assert(reps[15].0 == "{player_name}"@ && reps[15].1 == i.player_name->0@);
    lemma_npc_texts_absent(i, 12);
    lemma_placeholder_renders(i, 12);
    lemma_npc_texts_absent(i, 13);
    lemma_absent_by_char(reps[13].0, reps[12].0, 8);
    lemma_placeholder_renders(i, 13);
    lemma_npc_texts_absent(i, 14);
    lemma_longer_absent(reps[14].0, reps[12].0);
    lemma_longer_absent(reps[14].0, reps[13].0);
    lemma_placeholder_renders(i, 14);
    lemma_npc_texts_absent(i, 15);
    lemma_longer_absent(reps[15].0, reps[12].0);
    lemma_longer_absent(reps[15].0, reps[13].0);
    lemma_absent_by_char(reps[15].0, reps[14].0, 7);
    lemma_placeholder_renders(i, 15);
}

/// Law: the NPC-name placeholder renders as the NPC's name, or its id when
/// the request names none; the NPC-id placeholder as the NPC's id; the
/// player-id placeholder as the player's id, or `unknown-player` when the
/// request gives none (each value holding no brace).
pub proof fn lemma_id_and_name_placeholders(i: PromptInputs)
    ensures
        brace_free(
            match i.npc_name {
                Some(n) => n@,
                None => i.npc_id@,
            },
        ) ==> apply_replacements("{{npc-name}}"@, system_prompt_replacements(i)) == match i.npc_name {
            Some(n) => n@,
            None => i.npc_id@,
        },
        brace_free(i.npc_id@) ==> apply_replacements("{{npc-id}}"@, system_prompt_replacements(i))
            == i.npc_id@,
        brace_free(
            match i.player_id {
                Some(p) => p@,
                None => "unknown-player"@,
            },
        ) ==> apply_replacements("{{player-id}}"@, system_prompt_replacements(i)) == match i.player_id {
            Some(p) => p@,
            None => "unknown-player"@,
        },
{
    reveal_strlit("{{npc-name}}");
    reveal_strlit("{{npc_name}}");
    reveal_strlit("{npc-name}");
    reveal_strlit("{npc_name}");
    reveal_strlit("{{npc-id}}");
    reveal_strlit("{{player-name}}");
    reveal_strlit("{{player_name}}");
    reveal_strlit("{player-name}");
    reveal_strlit("{player_name}");
    reveal_strlit("{{player-id}}");
    reveal_strlit("unknown-player");
    lemma_placeholder_texts(i);
    let reps = system_prompt_replacements(i);
    assert(reps[0].0 == "{{npc-name}}"@);
    assert(reps[4].0 == "{{npc-id}}"@ && reps[4].1 == i.npc_id@);
    assert(reps[16].0 == "{{player-id}}"@);
    if brace_free(reps[0].1) {
        lemma_placeholder_renders(i, 0);
    }
    if brace_free(i.npc_id@) {
        lemma_absent_by_char(reps[4].0, reps[0].0, 8);
        lemma_absent_by_char(reps[4].0, reps[1].0, 8);
        lemma_absent_by_char(reps[4].0, reps[2].0, 7);
        lemma_absent_by_char(reps[4].0, reps[3].0, 7);
        lemma_placeholder_renders(i, 4);
    }
    if brace_free(reps[16].1) {
        lemma_npc_texts_absent(i, 16);
        lemma_absent_by_char(reps[16].0, reps[12].0, 9);
        lemma_absent_by_char(reps[16].0, reps[13].0, 9);
        lemma_absent_by_char(reps[16].0, reps[14].0, 8);
        lemma_absent_by_char(reps[16].0, reps[15].0, 8);
        lemma_placeholder_renders(i, 16);
    }
}

fn push_spellings(reps: &mut Vec<(Vec<char>, Vec<char>)>, a: &str, b: &str, c: &str, d: &str, value: &[char])
    ensures
        pair_views(final(reps)@) == pair_views(old(reps)@).push((a@, value@)).push(
            (b@, value@),
        ).push((c@, value@)).push((d@, value@)),
{
    let ghost start = pair_views(reps@);
    let v = crate::text::slice_range(value, 0, value.len());
    assert(v@ =~= value@);
    reps.push((chars_of(a), v));
    assert(pair_views(reps@) =~= start.push((a@, value@)));
    let v = crate::text::slice_range(value, 0, value.len());
    assert(v@ =~= value@);
    reps.push((chars_of(b), v));
    assert(pair_views(reps@) =~= start.push((a@, value@)).push((b@, value@)));
    let v = crate::text::slice_range(value, 0, value.len());
    assert(v@ =~= value@);
    reps.push((chars_of(c), v));
    assert(pair_views(reps@) =~= start.push((a@, value@)).push((b@, value@)).push((c@, value@)));
    let v = crate::text::slice_range(value, 0, value.len());
    assert(v@ =~= value@);
    reps.push((chars_of(d), v));
    assert(pair_views(reps@) =~= start.push((a@, value@)).push((b@, value@)).push((c@, value@)).push(
        (d@, value@),
    ));
}

fn opt_chars_or(o: &Option<String>, default: &[char]) -> (r: Vec<char>)
    ensures
        r@ == match o {
            Some(s) => s@,
            None => default@,
        },
{
    match o {
        Some(s) => chars_of(s.as_str()),
        None => {
            let r = crate::text::slice_range(default, 0, default.len());
            assert(r@ =~= default@);
            r
        },
    }
}

/// A system prompt template with its placeholders filled in, one spelling
/// after another (see `system_prompt_replacements`).
pub fn render_system_prompt_template(template: &str, request: &PromptInputs) -> (r: String)
    ensures
        r@ == apply_replacements(template@, system_prompt_replacements(*request)),
{
    let unknown = chars_of("unknown-player");
    let player_id = opt_chars_or(&request.player_id, unknown.as_slice());
    let player_name = opt_chars_or(&request.player_name, player_id.as_slice());
    let npc_id = chars_of(request.npc_id.as_str());
    let npc_name = opt_chars_or(&request.npc_name, npc_id.as_slice());
    let empty: Vec<char> = Vec::new();
    let npc_role = opt_chars_or(&request.npc_role, empty.as_slice());
    let world_context = opt_chars_or(&request.context, empty.as_slice());
    let nearby = match &request.nearby_player_names {
        Some(v) => {
            let parts = strings_to_chars(v);
            let sep = chars_of(", ");
            join_chars(&parts, sep.as_slice())
        },
        None => Vec::new(),
    };
    let message = chars_of(request.message.as_str());
    let mut reps: Vec<(Vec<char>, Vec<char>)> = Vec::new();
    push_spellings(&mut reps, "{{npc-name}}", "{{npc_name}}", "{npc-name}", "{npc_name}", npc_name.as_slice());
    push_spellings(&mut reps, "{{npc-id}}", "{{npc_id}}", "{npc-id}", "{npc_id}", npc_id.as_slice());
    push_spellings(&mut reps, "{{npc-role}}", "{{npc_role}}", "{npc-role}", "{npc_role}", npc_role.as_slice());
    push_spellings(
        &mut reps,
        "{{player-name}}",
        "{{player_name}}",
        "{player-name}",
        "{player_name}",
        player_name.as_slice(),
    );
    push_spellings(&mut reps, "{{player-id}}", "{{player_id}}", "{player-id}", "{player_id}", player_id.as_slice());
    push_spellings(
        &mut reps,
        "{{nearby-players}}",
        "{{nearby_players}}",
        "{nearby-players}",
        "{nearby_players}",
        nearby.as_slice(),
    );
    push_spellings(
        &mut reps,
        "{{world-context}}",
        "{{world_context}}",
        "{world-context}",
        "{world_context}",
        world_context.as_slice(),
    );
    push_spellings(
        &mut reps,
        "{{player-message}}",
        "{{player_message}}",
        "{player-message}",
        "{player_message}",
        message.as_slice(),
    );
    assert(pair_views(reps@) =~= system_prompt_replacements(*request));
    let t = chars_of(template);
    let out = apply_replacement_list(t.as_slice(), &reps);
    string_from_chars(out.as_slice())
}

/// A text without its trailing `/` characters (`trim_end_matches('/')`).
pub open spec fn without_trailing_slashes(s: Seq<char>) -> Seq<char>
    decreases s.len(),
{
    if s.len() > 0 && s.last() == '/' {
        without_trailing_slashes(s.drop_last())
    } else {
        s
    }
}

/// The model server's generate endpoint under its base URL.
pub fn generate_endpoint(base_url: &str) -> (r: String)
    ensures
        r@ == without_trailing_slashes(base_url@) + "/api/generate"@,
{
    let c = chars_of(base_url);
    let mut n: usize = c.len();
    assert(c@.take(n as int) =~= c@);
    while n > 0 && c[n - 1] == '/'
        invariant
            n <= c.len(),
            without_trailing_slashes(c@) == without_trailing_slashes(c@.take(n as int)),
        decreases n,
    {
        assert(c@.take(n as int).drop_last() =~= c@.take(n - 1));
        n = n - 1;
    }
    let mut v = crate::text::slice_range(c.as_slice(), 0, n);
    assert(v@ =~= c@.take(n as int));
    append_str(&mut v, "/api/generate");
    string_from_chars(v.as_slice())
}

/// The key reported for a system prompt given inline with a request.
pub const INLINE_PROMPT_KEY: &'static str = "inline/system";

/// The system prompt for a request: one given inline wins; otherwise the
/// store's answer for the requested key, or for its active prompt.
pub fn select_system_prompt(
    store: &PromptStore,
    prompt_key: Option<&str>,
    inline_system_prompt: Option<String>,
) -> (r: Result<(Option<String>, Option<String>), PromptStoreError>)
    requires
        store.valid(),
    ensures
        match inline_system_prompt {
            Some(p) => r matches Ok((Some(k), Some(t))) && k@ == INLINE_PROMPT_KEY@ && t == p,
            None => match resolution(
                store.table(),
                store.active(),
                match prompt_key {
                    Some(k) => Some(k@),
                    None => None,
                },
            ) {
                Ok((k, t)) => r matches Ok((rk, rt)) && opt_string_view(rk) == k && opt_string_view(
                    rt,
                ) == t,
                Err(m) => r matches Err(PromptStoreError::MissingPromptKey(x)) && x@ == m,
            },
        },
{
    match inline_system_prompt {
        Some(p) => Ok((Some(to_owned_string(INLINE_PROMPT_KEY)), Some(p))),
        None => store.resolve_system_prompt(prompt_key),
    }
}

/// The answer to a request whose body is not valid: `invalid request
/// payload: <error>`.
pub fn invalid_payload_message(detail: &str) -> (r: String)
    ensures
        r@ == "invalid request payload: "@ + detail@,
{
    let d = chars_of(detail);
    string_from_chars(labelled("invalid request payload: ", d.as_slice()).as_slice())
}

/// The answer when the model could not be asked: `ollama request failed:
/// <error>`.
pub fn model_failure_message(detail: &str) -> (r: String)
    ensures
        r@ == "ollama request failed: "@ + detail@,
{
    let d = chars_of(detail);
    string_from_chars(labelled("ollama request failed: ", d.as_slice()).as_slice())
}

/// The subject an interaction answer is published on: the request's reply
/// subject if it has one, otherwise the configured response subject.
pub fn answer_subject(reply: Option<String>, response_subject: &str) -> (r: String)
    ensures
        r@ == match reply {
            Some(x) => x@,
            None => response_subject@,
        },
{
    match reply {
        Some(x) => x,
        None => to_owned_string(response_subject),
    }
}

/// What the model generated.
pub struct ModelReply {
    pub response: String,
    pub model: String,
    pub done: bool,
}

/// The answer the bridge publishes for an interaction request.
#[derive(Debug)]
pub enum InteractionAnswer {
    /// The NPC's line, echoed with the request's ids.
    Reply {
        request_id: Option<String>,
        npc_id: String,
        player_id: Option<String>,
        response: String,
        model: String,
        done: bool,
    },
    /// Why no line came.
    Failure { request_id: Option<String>, npc_id: Option<String>, error: String },
}

/// The answer to a request whose body could not be read: no ids, the
/// payload error.
pub fn unreadable_request_answer(detail: &str) -> (r: InteractionAnswer)
    ensures
        r matches InteractionAnswer::Failure { request_id, npc_id, error } && request_id is None
            && npc_id is None && error@ == "invalid request payload: "@ + detail@,
{
    InteractionAnswer::Failure { request_id: None, npc_id: None, error: invalid_payload_message(detail) }
}

/// The answer to a request once the model was asked: the trimmed line with
/// the model's name and the request's ids, or the model failure with the
/// request id and NPC id.
pub fn interaction_answer(
    request_id: Option<String>,
    npc_id: String,
    player_id: Option<String>,
    outcome: Result<ModelReply, String>,
) -> (r: InteractionAnswer)
    ensures
        match outcome {
            Ok(m) => r matches InteractionAnswer::Reply { request_id: q, npc_id: n, player_id: p, response, model, done }
                && q == request_id && n == npc_id && p == player_id && response@ == trim(m.response@)
                && model == m.model && done == m.done,
            Err(e) => r matches InteractionAnswer::Failure { request_id: q, npc_id: n, error } && q == request_id
                && n == Some(npc_id) && error@ == "ollama request failed: "@ + e@,
        },
{
    match outcome {
        Ok(m) => {
            let c = chars_of(m.response.as_str());
            let t = trim_chars(c.as_slice());
            InteractionAnswer::Reply {
                request_id,
                npc_id,
                player_id,
                response: string_from_chars(t.as_slice()),
                model: m.model,
                done: m.done,
            }
        },
        Err(e) => InteractionAnswer::Failure {
            request_id,
            npc_id: Some(npc_id),
            error: model_failure_message(e.as_str()),
        },
    }
}

/// The id of a request typed at the console: `cli-` and the time in
/// milliseconds.
pub fn build_cli_request_id(unix_millis: u128) -> (r: String)
    ensures
        r@ == "cli-"@ + decimal_text(unix_millis as nat),
{
    let mut v = chars_of("cli-");
    push_decimal_u128(&mut v, unix_millis);
    string_from_chars(v.as_slice())
}

/// What the bridge's runtime does next after an operator command.
#[derive(Debug, Clone, Copy, PartialEq, Eq)]
pub enum RuntimeAction {
    Restart,
    Shutdown,
}

/// What an operator command asks of the bridge.
#[derive(Debug, PartialEq, Eq)]
pub enum BridgeStep {
    /// Print the help text.
    ShowHelp,
    /// Stop or restart the runtime.
    Runtime(RuntimeAction),
    /// Send the text through the model with the active prompt.
    Chat(String),
    /// List the prompt keys.
    ListPrompts,
    /// Load the prompt files again.
    ReloadPrompts,
    /// Make a prompt the active one.
    UsePrompt(String),
    /// Show the active prompt.
    ShowPrompt,
    /// Print that the command is unknown.
    Unknown(String),
}

/// The bridge's commands besides the built-in ones.
pub fn bridge_custom_commands() -> (r: Vec<CustomCommandSpec>)
    ensures
        r.len() == 5,
        r@[0].name@ == "chat"@ && r@[0].usage@ == "<free text>"@ && r@[0].description@
            == "Send free text through the bridge using the active prompt."@,
        r@[1].name@ == "prompts.list"@ && r@[1].usage@ == ""@ && r@[1].description@
            == "List discovered prompt keys and indicate the active one."@,
        r@[2].name@ == "prompts.reload"@ && r@[2].usage@ == ""@ && r@[2].description@
            == "Reload prompt files from disk."@,
        r@[3].name@ == "prompt.use"@ && r@[3].usage@ == "<prompt-key>"@ && r@[3].description@
            == "Set active prompt key used by requests without inline prompt override."@,
        r@[4].name@ == "prompt.show"@ && r@[4].usage@ == ""@ && r@[4].description@
            == "Show active prompt key and a short preview."@,
{
    let mut r: Vec<CustomCommandSpec> = Vec::new();
    r.push(
        CustomCommandSpec {
            name: "chat",
            usage: "<free text>",
            description: "Send free text through the bridge using the active prompt.",
        },
    );
    r.push(
        CustomCommandSpec {
            name: "prompts.list",
            usage: "",
            description: "List discovered prompt keys and indicate the active one.",
        },
    );
    r.push(
        CustomCommandSpec {
            name: "prompts.reload",
            usage: "",
            description: "Reload prompt files from disk.",
        },
    );
    r.push(
        CustomCommandSpec {
            name: "prompt.use",
            usage: "<prompt-key>",
            description: "Set active prompt key used by requests without inline prompt override.",
        },
    );
    r.push(
        CustomCommandSpec {
            name: "prompt.show",
            usage: "",
            description: "Show active prompt key and a short preview.",
        },
    );
    r
}

/// What an operator command asks of the bridge: the built-in commands
/// show help or stop the runtime; `chat`, `prompts.list`,
/// `prompts.reload`, `prompt.use` and `prompt.show` are the bridge's own;
/// any other name is unknown (`unknown command: .<name>. Try .help`).
pub fn route_bridge_command(command: ServiceCommandEvent) -> (r: BridgeStep)
    ensures
        match command {
            ServiceCommandEvent::Control(ServiceControlCommand::Help) => r == BridgeStep::ShowHelp,
            ServiceCommandEvent::Control(ServiceControlCommand::Restart) => r == BridgeStep::Runtime(
                RuntimeAction::Restart,
            ),
            ServiceCommandEvent::Control(ServiceControlCommand::Shutdown) => r
                == BridgeStep::Runtime(RuntimeAction::Shutdown),
            ServiceCommandEvent::Custom { name, args } => if name@ == "chat"@ {
                r matches BridgeStep::Chat(a) && a@ == args@
            } else if name@ == "prompts.list"@ {
                r == BridgeStep::ListPrompts
            } else if name@ == "prompts.reload"@ {
                r == BridgeStep::ReloadPrompts
            } else if name@ == "prompt.use"@ {
                r matches BridgeStep::UsePrompt(a) && a@ == args@
            } else if name@ == "prompt.show"@ {
                r == BridgeStep::ShowPrompt
            } else {
                r matches BridgeStep::Unknown(m) && m@ == "unknown command: ."@ + name@
                    + ". Try .help"@
            },
        },
{
    match command {
        ServiceCommandEvent::Control(ServiceControlCommand::Help) => BridgeStep::ShowHelp,
        ServiceCommandEvent::Control(ServiceControlCommand::Restart) => BridgeStep::Runtime(
            RuntimeAction::Restart,
        ),
        ServiceCommandEvent::Control(ServiceControlCommand::Shutdown) => BridgeStep::Runtime(
            RuntimeAction::Shutdown,
        ),
        ServiceCommandEvent::Custom { name, args } => {
            let n = chars_of(name.as_str());
            if chars_eq_str(n.as_slice(), "chat") {
                BridgeStep::Chat(args)
            } else if chars_eq_str(n.as_slice(), "prompts.list") {
                BridgeStep::ListPrompts
            } else if chars_eq_str(n.as_slice(), "prompts.reload") {
                BridgeStep::ReloadPrompts
            } else if chars_eq_str(n.as_slice(), "prompt.use") {
                BridgeStep::UsePrompt(args)
            } else if chars_eq_str(n.as_slice(), "prompt.show") {
                BridgeStep::ShowPrompt
            } else {
                let mut v = chars_of("unknown command: .");
                append_chars(&mut v, n.as_slice());
                append_str(&mut v, ". Try .help");
                BridgeStep::Unknown(string_from_chars(v.as_slice()))
            }
        },
    }
}

/// The line listing one prompt key: `*` marks the active one.
pub open spec fn key_line(key: Seq<char>, active: Option<Seq<char>>) -> Seq<char> {
    "  "@ + (if active == Some(key) {
        "*"@
    } else {
        " "@
    }) + " "@ + key
}

/// What `.prompts.list` prints.
pub open spec fn prompt_list_lines(
    root_display: Seq<char>,
    keys: Seq<Seq<char>>,
    active: Option<Seq<char>>,
) -> Seq<Seq<char>> {
    if keys.len() == 0 {
        seq!["no prompts discovered in "@ + root_display]
    } else {
        seq!["discovered prompts in "@ + root_display + ":"@] + keys.map_values(
            |k: Seq<char>| key_line(k, active),
        )
    }
}

fn key_line_text(key: &[char], active: &Option<&str>) -> (r: Vec<char>)
    ensures
        r@ == key_line(
            key@,
            match active {
                Some(a) => Some(a@),
                None => None,
            },
        ),
{
    let is_active = match active {
        Some(a) => chars_eq_str(key, a),
        None => false,
    };
    let mut v = chars_of("  ");
    if is_active {
        append_str(&mut v, "*");
    } else {
        append_str(&mut v, " ");
    }
    append_str(&mut v, " ");
    append_chars(&mut v, key);
    v
}

/// The lines `.prompts.list` prints: where the prompts were looked for,
/// then each key, the active one marked.
pub fn prompts_list_lines(store: &PromptStore) -> (r: Vec<String>)
    ensures
        string_views(r@) == prompt_list_lines(
            store.root().display@,
            table_keys(store.table()),
            store.active(),
        ),
{
    let active = store.active_prompt_key();
    let keys = store.list_prompt_keys();
    let root = store.root_dir();
    let d = chars_of(root.display.as_str());
    let ghost ks = string_views(keys@);
    let ghost act: Option<Seq<char>> = match active {
        Some(a) => Some(a@),
        None => None,
    };
    let mut r: Vec<String> = Vec::new();
    if keys.len() == 0 {
        r.push(string_from_chars(labelled("no prompts discovered in ", d.as_slice()).as_slice()));
        assert(string_views(r@) =~= prompt_list_lines(
            store.root().display@,
            table_keys(store.table()),
            store.active(),
        ));
        return r;
    }
    let mut head = labelled("discovered prompts in ", d.as_slice());
    append_str(&mut head, ":");
    r.push(string_from_chars(head.as_slice()));
    let mut i: usize = 0;
    while i < keys.len()
        invariant
            i <= keys.len(),
            ks == string_views(keys@),
            act == match active {
                Some(a) => Some(a@),
                None => None::<Seq<char>>,
            },
            r.len() == i + 1,
            string_views(r@) == seq!["discovered prompts in "@ + d@ + ":"@] + ks.take(i as int).map_values(
                |k: Seq<char>| key_line(k, act),
            ),
        decreases keys.len() - i,
    {
        let ghost before = string_views(r@);
        let k = chars_of(keys[i].as_str());
        let line = key_line_text(k.as_slice(), &active);
        r.push(string_from_chars(line.as_slice()));
        assert(ks.take(i + 1) =~= ks.take(i as int).push(ks[i as int]));
        assert(string_views(r@) =~= before.push(key_line(ks[i as int], act)));
        assert(string_views(r@) =~= seq!["discovered prompts in "@ + d@ + ":"@] + ks.take(i + 1).map_values(
            |k: Seq<char>| key_line(k, act),
        ));
        i = i + 1;
    }
    assert(ks.take(keys.len() as int) =~= ks);
    r
}

/// The active key as it is printed: `<none>` when there is none.
pub open spec fn shown_key(k: Option<Seq<char>>) -> Seq<char> {
    match k {
        Some(k) => k,
        None => "<none>"@,
    }
}

/// `.prompts.reload`: loads the prompt files found again and returns the
/// lines it prints: how many prompts were loaded from where and which is
/// active, or why reloading failed.
pub fn prompts_reload_lines(store: &mut PromptStore, files: Vec<LoadedPrompt>) -> (r: Vec<String>)
    requires
        old(store).valid(),
    ensures
        final(store).valid(),
        final(store).root() == old(store).root(),
        !crate::prompts::any_failure(path_view(old(store).root()), files@) ==> string_views(r@)
            == seq![
            "reloaded "@ + decimal_text(final(store).table().len()) + " prompts from "@ + old(
                store,
            ).root().display@,
            "active prompt: "@ + shown_key(final(store).active()),
        ],
        !crate::prompts::any_failure(path_view(old(store).root()), files@)
            ==> crate::prompts::loads_as(path_view(old(store).root()), files@, final(store).table())
            && final(store).active() == crate::prompts::active_after_reload(
            final(store).table(),
            old(store).active(),
        ),
        crate::prompts::any_failure(path_view(old(store).root()), files@) ==> final(store).table()
            == old(store).table() && final(store).active() == old(store).active(),
        crate::prompts::any_failure(path_view(old(store).root()), files@) ==> exists|i: int|
            crate::prompts::is_first_failure(path_view(old(store).root()), files@, i)
                && string_views(r@) == seq![
                "failed to reload prompts: "@ + #[trigger] crate::prompts::failure_message(
                    path_view(old(store).root()),
                    files@[i],
                ),
            ],
{
    let ghost root = path_view(old(store).root());
    let ghost fs = files@;
    let mut r: Vec<String> = Vec::new();
    match store.reload(files) {
        Ok(summary) => {
            let d = chars_of(store.root_dir().display.as_str());
            let mut l1 = chars_of("reloaded ");
            push_decimal(&mut l1, summary.prompt_count as u64);
            append_str(&mut l1, " prompts from ");
            append_chars(&mut l1, d.as_slice());
            let mut l2 = chars_of("active prompt: ");
            match &summary.active_prompt_key {
                Some(k) => append_str(&mut l2, k.as_str()),
                None => append_str(&mut l2, "<none>"),
            }
            r.push(string_from_chars(l1.as_slice()));
            r.push(string_from_chars(l2.as_slice()));
            assert(string_views(r@) =~= seq![l1@, l2@]);
        },
        Err(e) => {
            let m = e.message();
            let mm = chars_of(m.as_str());
            r.push(string_from_chars(labelled("failed to reload prompts: ", mm.as_slice()).as_slice()));
            proof {
                let i = choose|i: int|
                    crate::prompts::is_first_failure(root, fs, i)
                        && #[trigger] crate::prompts::failure_error(root, fs[i], e);
                assert(m@ == crate::prompts::failure_message(root, fs[i]));
                assert(string_views(r@) =~= seq![
                    "failed to reload prompts: "@ + crate::prompts::failure_message(root, fs[i]),
                ]);
            }
        },
    }
    r
}

/// `.prompt.use <key>`: makes the prompt active and returns the line it
/// prints; without a key it prints the usage.
pub fn prompt_use_lines(store: &mut PromptStore, args: &str) -> (r: Vec<String>)
    requires
        old(store).valid(),
    ensures
        final(store).valid(),
        final(store).table() == old(store).table(),
        final(store).root() == old(store).root(),
        r.len() == 1,
        trim(args@).len() == 0 ==> string_views(r@)[0] == "usage: .prompt.use <prompt-key>"@
            && final(store).active() == old(store).active(),
        trim(args@).len() > 0 && has_key(old(store).table(), trim(args@)) ==> string_views(r@)[0]
            == "active prompt set to "@ + trim(args@) && final(store).active() == Some(trim(args@)),
        trim(args@).len() > 0 && !has_key(old(store).table(), trim(args@)) ==> string_views(r@)[0]
            == "failed to set active prompt: prompt key not found: "@ + trim(args@)
            && final(store).active() == old(store).active(),
{
    let a = chars_of(args);
    let key_chars = trim_chars(a.as_slice());
    let mut r: Vec<String> = Vec::new();
    if key_chars.len() == 0 {
        r.push(to_owned_string("usage: .prompt.use <prompt-key>"));
        return r;
    }
    let key = string_from_chars(key_chars.as_slice());
    match store.set_active_prompt(key.as_str()) {
        Ok(()) => {
            r.push(string_from_chars(labelled("active prompt set to ", key_chars.as_slice()).as_slice()));
        },
        Err(e) => {
            let m = e.message();
            let mm = chars_of(m.as_str());
            let line = labelled("failed to set active prompt: ", mm.as_slice());
            proof {
                reveal_strlit("failed to set active prompt: ");
                reveal_strlit("prompt key not found: ");
                reveal_strlit("failed to set active prompt: prompt key not found: ");
            }
            assert(line@ =~= "failed to set active prompt: prompt key not found: "@ + trim(args@));
            r.push(string_from_chars(line.as_slice()));
        },
    }
    r
}

/// How many characters of the active prompt `.prompt.show` previews.
pub const PROMPT_SHOW_PREVIEW_CHARS: usize = 220;

/// `.prompt.show`: the lines it prints: the active key and a preview of its
/// text (`<empty>` when there is none), or that no prompt is active.
pub fn prompt_show_lines(store: &PromptStore) -> (r: Vec<String>)
    requires
        store.valid(),
    ensures
        match store.active() {
            None => string_views(r@) == seq!["active prompt: <none>"@],
            Some(k) => string_views(r@) == seq![
                "active prompt: "@ + k,
                "preview: "@ + match prompt_text(store.table(), k) {
                    Some(t) => preview(t, PROMPT_SHOW_PREVIEW_CHARS as nat),
                    None => "<empty>"@,
                },
            ],
        },
{
    let mut r: Vec<String> = Vec::new();
    let active = match store.active_prompt_key() {
        Some(k) => k,
        None => {
            r.push(to_owned_string("active prompt: <none>"));
            assert(string_views(r@) =~= seq!["active prompt: <none>"@]);
            return r;
        },
    };
    let p = match store.active_prompt_preview(PROMPT_SHOW_PREVIEW_CHARS) {
        Some(p) => p,
        None => to_owned_string("<empty>"),
    };
    let k = chars_of(active);
    let pc = chars_of(p.as_str());
    let l1 = labelled("active prompt: ", k.as_slice());
    let l2 = labelled("preview: ", pc.as_slice());
    r.push(string_from_chars(l1.as_slice()));
    r.push(string_from_chars(l2.as_slice()));
    assert(string_views(r@) =~= seq![l1@, l2@]);
    r
}

/// `.chat <text>`: the text to send, trimmed, or the usage line to print
/// when there is none.
pub fn chat_command_text(args: &str) -> (r: Result<String, String>)
    ensures
        trim(args@).len() > 0 ==> (r matches Ok(t) && t@ == trim(args@)),
        trim(args@).len() == 0 ==> (r matches Err(m) && m@ == "usage: .chat <free text>"@),
{
    let a = chars_of(args);
    let t = trim_chars(a.as_slice());
    if t.len() == 0 {
        Err(to_owned_string("usage: .chat <free text>"))
    } else {
        Ok(string_from_chars(t.as_slice()))
    }
}

} // verus!
