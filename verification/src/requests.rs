//! Rules shared by the services' NATS request handlers: reading ids,
//! choosing the answer to a lookup, and routing the admin subjects.
//!
//! Decoding and encoding the JSON bodies and publishing the answers is done
//! by the caller; what the answers say is decided here.
use vstd::prelude::*;
use crate::catalog_service::{CatalogListing, CatalogMutation};
use crate::text::{append_str, chars_eq_str, chars_of, string_from_chars, to_owned_string};

use crate::auth::UserClaims;

verus! {

/// What `Uuid::parse_str` of the uuid crate reads from a text: the UUID as
/// its 128-bit number (`Uuid::as_u128`), or the text of its parse error.
pub uninterp spec fn uuid_parse(text: Seq<char>) -> Result<u128, Seq<char>>;

/// Calls `uuid::Uuid::parse_str` and converts the outcome: the UUID to its
/// number with `as_u128`, the error to its text. The contract only names the
/// result (`uuid_parse`).
#[verifier::external_body]
fn parse_uuid(raw: &str) -> (r: Result<u128, String>)
    ensures
        match r {
            Ok(v) => uuid_parse(raw@) == Ok::<u128, Seq<char>>(v),
            Err(e) => uuid_parse(raw@) == Err::<u128, Seq<char>>(e@),
        },
{
    uuid::Uuid::parse_str(raw).map(|u| u.as_u128()).map_err(|e| e.to_string())
}

fn concat2(a: &str, b: &str) -> (r: String)
    ensures
        r@ == a@ + b@,
{
    let mut v = chars_of(a);
    append_str(&mut v, b);
    string_from_chars(v.as_slice())
}

/// The id an NPC request names, or the answer to a malformed one:
/// `invalid npc_id UUID: <error>`.
pub fn parse_npc_id(npc_id: &str) -> (r: Result<u128, String>)
    ensures
        match uuid_parse(npc_id@) {
            Ok(v) => r == Ok::<u128, String>(v),
            Err(e) => r matches Err(m) && m@ == "invalid npc_id UUID: "@ + e,
        },
{
    match parse_uuid(npc_id) {
        Ok(v) => Ok(v),
        Err(e) => Err(concat2("invalid npc_id UUID: ", e.as_str())),
    }
}

/// The ids a batch request names, in order, or the answer naming the first
/// malformed one: `invalid UUID '<id>': <error>`.
pub fn parse_npc_ids(npc_ids: &Vec<String>) -> (r: Result<Vec<u128>, String>)
    ensures
        match r {
            Ok(ids) => ids.len() == npc_ids.len() && forall|i: int|
                0 <= i < npc_ids.len() ==> uuid_parse(#[trigger] npc_ids@[i]@) == Ok::<
                    u128,
                    Seq<char>,
                >(ids@[i]),
            Err(m) => exists|i: int|
                #![trigger uuid_parse(npc_ids@[i]@)]
                0 <= i < npc_ids.len() && (forall|j: int|
                    0 <= j < i ==> #[trigger] uuid_parse(npc_ids@[j]@) is Ok) && match uuid_parse(
                    npc_ids@[i]@,
                ) {
                    Err(e) => m@ == "invalid UUID '"@ + npc_ids@[i]@ + "': "@ + e,
                    Ok(_) => false,
                },
        },
{
    let mut ids: Vec<u128> = Vec::new();
    let mut i: usize = 0;
    while i < npc_ids.len()
        invariant
            i <= npc_ids.len(),
            ids.len() == i,
            forall|j: int| 0 <= j < i ==> uuid_parse(#[trigger] npc_ids@[j]@) == Ok::<u128, Seq<char>>(ids@[j]),
        decreases npc_ids.len() - i,
    {
        match parse_uuid(npc_ids[i].as_str()) {
            Ok(v) => {
                ids.push(v);
            },
            Err(e) => {
                let mut v = chars_of("invalid UUID '");
                append_str(&mut v, npc_ids[i].as_str());
                append_str(&mut v, "': ");
                append_str(&mut v, e.as_str());
                let m = string_from_chars(v.as_slice());
                assert(forall|j: int| 0 <= j < i ==> #[trigger] uuid_parse(npc_ids@[j]@) is Ok);
                return Err(m);
            },
        }
        i = i + 1;
    }
    Ok(ids)
}

/// The id a `characters.get` request names, or the answer to a malformed
/// one: `invalid UUID: <error>`.
pub fn parse_character_id(id: &str) -> (r: Result<u128, String>)
    ensures
        match uuid_parse(id@) {
            Ok(v) => r == Ok::<u128, String>(v),
            Err(e) => r matches Err(m) && m@ == "invalid UUID: "@ + e,
        },
{
    match parse_uuid(id) {
        Ok(v) => Ok(v),
        Err(e) => Err(concat2("invalid UUID: ", e.as_str())),
    }
}

/// The id an admin character request names, or the answer to a malformed
/// one: `Invalid UUID: <error>`.
pub fn parse_admin_character_id(id: &str) -> (r: Result<u128, String>)
    ensures
        match uuid_parse(id@) {
            Ok(v) => r == Ok::<u128, String>(v),
            Err(e) => r matches Err(m) && m@ == "Invalid UUID: "@ + e,
        },
{
    match parse_uuid(id) {
        Ok(v) => Ok(v),
        Err(e) => Err(concat2("Invalid UUID: ", e.as_str())),
    }
}

/// The answer to a request whose body could not be read:
/// `invalid request: <error>`.
pub fn invalid_request_message(detail: &str) -> (r: String)
    ensures
        r@ == "invalid request: "@ + detail@,
{
    concat2("invalid request: ", detail)
}

/// The answer of the admin service to a request whose body could not be
/// read: `Invalid request: <error>`.
pub fn admin_invalid_request_message(detail: &str) -> (r: String)
    ensures
        r@ == "Invalid request: "@ + detail@,
{
    concat2("Invalid request: ", detail)
}

/// The answer to a lookup of one record: the record if found, the
/// not-found message if absent, `internal error` if the store failed.
pub open spec fn lookup_answer<T>(not_found: Seq<char>, outcome: Result<Option<T>, Seq<char>>) -> Result<
    T,
    Seq<char>,
> {
    match outcome {
        Ok(Some(v)) => Ok(v),
        Ok(None) => Err(not_found),
        Err(_) => Err("internal error"@),
    }
}

/// The answer to a lookup of an NPC (see `lookup_answer`).
pub fn npc_lookup_answer<T>(outcome: Result<Option<T>, String>) -> (r: Result<T, String>)
    ensures
        match lookup_answer(
            "npc not found"@,
            match outcome {
                Ok(o) => Ok(o),
                Err(e) => Err(e@),
            },
        ) {
            Ok(v) => r matches Ok(x) && x == v,
            Err(m) => r matches Err(x) && x@ == m,
        },
{
    match outcome {
        Ok(Some(v)) => Ok(v),
        Ok(None) => Err(to_owned_string("npc not found")),
        Err(_) => Err(to_owned_string("internal error")),
    }
}

/// The answer to a lookup of a character (see `lookup_answer`).
pub fn character_lookup_answer<T>(outcome: Result<Option<T>, String>) -> (r: Result<T, String>)
    ensures
        match lookup_answer(
            "character not found"@,
            match outcome {
                Ok(o) => Ok(o),
                Err(e) => Err(e@),
            },
        ) {
            Ok(v) => r matches Ok(x) && x == v,
            Err(m) => r matches Err(x) && x@ == m,
        },
{
    match outcome {
        Ok(Some(v)) => Ok(v),
        Ok(None) => Err(to_owned_string("character not found")),
        Err(_) => Err(to_owned_string("internal error")),
    }
}

/// The answer of the admin service to a request without a bearer token.
pub const MISSING_AUTHORIZATION: &'static str = "Missing Authorization header";

/// The bearer token of an admin request's `Authorization` header, or the
/// answer when there is none.
pub fn admin_token(authorization: Option<&str>) -> (r: Result<String, String>)
    ensures
        match authorization {
            Some(h) => match crate::auth::bearer_token(h@) {
                Some(t) => r matches Ok(x) && x@ == t,
                None => r matches Err(m) && m@ == MISSING_AUTHORIZATION@,
            },
            None => r matches Err(m) && m@ == MISSING_AUTHORIZATION@,
        },
{
    match crate::auth::extract_bearer_token(authorization) {
        Some(t) => Ok(t),
        None => Err(to_owned_string(MISSING_AUTHORIZATION)),
    }
}

/// What reaches the access check of the admin services (catalog and character).
pub enum AdminEvent {
    /// A request arrived with this `Authorization` header, if any.
    Received(Option<String>),
    /// Validating the request's token gave these claims (none for an
    /// invalid or expired token).
    Validated(Option<UserClaims>),
}

/// What the access check decides.
#[derive(Debug)]
pub enum AdminAccess {
    /// Reply with this error and stop; no service is called.
    Refuse(String),
    /// Validate this token.
    Validate(String),
    /// The caller is an admin: route the request to the service.
    Serve(UserClaims),
}

/// The access check of the admin services: a request without a bearer token is
/// refused, otherwise its token is validated; a token that validation
/// rejects, or whose claims lack the admin role, is refused; only an
/// admin's request is served.
pub fn admin_step(event: AdminEvent) -> (r: AdminAccess)
    ensures
        match event {
            AdminEvent::Received(h) => match h {
                Some(x) => match crate::auth::bearer_token(x@) {
                    Some(t) => r matches AdminAccess::Validate(v) && v@ == t,
                    None => r matches AdminAccess::Refuse(m) && m@ == MISSING_AUTHORIZATION@,
                },
                None => r matches AdminAccess::Refuse(m) && m@ == MISSING_AUTHORIZATION@,
            },
            AdminEvent::Validated(claims) => match claims {
                None => r matches AdminAccess::Refuse(m) && m@ == "Invalid or expired token"@,
                Some(c) => if crate::auth::holds_role(c.roles@, "admin"@) {
                    r matches AdminAccess::Serve(u) && u == c
                } else {
                    r matches AdminAccess::Refuse(m) && m@ == "Admin role required"@
                },
            },
        },
        r is Serve ==> (event matches AdminEvent::Validated(Some(c)) && crate::auth::holds_role(
            c.roles@,
            "admin"@,
        )),
{
    match event {
        AdminEvent::Received(h) => {
            let header = match &h {
                Some(x) => Some(x.as_str()),
                None => None,
            };
            match admin_token(header) {
                Ok(t) => AdminAccess::Validate(t),
                Err(m) => AdminAccess::Refuse(m),
            }
        },
        AdminEvent::Validated(claims) => match crate::auth::require_admin(claims) {
            Ok(c) => AdminAccess::Serve(c),
            Err(m) => AdminAccess::Refuse(m),
        },
    }
}

/// An operation of the catalog admin service.
#[derive(Debug, Clone, Copy, PartialEq, Eq)]
pub enum CatalogAdminRequest {
    List(CatalogListing),
    Change(CatalogMutation),
}

/// The body an admin request carries.
#[derive(Debug, Clone, Copy, PartialEq, Eq)]
pub enum PayloadShape {
    /// No body is read.
    Empty,
    /// `{"name"}`.
    NewItem,
    /// `{"id", "name"}`.
    ItemUpdate,
    /// `{"id"}`.
    ItemId,
    /// `{"race_id", "gender_id", ...}`.
    Combination,
    /// `{"id"}` holding a UUID.
    CharacterId,
    /// `{"id", "name", "race_id", "gender_id", "skin_color_id", "class_id"}`.
    CharacterUpdate,
}

/// The catalog admin operation a subject names.
pub open spec fn catalog_route(subject: Seq<char>) -> Option<CatalogAdminRequest> {
    if subject == "admin.catalog.races.list"@ {
        Some(CatalogAdminRequest::List(CatalogListing::Races))
    } else if subject == "admin.catalog.races.create"@ {
        Some(CatalogAdminRequest::Change(CatalogMutation::CreateRace))
    } else if subject == "admin.catalog.races.update"@ {
        Some(CatalogAdminRequest::Change(CatalogMutation::UpdateRace))
    } else if subject == "admin.catalog.races.delete"@ {
        Some(CatalogAdminRequest::Change(CatalogMutation::DeleteRace))
    } else if subject == "admin.catalog.genders.list"@ {
        Some(CatalogAdminRequest::List(CatalogListing::Genders))
    } else if subject == "admin.catalog.genders.create"@ {
        Some(CatalogAdminRequest::Change(CatalogMutation::CreateGender))
    } else if subject == "admin.catalog.genders.update"@ {
        Some(CatalogAdminRequest::Change(CatalogMutation::UpdateGender))
    } else if subject == "admin.catalog.genders.delete"@ {
        Some(CatalogAdminRequest::Change(CatalogMutation::DeleteGender))
    } else if subject == "admin.catalog.skincolors.list"@ {
        Some(CatalogAdminRequest::List(CatalogListing::SkinColors))
    } else if subject == "admin.catalog.skincolors.create"@ {
        Some(CatalogAdminRequest::Change(CatalogMutation::CreateSkinColor))
    } else if subject == "admin.catalog.skincolors.update"@ {
        Some(CatalogAdminRequest::Change(CatalogMutation::UpdateSkinColor))
    } else if subject == "admin.catalog.skincolors.delete"@ {
        Some(CatalogAdminRequest::Change(CatalogMutation::DeleteSkinColor))
    } else if subject == "admin.catalog.classes.list"@ {
        Some(CatalogAdminRequest::List(CatalogListing::Classes))
    } else if subject == "admin.catalog.classes.create"@ {
        Some(CatalogAdminRequest::Change(CatalogMutation::CreateClass))
    } else if subject == "admin.catalog.classes.update"@ {
        Some(CatalogAdminRequest::Change(CatalogMutation::UpdateClass))
    } else if subject == "admin.catalog.classes.delete"@ {
        Some(CatalogAdminRequest::Change(CatalogMutation::DeleteClass))
    } else if subject == "admin.catalog.combinations.race_gender.set"@ {
        Some(CatalogAdminRequest::Change(CatalogMutation::SetRaceGenderAllowed))
    } else if subject == "admin.catalog.combinations.race_gender.remove"@ {
        Some(CatalogAdminRequest::Change(CatalogMutation::RemoveRaceGenderAllowed))
    } else {
        None
    }
}

/// The subject segment of the kind of catalog item an operation acts on.
pub open spec fn kind_segment(l: CatalogListing) -> Seq<char> {
    match l {
        CatalogListing::Races => "races"@,
        CatalogListing::Genders => "genders"@,
        CatalogListing::SkinColors => "skincolors"@,
        CatalogListing::Classes => "classes"@,
        CatalogListing::RaceGender => "combinations.race_gender"@,
        CatalogListing::RaceGenderSkinColor => "combinations.race_gender_skin_color"@,
        CatalogListing::RaceGenderClass => "combinations.race_gender_class"@,
    }
}

/// The kind of catalog item a change acts on, named by its listing.
pub open spec fn mutation_kind(m: CatalogMutation) -> CatalogListing {
    match m {
        CatalogMutation::CreateRace | CatalogMutation::UpdateRace | CatalogMutation::DeleteRace => CatalogListing::Races,
        CatalogMutation::CreateGender | CatalogMutation::UpdateGender | CatalogMutation::DeleteGender => CatalogListing::Genders,
        CatalogMutation::CreateSkinColor | CatalogMutation::UpdateSkinColor | CatalogMutation::DeleteSkinColor => CatalogListing::SkinColors,
        CatalogMutation::CreateClass | CatalogMutation::UpdateClass | CatalogMutation::DeleteClass => CatalogListing::Classes,
        CatalogMutation::SetRaceGenderAllowed | CatalogMutation::RemoveRaceGenderAllowed => CatalogListing::RaceGender,
        CatalogMutation::SetRaceGenderSkinColorAllowed | CatalogMutation::RemoveRaceGenderSkinColorAllowed => CatalogListing::RaceGenderSkinColor,
        CatalogMutation::SetRaceGenderClassAllowed | CatalogMutation::RemoveRaceGenderClassAllowed => CatalogListing::RaceGenderClass,
    }
}

/// What a change does to an item of its kind.
pub open spec fn mutation_verb(m: CatalogMutation) -> Seq<char> {
    match m {
        CatalogMutation::CreateRace | CatalogMutation::CreateGender | CatalogMutation::CreateSkinColor | CatalogMutation::CreateClass => "create"@,
        CatalogMutation::UpdateRace | CatalogMutation::UpdateGender | CatalogMutation::UpdateSkinColor | CatalogMutation::UpdateClass => "update"@,
        CatalogMutation::DeleteRace | CatalogMutation::DeleteGender | CatalogMutation::DeleteSkinColor | CatalogMutation::DeleteClass => "delete"@,
        CatalogMutation::SetRaceGenderAllowed | CatalogMutation::SetRaceGenderSkinColorAllowed | CatalogMutation::SetRaceGenderClassAllowed => "set"@,
        CatalogMutation::RemoveRaceGenderAllowed | CatalogMutation::RemoveRaceGenderSkinColorAllowed | CatalogMutation::RemoveRaceGenderClassAllowed => "remove"@,
    }
}

/// The subject `admin.catalog.<kind>.<verb>`.
pub open spec fn catalog_subject(kind: CatalogListing, verb: Seq<char>) -> Seq<char> {
    "admin.catalog."@ + kind_segment(kind) + "."@ + verb
}

/// Law: a catalog subject `admin.catalog.<kind>.<verb>` routes to the
/// operation of that kind and verb: a listing to `list`, a change to its
/// own verb on its own kind.
pub proof fn lemma_catalog_subject_shape(s: Seq<char>)
    ensures
        match catalog_route(s) {
            Some(CatalogAdminRequest::List(l)) => s == catalog_subject(l, "list"@),
            Some(CatalogAdminRequest::Change(m)) => s == catalog_subject(mutation_kind(m), mutation_verb(m)),
            None => true,
        },
{
    reveal_strlit("admin.catalog.");
    reveal_strlit(".");
    reveal_strlit("list");
    reveal_strlit("races");
    reveal_strlit("genders");
    reveal_strlit("skincolors");
    reveal_strlit("classes");
    reveal_strlit("combinations.race_gender");
    reveal_strlit("combinations.race_gender_skin_color");
    reveal_strlit("combinations.race_gender_class");
    reveal_strlit("create");
    reveal_strlit("update");
    reveal_strlit("delete");
    reveal_strlit("set");
    reveal_strlit("remove");
    reveal_strlit("admin.catalog.races.list");
    reveal_strlit("admin.catalog.races.create");
    reveal_strlit("admin.catalog.races.update");
    reveal_strlit("admin.catalog.races.delete");
    reveal_strlit("admin.catalog.genders.list");
    reveal_strlit("admin.catalog.genders.create");
    reveal_strlit("admin.catalog.genders.update");
    reveal_strlit("admin.catalog.genders.delete");
    reveal_strlit("admin.catalog.skincolors.list");
    reveal_strlit("admin.catalog.skincolors.create");
    reveal_strlit("admin.catalog.skincolors.update");
    reveal_strlit("admin.catalog.skincolors.delete");
    reveal_strlit("admin.catalog.classes.list");
    reveal_strlit("admin.catalog.classes.create");
    reveal_strlit("admin.catalog.classes.update");
    reveal_strlit("admin.catalog.classes.delete");
    reveal_strlit("admin.catalog.combinations.race_gender.set");
    reveal_strlit("admin.catalog.combinations.race_gender.remove");
    if s == "admin.catalog.races.list"@ {
        assert("admin.catalog.races.list"@ =~= "admin.catalog."@ + "races"@ + "."@ + "list"@);
    }
    if s == "admin.catalog.races.create"@ {
        assert("admin.catalog.races.create"@ =~= "admin.catalog."@ + "races"@ + "."@ + "create"@);
    }
    if s == "admin.catalog.races.update"@ {
        assert("admin.catalog.races.update"@ =~= "admin.catalog."@ + "races"@ + "."@ + "update"@);
    }
    if s == "admin.catalog.races.delete"@ {
        assert("admin.catalog.races.delete"@ =~= "admin.catalog."@ + "races"@ + "."@ + "delete"@);
    }
    if s == "admin.catalog.genders.list"@ {
        assert("admin.catalog.genders.list"@ =~= "admin.catalog."@ + "genders"@ + "."@ + "list"@);
    }
    if s == "admin.catalog.genders.create"@ {
        assert("admin.catalog.genders.create"@ =~= "admin.catalog."@ + "genders"@ + "."@ + "create"@);
    }
    if s == "admin.catalog.genders.update"@ {
        assert("admin.catalog.genders.update"@ =~= "admin.catalog."@ + "genders"@ + "."@ + "update"@);
    }
    if s == "admin.catalog.genders.delete"@ {
        assert("admin.catalog.genders.delete"@ =~= "admin.catalog."@ + "genders"@ + "."@ + "delete"@);
    }
    if s == "admin.catalog.skincolors.list"@ {
        assert("admin.catalog.skincolors.list"@ =~= "admin.catalog."@ + "skincolors"@ + "."@ + "list"@);
    }
    if s == "admin.catalog.skincolors.create"@ {
        assert("admin.catalog.skincolors.create"@ =~= "admin.catalog."@ + "skincolors"@ + "."@ + "create"@);
    }
    if s == "admin.catalog.skincolors.update"@ {
        assert("admin.catalog.skincolors.update"@ =~= "admin.catalog."@ + "skincolors"@ + "."@ + "update"@);
    }
    if s == "admin.catalog.skincolors.delete"@ {
        assert("admin.catalog.skincolors.delete"@ =~= "admin.catalog."@ + "skincolors"@ + "."@ + "delete"@);
    }
    if s == "admin.catalog.classes.list"@ {
        assert("admin.catalog.classes.list"@ =~= "admin.catalog."@ + "classes"@ + "."@ + "list"@);
    }
    if s == "admin.catalog.classes.create"@ {
        assert("admin.catalog.classes.create"@ =~= "admin.catalog."@ + "classes"@ + "."@ + "create"@);
    }
    if s == "admin.catalog.classes.update"@ {
        assert("admin.catalog.classes.update"@ =~= "admin.catalog."@ + "classes"@ + "."@ + "update"@);
    }
    if s == "admin.catalog.classes.delete"@ {
        assert("admin.catalog.classes.delete"@ =~= "admin.catalog."@ + "classes"@ + "."@ + "delete"@);
    }
    if s == "admin.catalog.combinations.race_gender.set"@ {
        assert("admin.catalog.combinations.race_gender.set"@ =~= "admin.catalog."@ + "combinations.race_gender"@ + "."@ + "set"@);
    }
    if s == "admin.catalog.combinations.race_gender.remove"@ {
        assert("admin.catalog.combinations.race_gender.remove"@ =~= "admin.catalog."@ + "combinations.race_gender"@ + "."@ + "remove"@);
    }
}

/// Law: no two subjects route to the same catalog operation.
pub proof fn lemma_catalog_route_injective(s1: Seq<char>, s2: Seq<char>)
    requires
        catalog_route(s1) is Some,
        catalog_route(s1) == catalog_route(s2),
    ensures
        s1 == s2,
{
    lemma_catalog_subject_shape(s1);
    lemma_catalog_subject_shape(s2);
}

/// The catalog admin operation a subject names (see `catalog_route`).
pub fn route_catalog_subject(subject: &str) -> (r: Option<CatalogAdminRequest>)
    ensures
        r == catalog_route(subject@),
{
    let s = chars_of(subject);
    let s = s.as_slice();
    if chars_eq_str(s, "admin.catalog.races.list") {
        Some(CatalogAdminRequest::List(CatalogListing::Races))
    } else if chars_eq_str(s, "admin.catalog.races.create") {
        Some(CatalogAdminRequest::Change(CatalogMutation::CreateRace))
    } else if chars_eq_str(s, "admin.catalog.races.update") {
        Some(CatalogAdminRequest::Change(CatalogMutation::UpdateRace))
    } else if chars_eq_str(s, "admin.catalog.races.delete") {
        Some(CatalogAdminRequest::Change(CatalogMutation::DeleteRace))
    } else if chars_eq_str(s, "admin.catalog.genders.list") {
        Some(CatalogAdminRequest::List(CatalogListing::Genders))
    } else if chars_eq_str(s, "admin.catalog.genders.create") {
        Some(CatalogAdminRequest::Change(CatalogMutation::CreateGender))
    } else if chars_eq_str(s, "admin.catalog.genders.update") {
        Some(CatalogAdminRequest::Change(CatalogMutation::UpdateGender))
    } else if chars_eq_str(s, "admin.catalog.genders.delete") {
        Some(CatalogAdminRequest::Change(CatalogMutation::DeleteGender))
    } else if chars_eq_str(s, "admin.catalog.skincolors.list") {
        Some(CatalogAdminRequest::List(CatalogListing::SkinColors))
    } else if chars_eq_str(s, "admin.catalog.skincolors.create") {
        Some(CatalogAdminRequest::Change(CatalogMutation::CreateSkinColor))
    } else if chars_eq_str(s, "admin.catalog.skincolors.update") {
        Some(CatalogAdminRequest::Change(CatalogMutation::UpdateSkinColor))
    } else if chars_eq_str(s, "admin.catalog.skincolors.delete") {
        Some(CatalogAdminRequest::Change(CatalogMutation::DeleteSkinColor))
    } else if chars_eq_str(s, "admin.catalog.classes.list") {
        Some(CatalogAdminRequest::List(CatalogListing::Classes))
    } else if chars_eq_str(s, "admin.catalog.classes.create") {
        Some(CatalogAdminRequest::Change(CatalogMutation::CreateClass))
    } else if chars_eq_str(s, "admin.catalog.classes.update") {
        Some(CatalogAdminRequest::Change(CatalogMutation::UpdateClass))
    } else if chars_eq_str(s, "admin.catalog.classes.delete") {
        Some(CatalogAdminRequest::Change(CatalogMutation::DeleteClass))
    } else if chars_eq_str(s, "admin.catalog.combinations.race_gender.set") {
        Some(CatalogAdminRequest::Change(CatalogMutation::SetRaceGenderAllowed))
    } else if chars_eq_str(s, "admin.catalog.combinations.race_gender.remove") {
        Some(CatalogAdminRequest::Change(CatalogMutation::RemoveRaceGenderAllowed))
    } else {
        None
    }
}

/// The body a catalog admin operation reads.
pub open spec fn catalog_payload(req: CatalogAdminRequest) -> PayloadShape {
    match req {
        CatalogAdminRequest::List(_) => PayloadShape::Empty,
        CatalogAdminRequest::Change(m) => match m {
            CatalogMutation::CreateRace | CatalogMutation::CreateGender
            | CatalogMutation::CreateSkinColor | CatalogMutation::CreateClass =>
                PayloadShape::NewItem,
            CatalogMutation::UpdateRace | CatalogMutation::UpdateGender
            | CatalogMutation::UpdateSkinColor | CatalogMutation::UpdateClass =>
                PayloadShape::ItemUpdate,
            CatalogMutation::DeleteRace | CatalogMutation::DeleteGender
            | CatalogMutation::DeleteSkinColor | CatalogMutation::DeleteClass =>
                PayloadShape::ItemId,
            _ => PayloadShape::Combination,
        },
    }
}

/// The body a catalog admin operation reads (see `catalog_payload`).
pub fn catalog_payload_shape(req: CatalogAdminRequest) -> (r: PayloadShape)
    ensures
        r == catalog_payload(req),
{
    match req {
        CatalogAdminRequest::List(_) => PayloadShape::Empty,
        CatalogAdminRequest::Change(m) => match m {
            CatalogMutation::CreateRace | CatalogMutation::CreateGender
            | CatalogMutation::CreateSkinColor | CatalogMutation::CreateClass =>
                PayloadShape::NewItem,
            CatalogMutation::UpdateRace | CatalogMutation::UpdateGender
            | CatalogMutation::UpdateSkinColor | CatalogMutation::UpdateClass =>
                PayloadShape::ItemUpdate,
            CatalogMutation::DeleteRace | CatalogMutation::DeleteGender
            | CatalogMutation::DeleteSkinColor | CatalogMutation::DeleteClass =>
                PayloadShape::ItemId,
            _ => PayloadShape::Combination,
        },
    }
}

/// An operation of the character admin service.
#[derive(Debug, Clone, Copy, PartialEq, Eq)]
pub enum CharacterAdminRequest {
    List,
    Get,
    Delete,
    Update,
}

/// The character admin operation a subject names.
pub open spec fn character_route(subject: Seq<char>) -> Option<CharacterAdminRequest> {
    if subject == "admin.characters.list"@ {
        Some(CharacterAdminRequest::List)
    } else if subject == "admin.characters.get"@ {
        Some(CharacterAdminRequest::Get)
    } else if subject == "admin.characters.delete"@ {
        Some(CharacterAdminRequest::Delete)
    } else if subject == "admin.characters.update"@ {
        Some(CharacterAdminRequest::Update)
    } else {
        None
    }
}

/// The verb of a character admin operation.
pub open spec fn character_verb(r: CharacterAdminRequest) -> Seq<char> {
    match r {
        CharacterAdminRequest::List => "list"@,
        CharacterAdminRequest::Get => "get"@,
        CharacterAdminRequest::Delete => "delete"@,
        CharacterAdminRequest::Update => "update"@,
    }
}

/// Law: a subject `admin.characters.<verb>` routes to the operation of that
/// verb, so no two subjects route to the same operation.
pub proof fn lemma_character_subject_shape(s1: Seq<char>, s2: Seq<char>)
    ensures
        character_route(s1) matches Some(r) ==> s1 == "admin.characters."@ + character_verb(r),
        character_route(s1) is Some && character_route(s1) == character_route(s2) ==> s1 == s2,
{
    reveal_strlit("admin.characters.");
    reveal_strlit("list");
    reveal_strlit("get");
    reveal_strlit("delete");
    reveal_strlit("update");
    reveal_strlit("admin.characters.list");
    reveal_strlit("admin.characters.get");
    reveal_strlit("admin.characters.delete");
    reveal_strlit("admin.characters.update");
    assert("admin.characters.list"@ =~= "admin.characters."@ + "list"@);
    assert("admin.characters.get"@ =~= "admin.characters."@ + "get"@);
    assert("admin.characters.delete"@ =~= "admin.characters."@ + "delete"@);
    assert("admin.characters.update"@ =~= "admin.characters."@ + "update"@);
}

/// The character admin operation a subject names (see `character_route`).
pub fn route_character_subject(subject: &str) -> (r: Option<CharacterAdminRequest>)
    ensures
        r == character_route(subject@),
{
    let s = chars_of(subject);
    let s = s.as_slice();
    if chars_eq_str(s, "admin.characters.list") {
        Some(CharacterAdminRequest::List)
    } else if chars_eq_str(s, "admin.characters.get") {
        Some(CharacterAdminRequest::Get)
    } else if chars_eq_str(s, "admin.characters.delete") {
        Some(CharacterAdminRequest::Delete)
    } else if chars_eq_str(s, "admin.characters.update") {
        Some(CharacterAdminRequest::Update)
    } else {
        None
    }
}

/// The body a character admin operation reads.
pub fn character_payload_shape(req: CharacterAdminRequest) -> (r: PayloadShape)
    ensures
        r == match req {
            CharacterAdminRequest::List => PayloadShape::Empty,
            CharacterAdminRequest::Get | CharacterAdminRequest::Delete => PayloadShape::CharacterId,
            CharacterAdminRequest::Update => PayloadShape::CharacterUpdate,
        },
{
    match req {
        CharacterAdminRequest::List => PayloadShape::Empty,
        CharacterAdminRequest::Get | CharacterAdminRequest::Delete => PayloadShape::CharacterId,
        CharacterAdminRequest::Update => PayloadShape::CharacterUpdate,
    }
}

/// The answer of the admin service to a subject it does not serve:
/// `Unknown subject: <subject>`.
pub fn unknown_subject_message(subject: &str) -> (r: String)
    ensures
        r@ == "Unknown subject: "@ + subject@,
{
    concat2("Unknown subject: ", subject)
}

} // verus!
