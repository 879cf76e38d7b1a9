//! The rules of the character service: which requests are refused, and
//! with what status, before and after the character store is asked.
use vstd::prelude::*;
use crate::text::{chars_of, contains, contains_exec, to_owned_string, trim, trim_chars};

verus! {

/// The status a refused character request is answered with.
#[derive(Debug, PartialEq, Eq)]
pub enum CharacterStatus {
    /// The request is malformed.
    InvalidArgument(String),
    /// The character name is taken.
    AlreadyExists(String),
    /// The caller is not authenticated.
    Unauthenticated(String),
    /// The service failed.
    Internal(String),
}

/// The abstract value of a status: its kind and message.
pub open spec fn status_view(s: CharacterStatus) -> (int, Seq<char>) {
    match s {
        CharacterStatus::InvalidArgument(m) => (0, m@),
        CharacterStatus::AlreadyExists(m) => (1, m@),
        CharacterStatus::Unauthenticated(m) => (2, m@),
        CharacterStatus::Internal(m) => (3, m@),
    }
}

/// The database's words for a reference to a missing row.
pub const FOREIGN_KEY_VIOLATION: &'static str = "violates foreign key constraint";

/// Refuses a character name that is empty or only white space.
pub fn check_character_name(name: &str) -> (r: Result<(), CharacterStatus>)
    ensures
        trim(name@).len() == 0 <==> r is Err,
        r matches Err(s) ==> status_view(s) == (0int, "character name cannot be empty"@),
{
    let c = chars_of(name);
    let t = trim_chars(c.as_slice());
    if t.len() == 0 {
        Err(CharacterStatus::InvalidArgument(to_owned_string("character name cannot be empty")))
    } else {
        Ok(())
    }
}

/// The answer once the store said whether the name is taken: a taken name
/// is refused, a failed check is an internal error.
pub fn name_check_answer(outcome: Result<bool, String>) -> (r: Result<(), CharacterStatus>)
    ensures
        match outcome {
            Ok(false) => r is Ok,
            Ok(true) => r matches Err(s) && status_view(s) == (1int, "character name is already taken"@),
            Err(_) => r matches Err(s) && status_view(s) == (3int, "failed to validate character name"@),
        },
{
    match outcome {
        Ok(false) => Ok(()),
        Ok(true) => Err(CharacterStatus::AlreadyExists(to_owned_string("character name is already taken"))),
        Err(_) => Err(CharacterStatus::Internal(to_owned_string("failed to validate character name"))),
    }
}

/// The answer when the store failed to create the character: a reference
/// to a missing race, gender, skin color or class is the caller's fault,
/// anything else the service's.
pub fn creation_failure(error: &str) -> (r: CharacterStatus)
    ensures
        contains(error@, FOREIGN_KEY_VIOLATION@) ==> status_view(r) == (
            0int,
            "invalid race/gender/skin color/class combination"@,
        ),
        !contains(error@, FOREIGN_KEY_VIOLATION@) ==> status_view(r) == (
            3int,
            "failed to create character"@,
        ),
{
    let e = chars_of(error);
    let p = chars_of(FOREIGN_KEY_VIOLATION);
    if contains_exec(e.as_slice(), p.as_slice()) {
        CharacterStatus::InvalidArgument(to_owned_string("invalid race/gender/skin color/class combination"))
    } else {
        CharacterStatus::Internal(to_owned_string("failed to create character"))
    }
}

/// The answer when the store failed to list a user's characters.
pub fn listing_failure() -> (r: CharacterStatus)
    ensures
        status_view(r) == (3int, "failed to fetch characters"@),
{
    CharacterStatus::Internal(to_owned_string("failed to fetch characters"))
}

/// The token of an authenticated request, or the refusal when the request
/// carries no bearer token.
pub fn require_bearer_token(token: Option<String>) -> (r: Result<String, CharacterStatus>)
    ensures
        match token {
            Some(t) => r matches Ok(x) && x == t,
            None => r matches Err(s) && status_view(s) == (
                2int,
                "missing or invalid authorization header"@,
            ),
        },
{
    match token {
        Some(t) => Ok(t),
        None => Err(
            CharacterStatus::Unauthenticated(
                to_owned_string("missing or invalid authorization header"),
            ),
        ),
    }
}

/// The user of an authenticated request: the email that validating the
/// token gave, or the refusal when it gave none.
pub fn require_user_email(email: Option<String>) -> (r: Result<String, CharacterStatus>)
    ensures
        match email {
            Some(e) => r matches Ok(x) && x == e,
            None => r matches Err(s) && status_view(s) == (
                2int,
                "invalid token or missing email claim"@,
            ),
        },
{
    match email {
        Some(e) => Ok(e),
        None => Err(
            CharacterStatus::Unauthenticated(to_owned_string("invalid token or missing email claim")),
        ),
    }
}

/// The answer of the request interceptor once the token was validated.
pub fn interceptor_answer(valid: bool) -> (r: Result<(), CharacterStatus>)
    ensures
        valid <==> r is Ok,
        r matches Err(s) ==> status_view(s) == (2int, "invalid token"@),
{
    if valid {
        Ok(())
    } else {
        Err(CharacterStatus::Unauthenticated(to_owned_string("invalid token")))
    }
}

/// What happens while a character is created.
pub enum CreationEvent {
    /// The request arrived with this bearer token, if any.
    Received(Option<String>),
    /// Validating the token gave this email claim, if any; `name` is the
    /// requested character name.
    Authenticated { email: Option<String>, name: String },
    /// The store said whether the name is taken, for the user `email`.
    NameChecked { email: String, taken: Result<bool, String> },
    /// The store created the character, or failed with this error.
    Created(Result<(), String>),
}

/// What the character service does next.
#[derive(Debug)]
pub enum CreationAction {
    /// Answer with this status; nothing more is asked of the store.
    Refuse(CharacterStatus),
    /// Validate this token.
    Validate(String),
    /// Ask the store whether the name is taken, for this user.
    CheckName(String),
    /// Create the character for this user.
    Create(String),
    /// Answer with the created character.
    Answer,
}

/// The course of a character creation: a missing token, then a token
/// without an email claim, then an empty name, then a taken name (or a
/// failed check) refuse the request, each before the store is asked to
/// create; a failed creation is refused as `creation_failure` says.
pub fn creation_step(event: CreationEvent) -> (r: CreationAction)
    ensures
        match event {
            CreationEvent::Received(token) => match token {
                Some(t) => r matches CreationAction::Validate(x) && x == t,
                None => r matches CreationAction::Refuse(s) && status_view(s) == (
                    2int,
                    "missing or invalid authorization header"@,
                ),
            },
            CreationEvent::Authenticated { email, name } => match email {
                None => r matches CreationAction::Refuse(s) && status_view(s) == (
                    2int,
                    "invalid token or missing email claim"@,
                ),
                Some(e) => if trim(name@).len() == 0 {
                    r matches CreationAction::Refuse(s) && status_view(s) == (
                        0int,
                        "character name cannot be empty"@,
                    )
                } else {
                    r matches CreationAction::CheckName(x) && x == e
                },
            },
            CreationEvent::NameChecked { email, taken } => match taken {
                Ok(false) => r matches CreationAction::Create(x) && x == email,
                Ok(true) => r matches CreationAction::Refuse(s) && status_view(s) == (
                    1int,
                    "character name is already taken"@,
                ),
                Err(_) => r matches CreationAction::Refuse(s) && status_view(s) == (
                    3int,
                    "failed to validate character name"@,
                ),
            },
            CreationEvent::Created(outcome) => match outcome {
                Ok(_) => r is Answer,
                Err(e) => r matches CreationAction::Refuse(s) && (if contains(e@, FOREIGN_KEY_VIOLATION@) {
                    status_view(s) == (0int, "invalid race/gender/skin color/class combination"@)
                } else {
                    status_view(s) == (3int, "failed to create character"@)
                }),
            },
        },
        r is Create ==> event is NameChecked,
{
    match event {
        CreationEvent::Received(token) => match require_bearer_token(token) {
            Ok(t) => CreationAction::Validate(t),
            Err(s) => CreationAction::Refuse(s),
        },
        CreationEvent::Authenticated { email, name } => match require_user_email(email) {
            Err(s) => CreationAction::Refuse(s),
            Ok(e) => match check_character_name(name.as_str()) {
                Err(s) => CreationAction::Refuse(s),
                Ok(()) => CreationAction::CheckName(e),
            },
        },
        CreationEvent::NameChecked { email, taken } => match name_check_answer(taken) {
            Ok(()) => CreationAction::Create(email),
            Err(s) => CreationAction::Refuse(s),
        },
        CreationEvent::Created(outcome) => match outcome {
            Ok(_) => CreationAction::Answer,
            Err(e) => CreationAction::Refuse(creation_failure(e.as_str())),
        },
    }
}

} // verus!
