use idklol::catalog_service::{CatalogListing, CatalogMutation};
use idklol::characters::{
    check_character_name, creation_failure, interceptor_answer, listing_failure, name_check_answer,
    require_bearer_token, require_user_email, CharacterStatus,
};
use idklol::requests::{
    admin_invalid_request_message, admin_token, catalog_payload_shape, character_lookup_answer,
    character_payload_shape, invalid_request_message, npc_lookup_answer, parse_admin_character_id,
    parse_character_id, parse_npc_id, parse_npc_ids, route_catalog_subject, route_character_subject,
    unknown_subject_message, CatalogAdminRequest, CharacterAdminRequest, PayloadShape,
};

const ID: &str = "11111111-1111-1111-1111-111111111111";

#[test]
fn npc_ids_are_uuids() {
    assert_eq!(parse_npc_id(ID), Ok(0x11111111_1111_1111_1111_111111111111u128));
    let err = parse_npc_id("nope").unwrap_err();
    assert!(err.starts_with("invalid npc_id UUID: "));
    assert!(err.len() > "invalid npc_id UUID: ".len());
}

#[test]
fn batch_ids_report_the_first_malformed_one() {
    let ids = vec![ID.to_string(), "00000000-0000-0000-0000-000000000002".to_string()];
    assert_eq!(parse_npc_ids(&ids), Ok(vec![0x11111111_1111_1111_1111_111111111111u128, 2]));
    let ids = vec![ID.to_string(), "bad".to_string(), "worse".to_string()];
    let err = parse_npc_ids(&ids).unwrap_err();
    assert!(err.starts_with("invalid UUID 'bad': "));
    assert_eq!(parse_npc_ids(&Vec::new()), Ok(Vec::new()));
}

#[test]
fn character_ids_are_uuids() {
    assert_eq!(parse_character_id(ID), Ok(0x11111111_1111_1111_1111_111111111111u128));
    assert!(parse_character_id("x").unwrap_err().starts_with("invalid UUID: "));
    assert!(parse_admin_character_id("x").unwrap_err().starts_with("Invalid UUID: "));
}

#[test]
fn lookup_answers() {
    assert_eq!(npc_lookup_answer(Ok(Some(7))), Ok(7));
    assert_eq!(npc_lookup_answer::<i32>(Ok(None)), Err("npc not found".to_string()));
    assert_eq!(npc_lookup_answer::<i32>(Err("db down".to_string())), Err("internal error".to_string()));
    assert_eq!(character_lookup_answer::<i32>(Ok(None)), Err("character not found".to_string()));
    assert_eq!(invalid_request_message("eof"), "invalid request: eof");
    assert_eq!(admin_invalid_request_message("eof"), "Invalid request: eof");
    assert_eq!(unknown_subject_message("admin.x"), "Unknown subject: admin.x");
}

#[test]
fn admin_requests_need_a_bearer_token() {
    assert_eq!(admin_token(Some("Bearer t")), Ok("t".to_string()));
    assert_eq!(admin_token(Some("t")), Err("Missing Authorization header".to_string()));
    assert_eq!(admin_token(None), Err("Missing Authorization header".to_string()));
}

#[test]
fn catalog_subjects_route_to_operations() {
    assert_eq!(
        route_catalog_subject("admin.catalog.races.list"),
        Some(CatalogAdminRequest::List(CatalogListing::Races))
    );
    assert_eq!(
        route_catalog_subject("admin.catalog.skincolors.update"),
        Some(CatalogAdminRequest::Change(CatalogMutation::UpdateSkinColor))
    );
    assert_eq!(
        route_catalog_subject("admin.catalog.combinations.race_gender.remove"),
        Some(CatalogAdminRequest::Change(CatalogMutation::RemoveRaceGenderAllowed))
    );
    assert_eq!(route_catalog_subject("admin.catalog.combinations.race_gender_class.set"), None);
    assert_eq!(route_catalog_subject("admin.catalog.races"), None);
    assert_eq!(
        catalog_payload_shape(CatalogAdminRequest::Change(CatalogMutation::CreateClass)),
        PayloadShape::NewItem
    );
    assert_eq!(
        catalog_payload_shape(CatalogAdminRequest::Change(CatalogMutation::DeleteGender)),
        PayloadShape::ItemId
    );
    assert_eq!(
        catalog_payload_shape(CatalogAdminRequest::Change(CatalogMutation::SetRaceGenderAllowed)),
        PayloadShape::Combination
    );
    assert_eq!(catalog_payload_shape(CatalogAdminRequest::List(CatalogListing::Classes)), PayloadShape::Empty);
}

#[test]
fn character_subjects_route_to_operations() {
    assert_eq!(route_character_subject("admin.characters.get"), Some(CharacterAdminRequest::Get));
    assert_eq!(route_character_subject("admin.characters.update"), Some(CharacterAdminRequest::Update));
    assert_eq!(route_character_subject("admin.characters.create"), None);
    assert_eq!(character_payload_shape(CharacterAdminRequest::Delete), PayloadShape::CharacterId);
    assert_eq!(character_payload_shape(CharacterAdminRequest::Update), PayloadShape::CharacterUpdate);
}

#[test]
fn character_creation_rules() {
    assert_eq!(
        check_character_name("   "),
        Err(CharacterStatus::InvalidArgument("character name cannot be empty".to_string()))
    );
    assert_eq!(check_character_name(" Ari "), Ok(()));
    assert_eq!(name_check_answer(Ok(false)), Ok(()));
    assert_eq!(
        name_check_answer(Ok(true)),
        Err(CharacterStatus::AlreadyExists("character name is already taken".to_string()))
    );
    assert_eq!(
        name_check_answer(Err("x".to_string())),
        Err(CharacterStatus::Internal("failed to validate character name".to_string()))
    );
    assert_eq!(
        creation_failure("insert violates foreign key constraint \"fk_race\""),
        CharacterStatus::InvalidArgument("invalid race/gender/skin color/class combination".to_string())
    );
    assert_eq!(
        creation_failure("connection reset"),
        CharacterStatus::Internal("failed to create character".to_string())
    );
    assert_eq!(listing_failure(), CharacterStatus::Internal("failed to fetch characters".to_string()));
}

#[test]
fn character_service_authentication() {
    assert_eq!(require_bearer_token(Some("t".to_string())), Ok("t".to_string()));
    assert_eq!(
        require_bearer_token(None),
        Err(CharacterStatus::Unauthenticated("missing or invalid authorization header".to_string()))
    );
    assert_eq!(
        require_user_email(None),
        Err(CharacterStatus::Unauthenticated("invalid token or missing email claim".to_string()))
    );
    assert_eq!(require_user_email(Some("a@b".to_string())), Ok("a@b".to_string()));
    assert_eq!(interceptor_answer(true), Ok(()));
    assert_eq!(interceptor_answer(false), Err(CharacterStatus::Unauthenticated("invalid token".to_string())));
}
