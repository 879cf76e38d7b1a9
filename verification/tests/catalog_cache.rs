use idklol::catalog::{
    CatalogCache, CharacterCreationCatalog, Class, Gender, NamedOption, Race, RaceGenderAllowed,
    RaceGenderClassAllowed, RaceGenderSkinColorAllowed, SkinColor,
};
use idklol::characters::CharacterStatus;
use idklol::catalog_service::{
    CatalogAdminService, CatalogFetch, CatalogListing, CatalogMutation, CatalogService,
};

fn option(id: i32, name: &str) -> NamedOption {
    NamedOption { id, name: name.to_string() }
}

fn catalog(version: &str, race_name: &str) -> CharacterCreationCatalog {
    CharacterCreationCatalog {
        version: version.to_string(),
        races: vec![option(1, race_name), option(2, "Elf")],
        genders: vec![option(1, "Female")],
        skin_colors: vec![option(3, "Olive")],
        classes: vec![option(4, "Ranger")],
        allowed_race_gender: vec![RaceGenderAllowed { race_id: 1, gender_id: 1 }],
        allowed_race_gender_skin_color: vec![RaceGenderSkinColorAllowed { race_id: 1, gender_id: 1, skin_color_id: 3 }],
        allowed_race_gender_class: vec![RaceGenderClassAllowed { race_id: 1, gender_id: 1, class_id: 4 }],
    }
}

fn fetch_ok() -> CatalogFetch {
    CatalogFetch {
        races: Ok(vec![Race { id: 1, name: "Human".to_string() }, Race { id: 2, name: "Elf".to_string() }]),
        genders: Ok(vec![Gender { id: 1, name: "Female".to_string() }]),
        skin_colors: Ok(vec![SkinColor { id: 3, name: "Olive".to_string() }]),
        classes: Ok(vec![Class { id: 4, name: "Ranger".to_string() }]),
        allowed_race_gender: Ok(vec![RaceGenderAllowed { race_id: 1, gender_id: 1 }]),
        allowed_race_gender_skin_color: Ok(vec![RaceGenderSkinColorAllowed { race_id: 1, gender_id: 1, skin_color_id: 3 }]),
        allowed_race_gender_class: Ok(vec![RaceGenderClassAllowed { race_id: 1, gender_id: 1, class_id: 4 }]),
    }
}

#[test]
fn cache_starts_empty_and_invalidates() {
    let mut cache = CatalogCache::cache();
    assert!(cache.get().is_none());
    assert!(cache.current_version().is_none());
    let version = cache.set(catalog("", "Human"));
    assert_eq!(cache.current_version(), Some(version.clone()));
    let (v, c) = cache.get().unwrap();
    assert_eq!(v, version);
    assert_eq!(c.version, version);
    assert_eq!(c.races[0].name, "Human");
    cache.invalidate();
    assert!(cache.get().is_none());
}

#[test]
fn versions_depend_on_contents_only() {
    let a = CatalogCache::generate_version(&catalog("", "Human"));
    let b = CatalogCache::generate_version(&catalog("some-old-version", "Human"));
    let c = CatalogCache::generate_version(&catalog("", "Dwarf"));
    assert_eq!(a, b);
    assert_ne!(a, c);
    assert!(a.chars().all(|ch| ch.is_ascii_hexdigit() && !ch.is_ascii_uppercase()));
}

#[test]
fn version_check_against_the_cache() {
    let service = CatalogService::new(());
    let mut cache = CatalogCache::cache();
    let check = service.check_character_creation_catalog_version("", &cache);
    assert!(!check.is_current);
    assert_eq!(check.latest_version, "");
    let version = cache.set(catalog("", "Human"));
    let check = service.check_character_creation_catalog_version(&version, &cache);
    assert!(check.is_current);
    assert_eq!(check.latest_version, version);
    assert!(!service.check_character_creation_catalog_version("stale", &cache).is_current);
    assert!(!service.check_character_creation_catalog_version("", &cache).is_current);
}

#[test]
fn catalog_fetch_fills_the_cache() {
    let service = CatalogService::new(());
    let mut cache = CatalogCache::cache();
    let built = service.complete_catalog_fetch(&mut cache, fetch_ok()).unwrap();
    assert_eq!(built.races.len(), 2);
    assert!(!built.version.is_empty());
    assert_eq!(built.version, cache.current_version().unwrap());
    assert_eq!(built.classes[0].name, "Ranger");
    let cached = service.cached_catalog(&cache).unwrap();
    assert_eq!(cached.version, cache.current_version().unwrap());
    assert_eq!(cached.version, CatalogCache::generate_version(&built));

    let mut failing = fetch_ok();
    failing.genders = Err("connection reset".to_string());
    let mut empty = CatalogCache::cache();
    assert_eq!(
        service.complete_catalog_fetch(&mut empty, failing).unwrap_err(),
        CharacterStatus::Internal("failed to fetch catalog data".to_string())
    );
    assert!(empty.get().is_none());
}

#[test]
fn admin_changes_invalidate_and_report_failures() {
    let mut cache = CatalogCache::cache();
    cache.set(catalog("", "Human"));
    let admin = CatalogAdminService::new((), ());
    assert_eq!(admin.get_catalog_version(&cache), cache.current_version().unwrap());
    let failed = CatalogAdminService::<(), ()>::finish_mutation::<i32>(
        &mut cache,
        CatalogMutation::UpdateSkinColor,
        Err("no row".to_string()),
    );
    assert_eq!(failed, Err("Failed to update skin color: no row".to_string()));
    assert!(cache.get().is_some());
    let done = CatalogAdminService::<(), ()>::finish_mutation(&mut cache, CatalogMutation::CreateRace, Ok(5));
    assert_eq!(done, Ok(5));
    assert!(cache.get().is_none());
    assert_eq!(admin.get_catalog_version(&cache), "none");
    assert_eq!(
        CatalogAdminService::<(), ()>::finish_listing::<i32>(CatalogListing::RaceGenderClass, Err("x".to_string())),
        Err("Failed to list race-gender-class combinations: x".to_string())
    );
}
