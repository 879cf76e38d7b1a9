//! The read side (catalog service) and write side (admin service) of the
//! character-creation catalog. The repositories are held here and queried by
//! the caller; these services decide what the query results mean for the
//! response and for the cache.
use vstd::prelude::*;
use crate::catalog::{
    catalog_version, option_views, with_version, CacheView, CatalogCache, CatalogView,
    CharacterCreationCatalog, Class, Gender, NamedOption, Race, RaceGenderAllowed,
    RaceGenderClassAllowed, RaceGenderSkinColorAllowed, SkinColor,
};
use crate::characters::{status_view, CharacterStatus};
use crate::text::{append_str, chars_eq, chars_of, hex_text, string_from_chars, to_owned_string};

verus! {

/// Every hexadecimal text has at least one digit.
pub proof fn lemma_hex_text_nonempty(n: nat)
    ensures
        hex_text(n).len() >= 1,
    decreases n,
{
    if n >= 16 {
        lemma_hex_text_nonempty(n / 16);
    }
}

/// Answer to a client that asks whether its cached catalog is current.
#[derive(Debug)]
pub struct CatalogVersionCheck {
    pub is_current: bool,
    pub latest_version: String,
}

/// The version that the cache reports: empty when nothing is cached.
pub open spec fn latest_version(cache: CacheView) -> Seq<char> {
    match cache {
        Some((v, _)) => v,
        None => Seq::empty(),
    }
}

/// A client's catalog is current when its version is the cached one and
/// neither is empty.
pub open spec fn version_is_current(client_version: Seq<char>, cache: CacheView) -> bool {
    client_version.len() > 0 && latest_version(cache).len() > 0 && client_version
        == latest_version(cache)
}

pub open spec fn race_views(s: Seq<Race>) -> Seq<(i32, Seq<char>)> {
    s.map_values(|r: Race| (r.id, r.name@))
}

pub open spec fn gender_views(s: Seq<Gender>) -> Seq<(i32, Seq<char>)> {
    s.map_values(|r: Gender| (r.id, r.name@))
}

pub open spec fn skin_color_views(s: Seq<SkinColor>) -> Seq<(i32, Seq<char>)> {
    s.map_values(|r: SkinColor| (r.id, r.name@))
}

pub open spec fn class_views(s: Seq<Class>) -> Seq<(i32, Seq<char>)> {
    s.map_values(|r: Class| (r.id, r.name@))
}

/// The rows of the catalog tables, as the repository returned them.
pub struct CatalogRows {
    pub races: Vec<Race>,
    pub genders: Vec<Gender>,
    pub skin_colors: Vec<SkinColor>,
    pub classes: Vec<Class>,
    pub allowed_race_gender: Vec<RaceGenderAllowed>,
    pub allowed_race_gender_skin_color: Vec<RaceGenderSkinColorAllowed>,
    pub allowed_race_gender_class: Vec<RaceGenderClassAllowed>,
}

/// The catalog that a set of rows gives, in row order, with an empty version.
pub open spec fn rows_catalog(rows: CatalogRows) -> CatalogView {
    CatalogView {
        version: Seq::empty(),
        races: race_views(rows.races@),
        genders: gender_views(rows.genders@),
        skin_colors: skin_color_views(rows.skin_colors@),
        classes: class_views(rows.classes@),
        allowed_race_gender: rows.allowed_race_gender@,
        allowed_race_gender_skin_color: rows.allowed_race_gender_skin_color@,
        allowed_race_gender_class: rows.allowed_race_gender_class@,
    }
}

/// The outcome of each of the seven catalog queries.
pub struct CatalogFetch {
    pub races: Result<Vec<Race>, String>,
    pub genders: Result<Vec<Gender>, String>,
    pub skin_colors: Result<Vec<SkinColor>, String>,
    pub classes: Result<Vec<Class>, String>,
    pub allowed_race_gender: Result<Vec<RaceGenderAllowed>, String>,
    pub allowed_race_gender_skin_color: Result<Vec<RaceGenderSkinColorAllowed>, String>,
    pub allowed_race_gender_class: Result<Vec<RaceGenderClassAllowed>, String>,
}

/// Whether every catalog query succeeded.
pub open spec fn fetch_succeeded(f: CatalogFetch) -> bool {
    &&& f.races is Ok
    &&& f.genders is Ok
    &&& f.skin_colors is Ok
    &&& f.classes is Ok
    &&& f.allowed_race_gender is Ok
    &&& f.allowed_race_gender_skin_color is Ok
    &&& f.allowed_race_gender_class is Ok
}

/// The rows of a fetch in which every query succeeded.
pub open spec fn fetched_rows(f: CatalogFetch) -> CatalogRows {
    CatalogRows {
        races: f.races->Ok_0,
        genders: f.genders->Ok_0,
        skin_colors: f.skin_colors->Ok_0,
        classes: f.classes->Ok_0,
        allowed_race_gender: f.allowed_race_gender->Ok_0,
        allowed_race_gender_skin_color: f.allowed_race_gender_skin_color->Ok_0,
        allowed_race_gender_class: f.allowed_race_gender_class->Ok_0,
    }
}

/// Message of the internal error reported when a catalog query fails.
pub open spec fn fetch_failure_text() -> Seq<char> {
    "failed to fetch catalog data"@
}

fn race_options(rows: &Vec<Race>) -> (r: Vec<NamedOption>)
    ensures
        option_views(r@) == race_views(rows@),
{
    let mut r: Vec<NamedOption> = Vec::new();
    let mut i: usize = 0;
    while i < rows.len()
        invariant
            i <= rows.len(),
            option_views(r@) == race_views(rows@).take(i as int),
        decreases rows.len() - i,
    {
        let ghost prev = r@;
        let o = NamedOption { id: rows[i].id, name: rows[i].name.clone() };
        r.push(o);
        assert(option_views(r@) =~= option_views(prev).push(o@));
        assert(option_views(r@) =~= race_views(rows@).take(i + 1));
        i = i + 1;
    }
    assert(race_views(rows@).take(rows.len() as int) =~= race_views(rows@));
    r
}

fn gender_options(rows: &Vec<Gender>) -> (r: Vec<NamedOption>)
    ensures
        option_views(r@) == gender_views(rows@),
{
    let mut r: Vec<NamedOption> = Vec::new();
    let mut i: usize = 0;
    while i < rows.len()
        invariant
            i <= rows.len(),
            option_views(r@) == gender_views(rows@).take(i as int),
        decreases rows.len() - i,
    {
        let ghost prev = r@;
        let o = NamedOption { id: rows[i].id, name: rows[i].name.clone() };
        r.push(o);
        assert(option_views(r@) =~= option_views(prev).push(o@));
        assert(option_views(r@) =~= gender_views(rows@).take(i + 1));
        i = i + 1;
    }
    assert(gender_views(rows@).take(rows.len() as int) =~= gender_views(rows@));
    r
}

fn skin_color_options(rows: &Vec<SkinColor>) -> (r: Vec<NamedOption>)
    ensures
        option_views(r@) == skin_color_views(rows@),
{
    let mut r: Vec<NamedOption> = Vec::new();
    let mut i: usize = 0;
    while i < rows.len()
        invariant
            i <= rows.len(),
            option_views(r@) == skin_color_views(rows@).take(i as int),
        decreases rows.len() - i,
    {
        let ghost prev = r@;
        let o = NamedOption { id: rows[i].id, name: rows[i].name.clone() };
        r.push(o);
        assert(option_views(r@) =~= option_views(prev).push(o@));
        assert(option_views(r@) =~= skin_color_views(rows@).take(i + 1));
        i = i + 1;
    }
    assert(skin_color_views(rows@).take(rows.len() as int) =~= skin_color_views(rows@));
    r
}

fn class_options(rows: &Vec<Class>) -> (r: Vec<NamedOption>)
    ensures
        option_views(r@) == class_views(rows@),
{
    let mut r: Vec<NamedOption> = Vec::new();
    let mut i: usize = 0;
    while i < rows.len()
        invariant
            i <= rows.len(),
            option_views(r@) == class_views(rows@).take(i as int),
        decreases rows.len() - i,
    {
        let ghost prev = r@;
        let o = NamedOption { id: rows[i].id, name: rows[i].name.clone() };
        r.push(o);
        assert(option_views(r@) =~= option_views(prev).push(o@));
        assert(option_views(r@) =~= class_views(rows@).take(i + 1));
        i = i + 1;
    }
    assert(class_views(rows@).take(rows.len() as int) =~= class_views(rows@));
    r
}

/// Builds the catalog from the rows of the catalog tables, keeping row order;
/// the version is left empty.
pub fn catalog_from_rows(rows: CatalogRows) -> (r: CharacterCreationCatalog)
    ensures
        r@ == rows_catalog(rows),
{
    let races = race_options(&rows.races);
    let genders = gender_options(&rows.genders);
    let skin_colors = skin_color_options(&rows.skin_colors);
    let classes = class_options(&rows.classes);
    CharacterCreationCatalog {
        version: string_from_chars(Vec::new().as_slice()),
        races,
        genders,
        skin_colors,
        classes,
        allowed_race_gender: rows.allowed_race_gender,
        allowed_race_gender_skin_color: rows.allowed_race_gender_skin_color,
        allowed_race_gender_class: rows.allowed_race_gender_class,
    }
}

/// Serves the character-creation catalog. It needs no authentication.
pub struct CatalogService<C> {
    catalog_repo: C,
}

impl<C> CatalogService<C> {
    /// A service that reads the catalog through the given repository.
    pub fn new(catalog_repo: C) -> (r: CatalogService<C>)
        ensures
            r.repository_spec() == catalog_repo,
    {
        CatalogService { catalog_repo }
    }

    pub closed spec fn repository_spec(&self) -> C {
        self.catalog_repo
    }

    /// The repository that the catalog is read through.
    pub fn repository(&self) -> (r: &C)
        ensures
            *r == self.repository_spec(),
    {
        &self.catalog_repo
    }

    /// Whether a client's cached catalog is current, and the latest version.
    pub fn check_character_creation_catalog_version(
        &self,
        cached_version: &str,
        cache: &CatalogCache,
    ) -> (r: CatalogVersionCheck)
        ensures
            r.latest_version@ == latest_version(cache@),
            r.is_current == version_is_current(cached_version@, cache@),
    {
        let latest = match cache.current_version() {
            Some(v) => v,
            None => string_from_chars(Vec::new().as_slice()),
        };
        let cached = chars_of(cached_version);
        let latest_chars = chars_of(latest.as_str());
        let is_current = cached.len() > 0 && latest_chars.len() > 0 && chars_eq(
            cached.as_slice(),
            latest_chars.as_slice(),
        );
        CatalogVersionCheck { is_current, latest_version: latest }
    }

    /// The catalog held in the cache, if any; it is served without querying
    /// the repository.
    pub fn cached_catalog(&self, cache: &CatalogCache) -> (r: Option<CharacterCreationCatalog>)
        ensures
            match r {
                Some(c) => cache@ matches Some((_, cc)) && cc == c@,
                None => cache@ is None,
            },
    {
        match cache.get() {
            Some((_, catalog)) => Some(catalog),
            None => None,
        }
    }

    /// Completes a catalog request after the seven catalog queries: if any
    /// failed, the request fails with an internal-error status and the cache
    /// is left as it was; otherwise the catalog built from the rows is cached
    /// under its version, and returned carrying that version, as the cache
    /// serves it to every later request.
    pub fn complete_catalog_fetch(&self, cache: &mut CatalogCache, fetch: CatalogFetch) -> (r:
        Result<CharacterCreationCatalog, CharacterStatus>)
        ensures
            fetch_succeeded(fetch) ==> (r matches Ok(c) && c@ == with_version(
                rows_catalog(fetched_rows(fetch)),
                catalog_version(rows_catalog(fetched_rows(fetch))),
            )),
            fetch_succeeded(fetch) ==> final(cache)@ == Some(
                (
                    catalog_version(rows_catalog(fetched_rows(fetch))),
                    with_version(
                        rows_catalog(fetched_rows(fetch)),
                        catalog_version(rows_catalog(fetched_rows(fetch))),
                    ),
                ),
            ),
            fetch_succeeded(fetch) ==> (r matches Ok(c) && final(cache)@ matches Some((v, _)) && c@.version == v
                && v.len() > 0),
            !fetch_succeeded(fetch) ==> (r matches Err(s) && status_view(s) == (3int, fetch_failure_text())),
            !fetch_succeeded(fetch) ==> final(cache)@ == old(cache)@,
    {
        let ghost f = fetch;
        let failure = CharacterStatus::Internal(to_owned_string("failed to fetch catalog data"));
        let races = match fetch.races {
            Ok(v) => v,
            Err(_) => return Err(failure),
        };
        let genders = match fetch.genders {
            Ok(v) => v,
            Err(_) => return Err(failure),
        };
        let skin_colors = match fetch.skin_colors {
            Ok(v) => v,
            Err(_) => return Err(failure),
        };
        let classes = match fetch.classes {
            Ok(v) => v,
            Err(_) => return Err(failure),
        };
        let allowed_race_gender = match fetch.allowed_race_gender {
            Ok(v) => v,
            Err(_) => return Err(failure),
        };
        let allowed_race_gender_skin_color = match fetch.allowed_race_gender_skin_color {
            Ok(v) => v,
            Err(_) => return Err(failure),
        };
        let allowed_race_gender_class = match fetch.allowed_race_gender_class {
            Ok(v) => v,
            Err(_) => return Err(failure),
        };
        let rows = CatalogRows {
            races,
            genders,
            skin_colors,
            classes,
            allowed_race_gender,
            allowed_race_gender_skin_color,
            allowed_race_gender_class,
        };
        assert(rows_catalog(rows) == rows_catalog(fetched_rows(f)));
        let mut catalog = catalog_from_rows(rows);
        let version = cache.set(catalog.duplicate());
        proof {
            lemma_hex_text_nonempty(
                crate::digest::default_hash(crate::catalog::catalog_hash_bytes(catalog@)) as nat,
            );
        }
        catalog.version = version;
        Ok(catalog)
    }
}

/// Law: right after a catalog is cached, a client that holds the version
/// that `set` returned is told its catalog is current, and after the cache is
/// invalidated no client is.
pub proof fn lemma_cached_version_is_current(c: CatalogView, v: Seq<char>)
    requires
        v == catalog_version(c),
    ensures
        version_is_current(v, Some((v, with_version(c, v)))),
        forall|client: Seq<char>| !version_is_current(client, None),
{
    lemma_hex_text_nonempty(crate::digest::default_hash(crate::catalog::catalog_hash_bytes(c)) as nat);
}

/// A change that the admin service makes to the catalog.
#[derive(Debug, Clone, Copy, PartialEq, Eq)]
pub enum CatalogMutation {
    CreateRace,
    UpdateRace,
    DeleteRace,
    CreateGender,
    UpdateGender,
    DeleteGender,
    CreateSkinColor,
    UpdateSkinColor,
    DeleteSkinColor,
    CreateClass,
    UpdateClass,
    DeleteClass,
    SetRaceGenderAllowed,
    RemoveRaceGenderAllowed,
    SetRaceGenderSkinColorAllowed,
    RemoveRaceGenderSkinColorAllowed,
    SetRaceGenderClassAllowed,
    RemoveRaceGenderClassAllowed,
}

/// How a mutation is named in error messages.
pub open spec fn mutation_label(m: CatalogMutation) -> Seq<char> {
    match m {
        CatalogMutation::CreateRace => "create race"@,
        CatalogMutation::UpdateRace => "update race"@,
        CatalogMutation::DeleteRace => "delete race"@,
        CatalogMutation::CreateGender => "create gender"@,
        CatalogMutation::UpdateGender => "update gender"@,
        CatalogMutation::DeleteGender => "delete gender"@,
        CatalogMutation::CreateSkinColor => "create skin color"@,
        CatalogMutation::UpdateSkinColor => "update skin color"@,
        CatalogMutation::DeleteSkinColor => "delete skin color"@,
        CatalogMutation::CreateClass => "create class"@,
        CatalogMutation::UpdateClass => "update class"@,
        CatalogMutation::DeleteClass => "delete class"@,
        CatalogMutation::SetRaceGenderAllowed => "set race-gender allowed"@,
        CatalogMutation::RemoveRaceGenderAllowed => "remove race-gender allowed"@,
        CatalogMutation::SetRaceGenderSkinColorAllowed => "set race-gender-skin color allowed"@,
        CatalogMutation::RemoveRaceGenderSkinColorAllowed =>
            "remove race-gender-skin color allowed"@,
        CatalogMutation::SetRaceGenderClassAllowed => "set race-gender-class allowed"@,
        CatalogMutation::RemoveRaceGenderClassAllowed => "remove race-gender-class allowed"@,
    }
}

fn mutation_label_text(m: CatalogMutation) -> (r: &'static str)
    ensures
        r@ == mutation_label(m),
{
    match m {
        CatalogMutation::CreateRace => "create race",
        CatalogMutation::UpdateRace => "update race",
        CatalogMutation::DeleteRace => "delete race",
        CatalogMutation::CreateGender => "create gender",
        CatalogMutation::UpdateGender => "update gender",
        CatalogMutation::DeleteGender => "delete gender",
        CatalogMutation::CreateSkinColor => "create skin color",
        CatalogMutation::UpdateSkinColor => "update skin color",
        CatalogMutation::DeleteSkinColor => "delete skin color",
        CatalogMutation::CreateClass => "create class",
        CatalogMutation::UpdateClass => "update class",
        CatalogMutation::DeleteClass => "delete class",
        CatalogMutation::SetRaceGenderAllowed => "set race-gender allowed",
        CatalogMutation::RemoveRaceGenderAllowed => "remove race-gender allowed",
        CatalogMutation::SetRaceGenderSkinColorAllowed => "set race-gender-skin color allowed",
        CatalogMutation::RemoveRaceGenderSkinColorAllowed => "remove race-gender-skin color allowed",
        CatalogMutation::SetRaceGenderClassAllowed => "set race-gender-class allowed",
        CatalogMutation::RemoveRaceGenderClassAllowed => "remove race-gender-class allowed",
    }
}

/// A catalog table that the admin service lists.
#[derive(Debug, Clone, Copy, PartialEq, Eq)]
pub enum CatalogListing {
    Races,
    Genders,
    SkinColors,
    Classes,
    RaceGender,
    RaceGenderSkinColor,
    RaceGenderClass,
}

/// How a listing is named in error messages.
pub open spec fn listing_label(l: CatalogListing) -> Seq<char> {
    match l {
        CatalogListing::Races => "races"@,
        CatalogListing::Genders => "genders"@,
        CatalogListing::SkinColors => "skin colors"@,
        CatalogListing::Classes => "classes"@,
        CatalogListing::RaceGender => "race-gender combinations"@,
        CatalogListing::RaceGenderSkinColor => "race-gender-skin color combinations"@,
        CatalogListing::RaceGenderClass => "race-gender-class combinations"@,
    }
}

fn listing_label_text(l: CatalogListing) -> (r: &'static str)
    ensures
        r@ == listing_label(l),
{
    match l {
        CatalogListing::Races => "races",
        CatalogListing::Genders => "genders",
        CatalogListing::SkinColors => "skin colors",
        CatalogListing::Classes => "classes",
        CatalogListing::RaceGender => "race-gender combinations",
        CatalogListing::RaceGenderSkinColor => "race-gender-skin color combinations",
        CatalogListing::RaceGenderClass => "race-gender-class combinations",
    }
}

fn failure_message(prefix: &str, label: &str, cause: &str) -> (r: String)
    ensures
        r@ == prefix@ + label@ + ": "@ + cause@,
{
    let mut v = chars_of(prefix);
    append_str(&mut v, label);
    append_str(&mut v, ": ");
    append_str(&mut v, cause);
    string_from_chars(v.as_slice())
}

/// Administers the catalog tables. Every successful change invalidates the
/// catalog cache, so that the next catalog request rebuilds it.
pub struct CatalogAdminService<A, C> {
    catalog_admin_repo: A,
    catalog_repo: C,
}

impl<A, C> CatalogAdminService<A, C> {
    /// A service over the given repositories.
    pub fn new(catalog_admin_repo: A, catalog_repo: C) -> (r: CatalogAdminService<A, C>)
        ensures
            r.admin_repository_spec() == catalog_admin_repo,
            r.catalog_repository_spec() == catalog_repo,
    {
        CatalogAdminService { catalog_admin_repo, catalog_repo }
    }

    pub closed spec fn admin_repository_spec(&self) -> A {
        self.catalog_admin_repo
    }

    pub closed spec fn catalog_repository_spec(&self) -> C {
        self.catalog_repo
    }

    /// The repository that changes are written through.
    pub fn admin_repository(&self) -> (r: &A)
        ensures
            *r == self.admin_repository_spec(),
    {
        &self.catalog_admin_repo
    }

    /// The repository that the tables are listed through.
    pub fn catalog_repository(&self) -> (r: &C)
        ensures
            *r == self.catalog_repository_spec(),
    {
        &self.catalog_repo
    }

    /// Drops the cached catalog after a change.
    pub fn invalidate_cache(cache: &mut CatalogCache)
        ensures
            final(cache)@ is None,
    {
        cache.invalidate();
    }

    /// Completes a change after the repository call: a success invalidates
    /// the cache and is passed on; a failure leaves the cache as it was and
    /// is reported as "Failed to <change>: <cause>".
    pub fn finish_mutation<T>(
        cache: &mut CatalogCache,
        mutation: CatalogMutation,
        outcome: Result<T, String>,
    ) -> (r: Result<T, String>)
        ensures
            outcome is Ok ==> r is Ok && r->Ok_0 == outcome->Ok_0 && final(cache)@ is None,
            outcome is Err ==> r is Err && r->Err_0@ == "Failed to "@ + mutation_label(mutation)
                + ": "@ + outcome->Err_0@ && final(cache)@ == old(cache)@,
    {
        match outcome {
            Ok(v) => {
                Self::invalidate_cache(cache);
                Ok(v)
            },
            Err(e) => Err(failure_message("Failed to ", mutation_label_text(mutation), e.as_str())),
        }
    }

    /// Completes a listing after the repository call; a failure is reported
    /// as "Failed to list <table>: <cause>".
    pub fn finish_listing<T>(listing: CatalogListing, outcome: Result<T, String>) -> (r: Result<
        T,
        String,
    >)
        ensures
            outcome is Ok ==> r is Ok && r->Ok_0 == outcome->Ok_0,
            outcome is Err ==> r is Err && r->Err_0@ == "Failed to list "@ + listing_label(listing)
                + ": "@ + outcome->Err_0@,
    {
        match outcome {
            Ok(v) => Ok(v),
            Err(e) => Err(failure_message("Failed to list ", listing_label_text(listing), e.as_str())),
        }
    }

    /// The version of the cached catalog, or "none" when nothing is cached.
    pub fn get_catalog_version(&self, cache: &CatalogCache) -> (r: String)
        ensures
            r@ == match cache@ {
                Some((v, _)) => v,
                None => "none"@,
            },
    {
        match cache.current_version() {
            Some(v) => v,
            None => to_owned_string("none"),
        }
    }
}

} // verus!
