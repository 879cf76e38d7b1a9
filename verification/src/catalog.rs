//! The character-creation catalog: the races, genders, skin colors and classes
//! that players can choose, the combinations that are allowed, and the cache
//! that serves the assembled catalog under a content version.
use vstd::prelude::*;
use crate::digest::{default_hash, hex_digest, i32_hash_bytes, push_i32_hash_bytes, push_str_hash_bytes, str_hash_bytes};
use crate::text::{hex_text, to_owned_string};

verus! {

/// A playable race.
#[derive(Debug)]
pub struct Race {
    pub id: i32,
    pub name: String,
}

/// A character gender.
#[derive(Debug)]
pub struct Gender {
    pub id: i32,
    pub name: String,
}

/// An available skin tone.
#[derive(Debug)]
pub struct SkinColor {
    pub id: i32,
    pub name: String,
}

/// A character class.
#[derive(Debug)]
pub struct Class {
    pub id: i32,
    pub name: String,
}

/// An allowed race-gender combination.
#[derive(Debug, Clone, Copy)]
pub struct RaceGenderAllowed {
    pub race_id: i32,
    pub gender_id: i32,
}

/// An allowed race-gender-skin color combination.
#[derive(Debug, Clone, Copy)]
pub struct RaceGenderSkinColorAllowed {
    pub race_id: i32,
    pub gender_id: i32,
    pub skin_color_id: i32,
}

/// An allowed race-gender-class combination.
#[derive(Debug, Clone, Copy)]
pub struct RaceGenderClassAllowed {
    pub race_id: i32,
    pub gender_id: i32,
    pub class_id: i32,
}

/// One named choice of the catalog: an id and a display name.
#[derive(Debug)]
pub struct NamedOption {
    pub id: i32,
    pub name: String,
}

impl View for NamedOption {
    type V = (i32, Seq<char>);

    open spec fn view(&self) -> (i32, Seq<char>) {
        (self.id, self.name@)
    }
}

/// The catalog that clients receive to build their character-creation screen.
#[derive(Debug)]
pub struct CharacterCreationCatalog {
    pub version: String,
    pub races: Vec<NamedOption>,
    pub genders: Vec<NamedOption>,
    pub skin_colors: Vec<NamedOption>,
    pub classes: Vec<NamedOption>,
    pub allowed_race_gender: Vec<RaceGenderAllowed>,
    pub allowed_race_gender_skin_color: Vec<RaceGenderSkinColorAllowed>,
    pub allowed_race_gender_class: Vec<RaceGenderClassAllowed>,
}

pub open spec fn option_views(s: Seq<NamedOption>) -> Seq<(i32, Seq<char>)> {
    s.map_values(|o: NamedOption| o@)
}

/// Abstract value of a catalog.
pub struct CatalogView {
    pub version: Seq<char>,
    pub races: Seq<(i32, Seq<char>)>,
    pub genders: Seq<(i32, Seq<char>)>,
    pub skin_colors: Seq<(i32, Seq<char>)>,
    pub classes: Seq<(i32, Seq<char>)>,
    pub allowed_race_gender: Seq<RaceGenderAllowed>,
    pub allowed_race_gender_skin_color: Seq<RaceGenderSkinColorAllowed>,
    pub allowed_race_gender_class: Seq<RaceGenderClassAllowed>,
}

impl View for CharacterCreationCatalog {
    type V = CatalogView;

    open spec fn view(&self) -> CatalogView {
        CatalogView {
            version: self.version@,
            races: option_views(self.races@),
            genders: option_views(self.genders@),
            skin_colors: option_views(self.skin_colors@),
            classes: option_views(self.classes@),
            allowed_race_gender: self.allowed_race_gender@,
            allowed_race_gender_skin_color: self.allowed_race_gender_skin_color@,
            allowed_race_gender_class: self.allowed_race_gender_class@,
        }
    }
}

/// The catalog with its version replaced.
pub open spec fn with_version(c: CatalogView, v: Seq<char>) -> CatalogView {
    CatalogView { version: v, ..c }
}

/// Hash bytes of a list of named options: id, then name, for each in turn.
pub open spec fn options_hash_bytes(s: Seq<(i32, Seq<char>)>) -> Seq<u8>
    decreases s.len(),
{
    if s.len() == 0 {
        Seq::empty()
    } else {
        options_hash_bytes(s.drop_last()) + i32_hash_bytes(s.last().0) + str_hash_bytes(
            s.last().1,
        )
    }
}

/// Hash bytes of the race-gender combinations.
pub open spec fn pairs_hash_bytes(s: Seq<RaceGenderAllowed>) -> Seq<u8>
    decreases s.len(),
{
    if s.len() == 0 {
        Seq::empty()
    } else {
        pairs_hash_bytes(s.drop_last()) + i32_hash_bytes(s.last().race_id) + i32_hash_bytes(
            s.last().gender_id,
        )
    }
}

/// Hash bytes of the race-gender-skin color combinations.
pub open spec fn skin_triples_hash_bytes(s: Seq<RaceGenderSkinColorAllowed>) -> Seq<u8>
    decreases s.len(),
{
    if s.len() == 0 {
        Seq::empty()
    } else {
        skin_triples_hash_bytes(s.drop_last()) + i32_hash_bytes(s.last().race_id)
            + i32_hash_bytes(s.last().gender_id) + i32_hash_bytes(s.last().skin_color_id)
    }
}

/// Hash bytes of the race-gender-class combinations.
pub open spec fn class_triples_hash_bytes(s: Seq<RaceGenderClassAllowed>) -> Seq<u8>
    decreases s.len(),
{
    if s.len() == 0 {
        Seq::empty()
    } else {
        class_triples_hash_bytes(s.drop_last()) + i32_hash_bytes(s.last().race_id)
            + i32_hash_bytes(s.last().gender_id) + i32_hash_bytes(s.last().class_id)
    }
}

/// Everything that the version of a catalog depends on: all its contents,
/// in a fixed order, but not the version field itself.
pub open spec fn catalog_hash_bytes(c: CatalogView) -> Seq<u8> {
    options_hash_bytes(c.races) + options_hash_bytes(c.genders) + options_hash_bytes(
        c.skin_colors,
    ) + options_hash_bytes(c.classes) + pairs_hash_bytes(c.allowed_race_gender)
        + skin_triples_hash_bytes(c.allowed_race_gender_skin_color) + class_triples_hash_bytes(
        c.allowed_race_gender_class,
    )
}

/// The version of a catalog: the hexadecimal digest of its contents.
pub open spec fn catalog_version(c: CatalogView) -> Seq<char> {
    hex_text(default_hash(catalog_hash_bytes(c)) as nat)
}

fn push_options_hash_bytes(out: &mut Vec<u8>, s: &Vec<NamedOption>)
    ensures
        final(out)@ == old(out)@ + options_hash_bytes(option_views(s@)),
{
    let mut i: usize = 0;
    while i < s.len()
        invariant
            i <= s.len(),
            out@ == old(out)@ + options_hash_bytes(option_views(s@).take(i as int)),
        decreases s.len() - i,
    {
        let ghost before = out@;
        push_i32_hash_bytes(out, s[i].id);
        push_str_hash_bytes(out, s[i].name.as_str());
        proof {
            let t = option_views(s@).take(i + 1);
            assert(t.drop_last() =~= option_views(s@).take(i as int));
        }
        i = i + 1;
    }
    assert(option_views(s@).take(s.len() as int) =~= option_views(s@));
}

fn push_pairs_hash_bytes(out: &mut Vec<u8>, s: &Vec<RaceGenderAllowed>)
    ensures
        final(out)@ == old(out)@ + pairs_hash_bytes(s@),
{
    let mut i: usize = 0;
    while i < s.len()
        invariant
            i <= s.len(),
            out@ == old(out)@ + pairs_hash_bytes(s@.take(i as int)),
        decreases s.len() - i,
    {
        push_i32_hash_bytes(out, s[i].race_id);
        push_i32_hash_bytes(out, s[i].gender_id);
        assert(s@.take(i + 1).drop_last() =~= s@.take(i as int));
        i = i + 1;
    }
    assert(s@.take(s.len() as int) =~= s@);
}

fn push_skin_triples_hash_bytes(out: &mut Vec<u8>, s: &Vec<RaceGenderSkinColorAllowed>)
    ensures
        final(out)@ == old(out)@ + skin_triples_hash_bytes(s@),
{
    let mut i: usize = 0;
    while i < s.len()
        invariant
            i <= s.len(),
            out@ == old(out)@ + skin_triples_hash_bytes(s@.take(i as int)),
        decreases s.len() - i,
    {
        push_i32_hash_bytes(out, s[i].race_id);
        push_i32_hash_bytes(out, s[i].gender_id);
        push_i32_hash_bytes(out, s[i].skin_color_id);
        assert(s@.take(i + 1).drop_last() =~= s@.take(i as int));
        i = i + 1;
    }
    assert(s@.take(s.len() as int) =~= s@);
}

fn push_class_triples_hash_bytes(out: &mut Vec<u8>, s: &Vec<RaceGenderClassAllowed>)
    ensures
        final(out)@ == old(out)@ + class_triples_hash_bytes(s@),
{
    let mut i: usize = 0;
    while i < s.len()
        invariant
            i <= s.len(),
            out@ == old(out)@ + class_triples_hash_bytes(s@.take(i as int)),
        decreases s.len() - i,
    {
        push_i32_hash_bytes(out, s[i].race_id);
        push_i32_hash_bytes(out, s[i].gender_id);
        push_i32_hash_bytes(out, s[i].class_id);
        assert(s@.take(i + 1).drop_last() =~= s@.take(i as int));
        i = i + 1;
    }
    assert(s@.take(s.len() as int) =~= s@);
}

fn copy_options(s: &Vec<NamedOption>) -> (r: Vec<NamedOption>)
    ensures
        option_views(r@) == option_views(s@),
{
    let mut r: Vec<NamedOption> = Vec::new();
    let mut i: usize = 0;
    while i < s.len()
        invariant
            i <= s.len(),
            option_views(r@) == option_views(s@).take(i as int),
        decreases s.len() - i,
    {
        let ghost prev = r@;
        let item = NamedOption { id: s[i].id, name: s[i].name.clone() };
        assert(item@ == s@[i as int]@);
        r.push(item);
        assert(option_views(r@) =~= option_views(prev).push(item@));
        assert(option_views(r@) =~= option_views(s@).take(i + 1));
        i = i + 1;
    }
    assert(option_views(s@).take(s.len() as int) =~= option_views(s@));
    r
}

fn copy_vec<T: Copy>(s: &Vec<T>) -> (r: Vec<T>)
    ensures
        r@ == s@,
{
    let mut r: Vec<T> = Vec::new();
    let mut i: usize = 0;
    while i < s.len()
        invariant
            i <= s.len(),
            r@ == s@.take(i as int),
        decreases s.len() - i,
    {
        r.push(s[i]);
        assert(r@ =~= s@.take(i + 1));
        i = i + 1;
    }
    assert(s@.take(s.len() as int) =~= s@);
    r
}

impl CharacterCreationCatalog {
    /// A copy of this catalog.
    pub fn duplicate(&self) -> (r: CharacterCreationCatalog)
        ensures
            r@ == self@,
    {
        CharacterCreationCatalog {
            version: self.version.clone(),
            races: copy_options(&self.races),
            genders: copy_options(&self.genders),
            skin_colors: copy_options(&self.skin_colors),
            classes: copy_options(&self.classes),
            allowed_race_gender: copy_vec(&self.allowed_race_gender),
            allowed_race_gender_skin_color: copy_vec(&self.allowed_race_gender_skin_color),
            allowed_race_gender_class: copy_vec(&self.allowed_race_gender_class),
        }
    }
}

/// A catalog stored under its version.
struct CachedCatalog {
    version: String,
    catalog: CharacterCreationCatalog,
}

/// The cached character-creation catalog, shared by the catalog service and
/// the admin service. Admin mutations invalidate it.
pub struct CatalogCache {
    cached: Option<CachedCatalog>,
}

/// Abstract value of the cache: the version and the catalog, if cached.
pub type CacheView = Option<(Seq<char>, CatalogView)>;

impl View for CatalogCache {
    type V = CacheView;

    closed spec fn view(&self) -> CacheView {
        match &self.cached {
            Some(c) => Some((c.version@, c.catalog@)),
            None => None,
        }
    }
}

impl CatalogCache {
    /// The cache only ever holds a catalog under the digest of its contents,
    /// and the held catalog carries that same version.
    #[verifier::type_invariant]
    spec fn consistent(&self) -> bool {
        match &self.cached {
            Some(c) => c.version@ == catalog_version(c.catalog@) && c.catalog.version@
                == c.version@,
            None => true,
        }
    }

    /// An empty cache.
    pub fn cache() -> (r: CatalogCache)
        ensures
            r@ is None,
    {
        CatalogCache { cached: None }
    }

    /// Computes the version of a catalog from its contents.
    pub fn generate_version(catalog: &CharacterCreationCatalog) -> (r: String)
        ensures
            r@ == catalog_version(catalog@),
    {
        let mut bytes: Vec<u8> = Vec::new();
        push_options_hash_bytes(&mut bytes, &catalog.races);
        push_options_hash_bytes(&mut bytes, &catalog.genders);
        push_options_hash_bytes(&mut bytes, &catalog.skin_colors);
        push_options_hash_bytes(&mut bytes, &catalog.classes);
        push_pairs_hash_bytes(&mut bytes, &catalog.allowed_race_gender);
        push_skin_triples_hash_bytes(&mut bytes, &catalog.allowed_race_gender_skin_color);
        push_class_triples_hash_bytes(&mut bytes, &catalog.allowed_race_gender_class);
        assert(bytes@ =~= catalog_hash_bytes(catalog@));
        hex_digest(bytes.as_slice())
    }

    /// The cached catalog and its version, if any.
    pub fn get(&self) -> (r: Option<(String, CharacterCreationCatalog)>)
        ensures
            match r {
                Some((v, c)) => self@ == Some((v@, c@)) && v@ == catalog_version(c@) && c@.version
                    == v@,
                None => self@ is None,
            },
    {
        proof {
            use_type_invariant(self);
        }
        match &self.cached {
            Some(cached) => Some((cached.version.clone(), cached.catalog.duplicate())),
            None => None,
        }
    }

    /// Stores a catalog under the version of its contents, which is also
    /// written into the stored catalog, and returns that version.
    pub fn set(&mut self, catalog: CharacterCreationCatalog) -> (r: String)
        ensures
            r@ == catalog_version(catalog@),
            final(self)@ == Some((r@, with_version(catalog@, r@))),
    {
        let ghost old_catalog_view = catalog@;
        let mut catalog = catalog;
        let version = Self::generate_version(&catalog);
        catalog.version = version.clone();
        proof {
            lemma_version_ignores_version_field(catalog@, version@);
            assert(catalog@ == with_version(old_catalog_view, version@));
        }
        self.cached = Some(CachedCatalog { version: version.clone(), catalog });
        version
    }

    /// The version of the cached catalog, if any.
    pub fn current_version(&self) -> (r: Option<String>)
        ensures
            match r {
                Some(v) => self@ matches Some((cv, _)) && cv == v@,
                None => self@ is None,
            },
    {
        match &self.cached {
            Some(cached) => Some(cached.version.clone()),
            None => None,
        }
    }

    /// Drops the cached catalog.
    pub fn invalidate(&mut self)
        ensures
            final(self)@ is None,
    {
        self.cached = None;
    }
}

/// Law: the version of a catalog depends on its contents only, not on the
/// version it carries.
pub proof fn lemma_version_ignores_version_field(c: CatalogView, v: Seq<char>)
    ensures
        catalog_version(with_version(c, v)) == catalog_version(c),
{
    assert(catalog_hash_bytes(with_version(c, v)) == catalog_hash_bytes(c));
}

proof fn lemma_i32_hash_bytes_injective(a: i32, b: i32)
    requires
        i32_hash_bytes(a) == i32_hash_bytes(b),
    ensures
        a == b,
{
    let ua = a as u32;
    let ub = b as u32;
    assert(i32_hash_bytes(a)[0] == i32_hash_bytes(b)[0]);
    assert(i32_hash_bytes(a)[1] == i32_hash_bytes(b)[1]);
    assert(i32_hash_bytes(a)[2] == i32_hash_bytes(b)[2]);
    assert(i32_hash_bytes(a)[3] == i32_hash_bytes(b)[3]);
    lemma_u32_from_bytes(ua, ub);
    lemma_i32_as_u32(a, b);
}

proof fn lemma_u32_from_bytes(x: u32, y: u32)
    requires
        x % 256 == y % 256,
        (x / 256) % 256 == (y / 256) % 256,
        (x / 65536) % 256 == (y / 65536) % 256,
        (x / 16777216) % 256 == (y / 16777216) % 256,
    ensures
        x == y,
{
    assert(x == y) by (bit_vector)
        requires
            x % 256 == y % 256,
            (x / 256) % 256 == (y / 256) % 256,
            (x / 65536) % 256 == (y / 65536) % 256,
            (x / 16777216) % 256 == (y / 16777216) % 256,
    ;
}

proof fn lemma_i32_as_u32(a: i32, b: i32)
    requires
        a as u32 == b as u32,
    ensures
        a == b,
{
    assert(a == b) by (bit_vector)
        requires
            a as u32 == b as u32,
    ;
}

/// From `x + y == u + v` with `x` and `u` of one length, both halves agree.
proof fn lemma_concat_parts<A>(x: Seq<A>, y: Seq<A>, u: Seq<A>, v: Seq<A>)
    requires
        x + y == u + v,
        x.len() == u.len(),
    ensures
        x == u,
        y == v,
{
    assert(x =~= (x + y).subrange(0, x.len() as int));
    assert(u =~= (u + v).subrange(0, u.len() as int));
    assert(y =~= (x + y).subrange(x.len() as int, (x + y).len() as int));
    assert(v =~= (u + v).subrange(u.len() as int, (u + v).len() as int));
}

proof fn lemma_pairs_injective(s1: Seq<RaceGenderAllowed>, s2: Seq<RaceGenderAllowed>)
    requires
        pairs_hash_bytes(s1) == pairs_hash_bytes(s2),
    ensures
        s1 == s2,
    decreases s1.len() + s2.len(),
{
    lemma_pairs_len(s1);
    lemma_pairs_len(s2);
    if s1.len() > 0 {
        let a = s1.last();
        let b = s2.last();
        lemma_pairs_len(s1.drop_last());
        lemma_pairs_len(s2.drop_last());
        let t1 = i32_hash_bytes(a.race_id) + i32_hash_bytes(a.gender_id);
        let t2 = i32_hash_bytes(b.race_id) + i32_hash_bytes(b.gender_id);
        assert(pairs_hash_bytes(s1) == pairs_hash_bytes(s1.drop_last()) + t1);
        assert(pairs_hash_bytes(s2) == pairs_hash_bytes(s2.drop_last()) + t2);
        lemma_concat_parts(pairs_hash_bytes(s1.drop_last()), t1, pairs_hash_bytes(s2.drop_last()), t2);
        lemma_concat_parts(i32_hash_bytes(a.race_id), i32_hash_bytes(a.gender_id), i32_hash_bytes(b.race_id), i32_hash_bytes(b.gender_id));
        lemma_i32_hash_bytes_injective(a.race_id, b.race_id);
        lemma_i32_hash_bytes_injective(a.gender_id, b.gender_id);
        lemma_pairs_injective(s1.drop_last(), s2.drop_last());
        assert(s1 =~= s1.drop_last().push(a));
        assert(s2 =~= s2.drop_last().push(b));
    } else {
        assert(s1 =~= s2);
    }
}

proof fn lemma_pairs_len(s: Seq<RaceGenderAllowed>)
    ensures
        pairs_hash_bytes(s).len() == 8 * s.len(),
    decreases s.len(),
{
    if s.len() > 0 {
        lemma_pairs_len(s.drop_last());
    }
}

proof fn lemma_skin_triples_len(s: Seq<RaceGenderSkinColorAllowed>)
    ensures
        skin_triples_hash_bytes(s).len() == 12 * s.len(),
    decreases s.len(),
{
    if s.len() > 0 {
        lemma_skin_triples_len(s.drop_last());
    }
}

proof fn lemma_class_triples_len(s: Seq<RaceGenderClassAllowed>)
    ensures
        class_triples_hash_bytes(s).len() == 12 * s.len(),
    decreases s.len(),
{
    if s.len() > 0 {
        lemma_class_triples_len(s.drop_last());
    }
}

proof fn lemma_skin_triples_injective(s1: Seq<RaceGenderSkinColorAllowed>, s2: Seq<RaceGenderSkinColorAllowed>)
    requires
        skin_triples_hash_bytes(s1) == skin_triples_hash_bytes(s2),
    ensures
        s1 == s2,
    decreases s1.len() + s2.len(),
{
    lemma_skin_triples_len(s1);
    lemma_skin_triples_len(s2);
    if s1.len() > 0 {
        let a = s1.last();
        let b = s2.last();
        lemma_skin_triples_len(s1.drop_last());
        lemma_skin_triples_len(s2.drop_last());
        let t1 = i32_hash_bytes(a.race_id) + i32_hash_bytes(a.gender_id) + i32_hash_bytes(a.skin_color_id);
        let t2 = i32_hash_bytes(b.race_id) + i32_hash_bytes(b.gender_id) + i32_hash_bytes(b.skin_color_id);
        assert(skin_triples_hash_bytes(s1) =~= skin_triples_hash_bytes(s1.drop_last()) + t1);
        assert(skin_triples_hash_bytes(s2) =~= skin_triples_hash_bytes(s2.drop_last()) + t2);
        lemma_concat_parts(skin_triples_hash_bytes(s1.drop_last()), t1, skin_triples_hash_bytes(s2.drop_last()), t2);
        lemma_concat_parts(
            i32_hash_bytes(a.race_id) + i32_hash_bytes(a.gender_id),
            i32_hash_bytes(a.skin_color_id),
            i32_hash_bytes(b.race_id) + i32_hash_bytes(b.gender_id),
            i32_hash_bytes(b.skin_color_id),
        );
        lemma_concat_parts(i32_hash_bytes(a.race_id), i32_hash_bytes(a.gender_id), i32_hash_bytes(b.race_id), i32_hash_bytes(b.gender_id));
        lemma_i32_hash_bytes_injective(a.race_id, b.race_id);
        lemma_i32_hash_bytes_injective(a.gender_id, b.gender_id);
        lemma_i32_hash_bytes_injective(a.skin_color_id, b.skin_color_id);
        lemma_skin_triples_injective(s1.drop_last(), s2.drop_last());
        assert(s1 =~= s1.drop_last().push(a));
        assert(s2 =~= s2.drop_last().push(b));
    } else {
        assert(s1 =~= s2);
    }
}

proof fn lemma_class_triples_injective(s1: Seq<RaceGenderClassAllowed>, s2: Seq<RaceGenderClassAllowed>)
    requires
        class_triples_hash_bytes(s1) == class_triples_hash_bytes(s2),
    ensures
        s1 == s2,
    decreases s1.len() + s2.len(),
{
    lemma_class_triples_len(s1);
    lemma_class_triples_len(s2);
    if s1.len() > 0 {
        let a = s1.last();
        let b = s2.last();
        lemma_class_triples_len(s1.drop_last());
        lemma_class_triples_len(s2.drop_last());
        let t1 = i32_hash_bytes(a.race_id) + i32_hash_bytes(a.gender_id) + i32_hash_bytes(a.class_id);
        let t2 = i32_hash_bytes(b.race_id) + i32_hash_bytes(b.gender_id) + i32_hash_bytes(b.class_id);
        assert(class_triples_hash_bytes(s1) =~= class_triples_hash_bytes(s1.drop_last()) + t1);
        assert(class_triples_hash_bytes(s2) =~= class_triples_hash_bytes(s2.drop_last()) + t2);
        lemma_concat_parts(class_triples_hash_bytes(s1.drop_last()), t1, class_triples_hash_bytes(s2.drop_last()), t2);
        lemma_concat_parts(
            i32_hash_bytes(a.race_id) + i32_hash_bytes(a.gender_id),
            i32_hash_bytes(a.class_id),
            i32_hash_bytes(b.race_id) + i32_hash_bytes(b.gender_id),
            i32_hash_bytes(b.class_id),
        );
        lemma_concat_parts(i32_hash_bytes(a.race_id), i32_hash_bytes(a.gender_id), i32_hash_bytes(b.race_id), i32_hash_bytes(b.gender_id));
        lemma_i32_hash_bytes_injective(a.race_id, b.race_id);
        lemma_i32_hash_bytes_injective(a.gender_id, b.gender_id);
        lemma_i32_hash_bytes_injective(a.class_id, b.class_id);
        lemma_class_triples_injective(s1.drop_last(), s2.drop_last());
        assert(s1 =~= s1.drop_last().push(a));
        assert(s2 =~= s2.drop_last().push(b));
    } else {
        assert(s1 =~= s2);
    }
}

/// Whether two catalogs hold the same named options.
pub open spec fn same_options(c1: CatalogView, c2: CatalogView) -> bool {
    &&& c1.races == c2.races
    &&& c1.genders == c2.genders
    &&& c1.skin_colors == c2.skin_colors
    &&& c1.classes == c2.classes
}

/// Law: the bytes a catalog's version is the digest of see each list of
/// allowed combinations: two catalogs that differ in one such list only
/// (whatever their version fields) are hashed from different bytes, so a
/// change to the race-gender, race-gender-skin color or race-gender-class
/// combinations changes what the version digests.
pub proof fn lemma_hash_bytes_see_combinations(c1: CatalogView, c2: CatalogView)
    requires
        same_options(c1, c2),
        catalog_hash_bytes(c1) == catalog_hash_bytes(c2),
    ensures
        c1.allowed_race_gender == c2.allowed_race_gender && c1.allowed_race_gender_skin_color
            == c2.allowed_race_gender_skin_color ==> c1.allowed_race_gender_class
            == c2.allowed_race_gender_class,
        c1.allowed_race_gender == c2.allowed_race_gender && c1.allowed_race_gender_class
            == c2.allowed_race_gender_class ==> c1.allowed_race_gender_skin_color
            == c2.allowed_race_gender_skin_color,
        c1.allowed_race_gender_skin_color == c2.allowed_race_gender_skin_color
            && c1.allowed_race_gender_class == c2.allowed_race_gender_class ==> c1.allowed_race_gender
            == c2.allowed_race_gender,
{
    let o = options_hash_bytes(c1.races) + options_hash_bytes(c1.genders) + options_hash_bytes(
        c1.skin_colors,
    ) + options_hash_bytes(c1.classes);
    let p1 = pairs_hash_bytes(c1.allowed_race_gender);
    let p2 = pairs_hash_bytes(c2.allowed_race_gender);
    let k1 = skin_triples_hash_bytes(c1.allowed_race_gender_skin_color);
    let k2 = skin_triples_hash_bytes(c2.allowed_race_gender_skin_color);
    let l1 = class_triples_hash_bytes(c1.allowed_race_gender_class);
    let l2 = class_triples_hash_bytes(c2.allowed_race_gender_class);
    assert(catalog_hash_bytes(c1) =~= o + p1 + k1 + l1);
    assert(catalog_hash_bytes(c2) =~= o + p2 + k2 + l2);
    if c1.allowed_race_gender == c2.allowed_race_gender && c1.allowed_race_gender_skin_color
        == c2.allowed_race_gender_skin_color {
        lemma_concat_parts(o + p1 + k1, l1, o + p2 + k2, l2);
        lemma_class_triples_injective(c1.allowed_race_gender_class, c2.allowed_race_gender_class);
    }
    if c1.allowed_race_gender == c2.allowed_race_gender && c1.allowed_race_gender_class
        == c2.allowed_race_gender_class {
        lemma_skin_triples_len(c1.allowed_race_gender_skin_color);
        lemma_skin_triples_len(c2.allowed_race_gender_skin_color);
        assert(o + p1 + k1 + l1 =~= (o + p1) + (k1 + l1));
        assert(o + p2 + k2 + l2 =~= (o + p2) + (k2 + l2));
        lemma_concat_parts(o + p1, k1 + l1, o + p2, k2 + l2);
        assert(k1.len() == k2.len()) by {
            assert((k1 + l1).len() == (k2 + l2).len());
        }
        lemma_concat_parts(k1, l1, k2, l2);
        lemma_skin_triples_injective(c1.allowed_race_gender_skin_color, c2.allowed_race_gender_skin_color);
    }
    if c1.allowed_race_gender_skin_color == c2.allowed_race_gender_skin_color
        && c1.allowed_race_gender_class == c2.allowed_race_gender_class {
        assert(o + p1 + k1 + l1 =~= o + (p1 + (k1 + l1)));
        assert(o + p2 + k2 + l2 =~= o + (p2 + (k2 + l2)));
        lemma_concat_parts(o, p1 + (k1 + l1), o, p2 + (k2 + l2));
        assert(p1.len() == p2.len()) by {
            assert((p1 + (k1 + l1)).len() == (p2 + (k2 + l2)).len());
        }
        lemma_concat_parts(p1, k1 + l1, p2, k2 + l2);
        lemma_pairs_injective(c1.allowed_race_gender, c2.allowed_race_gender);
    }
}

} // verus!
