//! Bearer-token authentication: extraction of the token from a request
//! header, the local expiration check, the cache of validation verdicts and
//! the claims that a valid token yields.
//!
//! The identity provider is asked by the caller (an HTTP introspection
//! request); this module decides what to do before and after that request.
use vstd::prelude::*;
use crate::digest::{hex_digest, push_str_hash_bytes, default_hash, str_hash_bytes};
use crate::env_config::{EnvConfig, EnvLookup, LookupView};
use crate::text::{split_at_char, split_char, append_str, views, opt_string_view, string_views, chars_eq_str, chars_of, contains, has_prefix, hex_text, slice_range, starts_with, string_from_chars};

verus! {

/// The identity of an authenticated user.
#[derive(Debug)]
pub struct UserClaims {
    pub email: String,
    pub roles: Vec<String>,
    pub sub: String,
}

/// Whether a role list holds the role.
pub open spec fn holds_role(roles: Seq<String>, role: Seq<char>) -> bool {
    exists|i: int| 0 <= i < roles.len() && roles[i]@ == role
}

impl UserClaims {
    /// Whether the user has the given role.
    pub fn has_role(&self, role: &str) -> (r: bool)
        ensures
            r == holds_role(self.roles@, role@),
    {
        let mut i: usize = 0;
        while i < self.roles.len()
            invariant
                i <= self.roles.len(),
                forall|j: int| 0 <= j < i ==> self.roles@[j]@ != role@,
            decreases self.roles.len() - i,
        {
            let c = chars_of(self.roles[i].as_str());
            if chars_eq_str(c.as_slice(), role) {
                return true;
            }
            i = i + 1;
        }
        false
    }

    /// Whether the user has the `admin` role.
    pub fn is_admin(&self) -> (r: bool)
        ensures
            r == holds_role(self.roles@, "admin"@),
    {
        self.has_role("admin")
    }
}

/// The token of an `Authorization` header value of the form `Bearer <token>`.
pub open spec fn bearer_token(header: Seq<char>) -> Option<Seq<char>> {
    if has_prefix(header, "Bearer "@) {
        Some(header.subrange(7, header.len() as int))
    } else {
        None
    }
}

/// The bearer token of an `Authorization` header, if the header is present
/// and has that form.
pub fn extract_bearer_token(header: Option<&str>) -> (r: Option<String>)
    ensures
        match header {
            None => r is None,
            Some(h) => match r {
                Some(t) => bearer_token(h@) == Some(t@),
                None => bearer_token(h@) is None,
            },
        },
{
    match header {
        None => None,
        Some(h) => {
            let c = chars_of(h);
            let prefix = chars_of("Bearer ");
            if starts_with(c.as_slice(), prefix.as_slice()) {
                proof {
                    reveal_strlit("Bearer ");
                }
                Some(string_from_chars(slice_range(c.as_slice(), 7, c.len()).as_slice()))
            } else {
                None
            }
        },
    }
}

/// A remembered validation verdict.
#[derive(Debug)]
pub struct CachedTokenValidation {
    pub is_valid: bool,
    pub email: Option<String>,
    pub roles: Option<Vec<String>>,
    pub sub: Option<String>,
    /// When the verdict was reached, in nanoseconds of a monotonic clock.
    pub cached_at_ns: u128,
}

/// Abstract value of a remembered verdict.
pub struct CachedView {
    pub is_valid: bool,
    pub email: Option<Seq<char>>,
    pub roles: Option<Seq<Seq<char>>>,
    pub sub: Option<Seq<char>>,
    pub cached_at_ns: u128,
}

pub open spec fn opt_roles_view(o: Option<Vec<String>>) -> Option<Seq<Seq<char>>> {
    match o {
        Some(v) => Some(string_views(v@)),
        None => None,
    }
}

impl View for CachedTokenValidation {
    type V = CachedView;

    open spec fn view(&self) -> CachedView {
        CachedView {
            is_valid: self.is_valid,
            email: opt_string_view(self.email),
            roles: opt_roles_view(self.roles),
            sub: opt_string_view(self.sub),
            cached_at_ns: self.cached_at_ns,
        }
    }
}

/// How long an invalid verdict is remembered: one minute.
pub const INVALID_CACHE_TTL_SECONDS: u64 = 60;

/// Nanoseconds per second.
pub const NANOS_PER_SECOND: u128 = 1_000_000_000;

/// How long a verdict is remembered, in nanoseconds: the configured
/// time for valid tokens, one minute for invalid ones.
pub open spec fn verdict_ttl_ns(is_valid: bool, valid_ttl_seconds: u64) -> nat {
    if is_valid {
        valid_ttl_seconds as nat * NANOS_PER_SECOND as nat
    } else {
        INVALID_CACHE_TTL_SECONDS as nat * NANOS_PER_SECOND as nat
    }
}

/// Time elapsed since `then`, as a monotonic clock measures it: never
/// negative.
pub open spec fn elapsed_ns(then: u128, now: u128) -> nat {
    if now >= then {
        (now - then) as nat
    } else {
        0
    }
}

/// Whether a remembered verdict is still in force at `now`.
pub open spec fn is_fresh(v: CachedView, now: u128, valid_ttl_seconds: u64) -> bool {
    elapsed_ns(v.cached_at_ns, now) < verdict_ttl_ns(v.is_valid, valid_ttl_seconds)
}

/// Cache key of a token: the hexadecimal digest of the token text.
pub open spec fn token_hash(token: Seq<char>) -> Seq<char> {
    hex_text(default_hash(str_hash_bytes(token)) as nat)
}

struct TokenCacheEntry {
    key: String,
    value: CachedTokenValidation,
}

/// Validates bearer tokens; remembers its verdicts by token digest.
pub struct JwtValidatorService {
    entries: Vec<TokenCacheEntry>,
}

fn copy_strings(v: &Vec<String>) -> (r: Vec<String>)
    ensures
        string_views(r@) == string_views(v@),
{
    let mut r: Vec<String> = Vec::new();
    let mut i: usize = 0;
    while i < v.len()
        invariant
            i <= v.len(),
            string_views(r@) == string_views(v@).take(i as int),
        decreases v.len() - i,
    {
        let ghost prev = r@;
        let s = v[i].clone();
        r.push(s);
        assert(string_views(r@) =~= string_views(prev).push(s@));
        assert(string_views(r@) =~= string_views(v@).take(i + 1));
        i = i + 1;
    }
    assert(string_views(v@).take(v.len() as int) =~= string_views(v@));
    r
}

fn copy_opt_string(o: &Option<String>) -> (r: Option<String>)
    ensures
        opt_string_view(r) == opt_string_view(*o),
{
    match o {
        Some(s) => Some(s.clone()),
        None => None,
    }
}

impl CachedTokenValidation {
    /// A copy of this verdict.
    pub fn duplicate(&self) -> (r: CachedTokenValidation)
        ensures
            r@ == self@,
    {
        CachedTokenValidation {
            is_valid: self.is_valid,
            email: copy_opt_string(&self.email),
            roles: match &self.roles {
                Some(v) => Some(copy_strings(v)),
                None => None,
            },
            sub: copy_opt_string(&self.sub),
            cached_at_ns: self.cached_at_ns,
        }
    }
}

/// Where validating a token stands after its first step.
#[derive(Debug)]
pub enum ValidationStep {
    /// The token's validity is settled.
    Decided(bool),
    /// The identity provider must be asked, here; its answer is then
    /// remembered with `record_introspection`.
    Introspect(IntrospectionTarget),
}

/// What the identity provider said about a token.
pub enum IntrospectionOutcome {
    /// The token is active, with these claims.
    Active { email: Option<String>, roles: Option<Vec<String>>, sub: Option<String> },
    /// The token is not active.
    Inactive,
    /// The provider could not be asked or its answer could not be read.
    Failed,
}

/// How a cached verdict decides a request for the claims of a token.
pub enum ClaimsFromCache {
    /// The claims are known.
    Claims(UserClaims),
    /// The token is known to be invalid.
    Rejected,
    /// The cache does not settle the request: the token must be validated.
    Undecided,
}

/// Whether a verdict carries all three claims.
pub open spec fn has_full_claims(v: CachedView) -> bool {
    v.email is Some && v.roles is Some && v.sub is Some
}

impl JwtValidatorService {
    /// Well-formed: no token digest is remembered twice.
    pub closed spec fn wf(&self) -> bool {
        forall|i: int, j: int|
            0 <= i < j < self.entries.len() ==> self.entries@[i].key@ != self.entries@[j].key@
    }

    /// The remembered verdicts, by token digest.
    pub closed spec fn cache_view(&self) -> Map<Seq<char>, CachedView> {
        Map::new(
            |k: Seq<char>| exists|i: int| 0 <= i < self.entries.len() && self.entries@[i].key@ == k,
            |k: Seq<char>|
                self.entries@[choose|i: int|
                    0 <= i < self.entries.len() && self.entries@[i].key@ == k].value@,
        )
    }

    /// A validator that remembers nothing yet.
    pub fn token_cache() -> (r: JwtValidatorService)
        ensures
            r.wf(),
            r.cache_view() == Map::<Seq<char>, CachedView>::empty(),
    {
        let r = JwtValidatorService { entries: Vec::new() };
        assert(r.cache_view() =~= Map::<Seq<char>, CachedView>::empty());
        r
    }

    /// How long a valid verdict is remembered, in nanoseconds.
    pub fn valid_cache_ttl(valid_ttl_seconds: u64) -> (r: u128)
        ensures
            r == verdict_ttl_ns(true, valid_ttl_seconds),
    {
        valid_ttl_seconds as u128 * NANOS_PER_SECOND
    }

    /// How long an invalid verdict is remembered, in nanoseconds.
    pub fn invalid_cache_ttl() -> (r: u128)
        ensures
            r == verdict_ttl_ns(false, 0),
    {
        INVALID_CACHE_TTL_SECONDS as u128 * NANOS_PER_SECOND
    }

    /// The cache key of a token.
    pub fn compute_token_hash(token: &str) -> (r: String)
        ensures
            r@ == token_hash(token@),
    {
        let mut bytes: Vec<u8> = Vec::new();
        push_str_hash_bytes(&mut bytes, token);
        assert(bytes@ =~= str_hash_bytes(token@));
        hex_digest(bytes.as_slice())
    }

    fn position_of(&self, key: &str) -> (r: Option<usize>)
        requires
            self.wf(),
        ensures
            match r {
                Some(i) => i < self.entries.len() && self.entries@[i as int].key@ == key@,
                None => !self.cache_view().contains_key(key@),
            },
    {
        let mut i: usize = 0;
        while i < self.entries.len()
            invariant
                i <= self.entries.len(),
                forall|j: int| 0 <= j < i ==> self.entries@[j].key@ != key@,
            decreases self.entries.len() - i,
        {
            let c = chars_of(self.entries[i].key.as_str());
            if chars_eq_str(c.as_slice(), key) {
                return Some(i);
            }
            i = i + 1;
        }
        None
    }

    proof fn lemma_lookup(&self, i: int)
        requires
            self.wf(),
            0 <= i < self.entries.len(),
        ensures
            self.cache_view().contains_key(self.entries@[i].key@),
            self.cache_view()[self.entries@[i].key@] == self.entries@[i].value@,
    {
        let k = self.entries@[i].key@;
        let j = choose|j: int| 0 <= j < self.entries.len() && self.entries@[j].key@ == k;
        assert(j == i);
    }

    /// The remembered verdict for a token digest, if it is still in force at
    /// `now` (valid verdicts for `valid_ttl_seconds`, invalid ones for a
    /// minute).
    pub fn get_cached_validation(&self, token_hash: &str, now_ns: u128, valid_ttl_seconds: u64) -> (r:
        Option<CachedTokenValidation>)
        requires
            self.wf(),
        ensures
            match r {
                Some(v) => cached_lookup(self.cache_view(), token_hash@, now_ns, valid_ttl_seconds)
                    == Some(v@),
                None => cached_lookup(self.cache_view(), token_hash@, now_ns, valid_ttl_seconds)
                    is None,
            },
    {
        match self.position_of(token_hash) {
            None => None,
            Some(i) => {
                proof {
                    self.lemma_lookup(i as int);
                }
                let entry = &self.entries[i].value;
                let ttl = if entry.is_valid {
                    Self::valid_cache_ttl(valid_ttl_seconds)
                } else {
                    Self::invalid_cache_ttl()
                };
                let elapsed = if now_ns >= entry.cached_at_ns {
                    now_ns - entry.cached_at_ns
                } else {
                    0
                };
                if elapsed < ttl {
                    Some(entry.duplicate())
                } else {
                    None
                }
            },
        }
    }

    /// Remembers a verdict for a token digest, replacing any earlier one.
    pub fn set_cached_validation(
        &mut self,
        token_hash: String,
        is_valid: bool,
        email: Option<String>,
        roles: Option<Vec<String>>,
        sub: Option<String>,
        now_ns: u128,
    )
        requires
            old(self).wf(),
        ensures
            final(self).wf(),
            final(self).cache_view() == old(self).cache_view().insert(
                token_hash@,
                CachedView {
                    is_valid,
                    email: opt_string_view(email),
                    roles: opt_roles_view(roles),
                    sub: opt_string_view(sub),
                    cached_at_ns: now_ns,
                },
            ),
    {
        let value = CachedTokenValidation { is_valid, email, roles, sub, cached_at_ns: now_ns };
        let ghost vv = value@;
        let ghost old_map = self.cache_view();
        match self.position_of(token_hash.as_str()) {
            Some(i) => {
                let ghost old_entries = self.entries@;
                self.entries.set(i, TokenCacheEntry { key: token_hash, value });
                proof {
                    assert forall|a: int, b: int|
                        0 <= a < b < self.entries.len() implies self.entries@[a].key@
                        != self.entries@[b].key@ by {
                        assert(old_entries[a].key@ != old_entries[b].key@);
                    }
                    assert forall|k: Seq<char>|
                        #![auto]
                        self.cache_view().contains_key(k) == old_map.insert(
                            self.entries@[i as int].key@,
                            vv,
                        ).contains_key(k) by {
                        if self.cache_view().contains_key(k) {
                            let j = choose|j: int|
                                0 <= j < self.entries.len() && self.entries@[j].key@ == k;
                            if j != i {
                                assert(old_entries[j].key@ == k);
                            }
                        }
                        if old_map.contains_key(k) {
                            let j = choose|j: int|
                                0 <= j < old_entries.len() && old_entries[j].key@ == k;
                            if j != i {
                                assert(self.entries@[j].key@ == k);
                            }
                        }
                    }
                    assert forall|k: Seq<char>| #[trigger]
                        self.cache_view().contains_key(k) implies self.cache_view()[k]
                        == old_map.insert(self.entries@[i as int].key@, vv)[k] by {
                        let j = choose|j: int|
                            0 <= j < self.entries.len() && self.entries@[j].key@ == k;
                        self.lemma_lookup(j);
                        if j != i {
                            assert(old_entries[j].key@ == k);
                            assert(old_map[k] == old_entries[j].value@) by {
                                let jj = choose|jj: int|
                                    0 <= jj < old_entries.len() && old_entries[jj].key@ == k;
                                assert(jj == j);
                            }
                        }
                    }
                    assert(self.cache_view() =~= old_map.insert(token_hash@, vv));
                }
            },
            None => {
                let ghost old_entries = self.entries@;
                self.entries.push(TokenCacheEntry { key: token_hash, value });
                proof {
                    let n = old_entries.len() as int;
                    assert forall|a: int, b: int|
                        0 <= a < b < self.entries.len() implies self.entries@[a].key@
                        != self.entries@[b].key@ by {
                        if b == n {
                            assert(old_map.contains_key(old_entries[a].key@));
                        } else {
                            assert(old_entries[a].key@ != old_entries[b].key@);
                        }
                    }
                    assert forall|k: Seq<char>|
                        #![auto]
                        self.cache_view().contains_key(k) == old_map.insert(
                            self.entries@[n].key@,
                            vv,
                        ).contains_key(k) by {
                        if self.cache_view().contains_key(k) {
                            let j = choose|j: int|
                                0 <= j < self.entries.len() && self.entries@[j].key@ == k;
                            if j != n {
                                assert(old_entries[j].key@ == k);
                            }
                        }
                        if old_map.contains_key(k) {
                            let j = choose|j: int|
                                0 <= j < old_entries.len() && old_entries[j].key@ == k;
                            assert(self.entries@[j].key@ == k);
                        }
                    }
                    assert forall|k: Seq<char>| #[trigger]
                        self.cache_view().contains_key(k) implies self.cache_view()[k]
                        == old_map.insert(self.entries@[n].key@, vv)[k] by {
                        let j = choose|j: int|
                            0 <= j < self.entries.len() && self.entries@[j].key@ == k;
                        self.lemma_lookup(j);
                        if j != n {
                            assert(old_entries[j].key@ == k);
                            assert(old_map[k] == old_entries[j].value@) by {
                                let jj = choose|jj: int|
                                    0 <= jj < old_entries.len() && old_entries[jj].key@ == k;
                                assert(jj == j);
                            }
                        }
                    }
                    assert(self.cache_view() =~= old_map.insert(token_hash@, vv));
                }
            },
        }
    }

    /// The decision that a cached verdict gives, before any validation: a
    /// remembered invalid verdict rejects, a remembered valid verdict with all
    /// claims answers, anything else leaves the request undecided.
    pub fn claims_from_cache(cached: Option<CachedTokenValidation>) -> (r: ClaimsFromCache)
        ensures
            match cached {
                None => r is Undecided,
                Some(c) => if !c.is_valid {
                    r is Rejected
                } else if has_full_claims(c@) {
                    r matches ClaimsFromCache::Claims(u) && Some(u.email@) == c@.email && Some(
                        string_views(u.roles@),
                    ) == c@.roles && Some(u.sub@) == c@.sub
                } else {
                    r is Undecided
                },
            },
    {
        match cached {
            None => ClaimsFromCache::Undecided,
            Some(c) => {
                if !c.is_valid {
                    ClaimsFromCache::Rejected
                } else {
                    match (c.email, c.roles, c.sub) {
                        (Some(email), Some(roles), Some(sub)) => ClaimsFromCache::Claims(
                            UserClaims { email, roles, sub },
                        ),
                        _ => ClaimsFromCache::Undecided,
                    }
                }
            },
        }
    }

    /// The claims of a verdict found after validation: the claims if all
    /// three are known, otherwise none.
    pub fn claims_after_validation(cached: Option<CachedTokenValidation>) -> (r: Option<UserClaims>)
        ensures
            match cached {
                Some(c) if has_full_claims(c@) => r matches Some(u) && Some(u.email@) == c@.email
                    && Some(string_views(u.roles@)) == c@.roles && Some(u.sub@) == c@.sub,
                _ => r is None,
            },
    {
        match cached {
            Some(c) => match (c.email, c.roles, c.sub) {
                (Some(email), Some(roles), Some(sub)) => Some(UserClaims { email, roles, sub }),
                _ => None,
            },
            None => None,
        }
    }

    /// The first step of validating a token: a fresh cached verdict decides;
    /// otherwise an expired token (or one whose expiry cannot be read, `exp`
    /// none) is invalid and that verdict is remembered; otherwise the token
    /// is sent to the identity provider, unless no provider is configured,
    /// in which case it is invalid and nothing is remembered.
    pub fn begin_validation(
        &mut self,
        token_hash: String,
        now_ns: u128,
        valid_ttl_seconds: u64,
        exp: Option<i64>,
        now_secs: i64,
        keycloak_url: EnvLookup,
        client_id: EnvLookup,
        client_secret: EnvLookup,
    ) -> (r: ValidationStep)
        requires
            old(self).wf(),
        ensures
            final(self).wf(),
            match cached_lookup(old(self).cache_view(), token_hash@, now_ns, valid_ttl_seconds) {
                Some(v) => r matches ValidationStep::Decided(b) && b == v.is_valid && final(self).cache_view()
                    == old(self).cache_view(),
                None => if !unexpired(exp, now_secs) {
                    &&& r matches ValidationStep::Decided(b) && !b
                    &&& final(self).cache_view() == old(self).cache_view().insert(
                        token_hash@,
                        CachedView {
                            is_valid: false,
                            email: None,
                            roles: None,
                            sub: None,
                            cached_at_ns: now_ns,
                        },
                    )
                } else {
                    &&& final(self).cache_view() == old(self).cache_view()
                    &&& match keycloak_url@ {
                        LookupView::Present(u) => r matches ValidationStep::Introspect(t) && t.url@ == u
                            + INTROSPECTION_PATH@ && t.client_id@ == setting_or(
                            client_id@,
                            DEFAULT_INTROSPECTION_CLIENT_ID@,
                        ) && t.client_secret@ == setting_or(
                            client_secret@,
                            DEFAULT_INTROSPECTION_CLIENT_SECRET@,
                        ),
                        _ => r matches ValidationStep::Decided(b) && !b,
                    }
                },
            },
    {
        match self.get_cached_validation(token_hash.as_str(), now_ns, valid_ttl_seconds) {
            Some(v) => ValidationStep::Decided(v.is_valid),
            None => {
                if !Self::check_token_expiration(exp, now_secs) {
                    self.record_expired(token_hash, now_ns);
                    ValidationStep::Decided(false)
                } else {
                    match Self::introspection_target(keycloak_url, client_id, client_secret) {
                        Some(t) => ValidationStep::Introspect(t),
                        None => ValidationStep::Decided(false),
                    }
                }
            },
        }
    }

    /// Remembers that a token failed the local expiration check.
    pub fn record_expired(&mut self, token_hash: String, now_ns: u128)
        requires
            old(self).wf(),
        ensures
            final(self).wf(),
            final(self).cache_view() == old(self).cache_view().insert(
                token_hash@,
                CachedView {
                    is_valid: false,
                    email: None,
                    roles: None,
                    sub: None,
                    cached_at_ns: now_ns,
                },
            ),
    {
        self.set_cached_validation(token_hash, false, None, None, None, now_ns);
    }

    /// Remembers the identity provider's answer about a token; the token is
    /// valid if and only if the provider reports it active.
    pub fn record_introspection(&mut self, token_hash: String, outcome: IntrospectionOutcome, now_ns: u128) -> (r: bool)
        requires
            old(self).wf(),
        ensures
            final(self).wf(),
            r == (outcome is Active),
            match outcome {
                IntrospectionOutcome::Active { email, roles, sub } => final(self).cache_view()
                    == old(self).cache_view().insert(
                    token_hash@,
                    CachedView {
                        is_valid: true,
                        email: opt_string_view(email),
                        roles: opt_roles_view(roles),
                        sub: opt_string_view(sub),
                        cached_at_ns: now_ns,
                    },
                ),
                _ => final(self).cache_view() == old(self).cache_view().insert(
                    token_hash@,
                    CachedView {
                        is_valid: false,
                        email: None,
                        roles: None,
                        sub: None,
                        cached_at_ns: now_ns,
                    },
                ),
            },
    {
        match outcome {
            IntrospectionOutcome::Active { email, roles, sub } => {
                self.set_cached_validation(token_hash, true, email, roles, sub, now_ns);
                true
            },
            _ => {
                self.set_cached_validation(token_hash, false, None, None, None, now_ns);
                false
            },
        }
    }
}

/// The answer to an admin request, given the claims that validation yielded:
/// no claims means an invalid or expired token, claims without the `admin`
/// role are refused.
pub fn require_admin(claims: Option<UserClaims>) -> (r: Result<UserClaims, String>)
    ensures
        match claims {
            None => r matches Err(m) && m@ == "Invalid or expired token"@,
            Some(c) => if holds_role(c.roles@, "admin"@) {
                r matches Ok(u) && u == c
            } else {
                r matches Err(m) && m@ == "Admin role required"@
            },
        },
{
    match claims {
        None => Err(crate::text::to_owned_string("Invalid or expired token")),
        Some(c) => {
            if !c.is_admin() {
                return Err(crate::text::to_owned_string("Admin role required"));
            }
            Ok(c)
        },
    }
}

/// The verdict that a lookup at `now` finds for a token digest: the
/// remembered one while it is in force, none otherwise.
pub open spec fn cached_lookup(
    cache: Map<Seq<char>, CachedView>,
    key: Seq<char>,
    now: u128,
    valid_ttl_seconds: u64,
) -> Option<CachedView> {
    if cache.contains_key(key) && is_fresh(cache[key], now, valid_ttl_seconds) {
        Some(cache[key])
    } else {
        None
    }
}

/// Law: a lookup right after remembering a verdict finds that verdict for
/// as long as it is in force (a minute for an invalid one, the configured
/// time for a valid one) and nothing after; verdicts for other digests are
/// left as they were.
pub proof fn lemma_remembered_verdict(
    cache: Map<Seq<char>, CachedView>,
    key: Seq<char>,
    other: Seq<char>,
    v: CachedView,
    now: u128,
    valid_ttl_seconds: u64,
)
    requires
        other != key,
    ensures
        cached_lookup(cache.insert(key, v), key, now, valid_ttl_seconds) == (if elapsed_ns(
            v.cached_at_ns,
            now,
        ) < verdict_ttl_ns(v.is_valid, valid_ttl_seconds) {
            Some(v)
        } else {
            None
        }),
        !v.is_valid ==> (cached_lookup(cache.insert(key, v), key, now, valid_ttl_seconds) is Some
            <==> elapsed_ns(v.cached_at_ns, now) < 60 * 1_000_000_000),
        cached_lookup(cache.insert(key, v), other, now, valid_ttl_seconds) == cached_lookup(
            cache,
            other,
            now,
            valid_ttl_seconds,
        ),
{
}

/// What `URL_SAFE_NO_PAD.decode` of the base64 crate gives for a text:
/// the decoded bytes, or none when the text is not unpadded URL-safe
/// base64.
pub uninterp spec fn url_safe_no_pad_decode(text: Seq<char>) -> Option<Seq<u8>>;

/// Calls `Engine::decode` of the base64 crate on its `URL_SAFE_NO_PAD`
/// engine. The contract only names the result (`url_safe_no_pad_decode`);
/// a decoding error becomes `None`.
#[verifier::external_body]
fn decode_url_safe_no_pad(text: &str) -> (r: Option<Vec<u8>>)
    ensures
        match r {
            Some(b) => url_safe_no_pad_decode(text@) == Some(b@),
            None => url_safe_no_pad_decode(text@) is None,
        },
{
    base64::Engine::decode(&base64::engine::general_purpose::URL_SAFE_NO_PAD, text).ok()
}

/// The decoded claims segment of a token: a token is three segments joined
/// by dots, the middle one holding the claims in unpadded URL-safe base64.
pub open spec fn token_claims_bytes(token: Seq<char>) -> Option<Seq<u8>> {
    let parts = split_char(token, '.');
    if parts.len() == 3 {
        url_safe_no_pad_decode(parts[1])
    } else {
        None
    }
}

/// Whether a token passes the local expiration check, given the `exp`
/// claim read from its payload and the current time in seconds: a token
/// without `exp` fails, and one whose `exp` lies before now has expired.
pub open spec fn unexpired(exp: Option<i64>, now_secs: i64) -> bool {
    match exp {
        Some(e) => e >= now_secs,
        None => false,
    }
}

/// Path of the token introspection endpoint below the identity provider's
/// realm URL.
pub const INTROSPECTION_PATH: &'static str = "/protocol/openid-connect/token/introspect";

/// Client id used for introspection when none is configured.
pub const DEFAULT_INTROSPECTION_CLIENT_ID: &'static str = "idklol-chat";

/// Client secret used for introspection when none is configured.
pub const DEFAULT_INTROSPECTION_CLIENT_SECRET: &'static str = "your-client-secret";

/// Where and as whom to ask the identity provider about a token.
#[derive(Debug)]
pub struct IntrospectionTarget {
    pub url: String,
    pub client_id: String,
    pub client_secret: String,
}

/// An optional setting's value, or the default when it is unset or cannot
/// be read.
pub open spec fn setting_or(lookup: LookupView, default: Seq<char>) -> Seq<char> {
    match lookup {
        LookupView::Present(v) => v,
        _ => default,
    }
}

/// How a cached verdict decides a request for the email of a token.
#[derive(Debug)]
pub enum EmailFromCache {
    /// The token is valid; its email claim, if it had one.
    Email(Option<String>),
    /// The token is known to be invalid.
    Rejected,
    /// The cache does not settle the request: the token must be validated.
    Undecided,
}

impl JwtValidatorService {
    /// The decoded claims segment of a token, if the token has three
    /// segments and the middle one decodes.
    pub fn token_payload(token: &str) -> (r: Option<Vec<u8>>)
        ensures
            match r {
                Some(b) => token_claims_bytes(token@) == Some(b@),
                None => token_claims_bytes(token@) is None,
            },
    {
        let c = chars_of(token);
        let parts = split_at_char(c.as_slice(), '.');
        if parts.len() != 3 {
            return None;
        }
        let segment = string_from_chars(parts[1].as_slice());
        assert(segment@ == views(parts@)[1]);
        decode_url_safe_no_pad(segment.as_str())
    }

    /// The local expiration check on the `exp` claim (see `unexpired`).
    pub fn check_token_expiration(exp: Option<i64>, now_secs: i64) -> (r: bool)
        ensures
            r == unexpired(exp, now_secs),
    {
        match exp {
            Some(e) => !(e < now_secs),
            None => false,
        }
    }

    /// Where to introspect tokens, from the `KEYCLOAK_URL`,
    /// `KEYCLOAK_CLIENT_ID` and `KEYCLOAK_CLIENT_SECRET` settings: none
    /// when the URL is missing or unreadable; the client id and secret fall
    /// back to their defaults.
    pub fn introspection_target(
        keycloak_url: EnvLookup,
        client_id: EnvLookup,
        client_secret: EnvLookup,
    ) -> (r: Option<IntrospectionTarget>)
        ensures
            match keycloak_url@ {
                LookupView::Present(u) => r matches Some(t) && t.url@ == u + INTROSPECTION_PATH@
                    && t.client_id@ == setting_or(client_id@, DEFAULT_INTROSPECTION_CLIENT_ID@)
                    && t.client_secret@ == setting_or(
                    client_secret@,
                    DEFAULT_INTROSPECTION_CLIENT_SECRET@,
                ),
                _ => r is None,
            },
    {
        let url = match EnvConfig::get_required("KEYCLOAK_URL", keycloak_url) {
            Ok(u) => u,
            Err(_) => {
                return None;
            },
        };
        let id = match EnvConfig::get_optional("KEYCLOAK_CLIENT_ID", client_id) {
            Ok(Some(v)) => v,
            _ => crate::text::to_owned_string(DEFAULT_INTROSPECTION_CLIENT_ID),
        };
        let secret = match EnvConfig::get_optional("KEYCLOAK_CLIENT_SECRET", client_secret) {
            Ok(Some(v)) => v,
            _ => crate::text::to_owned_string(DEFAULT_INTROSPECTION_CLIENT_SECRET),
        };
        let mut full = chars_of(url.as_str());
        append_str(&mut full, INTROSPECTION_PATH);
        Some(IntrospectionTarget { url: string_from_chars(full.as_slice()), client_id: id, client_secret: secret })
    }

    /// The decision a cached verdict gives for an email request: a valid
    /// verdict answers with its email claim, an invalid one rejects, no
    /// verdict leaves the request undecided.
    pub fn email_from_cache(cached: Option<CachedTokenValidation>) -> (r: EmailFromCache)
        ensures
            match cached {
                None => r is Undecided,
                Some(c) => if c.is_valid {
                    r matches EmailFromCache::Email(e) && opt_string_view(e) == c@.email
                } else {
                    r is Rejected
                },
            },
    {
        match cached {
            None => EmailFromCache::Undecided,
            Some(c) => {
                if c.is_valid {
                    EmailFromCache::Email(c.email)
                } else {
                    EmailFromCache::Rejected
                }
            },
        }
    }
}

/// The login service.
#[derive(Debug)]
pub struct MyAuthService {}

impl MyAuthService {
    /// The greeting a successful login answers with: `Hello <username>!`.
    pub fn login(&self, username: &str) -> (r: String)
        ensures
            r@ == "Hello "@ + username@ + "!"@,
    {
        let mut v: Vec<char> = Vec::new();
        append_str(&mut v, "Hello ");
        append_str(&mut v, username);
        append_str(&mut v, "!");
        string_from_chars(v.as_slice())
    }
}

} // verus!
