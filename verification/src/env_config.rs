//! Typed access to configuration values taken from the process environment.
//!
//! Reading the environment is the caller's part: each function here takes the
//! outcome of that read (an [`EnvLookup`]) and decides what it means.
use vstd::prelude::*;
use crate::text::{append_chars, append_str, chars_of, string_from_chars};

verus! {

pub const DEFAULT_KEYCLOAK_PUBLIC_KEY_CACHE_TTL_SECONDS: u64 = 300;

pub const DEFAULT_STARTUP_RETRY_MAX_ATTEMPTS: u32 = 30;

pub const DEFAULT_STARTUP_RETRY_INITIAL_DELAY_MS: u64 = 1000;

pub const DEFAULT_STARTUP_RETRY_MAX_DELAY_MS: u64 = 30000;

/// What reading one variable of the process environment gave.
#[derive(Debug, Clone)]
pub enum EnvLookup {
    /// The variable is set to this value.
    Present(String),
    /// The variable is not set.
    NotPresent,
    /// The variable is set but its value is not valid unicode.
    NotUnicode,
}

/// Errors of configuration access.
#[derive(Debug, Clone)]
pub enum EnvConfigError {
    MissingVar { key: String },
    InvalidVar { key: String, value: String, message: String },
}

/// Abstract value of a configuration error.
pub enum EnvConfigErrorView {
    MissingVar { key: Seq<char> },
    InvalidVar { key: Seq<char>, value: Seq<char>, message: Seq<char> },
}

impl View for EnvConfigError {
    type V = EnvConfigErrorView;

    open spec fn view(&self) -> EnvConfigErrorView {
        match self {
            EnvConfigError::MissingVar { key } => EnvConfigErrorView::MissingVar { key: key@ },
            EnvConfigError::InvalidVar { key, value, message } => EnvConfigErrorView::InvalidVar {
                key: key@,
                value: value@,
                message: message@,
            },
        }
    }
}

/// The human-readable text of a configuration error.
pub open spec fn env_error_text(e: EnvConfigErrorView) -> Seq<char> {
    match e {
        EnvConfigErrorView::MissingVar { key } => "Required environment variable `"@ + key
            + "` is missing"@,
        EnvConfigErrorView::InvalidVar { key, value, message } =>
            "Invalid value for environment variable `"@ + key + "`: `"@ + value + "` ("@ + message
                + ")"@,
    }
}

impl EnvConfigError {
    /// The human-readable text of this error.
    pub fn message(&self) -> (r: String)
        ensures
            r@ == env_error_text(self@),
    {
        match self {
            EnvConfigError::MissingVar { key } => {
                let mut v = chars_of("Required environment variable `");
                append_str(&mut v, key.as_str());
                append_str(&mut v, "` is missing");
                string_from_chars(v.as_slice())
            },
            EnvConfigError::InvalidVar { key, value, message } => {
                let mut v = chars_of("Invalid value for environment variable `");
                append_str(&mut v, key.as_str());
                append_str(&mut v, "`: `");
                append_str(&mut v, value.as_str());
                append_str(&mut v, "` (");
                append_str(&mut v, message.as_str());
                append_str(&mut v, ")");
                string_from_chars(v.as_slice())
            },
        }
    }
}

/// Why an integer could not be parsed.
#[derive(Debug, Clone, Copy, PartialEq, Eq)]
pub enum IntErrorKind {
    Empty,
    InvalidDigit,
    PosOverflow,
}

/// The text that `ParseIntError` displays for each kind.
pub open spec fn int_error_text(k: IntErrorKind) -> Seq<char> {
    match k {
        IntErrorKind::Empty => "cannot parse integer from empty string"@,
        IntErrorKind::InvalidDigit => "invalid digit found in string"@,
        IntErrorKind::PosOverflow => "number too large to fit in target type"@,
    }
}

pub open spec fn is_digit(c: char) -> bool {
    '0' <= c && c <= '9'
}

pub open spec fn digit_value(c: char) -> nat {
    ((c as u32) - ('0' as u32)) as nat
}

/// Decimal digits read left to right onto `acc`, failing at the first
/// character that is not a digit or at the first step past `max`.
pub open spec fn scan_digits(s: Seq<char>, acc: nat, max: nat) -> Result<nat, IntErrorKind>
    decreases s.len(),
{
    if s.len() == 0 {
        Ok(acc)
    } else if !is_digit(s[0]) {
        Err(IntErrorKind::InvalidDigit)
    } else if acc * 10 + digit_value(s[0]) > max {
        Err(IntErrorKind::PosOverflow)
    } else {
        scan_digits(s.drop_first(), acc * 10 + digit_value(s[0]), max)
    }
}

/// Parsing an unsigned integer no greater than `max` from text, as
/// `FromStr` does for the unsigned integer types: an optional `+`, then
/// one or more decimal digits.
pub open spec fn parse_unsigned_spec(s: Seq<char>, max: nat) -> Result<nat, IntErrorKind> {
    if s.len() == 0 {
        Err(IntErrorKind::Empty)
    } else if (s[0] == '+' || s[0] == '-') && s.len() == 1 {
        Err(IntErrorKind::InvalidDigit)
    } else if s[0] == '+' {
        scan_digits(s.drop_first(), 0, max)
    } else {
        scan_digits(s, 0, max)
    }
}

proof fn lemma_scan_step(s: Seq<char>, i: int, acc: nat, max: nat)
    requires
        0 <= i < s.len(),
    ensures
        scan_digits(s.subrange(i, s.len() as int), acc, max) == (if !is_digit(s[i]) {
            Err(IntErrorKind::InvalidDigit)
        } else if acc * 10 + digit_value(s[i]) > max {
            Err(IntErrorKind::PosOverflow)
        } else {
            scan_digits(s.subrange(i + 1, s.len() as int), acc * 10 + digit_value(s[i]), max)
        }),
{
    let t = s.subrange(i, s.len() as int);
    assert(t.drop_first() =~= s.subrange(i + 1, s.len() as int));
}

/// Parses an unsigned decimal integer no greater than `max`.
pub fn parse_unsigned(s: &[char], max: u64) -> (r: Result<u64, IntErrorKind>)
    ensures
        match r {
            Ok(v) => parse_unsigned_spec(s@, max as nat) == Ok::<nat, IntErrorKind>(v as nat),
            Err(k) => parse_unsigned_spec(s@, max as nat) == Err::<nat, IntErrorKind>(k),
        },
{
    if s.len() == 0 {
        return Err(IntErrorKind::Empty);
    }
    if (s[0] == '+' || s[0] == '-') && s.len() == 1 {
        return Err(IntErrorKind::InvalidDigit);
    }
    let start: usize = if s[0] == '+' {
        1
    } else {
        0
    };
    let ghost digits = s@.subrange(start as int, s.len() as int);
    assert(start == 1 ==> digits =~= s@.drop_first());
    assert(start == 0 ==> digits =~= s@);
    let mut acc: u64 = 0;
    let mut i: usize = start;
    while i < s.len()
        invariant
            start <= i <= s.len(),
            acc <= max,
            parse_unsigned_spec(s@, max as nat) == scan_digits(digits, 0, max as nat),
            scan_digits(digits, 0, max as nat) == scan_digits(
                s@.subrange(i as int, s.len() as int),
                acc as nat,
                max as nat,
            ),
        decreases s.len() - i,
    {
        proof {
            lemma_scan_step(s@, i as int, acc as nat, max as nat);
        }
        let c = s[i];
        if !('0' <= c && c <= '9') {
            return Err(IntErrorKind::InvalidDigit);
        }
        let d: u64 = (c as u32 - '0' as u32) as u64;
        if d > max || acc > (max - d) / 10 {
            proof {
                if d <= max {
                    assert(acc * 10 + d > max) by (nonlinear_arith)
                        requires
                            acc > (max - d) / 10,
                            d <= max,
                    ;
                }
            }
            return Err(IntErrorKind::PosOverflow);
        }
        assert(acc * 10 + d <= max) by (nonlinear_arith)
            requires
                acc <= (max - d) / 10,
                d <= max,
        ;
        acc = acc * 10 + d;
        i = i + 1;
    }
    assert(s@.subrange(s.len() as int, s.len() as int) =~= Seq::<char>::empty());
    Ok(acc)
}

/// Abstract value of an environment lookup.
pub enum LookupView {
    Present(Seq<char>),
    NotPresent,
    NotUnicode,
}

impl View for EnvLookup {
    type V = LookupView;

    open spec fn view(&self) -> LookupView {
        match self {
            EnvLookup::Present(v) => LookupView::Present(v@),
            EnvLookup::NotPresent => LookupView::NotPresent,
            EnvLookup::NotUnicode => LookupView::NotUnicode,
        }
    }
}

/// A type that configuration values can be parsed into.
pub trait EnvValue: Sized {
    /// The parsed value, or the text of the parse error.
    spec fn parse_result(s: Seq<char>) -> Result<Self, Seq<char>>;

    /// Parses a configuration value.
    fn parse_env_value(s: &str) -> (r: Result<Self, String>)
        ensures
            match r {
                Ok(v) => Self::parse_result(s@) == Ok::<Self, Seq<char>>(v),
                Err(m) => Self::parse_result(s@) == Err::<Self, Seq<char>>(m@),
            },
    ;
}

fn int_error_message(k: IntErrorKind) -> (r: String)
    ensures
        r@ == int_error_text(k),
{
    match k {
        IntErrorKind::Empty => crate::text::to_owned_string("cannot parse integer from empty string"),
        IntErrorKind::InvalidDigit => crate::text::to_owned_string("invalid digit found in string"),
        IntErrorKind::PosOverflow => crate::text::to_owned_string(
            "number too large to fit in target type",
        ),
    }
}

impl EnvValue for u64 {
    open spec fn parse_result(s: Seq<char>) -> Result<u64, Seq<char>> {
        match parse_unsigned_spec(s, u64::MAX as nat) {
            Ok(n) => Ok(n as u64),
            Err(k) => Err(int_error_text(k)),
        }
    }

    fn parse_env_value(s: &str) -> (r: Result<u64, String>) {
        let c = chars_of(s);
        match parse_unsigned(c.as_slice(), u64::MAX) {
            Ok(v) => Ok(v),
            Err(k) => Err(int_error_message(k)),
        }
    }
}

impl EnvValue for u32 {
    open spec fn parse_result(s: Seq<char>) -> Result<u32, Seq<char>> {
        match parse_unsigned_spec(s, u32::MAX as nat) {
            Ok(n) => Ok(n as u32),
            Err(k) => Err(int_error_text(k)),
        }
    }

    fn parse_env_value(s: &str) -> (r: Result<u32, String>) {
        let c = chars_of(s);
        match parse_unsigned(c.as_slice(), u32::MAX as u64) {
            Ok(v) => Ok(v as u32),
            Err(k) => Err(int_error_message(k)),
        }
    }
}

impl EnvValue for u16 {
    open spec fn parse_result(s: Seq<char>) -> Result<u16, Seq<char>> {
        match parse_unsigned_spec(s, u16::MAX as nat) {
            Ok(n) => Ok(n as u16),
            Err(k) => Err(int_error_text(k)),
        }
    }

    fn parse_env_value(s: &str) -> (r: Result<u16, String>) {
        let c = chars_of(s);
        match parse_unsigned(c.as_slice(), u16::MAX as u64) {
            Ok(v) => Ok(v as u16),
            Err(k) => Err(int_error_message(k)),
        }
    }
}

impl EnvValue for usize {
    open spec fn parse_result(s: Seq<char>) -> Result<usize, Seq<char>> {
        match parse_unsigned_spec(s, usize::MAX as nat) {
            Ok(n) => Ok(n as usize),
            Err(k) => Err(int_error_text(k)),
        }
    }

    fn parse_env_value(s: &str) -> (r: Result<usize, String>) {
        let c = chars_of(s);
        match parse_unsigned(c.as_slice(), usize::MAX as u64) {
            Ok(v) => Ok(v as usize),
            Err(k) => Err(int_error_message(k)),
        }
    }
}

/// The error reported for a value that is not valid unicode.
pub open spec fn non_unicode_error(key: Seq<char>) -> EnvConfigErrorView {
    EnvConfigErrorView::InvalidVar {
        key,
        value: "<non-unicode>"@,
        message: "value is not valid unicode"@,
    }
}

/// A required variable: its value, or why there is none.
pub open spec fn required_spec(key: Seq<char>, lookup: LookupView) -> Result<
    Seq<char>,
    EnvConfigErrorView,
> {
    match lookup {
        LookupView::Present(v) => Ok(v),
        LookupView::NotPresent => Err(EnvConfigErrorView::MissingVar { key }),
        LookupView::NotUnicode => Err(non_unicode_error(key)),
    }
}

/// An optional variable: its value if set, or why it cannot be read.
pub open spec fn optional_spec(key: Seq<char>, lookup: LookupView) -> Result<
    Option<Seq<char>>,
    EnvConfigErrorView,
> {
    match lookup {
        LookupView::Present(v) => Ok(Some(v)),
        LookupView::NotPresent => Ok(None),
        LookupView::NotUnicode => Err(non_unicode_error(key)),
    }
}

/// A required variable parsed into `T`.
pub open spec fn required_parsed_spec<T: EnvValue>(key: Seq<char>, lookup: LookupView) -> Result<
    T,
    EnvConfigErrorView,
> {
    match required_spec(key, lookup) {
        Err(e) => Err(e),
        Ok(v) => match T::parse_result(v) {
            Ok(t) => Ok(t),
            Err(m) => Err(EnvConfigErrorView::InvalidVar { key, value: v, message: m }),
        },
    }
}

/// An optional variable parsed into `T`.
pub open spec fn optional_parsed_spec<T: EnvValue>(key: Seq<char>, lookup: LookupView) -> Result<
    Option<T>,
    EnvConfigErrorView,
> {
    match optional_spec(key, lookup) {
        Err(e) => Err(e),
        Ok(None) => Ok(None),
        Ok(Some(v)) => match T::parse_result(v) {
            Ok(t) => Ok(Some(t)),
            Err(m) => Err(EnvConfigErrorView::InvalidVar { key, value: v, message: m }),
        },
    }
}

/// Environment variable names of the settings below.
pub const KEYCLOAK_PUBLIC_KEY_CACHE_TTL_SECONDS_KEY: &'static str = "KEYCLOAK_PUBLIC_KEY_CACHE_TTL_SECONDS";

pub const STARTUP_RETRY_MAX_ATTEMPTS_KEY: &'static str = "STARTUP_RETRY_MAX_ATTEMPTS";

pub const STARTUP_RETRY_INITIAL_DELAY_MS_KEY: &'static str = "STARTUP_RETRY_INITIAL_DELAY_MS";

pub const STARTUP_RETRY_MAX_DELAY_MS_KEY: &'static str = "STARTUP_RETRY_MAX_DELAY_MS";

/// An optional numeric setting, falling back to `default` when it is unset,
/// unreadable, unparsable, or a value that `accept` refuses.
pub open spec fn setting_or_default<T: EnvValue>(
    lookup: LookupView,
    default: T,
    accept: spec_fn(T) -> bool,
) -> T {
    match optional_parsed_spec::<T>(Seq::empty(), lookup) {
        Ok(Some(v)) => if accept(v) {
            v
        } else {
            default
        },
        _ => default,
    }
}

/// Configuration access. Every function takes the outcome of reading the
/// variable from the process environment.
pub struct EnvConfig;

impl EnvConfig {
    /// A variable that must be set.
    pub fn get_required(key: &str, lookup: EnvLookup) -> (r: Result<String, EnvConfigError>)
        ensures
            match r {
                Ok(v) => required_spec(key@, lookup@) == Ok::<Seq<char>, EnvConfigErrorView>(v@),
                Err(e) => required_spec(key@, lookup@) == Err::<Seq<char>, EnvConfigErrorView>(
                    e@,
                ),
            },
    {
        match lookup {
            EnvLookup::Present(v) => Ok(v),
            EnvLookup::NotPresent => Err(EnvConfigError::MissingVar { key: to_key(key) }),
            EnvLookup::NotUnicode => Err(non_unicode(key)),
        }
    }

    /// A variable that may be unset.
    pub fn get_optional(key: &str, lookup: EnvLookup) -> (r: Result<
        Option<String>,
        EnvConfigError,
    >)
        ensures
            match r {
                Ok(Some(v)) => optional_spec(key@, lookup@) == Ok::<
                    Option<Seq<char>>,
                    EnvConfigErrorView,
                >(Some(v@)),
                Ok(None) => optional_spec(key@, lookup@) == Ok::<
                    Option<Seq<char>>,
                    EnvConfigErrorView,
                >(None),
                Err(e) => optional_spec(key@, lookup@) == Err::<
                    Option<Seq<char>>,
                    EnvConfigErrorView,
                >(e@),
            },
    {
        match lookup {
            EnvLookup::Present(v) => Ok(Some(v)),
            EnvLookup::NotPresent => Ok(None),
            EnvLookup::NotUnicode => Err(non_unicode(key)),
        }
    }

    /// A variable that must be set, parsed into `T`.
    pub fn get_required_parsed<T: EnvValue>(key: &str, lookup: EnvLookup) -> (r: Result<
        T,
        EnvConfigError,
    >)
        ensures
            match r {
                Ok(v) => required_parsed_spec::<T>(key@, lookup@) == Ok::<T, EnvConfigErrorView>(v),
                Err(e) => required_parsed_spec::<T>(key@, lookup@) == Err::<T, EnvConfigErrorView>(
                    e@,
                ),
            },
    {
        let value = match Self::get_required(key, lookup) {
            Ok(v) => v,
            Err(e) => return Err(e),
        };
        match T::parse_env_value(value.as_str()) {
            Ok(t) => Ok(t),
            Err(m) => Err(EnvConfigError::InvalidVar { key: to_key(key), value, message: m }),
        }
    }

    /// A variable that may be unset, parsed into `T` when set.
    pub fn get_optional_parsed<T: EnvValue>(key: &str, lookup: EnvLookup) -> (r: Result<
        Option<T>,
        EnvConfigError,
    >)
        ensures
            match r {
                Ok(v) => optional_parsed_spec::<T>(key@, lookup@) == Ok::<
                    Option<T>,
                    EnvConfigErrorView,
                >(v),
                Err(e) => optional_parsed_spec::<T>(key@, lookup@) == Err::<
                    Option<T>,
                    EnvConfigErrorView,
                >(e@),
            },
    {
        match Self::get_optional(key, lookup) {
            Err(e) => Err(e),
            Ok(None) => Ok(None),
            Ok(Some(value)) => match T::parse_env_value(value.as_str()) {
                Ok(t) => Ok(Some(t)),
                Err(m) => Err(EnvConfigError::InvalidVar { key: to_key(key), value, message: m }),
            },
        }
    }

    /// Seconds for which a positive token validation stays cached; 300 unless
    /// the variable holds a valid number.
    pub fn get_keycloak_public_key_cache_ttl_seconds(lookup: EnvLookup) -> (r: u64)
        ensures
            r == setting_or_default::<u64>(
                lookup@,
                DEFAULT_KEYCLOAK_PUBLIC_KEY_CACHE_TTL_SECONDS,
                |v: u64| true,
            ),
    {
        match Self::get_optional_parsed::<u64>(KEYCLOAK_PUBLIC_KEY_CACHE_TTL_SECONDS_KEY, lookup) {
            Ok(Some(seconds)) => seconds,
            Ok(None) => DEFAULT_KEYCLOAK_PUBLIC_KEY_CACHE_TTL_SECONDS,
            Err(_) => DEFAULT_KEYCLOAK_PUBLIC_KEY_CACHE_TTL_SECONDS,
        }
    }

    /// How often a startup dependency is tried; 30 unless the variable holds
    /// a positive number.
    pub fn get_startup_retry_max_attempts(lookup: EnvLookup) -> (r: u32)
        ensures
            r == setting_or_default::<u32>(
                lookup@,
                DEFAULT_STARTUP_RETRY_MAX_ATTEMPTS,
                |v: u32| v > 0,
            ),
            r > 0,
    {
        match Self::get_optional_parsed::<u32>(STARTUP_RETRY_MAX_ATTEMPTS_KEY, lookup) {
            Ok(Some(attempts)) if attempts > 0 => attempts,
            _ => DEFAULT_STARTUP_RETRY_MAX_ATTEMPTS,
        }
    }

    /// First retry delay in milliseconds; 1000 unless the variable holds a
    /// positive number.
    pub fn get_startup_retry_initial_delay_ms(lookup: EnvLookup) -> (r: u64)
        ensures
            r == setting_or_default::<u64>(
                lookup@,
                DEFAULT_STARTUP_RETRY_INITIAL_DELAY_MS,
                |v: u64| v > 0,
            ),
            r > 0,
    {
        match Self::get_optional_parsed::<u64>(STARTUP_RETRY_INITIAL_DELAY_MS_KEY, lookup) {
            Ok(Some(delay_ms)) if delay_ms > 0 => delay_ms,
            _ => DEFAULT_STARTUP_RETRY_INITIAL_DELAY_MS,
        }
    }

    /// Longest retry delay in milliseconds; 30000 unless the variable holds a
    /// positive number.
    pub fn get_startup_retry_max_delay_ms(lookup: EnvLookup) -> (r: u64)
        ensures
            r == setting_or_default::<u64>(
                lookup@,
                DEFAULT_STARTUP_RETRY_MAX_DELAY_MS,
                |v: u64| v > 0,
            ),
            r > 0,
    {
        match Self::get_optional_parsed::<u64>(STARTUP_RETRY_MAX_DELAY_MS_KEY, lookup) {
            Ok(Some(delay_ms)) if delay_ms > 0 => delay_ms,
            _ => DEFAULT_STARTUP_RETRY_MAX_DELAY_MS,
        }
    }
}

fn to_key(key: &str) -> (r: String)
    ensures
        r@ == key@,
{
    crate::text::to_owned_string(key)
}

fn non_unicode(key: &str) -> (r: EnvConfigError)
    ensures
        r@ == non_unicode_error(key@),
{
    EnvConfigError::InvalidVar {
        key: to_key(key),
        value: crate::text::to_owned_string("<non-unicode>"),
        message: crate::text::to_owned_string("value is not valid unicode"),
    }
}

} // verus!
