//! Character-sequence toolkit shared by the parsers and formatters of the
//! library. Every operation has a spec function over `Seq<char>` that says
//! what it computes, and an executable version proved against it.
use vstd::prelude::*;

verus! {

/// Unicode `White_Space` property, as used by `char::is_whitespace`.
pub open spec fn is_ws(c: char) -> bool {
    ||| ('\u{9}' <= c && c <= '\u{d}')
    ||| c == ' '
    ||| c == '\u{85}'
    ||| c == '\u{a0}'
    ||| c == '\u{1680}'
    ||| ('\u{2000}' <= c && c <= '\u{200a}')
    ||| c == '\u{2028}'
    ||| c == '\u{2029}'
    ||| c == '\u{202f}'
    ||| c == '\u{205f}'
    ||| c == '\u{3000}'
}

/// The sequence without its leading white space.
pub open spec fn trim_start(s: Seq<char>) -> Seq<char>
    decreases s.len(),
{
    if s.len() > 0 && is_ws(s[0]) {
        trim_start(s.drop_first())
    } else {
        s
    }
}

/// The sequence without its trailing white space.
pub open spec fn trim_end(s: Seq<char>) -> Seq<char>
    decreases s.len(),
{
    if s.len() > 0 && is_ws(s.last()) {
        trim_end(s.drop_last())
    } else {
        s
    }
}

/// The sequence without leading and trailing white space (`str::trim`).
pub open spec fn trim(s: Seq<char>) -> Seq<char> {
    trim_end(trim_start(s))
}

/// ASCII lower-case mapping of one character.
pub open spec fn lower_char(c: char) -> char {
    if 'A' <= c && c <= 'Z' {
        ((c as u32) + 32) as char
    } else {
        c
    }
}

/// ASCII lower-case mapping of a sequence (`str::to_ascii_lowercase`).
pub open spec fn lower(s: Seq<char>) -> Seq<char> {
    s.map_values(|c: char| lower_char(c))
}

/// `p` is a prefix of `s`.
pub open spec fn has_prefix(s: Seq<char>, p: Seq<char>) -> bool {
    p.len() <= s.len() && s.subrange(0, p.len() as int) == p
}

/// `p` is a suffix of `s`.
pub open spec fn has_suffix(s: Seq<char>, p: Seq<char>) -> bool {
    p.len() <= s.len() && s.subrange(s.len() - p.len(), s.len() as int) == p
}

/// `p` occurs in `s` at position `i`.
pub open spec fn occurs_at(s: Seq<char>, p: Seq<char>, i: int) -> bool {
    0 <= i && i + p.len() <= s.len() && s.subrange(i, i + p.len()) == p
}

/// `p` occurs somewhere in `s` (`str::contains`).
pub open spec fn contains(s: Seq<char>, p: Seq<char>) -> bool {
    exists|i: int| occurs_at(s, p, i)
}

/// Whether `c` is white space (`char::is_whitespace`).
pub fn is_whitespace(c: char) -> (b: bool)
    ensures
        b == is_ws(c),
{
    ('\u{9}' <= c && c <= '\u{d}') || c == ' ' || c == '\u{85}' || c == '\u{a0}' || c == '\u{1680}'
        || ('\u{2000}' <= c && c <= '\u{200a}') || c == '\u{2028}' || c == '\u{2029}' || c
        == '\u{202f}' || c == '\u{205f}' || c == '\u{3000}'
}

/// ASCII lower case of one character (`char::to_ascii_lowercase`).
pub fn to_lower_char(c: char) -> (r: char)
    ensures
        r == lower_char(c),
{
    if 'A' <= c && c <= 'Z' {
        let b: u32 = (c as u32) + 32;
        assert(0x61 <= b <= 0x7a);
        char_from_ascii(b)
    } else {
        c
    }
}

fn char_from_ascii(b: u32) -> (c: char)
    requires
        b < 128,
    ensures
        c == b as char,
{
    let u: u8 = b as u8;
    u as char
}

/// Copies the characters of a string slice into a vector.
pub fn chars_of(s: &str) -> (v: Vec<char>)
    ensures
        v@ == s@,
{
    let mut v: Vec<char> = Vec::new();
    for c in it: s.chars()
        invariant
            v@ == it.seq().take(it.index() as int),
            it.seq() == s@,
    {
        v.push(c);
    }
    v
}

/// Builds a `String` holding exactly the given characters, by
/// `FromIterator<char>` for `String`, which appends each character in turn.
#[verifier::external_body]
pub fn string_from_chars(v: &[char]) -> (s: String)
    ensures
        s@ == v@,
{
    v.iter().collect::<String>()
}

/// Copies a string slice into an owned `String`.
pub fn to_owned_string(s: &str) -> (r: String)
    ensures
        r@ == s@,
{
    let v = chars_of(s);
    string_from_chars(v.as_slice())
}

/// Whether two character slices are equal.
pub fn chars_eq(a: &[char], b: &[char]) -> (r: bool)
    ensures
        r == (a@ == b@),
{
    if a.len() != b.len() {
        return false;
    }
    let mut i: usize = 0;
    while i < a.len()
        invariant
            a.len() == b.len(),
            i <= a.len(),
            forall|j: int| 0 <= j < i ==> a@[j] == b@[j],
        decreases a.len() - i,
    {
        if a[i] != b[i] {
            return false;
        }
        i = i + 1;
    }
    assert(a@ =~= b@);
    true
}

/// Whether a character slice spells the given string.
pub fn chars_eq_str(a: &[char], s: &str) -> (r: bool)
    ensures
        r == (a@ == s@),
{
    let b = chars_of(s);
    chars_eq(a, b.as_slice())
}

proof fn lemma_trim_start_skip(s: Seq<char>, i: int)
    requires
        0 <= i <= s.len(),
        forall|j: int| 0 <= j < i ==> is_ws(s[j]),
    ensures
        trim_start(s) == trim_start(s.subrange(i, s.len() as int)),
    decreases i,
{
    if i > 0 {
        assert(is_ws(s[0]));
        let t = s.drop_first();
        lemma_trim_start_skip(t, i - 1);
        assert(t.subrange(i - 1, t.len() as int) =~= s.subrange(i, s.len() as int));
    } else {
        assert(s.subrange(0, s.len() as int) =~= s);
    }
}

proof fn lemma_trim_end_cut(s: Seq<char>, k: int)
    requires
        0 <= k <= s.len(),
        forall|j: int| k <= j < s.len() ==> is_ws(s[j]),
    ensures
        trim_end(s) == trim_end(s.subrange(0, k)),
    decreases s.len() - k,
{
    if k < s.len() {
        assert(is_ws(s.last()));
        let t = s.drop_last();
        lemma_trim_end_cut(t, k);
        assert(t.subrange(0, k) =~= s.subrange(0, k));
    } else {
        assert(s.subrange(0, k) =~= s);
    }
}

/// Start and end indices of the trimmed part of `s`.
pub fn trim_bounds(s: &[char]) -> (r: (usize, usize))
    ensures
        r.0 <= r.1 <= s.len(),
        s@.subrange(r.0 as int, r.1 as int) == trim(s@),
        trim_start(s@) == s@.subrange(r.0 as int, s.len() as int),
{
    let n = s.len();
    let mut i: usize = 0;
    while i < n && is_whitespace(s[i])
        invariant
            n == s.len(),
            i <= n,
            forall|j: int| 0 <= j < i ==> is_ws(s@[j]),
        decreases n - i,
    {
        i = i + 1;
    }
    proof {
        lemma_trim_start_skip(s@, i as int);
    }
    let ghost rest = s@.subrange(i as int, n as int);
    assert(rest.len() == 0 || !is_ws(rest[0]));
    assert(trim_start(rest) == rest);
    let mut k: usize = n;
    while k > i && is_whitespace(s[k - 1])
        invariant
            n == s.len(),
            i <= k <= n,
            forall|j: int| k <= j < n ==> is_ws(s@[j]),
        decreases k,
    {
        k = k - 1;
    }
    proof {
        lemma_trim_end_cut(rest, k - i);
        let cut = rest.subrange(0, k - i);
        assert(cut =~= s@.subrange(i as int, k as int));
        assert(cut.len() == 0 || !is_ws(cut.last()));
        assert(trim_end(cut) == cut);
    }
    (i, k)
}

/// `str::trim`, on characters.
pub fn trim_chars(s: &[char]) -> (r: Vec<char>)
    ensures
        r@ == trim(s@),
{
    let (a, b) = trim_bounds(s);
    slice_range(s, a, b)
}

/// The characters `s[from..to]` as a new vector.
pub fn slice_range(s: &[char], from: usize, to: usize) -> (r: Vec<char>)
    requires
        from <= to <= s.len(),
    ensures
        r@ == s@.subrange(from as int, to as int),
{
    let mut r: Vec<char> = Vec::new();
    let mut i = from;
    while i < to
        invariant
            from <= i <= to <= s.len(),
            r@ == s@.subrange(from as int, i as int),
        decreases to - i,
    {
        r.push(s[i]);
        i = i + 1;
    }
    r
}

/// `str::to_ascii_lowercase`, on characters.
pub fn lower_chars(s: &[char]) -> (r: Vec<char>)
    ensures
        r@ == lower(s@),
{
    let mut r: Vec<char> = Vec::new();
    let mut i: usize = 0;
    while i < s.len()
        invariant
            i <= s.len(),
            r@ == lower(s@.subrange(0, i as int)),
        decreases s.len() - i,
    {
        r.push(to_lower_char(s[i]));
        i = i + 1;
        assert(lower(s@.subrange(0, i as int)) =~= lower(s@.subrange(0, i - 1)).push(
            lower_char(s@[i - 1]),
        ));
    }
    assert(s@.subrange(0, s.len() as int) =~= s@);
    r
}

/// Whether `p` occurs in `s` at position `i`.
pub fn occurs_at_exec(s: &[char], p: &[char], i: usize) -> (r: bool)
    ensures
        r == occurs_at(s@, p@, i as int),
{
    if i > s.len() || p.len() > s.len() - i {
        return false;
    }
    let mut j: usize = 0;
    while j < p.len()
        invariant
            i + p.len() <= s.len(),
            j <= p.len(),
            forall|k: int| 0 <= k < j ==> s@[i + k] == p@[k],
        decreases p.len() - j,
    {
        if s[i + j] != p[j] {
            assert(s@.subrange(i as int, i + p.len())[j as int] != p@[j as int]);
            return false;
        }
        j = j + 1;
    }
    assert(s@.subrange(i as int, i + p.len()) =~= p@);
    true
}

/// `str::starts_with`, on characters.
pub fn starts_with(s: &[char], p: &[char]) -> (r: bool)
    ensures
        r == has_prefix(s@, p@),
{
    occurs_at_exec(s, p, 0)
}

/// `str::ends_with`, on characters.
pub fn ends_with(s: &[char], p: &[char]) -> (r: bool)
    ensures
        r == has_suffix(s@, p@),
{
    if p.len() > s.len() {
        return false;
    }
    occurs_at_exec(s, p, s.len() - p.len())
}

/// First position at which `p` occurs in `s`.
pub open spec fn first_occurrence(s: Seq<char>, p: Seq<char>) -> Option<int> {
    if contains(s, p) {
        Some(choose|i: int| occurs_at(s, p, i) && forall|j: int| 0 <= j < i ==> !occurs_at(s, p, j))
    } else {
        None
    }
}

/// `str::find`, on characters: the least position where `p` occurs.
pub fn find(s: &[char], p: &[char]) -> (r: Option<usize>)
    ensures
        r is None <==> !contains(s@, p@),
        r matches Some(i) ==> occurs_at(s@, p@, i as int) && forall|j: int|
            0 <= j < i ==> !occurs_at(s@, p@, j),
{
    if p.len() > s.len() {
        assert forall|i: int| !occurs_at(s@, p@, i) by {}
        return None;
    }
    let last = s.len() - p.len();
    let mut i: usize = 0;
    loop
        invariant
            p.len() <= s.len(),
            last == s.len() - p.len(),
            i <= last,
            forall|j: int| 0 <= j < i ==> !occurs_at(s@, p@, j),
        decreases last - i,
    {
        if occurs_at_exec(s, p, i) {
            return Some(i);
        }
        if i == last {
            assert forall|j: int| !occurs_at(s@, p@, j) by {}
            return None;
        }
        i = i + 1;
    }
}

/// `str::contains`, on characters.
pub fn contains_exec(s: &[char], p: &[char]) -> (r: bool)
    ensures
        r == contains(s@, p@),
{
    match find(s, p) {
        Some(_) => true,
        None => false,
    }
}

/// Splits at the first white-space character: the part before it, and the
/// part after it when there is one (`splitn(2, char::is_whitespace)`).
pub open spec fn split_once_ws(s: Seq<char>) -> (Seq<char>, Option<Seq<char>>)
    decreases s.len(),
{
    if s.len() == 0 {
        (s, None)
    } else if is_ws(s[0]) {
        (Seq::empty(), Some(s.drop_first()))
    } else {
        let (a, b) = split_once_ws(s.drop_first());
        (seq![s[0]] + a, b)
    }
}

proof fn lemma_split_once_ws(s: Seq<char>, i: int)
    requires
        0 <= i <= s.len(),
        forall|j: int| 0 <= j < i ==> !is_ws(s[j]),
        i == s.len() || is_ws(s[i]),
    ensures
        split_once_ws(s) == (s.subrange(0, i), if i < s.len() {
            Some(s.subrange(i + 1, s.len() as int))
        } else {
            None::<Seq<char>>
        }),
    decreases i,
{
    if i == 0 {
        if s.len() > 0 {
            assert(s.drop_first() =~= s.subrange(1, s.len() as int));
        }
        assert(s.subrange(0, 0) =~= Seq::<char>::empty());
    } else {
        let t = s.drop_first();
        lemma_split_once_ws(t, i - 1);
        assert(seq![s[0]] + t.subrange(0, i - 1) =~= s.subrange(0, i));
        if i < s.len() {
            assert(t.subrange(i, t.len() as int) =~= s.subrange(i + 1, s.len() as int));
        }
    }
}

/// `splitn(2, char::is_whitespace)` on characters: the first piece and the
/// remainder after the separating white-space character, if any.
pub fn split_once_whitespace(s: &[char]) -> (r: (Vec<char>, Option<Vec<char>>))
    ensures
        r.0@ == split_once_ws(s@).0,
        match r.1 {
            Some(v) => split_once_ws(s@).1 == Some(v@),
            None => split_once_ws(s@).1 is None,
        },
{
    let mut i: usize = 0;
    while i < s.len() && !is_whitespace(s[i])
        invariant
            i <= s.len(),
            forall|j: int| 0 <= j < i ==> !is_ws(s@[j]),
        decreases s.len() - i,
    {
        i = i + 1;
    }
    proof {
        lemma_split_once_ws(s@, i as int);
    }
    let first = slice_range(s, 0, i);
    if i < s.len() {
        (first, Some(slice_range(s, i + 1, s.len())))
    } else {
        (first, None)
    }
}

/// The parts joined with `sep` between consecutive parts (`[T]::join`).
pub open spec fn join(parts: Seq<Seq<char>>, sep: Seq<char>) -> Seq<char>
    decreases parts.len(),
{
    if parts.len() == 0 {
        Seq::empty()
    } else if parts.len() == 1 {
        parts[0]
    } else {
        join(parts.drop_last(), sep) + sep + parts.last()
    }
}

/// The texts of a sequence of strings.
pub open spec fn string_views(s: Seq<String>) -> Seq<Seq<char>> {
    s.map_values(|x: String| x@)
}

/// The text of an optional string.
pub open spec fn opt_string_view(o: Option<String>) -> Option<Seq<char>> {
    match o {
        Some(s) => Some(s@),
        None => None,
    }
}

/// Views of a vector of character vectors.
pub open spec fn views(parts: Seq<Vec<char>>) -> Seq<Seq<char>> {
    parts.map_values(|p: Vec<char>| p@)
}

/// `[T]::join` on character vectors.
pub fn join_chars(parts: &Vec<Vec<char>>, sep: &[char]) -> (r: Vec<char>)
    ensures
        r@ == join(views(parts@), sep@),
{
    let mut r: Vec<char> = Vec::new();
    let mut i: usize = 0;
    while i < parts.len()
        invariant
            i <= parts.len(),
            r@ == join(views(parts@).take(i as int), sep@),
        decreases parts.len() - i,
    {
        let ghost before = r@;
        if i > 0 {
            append_chars(&mut r, sep);
        }
        append_chars(&mut r, parts[i].as_slice());
        proof {
            let vs = views(parts@);
            assert(vs.take(i + 1).drop_last() =~= vs.take(i as int));
            assert(vs.take(i + 1).last() == parts@[i as int]@);
            if i == 0 {
                assert(vs.take(1) =~= seq![parts@[0]@]);
            }
        }
        i = i + 1;
    }
    assert(views(parts@).take(parts.len() as int) =~= views(parts@));
    r
}

/// Appends characters to a vector.
pub fn append_chars(v: &mut Vec<char>, s: &[char])
    ensures
        final(v)@ == old(v)@ + s@,
{
    let mut i: usize = 0;
    while i < s.len()
        invariant
            i <= s.len(),
            v@ == old(v)@ + s@.subrange(0, i as int),
        decreases s.len() - i,
    {
        v.push(s[i]);
        i = i + 1;
        assert(old(v)@ + s@.subrange(0, i as int) =~= (old(v)@ + s@.subrange(0, i - 1)).push(
            s@[i - 1],
        ));
    }
    assert(s@.subrange(0, s.len() as int) =~= s@);
}

/// Appends the characters of a string slice to a vector.
pub fn append_str(v: &mut Vec<char>, s: &str)
    ensures
        final(v)@ == old(v)@ + s@,
{
    let c = chars_of(s);
    append_chars(v, c.as_slice());
}

/// The digit character for a value below 16 (lower-case for letters).
pub open spec fn digit_char(d: nat) -> char {
    if d < 10 {
        (('0' as u32) + d) as char
    } else {
        (('a' as u32) + (d - 10)) as char
    }
}

/// Lower-case hexadecimal digits of `n`, without leading zeros (`{:x}`).
pub open spec fn hex_text(n: nat) -> Seq<char>
    decreases n,
{
    if n < 16 {
        seq![digit_char(n)]
    } else {
        hex_text(n / 16) + seq![digit_char(n % 16)]
    }
}

/// Decimal digits of `n`, without leading zeros (`{}`).
pub open spec fn decimal_text(n: nat) -> Seq<char>
    decreases n,
{
    if n < 10 {
        seq![digit_char(n)]
    } else {
        decimal_text(n / 10) + seq![digit_char(n % 10)]
    }
}

fn digit_to_char(d: u64) -> (c: char)
    requires
        d < 16,
    ensures
        c == digit_char(d as nat),
{
    if d < 10 {
        char_from_ascii(('0' as u32) + d as u32)
    } else {
        char_from_ascii(('a' as u32) + (d as u32 - 10))
    }
}

/// Appends the lower-case hexadecimal digits of `n`.
pub fn push_hex(v: &mut Vec<char>, n: u64)
    ensures
        final(v)@ == old(v)@ + hex_text(n as nat),
    decreases n,
{
    if n < 16 {
        v.push(digit_to_char(n));
    } else {
        push_hex(v, n / 16);
        v.push(digit_to_char(n % 16));
        assert(final(v)@ =~= old(v)@ + hex_text(n as nat));
    }
}

/// Appends the decimal digits of `n`.
pub fn push_decimal(v: &mut Vec<char>, n: u64)
    ensures
        final(v)@ == old(v)@ + decimal_text(n as nat),
    decreases n,
{
    if n < 10 {
        v.push(digit_to_char(n));
    } else {
        push_decimal(v, n / 10);
        v.push(digit_to_char(n % 10));
        assert(final(v)@ =~= old(v)@ + decimal_text(n as nat));
    }
}

/// The words of a text: its maximal runs of non-white-space characters.
pub open spec fn words(s: Seq<char>) -> Seq<Seq<char>>
    decreases s.len(),
{
    if s.len() == 0 {
        Seq::empty()
    } else if is_ws(s.last()) {
        words(s.drop_last())
    } else if s.len() >= 2 && !is_ws(s[s.len() - 2]) {
        let w = words(s.drop_last());
        w.drop_last().push(w.last().push(s.last()))
    } else {
        words(s.drop_last()).push(seq![s.last()])
    }
}

/// The words of a text (`str::split_whitespace`).
pub fn split_words(s: &[char]) -> (r: Vec<Vec<char>>)
    ensures
        views(r@) == words(s@),
{
    let mut ws: Vec<Vec<char>> = Vec::new();
    let mut i: usize = 0;
    while i < s.len()
        invariant
            i <= s.len(),
            views(ws@) == words(s@.take(i as int)),
            i > 0 && !is_ws(s@[i - 1]) ==> ws.len() > 0,
        decreases s.len() - i,
    {
        let ghost t = s@.take(i + 1);
        assert(t.drop_last() =~= s@.take(i as int));
        assert(t.last() == s@[i as int]);
        let c = s[i];
        let ghost before = ws@;
        if is_whitespace(c) {
        } else if i > 0 && !is_whitespace(s[i - 1]) {
            assert(t[t.len() - 2] == s@[i - 1]);
            let mut w = ws.pop().unwrap();
            w.push(c);
            ws.push(w);
            assert(views(ws@) =~= views(before).drop_last().push(views(before).last().push(c)));
        } else {
            if i > 0 {
                assert(t[t.len() - 2] == s@[i - 1]);
            }
            let mut w: Vec<char> = Vec::new();
            w.push(c);
            ws.push(w);
            assert(w@ =~= seq![c]);
            assert(views(ws@) =~= views(before).push(seq![c]));
        }
        i = i + 1;
    }
    assert(s@.take(s.len() as int) =~= s@);
    ws
}

/// Appends the decimal digits of a 128-bit number.
pub fn push_decimal_u128(v: &mut Vec<char>, n: u128)
    ensures
        final(v)@ == old(v)@ + decimal_text(n as nat),
    decreases n,
{
    if n < 10 {
        v.push(digit_to_char(n as u64));
    } else {
        push_decimal_u128(v, n / 10);
        v.push(digit_to_char((n % 10) as u64));
        assert(final(v)@ =~= old(v)@ + decimal_text(n as nat));
    }
}

/// Every occurrence of `p` in `s`, taken from the left without overlap,
/// replaced by `r` (`str::replace`); an empty pattern occurs before every
/// character and at the end.
pub open spec fn replace_all(s: Seq<char>, p: Seq<char>, r: Seq<char>) -> Seq<char>
    decreases s.len(),
{
    if p.len() == 0 {
        if s.len() == 0 {
            r
        } else {
            r + seq![s[0]] + replace_all(s.skip(1), p, r)
        }
    } else if s.len() == 0 {
        s
    } else if occurs_at(s, p, 0) {
        r + replace_all(s.skip(p.len() as int), p, r)
    } else {
        seq![s[0]] + replace_all(s.skip(1), p, r)
    }
}

/// `str::replace` on characters.
pub fn replace_chars(s: &[char], p: &[char], r: &[char]) -> (out: Vec<char>)
    ensures
        out@ == replace_all(s@, p@, r@),
{
    let mut out: Vec<char> = Vec::new();
    if p.len() == 0 {
        let mut i: usize = 0;
        assert(s@.skip(0) =~= s@);
        while i < s.len()
            invariant
                i <= s.len(),
                p@.len() == 0,
                out@ + replace_all(s@.skip(i as int), p@, r@) == replace_all(s@, p@, r@),
            decreases s.len() - i,
        {
            let ghost rest = s@.skip(i as int);
            assert(rest.skip(1) =~= s@.skip(i + 1));
            assert(rest[0] == s@[i as int]);
            let ghost before = out@;
            append_chars(&mut out, r);
            out.push(s[i]);
            assert(out@ + replace_all(s@.skip(i + 1), p@, r@) =~= before + (r@ + seq![rest[0]]
                + replace_all(rest.skip(1), p@, r@)));
            i = i + 1;
        }
        assert(s@.skip(i as int).len() == 0);
        append_chars(&mut out, r);
        return out;
    }
    let mut i: usize = 0;
    assert(s@.skip(0) =~= s@);
    while i < s.len()
        invariant
            i <= s.len(),
            p@.len() > 0,
            out@ + replace_all(s@.skip(i as int), p@, r@) == replace_all(s@, p@, r@),
        decreases s.len() - i,
    {
        let ghost rest = s@.skip(i as int);
        if occurs_at_exec(s, p, i) {
            assert(rest.subrange(0, p.len() as int) =~= s@.subrange(i as int, i + p.len()));
            assert(occurs_at(rest, p@, 0));
            assert(rest.skip(p.len() as int) =~= s@.skip(i + p.len()));
            let ghost before = out@;
            append_chars(&mut out, r);
            assert(out@ + replace_all(s@.skip(i + p.len()), p@, r@) =~= before + (r@
                + replace_all(rest.skip(p.len() as int), p@, r@)));
            i = i + p.len();
        } else {
            proof {
                if occurs_at(rest, p@, 0) {
                    assert(rest.subrange(0, p.len() as int) =~= s@.subrange(
                        i as int,
                        i + p.len(),
                    ));
                }
            }
            assert(rest.skip(1) =~= s@.skip(i + 1));
            assert(rest[0] == s@[i as int]);
            let ghost before = out@;
            out.push(s[i]);
            assert(out@ + replace_all(s@.skip(i + 1), p@, r@) =~= before + (seq![rest[0]]
                + replace_all(rest.skip(1), p@, r@)));
            i = i + 1;
        }
    }
    assert(s@.skip(i as int).len() == 0);
    assert(out@ + Seq::<char>::empty() =~= out@);
    out
}

/// The text after each replacement in turn: every occurrence of the first
/// pattern replaced, then every occurrence of the second, and so on.
pub open spec fn apply_replacements(s: Seq<char>, reps: Seq<(Seq<char>, Seq<char>)>) -> Seq<char>
    decreases reps.len(),
{
    if reps.len() == 0 {
        s
    } else {
        apply_replacements(replace_all(s, reps[0].0, reps[0].1), reps.drop_first())
    }
}

/// Replacing a text that does not occur leaves the string as it is.
pub proof fn lemma_replace_all_absent(s: Seq<char>, p: Seq<char>, r: Seq<char>)
    requires
        p.len() > 0,
        !contains(s, p),
    ensures
        replace_all(s, p, r) == s,
    decreases s.len(),
{
    if s.len() > 0 {
        assert(!occurs_at(s, p, 0));
        assert(!contains(s.skip(1), p)) by {
            if contains(s.skip(1), p) {
                let i = choose|i: int| occurs_at(s.skip(1), p, i);
                assert(s.skip(1).subrange(i, i + p.len()) =~= s.subrange(i + 1, i + 1 + p.len()));
                assert(occurs_at(s, p, i + 1));
            }
        }
        lemma_replace_all_absent(s.skip(1), p, r);
        assert(seq![s[0]] + s.skip(1) =~= s);
    }
}

/// Replacing a whole string by `r` gives `r`.
pub proof fn lemma_replace_all_whole(p: Seq<char>, r: Seq<char>)
    requires
        p.len() > 0,
    ensures
        replace_all(p, p, r) == r,
{
    assert(p.subrange(0, p.len() as int) =~= p);
    assert(occurs_at(p, p, 0));
    assert(p.skip(p.len() as int).len() == 0);
    assert(replace_all(p.skip(p.len() as int), p, r) == Seq::<char>::empty());
    assert(r + Seq::<char>::empty() =~= r);
}

/// A text that holds a character which the string lacks does not occur in
/// it.
pub proof fn lemma_absent_by_char(s: Seq<char>, p: Seq<char>, j: int)
    requires
        0 <= j < p.len(),
        forall|k: int| 0 <= k < s.len() ==> s[k] != p[j],
    ensures
        !contains(s, p),
{
    if contains(s, p) {
        let i = choose|i: int| occurs_at(s, p, i);
        assert(s.subrange(i, i + p.len())[j] == s[i + j]);
    }
}

/// Applying replacements in two runs: the first `m`, then the rest.
pub proof fn lemma_apply_replacements_split(s: Seq<char>, reps: Seq<(Seq<char>, Seq<char>)>, m: int)
    requires
        0 <= m <= reps.len(),
    ensures
        apply_replacements(s, reps) == apply_replacements(apply_replacements(s, reps.take(m)), reps.skip(m)),
    decreases m,
{
    if m == 0 {
        assert(reps.take(0).len() == 0);
        assert(reps.skip(0) =~= reps);
    } else {
        let s1 = replace_all(s, reps[0].0, reps[0].1);
        let d = reps.drop_first();
        lemma_apply_replacements_split(s1, d, m - 1);
        assert(reps.take(m).drop_first() =~= d.take(m - 1));
        assert(reps.take(m)[0] == reps[0]);
        assert(d.skip(m - 1) =~= reps.skip(m));
    }
}

/// Replacements none of whose texts occurs leave the string as it is.
pub proof fn lemma_apply_replacements_absent(s: Seq<char>, reps: Seq<(Seq<char>, Seq<char>)>)
    requires
        forall|k: int| 0 <= k < reps.len() ==> (#[trigger] reps[k]).0.len() > 0 && !contains(s, reps[k].0),
    ensures
        apply_replacements(s, reps) == s,
    decreases reps.len(),
{
    if reps.len() > 0 {
        assert(reps[0].0.len() > 0 && !contains(s, reps[0].0));
        lemma_replace_all_absent(s, reps[0].0, reps[0].1);
        assert forall|k: int| 0 <= k < reps.drop_first().len() implies (#[trigger] reps.drop_first()[k]).0.len()
            > 0 && !contains(s, reps.drop_first()[k].0) by {
            assert(reps.drop_first()[k] == reps[k + 1]);
        }
        lemma_apply_replacements_absent(s, reps.drop_first());
    }
}

/// The views of a list of replacements.
pub open spec fn pair_views(v: Seq<(Vec<char>, Vec<char>)>) -> Seq<(Seq<char>, Seq<char>)> {
    v.map_values(|p: (Vec<char>, Vec<char>)| (p.0@, p.1@))
}

proof fn lemma_apply_replacements_step(s: Seq<char>, reps: Seq<(Seq<char>, Seq<char>)>, i: int)
    requires
        0 <= i < reps.len(),
    ensures
        apply_replacements(s, reps.take(i + 1)) == replace_all(
            apply_replacements(s, reps.take(i)),
            reps[i].0,
            reps[i].1,
        ),
    decreases i,
{
    let s2 = replace_all(s, reps[0].0, reps[0].1);
    assert(reps.take(i + 1)[0] == reps[0]);
    assert(apply_replacements(s, reps.take(i + 1)) == apply_replacements(
        s2,
        reps.take(i + 1).drop_first(),
    ));
    if i == 0 {
        assert(reps.take(1).drop_first() =~= Seq::<(Seq<char>, Seq<char>)>::empty());
        assert(reps.take(0) =~= Seq::<(Seq<char>, Seq<char>)>::empty());
        assert(apply_replacements(s2, Seq::<(Seq<char>, Seq<char>)>::empty()) == s2);
        assert(apply_replacements(s, Seq::<(Seq<char>, Seq<char>)>::empty()) == s);
    } else {
        let rest = reps.drop_first();
        lemma_apply_replacements_step(s2, rest, i - 1);
        assert(reps.take(i + 1).drop_first() =~= rest.take(i));
        assert(reps.take(i).drop_first() =~= rest.take(i - 1));
        assert(reps.take(i)[0] == reps[0]);
        assert(apply_replacements(s, reps.take(i)) == apply_replacements(
            s2,
            reps.take(i).drop_first(),
        ));
        assert(rest[i - 1] == reps[i]);
    }
}

/// Applies the replacements in turn (see `apply_replacements`).
pub fn apply_replacement_list(s: &[char], reps: &Vec<(Vec<char>, Vec<char>)>) -> (out: Vec<char>)
    ensures
        out@ == apply_replacements(s@, pair_views(reps@)),
{
    let ghost pv = pair_views(reps@);
    let mut out = slice_range(s, 0, s.len());
    assert(out@ =~= s@);
    assert(pv.take(0) =~= Seq::<(Seq<char>, Seq<char>)>::empty());
    let mut i: usize = 0;
    while i < reps.len()
        invariant
            i <= reps.len(),
            pv == pair_views(reps@),
            out@ == apply_replacements(s@, pv.take(i as int)),
        decreases reps.len() - i,
    {
        let next = replace_chars(out.as_slice(), reps[i].0.as_slice(), reps[i].1.as_slice());
        proof {
            lemma_apply_replacements_step(s@, pv, i as int);
        }
        out = next;
        i = i + 1;
    }
    assert(pv.take(reps.len() as int) =~= pv);
    out
}

/// The characters of each string of a vector.
pub fn strings_to_chars(v: &Vec<String>) -> (r: Vec<Vec<char>>)
    ensures
        views(r@) == string_views(v@),
{
    let mut r: Vec<Vec<char>> = Vec::new();
    let mut i: usize = 0;
    while i < v.len()
        invariant
            i <= v.len(),
            views(r@) == string_views(v@).take(i as int),
        decreases v.len() - i,
    {
        let ghost before = r@;
        let c = chars_of(v[i].as_str());
        r.push(c);
        assert(views(r@) =~= views(before).push(c@));
        assert(string_views(v@).take(i + 1) =~= string_views(v@).take(i as int).push(v@[i as int]@));
        i = i + 1;
    }
    assert(string_views(v@).take(v.len() as int) =~= string_views(v@));
    r
}

/// The pieces of a text cut at each `sep` (`str::split` on a character):
/// one more piece than there are separators.
pub open spec fn split_char(s: Seq<char>, sep: char) -> Seq<Seq<char>>
    decreases s.len(),
{
    if s.len() == 0 {
        seq![Seq::empty()]
    } else if s.last() == sep {
        split_char(s.drop_last(), sep).push(Seq::empty())
    } else {
        let p = split_char(s.drop_last(), sep);
        p.drop_last().push(p.last().push(s.last()))
    }
}

pub proof fn lemma_split_char_nonempty(s: Seq<char>, sep: char)
    ensures
        split_char(s, sep).len() >= 1,
    decreases s.len(),
{
    if s.len() > 0 {
        lemma_split_char_nonempty(s.drop_last(), sep);
    }
}

/// `str::split` on a character, on characters.
pub fn split_at_char(s: &[char], sep: char) -> (r: Vec<Vec<char>>)
    ensures
        views(r@) == split_char(s@, sep),
{
    let mut r: Vec<Vec<char>> = Vec::new();
    r.push(Vec::new());
    assert(views(r@) =~= split_char(s@.take(0), sep));
    let mut i: usize = 0;
    while i < s.len()
        invariant
            i <= s.len(),
            views(r@) == split_char(s@.take(i as int), sep),
            r.len() >= 1,
        decreases s.len() - i,
    {
        let ghost t = s@.take(i + 1);
        assert(t.drop_last() =~= s@.take(i as int));
        assert(t.last() == s@[i as int]);
        let ghost before = views(r@);
        if s[i] == sep {
            r.push(Vec::new());
            assert(views(r@) =~= before.push(Seq::empty()));
        } else {
            let mut last = r.pop().unwrap();
            last.push(s[i]);
            r.push(last);
            assert(views(r@) =~= before.drop_last().push(before.last().push(s@[i as int])));
        }
        proof {
            lemma_split_char_nonempty(s@.take(i + 1), sep);
        }
        i = i + 1;
    }
    assert(s@.take(s.len() as int) =~= s@);
    r
}

} // verus!
