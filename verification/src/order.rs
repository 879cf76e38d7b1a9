//! The orders that std gives to `String` (character by character, by code
//! point) and to `PathBuf` (component by component), with executable
//! three-way comparisons proved against them.
//!
//! A path is held as the sequence of its components. A component is written
//! as `/` for the root, `.` for a leading current-directory mark, `..` for a
//! parent-directory step, and as its name otherwise; std orders component
//! kinds root < current < parent < name, and names by their text.
use vstd::prelude::*;

verus! {

/// Outcome of a three-way comparison.
#[derive(PartialEq, Eq, Structural, Clone, Copy, Debug)]
pub enum Comparison {
    Less,
    Equal,
    Greater,
}

/// Lexicographic order on texts, characters compared by code point.
pub open spec fn text_lt(a: Seq<char>, b: Seq<char>) -> bool
    decreases a.len(),
{
    if a.len() == 0 {
        b.len() > 0
    } else if b.len() == 0 {
        false
    } else if a[0] != b[0] {
        (a[0] as int) < (b[0] as int)
    } else {
        text_lt(a.drop_first(), b.drop_first())
    }
}

pub proof fn lemma_text_lt_irreflexive(a: Seq<char>)
    ensures
        !text_lt(a, a),
    decreases a.len(),
{
    if a.len() > 0 {
        lemma_text_lt_irreflexive(a.drop_first());
    }
}

pub proof fn lemma_text_lt_transitive(a: Seq<char>, b: Seq<char>, c: Seq<char>)
    requires
        text_lt(a, b),
        text_lt(b, c),
    ensures
        text_lt(a, c),
    decreases a.len(),
{
    if a.len() > 0 && b.len() > 0 && c.len() > 0 && a[0] == b[0] && b[0] == c[0] {
        lemma_text_lt_transitive(a.drop_first(), b.drop_first(), c.drop_first());
    }
}

pub proof fn lemma_text_lt_total(a: Seq<char>, b: Seq<char>)
    ensures
        a == b || text_lt(a, b) || text_lt(b, a),
    decreases a.len(),
{
    if a.len() == 0 && b.len() == 0 {
        assert(a =~= b);
    } else if a.len() > 0 && b.len() > 0 && a[0] == b[0] {
        lemma_text_lt_total(a.drop_first(), b.drop_first());
        if a.drop_first() == b.drop_first() {
            assert(a =~= seq![a[0]] + a.drop_first());
            assert(b =~= seq![b[0]] + b.drop_first());
        }
    }
}

pub proof fn lemma_text_lt_asymmetric(a: Seq<char>, b: Seq<char>)
    requires
        text_lt(a, b),
    ensures
        !text_lt(b, a),
{
    if text_lt(b, a) {
        lemma_text_lt_transitive(a, b, a);
        lemma_text_lt_irreflexive(a);
    }
}

proof fn lemma_text_lt_skip(a: Seq<char>, b: Seq<char>, i: int)
    requires
        0 <= i <= a.len(),
        i <= b.len(),
        a.subrange(0, i) == b.subrange(0, i),
    ensures
        text_lt(a, b) == text_lt(a.skip(i), b.skip(i)),
    decreases i,
{
    if i > 0 {
        assert(a[0] == a.subrange(0, i)[0]);
        assert(b[0] == b.subrange(0, i)[0]);
        assert(a.drop_first().subrange(0, i - 1) =~= a.subrange(0, i).drop_first());
        assert(b.drop_first().subrange(0, i - 1) =~= b.subrange(0, i).drop_first());
        lemma_text_lt_skip(a.drop_first(), b.drop_first(), i - 1);
        assert(a.drop_first().skip(i - 1) =~= a.skip(i));
        assert(b.drop_first().skip(i - 1) =~= b.skip(i));
    } else {
        assert(a.skip(0) =~= a);
        assert(b.skip(0) =~= b);
    }
}

/// Three-way comparison of two texts.
pub fn compare_text(a: &[char], b: &[char]) -> (r: Comparison)
    ensures
        (r == Comparison::Less) == text_lt(a@, b@),
        (r == Comparison::Equal) == (a@ == b@),
        (r == Comparison::Greater) == text_lt(b@, a@),
{
    let mut i: usize = 0;
    while i < a.len() && i < b.len() && a[i] == b[i]
        invariant
            i <= a.len(),
            i <= b.len(),
            a@.subrange(0, i as int) == b@.subrange(0, i as int),
        decreases a.len() - i,
    {
        assert(a@.subrange(0, i + 1) =~= a@.subrange(0, i as int).push(a@[i as int]));
        assert(b@.subrange(0, i + 1) =~= b@.subrange(0, i as int).push(b@[i as int]));
        i = i + 1;
    }
    proof {
        lemma_text_lt_skip(a@, b@, i as int);
        lemma_text_lt_skip(b@, a@, i as int);
        lemma_text_lt_irreflexive(a@);
        lemma_text_lt_total(a@, b@);
        if text_lt(a@, b@) {
            lemma_text_lt_asymmetric(a@, b@);
        }
        if i < a.len() {
            assert(a@.skip(i as int)[0] == a@[i as int]);
        }
        if i < b.len() {
            assert(b@.skip(i as int)[0] == b@[i as int]);
        }
        if i == a.len() && i == b.len() {
            assert(a@ =~= a@.subrange(0, i as int));
            assert(b@ =~= b@.subrange(0, i as int));
        }
    }
    if i == a.len() {
        if i == b.len() {
            Comparison::Equal
        } else {
            Comparison::Less
        }
    } else if i == b.len() {
        Comparison::Greater
    } else if a[i] < b[i] {
        Comparison::Less
    } else {
        Comparison::Greater
    }
}

/// The kind of a path component, in std's order: root, current-directory
/// mark, parent-directory step, name.
pub open spec fn component_rank(c: Seq<char>) -> int {
    if c == seq!['/'] {
        1
    } else if c == seq!['.'] {
        2
    } else if c == seq!['.', '.'] {
        3
    } else {
        4
    }
}

/// The order of path components.
pub open spec fn component_lt(a: Seq<char>, b: Seq<char>) -> bool {
    component_rank(a) < component_rank(b) || (component_rank(a) == component_rank(b) && text_lt(
        a,
        b,
    ))
}

/// The order of paths: component by component.
pub open spec fn path_lt(a: Seq<Seq<char>>, b: Seq<Seq<char>>) -> bool
    decreases a.len(),
{
    if a.len() == 0 {
        b.len() > 0
    } else if b.len() == 0 {
        false
    } else if a[0] != b[0] {
        component_lt(a[0], b[0])
    } else {
        path_lt(a.drop_first(), b.drop_first())
    }
}

proof fn lemma_component_lt_order(a: Seq<char>, b: Seq<char>, c: Seq<char>)
    ensures
        !component_lt(a, a),
        component_lt(a, b) && component_lt(b, c) ==> component_lt(a, c),
        a == b || component_lt(a, b) || component_lt(b, a),
{
    lemma_text_lt_irreflexive(a);
    lemma_text_lt_total(a, b);
    if text_lt(a, b) && text_lt(b, c) {
        lemma_text_lt_transitive(a, b, c);
    }
}

pub proof fn lemma_path_lt_irreflexive(a: Seq<Seq<char>>)
    ensures
        !path_lt(a, a),
    decreases a.len(),
{
    if a.len() > 0 {
        lemma_path_lt_irreflexive(a.drop_first());
    }
}

pub proof fn lemma_path_lt_transitive(a: Seq<Seq<char>>, b: Seq<Seq<char>>, c: Seq<Seq<char>>)
    requires
        path_lt(a, b),
        path_lt(b, c),
    ensures
        path_lt(a, c),
    decreases a.len(),
{
    if a.len() > 0 && b.len() > 0 && c.len() > 0 {
        lemma_component_lt_order(a[0], b[0], c[0]);
        lemma_component_lt_order(b[0], c[0], a[0]);
        lemma_component_lt_order(a[0], c[0], b[0]);
        if a[0] == b[0] && b[0] == c[0] {
            lemma_path_lt_transitive(a.drop_first(), b.drop_first(), c.drop_first());
        }
    }
}

pub proof fn lemma_path_lt_total(a: Seq<Seq<char>>, b: Seq<Seq<char>>)
    ensures
        a == b || path_lt(a, b) || path_lt(b, a),
    decreases a.len(),
{
    if a.len() == 0 && b.len() == 0 {
        assert(a =~= b);
    } else if a.len() > 0 && b.len() > 0 {
        lemma_component_lt_order(a[0], b[0], b[0]);
        if a[0] == b[0] {
            lemma_path_lt_total(a.drop_first(), b.drop_first());
            if a.drop_first() == b.drop_first() {
                assert(a =~= seq![a[0]] + a.drop_first());
                assert(b =~= seq![b[0]] + b.drop_first());
            }
        }
    }
}

pub proof fn lemma_path_lt_asymmetric(a: Seq<Seq<char>>, b: Seq<Seq<char>>)
    requires
        path_lt(a, b),
    ensures
        !path_lt(b, a),
{
    if path_lt(b, a) {
        lemma_path_lt_transitive(a, b, a);
        lemma_path_lt_irreflexive(a);
    }
}

proof fn lemma_path_lt_skip(a: Seq<Seq<char>>, b: Seq<Seq<char>>, i: int)
    requires
        0 <= i <= a.len(),
        i <= b.len(),
        a.subrange(0, i) == b.subrange(0, i),
    ensures
        path_lt(a, b) == path_lt(a.skip(i), b.skip(i)),
    decreases i,
{
    if i > 0 {
        assert(a[0] == a.subrange(0, i)[0]);
        assert(b[0] == b.subrange(0, i)[0]);
        assert(a.drop_first().subrange(0, i - 1) =~= a.subrange(0, i).drop_first());
        assert(b.drop_first().subrange(0, i - 1) =~= b.subrange(0, i).drop_first());
        lemma_path_lt_skip(a.drop_first(), b.drop_first(), i - 1);
        assert(a.drop_first().skip(i - 1) =~= a.skip(i));
        assert(b.drop_first().skip(i - 1) =~= b.skip(i));
    } else {
        assert(a.skip(0) =~= a);
        assert(b.skip(0) =~= b);
    }
}

fn component_rank_of(c: &[char]) -> (r: u8)
    ensures
        r as int == component_rank(c@),
{
    if c.len() == 1 && c[0] == '/' {
        assert(c@ =~= seq!['/']);
        1
    } else if c.len() == 1 && c[0] == '.' {
        assert(c@ =~= seq!['.']);
        2
    } else if c.len() == 2 && c[0] == '.' && c[1] == '.' {
        assert(c@ =~= seq!['.', '.']);
        3
    } else {
        proof {
            if c@ == seq!['/'] {
                assert(c@.len() == 1 && c@[0] == '/');
            }
            if c@ == seq!['.'] {
                assert(c@.len() == 1 && c@[0] == '.');
            }
            if c@ == seq!['.', '.'] {
                assert(c@.len() == 2 && c@[0] == '.' && c@[1] == '.');
            }
        }
        4
    }
}

/// Three-way comparison of two path components.
pub fn compare_component(a: &[char], b: &[char]) -> (r: Comparison)
    ensures
        (r == Comparison::Less) == component_lt(a@, b@),
        (r == Comparison::Equal) == (a@ == b@),
        (r == Comparison::Greater) == component_lt(b@, a@),
{
    let ra = component_rank_of(a);
    let rb = component_rank_of(b);
    proof {
        lemma_component_lt_order(a@, b@, b@);
        lemma_text_lt_irreflexive(a@);
        if text_lt(a@, b@) {
            lemma_text_lt_asymmetric(a@, b@);
        }
    }
    if ra < rb {
        Comparison::Less
    } else if rb < ra {
        Comparison::Greater
    } else {
        compare_text(a, b)
    }
}

/// The character vectors of a sequence of vectors.
pub open spec fn char_views(v: Seq<Vec<char>>) -> Seq<Seq<char>> {
    v.map_values(|x: Vec<char>| x@)
}

/// Three-way comparison of two paths given as component vectors.
pub fn compare_path(a: &Vec<Vec<char>>, b: &Vec<Vec<char>>) -> (r: Comparison)
    ensures
        (r == Comparison::Less) == path_lt(char_views(a@), char_views(b@)),
        (r == Comparison::Equal) == (char_views(a@) == char_views(b@)),
        (r == Comparison::Greater) == path_lt(char_views(b@), char_views(a@)),
{
    let ghost va = char_views(a@);
    let ghost vb = char_views(b@);
    let mut i: usize = 0;
    while i < a.len() && i < b.len()
        invariant
            i <= a.len(),
            i <= b.len(),
            va == char_views(a@),
            vb == char_views(b@),
            va.subrange(0, i as int) == vb.subrange(0, i as int),
        decreases a.len() - i,
    {
        let c = compare_component(a[i].as_slice(), b[i].as_slice());
        if c != Comparison::Equal {
            proof {
                lemma_path_lt_skip(va, vb, i as int);
                lemma_path_lt_skip(vb, va, i as int);
                assert(va.skip(i as int)[0] == va[i as int]);
                assert(vb.skip(i as int)[0] == vb[i as int]);
                lemma_component_lt_order(va[i as int], vb[i as int], vb[i as int]);
                if va == vb {
                    assert(va[i as int] == vb[i as int]);
                }
            }
            return c;
        }
        assert(va.subrange(0, i + 1) =~= va.subrange(0, i as int).push(va[i as int]));
        assert(vb.subrange(0, i + 1) =~= vb.subrange(0, i as int).push(vb[i as int]));
        i = i + 1;
    }
    proof {
        lemma_path_lt_skip(va, vb, i as int);
        lemma_path_lt_skip(vb, va, i as int);
        if i == a.len() && i == b.len() {
            assert(va =~= va.subrange(0, i as int));
            assert(vb =~= vb.subrange(0, i as int));
        }
        if va == vb {
            assert(a.len() == b.len());
        }
    }
    if i == a.len() {
        if i == b.len() {
            Comparison::Equal
        } else {
            Comparison::Less
        }
    } else {
        Comparison::Greater
    }
}

} // verus!
