//! The store of system prompts of the NPC interaction bridge: prompt files
//! found under a root directory, keyed by their path relative to the root
//! without the extension, and the prompt that is active.
//!
//! Walking the directory and reading the files is done by the caller; the
//! store decides which files are prompts, what their keys are, which file a
//! key stands for, and every answer given from the loaded prompts.
//!
//! Paths are held as the components std gives them (see `crate::order`).
use vstd::prelude::*;
use crate::order::{
    Comparison,
    char_views,
    compare_path,
    compare_text,
    component_rank,
    lemma_path_lt_asymmetric,
    lemma_path_lt_irreflexive,
    lemma_path_lt_total,
    lemma_path_lt_transitive,
    lemma_text_lt_asymmetric,
    lemma_text_lt_irreflexive,
    lemma_text_lt_transitive,
    path_lt,
    text_lt,
};
use crate::text::{
    append_chars,
    chars_eq,
    chars_eq_str,
    chars_of,
    is_whitespace,
    is_ws,
    join,
    join_chars,
    lower,
    lower_chars,
    opt_string_view,
    slice_range,
    string_from_chars,
    string_views,
    split_words,
    views,
    words,
};

verus! {

/// A path found under the prompt directory.
pub struct PromptPath {
    /// The path as it is displayed.
    pub display: String,
    /// The components of the path.
    pub components: Vec<String>,
}

/// The components of a path, as texts.
pub open spec fn path_view(p: PromptPath) -> Seq<Seq<char>> {
    string_views(p.components@)
}

/// Whether a component is a name (not the root, a current-directory mark
/// or a parent-directory step).
pub open spec fn is_name(c: Seq<char>) -> bool {
    component_rank(c) == 4
}

/// Position of the last `.` of a text.
pub open spec fn last_dot(s: Seq<char>) -> Option<int>
    decreases s.len(),
{
    if s.len() == 0 {
        None
    } else if s.last() == '.' {
        Some(s.len() - 1)
    } else {
        last_dot(s.drop_last())
    }
}

/// The extension of a file name (`Path::extension`): what follows the last
/// `.`, unless that dot is the first character.
pub open spec fn extension(name: Seq<char>) -> Option<Seq<char>> {
    match last_dot(name) {
        Some(i) => if i > 0 {
            Some(name.skip(i + 1))
        } else {
            None
        },
        None => None,
    }
}

/// The file name without its extension (`Path::file_stem`).
pub open spec fn file_stem(name: Seq<char>) -> Seq<char> {
    match last_dot(name) {
        Some(i) => if i > 0 {
            name.take(i)
        } else {
            name
        },
        None => name,
    }
}

/// The file name of a path: its last component, if that is a name.
pub open spec fn file_name(path: Seq<Seq<char>>) -> Option<Seq<char>> {
    if path.len() > 0 && is_name(path.last()) {
        Some(path.last())
    } else {
        None
    }
}

/// Whether a path names a prompt file: its extension is `prompt`, `txt` or
/// `md`, in any ASCII case.
pub open spec fn is_prompt_path(path: Seq<Seq<char>>) -> bool {
    match file_name(path) {
        Some(n) => match extension(n) {
            Some(e) => lower(e) == "prompt"@ || lower(e) == "txt"@ || lower(e) == "md"@,
            None => false,
        },
        None => false,
    }
}

/// The relative path with the extension taken off its file name.
pub open spec fn without_extension(rel: Seq<Seq<char>>) -> Seq<Seq<char>> {
    if rel.len() > 0 && is_name(rel.last()) {
        rel.drop_last().push(file_stem(rel.last()))
    } else {
        rel
    }
}

/// The name components of a path, in order.
pub open spec fn name_parts(rel: Seq<Seq<char>>) -> Seq<Seq<char>>
    decreases rel.len(),
{
    if rel.len() == 0 {
        Seq::empty()
    } else if is_name(rel.last()) {
        name_parts(rel.drop_last()).push(rel.last())
    } else {
        name_parts(rel.drop_last())
    }
}

/// The key of a prompt file: its path relative to the root, without the
/// extension, its names joined by `/`. None when the path does not lie
/// under the root or leaves no name.
pub open spec fn prompt_key(root: Seq<Seq<char>>, path: Seq<Seq<char>>) -> Option<Seq<char>> {
    if root.len() <= path.len() && path.take(root.len() as int) == root {
        let parts = name_parts(without_extension(path.skip(root.len() as int)));
        if parts.len() > 0 {
            Some(join(parts, "/"@))
        } else {
            None
        }
    } else {
        None
    }
}

/// Why the prompt store refused a request.
#[derive(Debug)]
pub enum PromptStoreError {
    /// The prompt root directory does not exist.
    RootNotFound(String),
    /// No prompt has this key.
    MissingPromptKey(String),
    /// A prompt file's path gives no key.
    InvalidPromptPath(String),
    /// Reading a directory or a file failed.
    Io { path: String, message: String },
}

impl PromptStoreError {
    /// The error as a message for people.
    pub fn message(&self) -> (r: String)
        ensures
            r@ == match self {
                PromptStoreError::RootNotFound(p) => "prompt root directory not found: "@ + p@,
                PromptStoreError::MissingPromptKey(k) => "prompt key not found: "@ + k@,
                PromptStoreError::InvalidPromptPath(p) => "invalid prompt file path: "@ + p@,
                PromptStoreError::Io { path, message } => "io error at "@ + path@ + ": "@
                    + message@,
            },
    {
        let mut v: Vec<char> = Vec::new();
        match self {
            PromptStoreError::RootNotFound(p) => {
                crate::text::append_str(&mut v, "prompt root directory not found: ");
                crate::text::append_str(&mut v, p.as_str());
            },
            PromptStoreError::MissingPromptKey(k) => {
                crate::text::append_str(&mut v, "prompt key not found: ");
                crate::text::append_str(&mut v, k.as_str());
            },
            PromptStoreError::InvalidPromptPath(p) => {
                crate::text::append_str(&mut v, "invalid prompt file path: ");
                crate::text::append_str(&mut v, p.as_str());
            },
            PromptStoreError::Io { path, message } => {
                crate::text::append_str(&mut v, "io error at ");
                crate::text::append_str(&mut v, path.as_str());
                crate::text::append_str(&mut v, ": ");
                crate::text::append_str(&mut v, message.as_str());
            },
        }
        string_from_chars(v.as_slice())
    }
}

pub(crate) fn last_dot_index(s: &[char]) -> (r: Option<usize>)
    ensures
        match r {
            Some(i) => i < s.len() && last_dot(s@) == Some(i as int),
            None => last_dot(s@) is None,
        },
{
    let mut n: usize = s.len();
    assert(s@.take(n as int) =~= s@);
    while n > 0
        invariant
            n <= s.len(),
            last_dot(s@) == last_dot(s@.take(n as int)),
        decreases n,
    {
        assert(s@.take(n as int).last() == s@[n - 1]);
        if s[n - 1] == '.' {
            return Some(n - 1);
        }
        assert(s@.take(n as int).drop_last() =~= s@.take(n - 1));
        n = n - 1;
    }
    None
}

/// The characters of a path's components.
pub fn component_chars(p: &PromptPath) -> (r: Vec<Vec<char>>)
    ensures
        char_views(r@) == path_view(*p),
{
    let mut r: Vec<Vec<char>> = Vec::new();
    let mut i: usize = 0;
    while i < p.components.len()
        invariant
            i <= p.components.len(),
            char_views(r@) == path_view(*p).take(i as int),
        decreases p.components.len() - i,
    {
        let ghost before = r@;
        let c = chars_of(p.components[i].as_str());
        r.push(c);
        assert(char_views(r@) =~= char_views(before).push(c@));
        assert(path_view(*p).take(i + 1) =~= path_view(*p).take(i as int).push(
            p.components@[i as int]@,
        ));
        i = i + 1;
    }
    assert(path_view(*p).take(p.components.len() as int) =~= path_view(*p));
    r
}

pub(crate) fn is_name_exec(c: &[char]) -> (r: bool)
    ensures
        r == is_name(c@),
{
    if c.len() == 1 && c[0] == '/' {
        assert(c@ =~= seq!['/']);
        false
    } else if c.len() == 1 && c[0] == '.' {
        assert(c@ =~= seq!['.']);
        false
    } else if c.len() == 2 && c[0] == '.' && c[1] == '.' {
        assert(c@ =~= seq!['.', '.']);
        false
    } else {
        proof {
            if c@ == seq!['/'] {
                assert(c@.len() == 1 && c@[0] == '/');
            }
            if c@ == seq!['.'] {
                assert(c@.len() == 1 && c@[0] == '.');
            }
            if c@ == seq!['.', '.'] {
                assert(c@.len() == 2 && c@[0] == '.' && c@[1] == '.');
            }
        }
        true
    }
}

/// The name a path component stands for, if it is a name.
pub fn component_to_string(component: &str) -> (r: Option<String>)
    ensures
        match r {
            Some(s) => is_name(component@) && s@ == component@,
            None => !is_name(component@),
        },
{
    let c = chars_of(component);
    if is_name_exec(c.as_slice()) {
        Some(string_from_chars(c.as_slice()))
    } else {
        None
    }
}

/// Whether a path names a prompt file (`.prompt`, `.txt` or `.md`, in any
/// ASCII case).
pub fn is_prompt_file(path: &PromptPath) -> (r: bool)
    ensures
        r == is_prompt_path(path_view(*path)),
{
    let n = path.components.len();
    if n == 0 {
        return false;
    }
    let name = chars_of(path.components[n - 1].as_str());
    assert(path_view(*path).last() == name@);
    if !is_name_exec(name.as_slice()) {
        return false;
    }
    match last_dot_index(name.as_slice()) {
        None => false,
        Some(i) => {
            if i == 0 {
                return false;
            }
            let ext = slice_range(name.as_slice(), i + 1, name.len());
            assert(ext@ =~= name@.skip(i + 1));
            let lowered = lower_chars(ext.as_slice());
            chars_eq_str(lowered.as_slice(), "prompt") || chars_eq_str(lowered.as_slice(), "txt")
                || chars_eq_str(lowered.as_slice(), "md")
        },
    }
}

pub(crate) fn file_stem_of(name: &[char]) -> (r: Vec<char>)
    ensures
        r@ == file_stem(name@),
{
    match last_dot_index(name) {
        Some(i) => {
            if i > 0 {
                let r = slice_range(name, 0, i);
                assert(r@ =~= name@.take(i as int));
                r
            } else {
                slice_range(name, 0, name.len())
            }
        },
        None => {
            let r = slice_range(name, 0, name.len());
            assert(r@ =~= name@);
            r
        },
    }
}

/// The key of a prompt file under the root, or `InvalidPromptPath` with
/// the file's path when it has none.
pub fn path_to_prompt_key(root_dir: &PromptPath, prompt_path: &PromptPath) -> (r: Result<
    String,
    PromptStoreError,
>)
    ensures
        match r {
            Ok(k) => prompt_key(path_view(*root_dir), path_view(*prompt_path)) == Some(k@),
            Err(e) => {
                &&& prompt_key(path_view(*root_dir), path_view(*prompt_path)) is None
                &&& e matches PromptStoreError::InvalidPromptPath(p) && p@ == prompt_path.display@
            },
        },
{
    let ghost rv = path_view(*root_dir);
    let ghost pv = path_view(*prompt_path);
    let root = component_chars(root_dir);
    let path = component_chars(prompt_path);
    let invalid = PromptStoreError::InvalidPromptPath(prompt_path.display.clone());
    if root.len() > path.len() {
        return Err(invalid);
    }
    let mut i: usize = 0;
    while i < root.len()
        invariant
            root.len() <= path.len(),
            i <= root.len(),
            char_views(root@) == rv,
            char_views(path@) == pv,
            rv == path_view(*root_dir),
            pv == path_view(*prompt_path),
            invalid matches PromptStoreError::InvalidPromptPath(p) && p@ == prompt_path.display@,
            forall|j: int| 0 <= j < i ==> rv[j] == pv[j],
        decreases root.len() - i,
    {
        if !chars_eq(root[i].as_slice(), path[i].as_slice()) {
            assert(rv[i as int] == root@[i as int]@);
            assert(pv[i as int] == path@[i as int]@);
            assert(pv.take(rv.len() as int)[i as int] == pv[i as int]);
            return Err(invalid);
        }
        i = i + 1;
    }
    assert(pv.take(rv.len() as int) =~= rv);
    let ghost rel = pv.skip(rv.len() as int);
    let ghost stripped = without_extension(rel);
    // The name components, the file name without its extension.
    let mut parts: Vec<Vec<char>> = Vec::new();
    let mut j: usize = root.len();
    while j < path.len()
        invariant
            root.len() <= j <= path.len(),
            char_views(path@) == pv,
            rv == path_view(*root_dir),
            pv == path_view(*prompt_path),
            rv.len() == root.len(),
            rel == pv.skip(rv.len() as int),
            stripped == without_extension(rel),
            views(parts@) == name_parts(stripped.take(j - root.len())),
        decreases path.len() - j,
    {
        let ghost k = j - root.len();
        let last = j + 1 == path.len();
        let is_last_name = last && is_name_exec(path[j].as_slice());
        let comp = if is_last_name {
            file_stem_of(path[j].as_slice())
        } else {
            slice_range(path[j].as_slice(), 0, path[j].len())
        };
        proof {
            assert(rel[k] == pv[j as int]);
            assert(stripped.take(k + 1).drop_last() =~= stripped.take(k));
            if is_last_name {
                assert(stripped[k] == file_stem(rel.last()));
            } else {
                assert(comp@ =~= path@[j as int]@);
                assert(stripped[k] == rel[k]);
            }
            assert(stripped.take(k + 1).last() == comp@);
        }
        let ghost before = parts@;
        if is_name_exec(comp.as_slice()) {
            parts.push(comp);
            assert(views(parts@) =~= views(before).push(comp@));
        }
        j = j + 1;
    }
    assert(stripped.len() == rel.len());
    assert(stripped.take(path.len() - root.len()) =~= stripped);
    if parts.len() == 0 {
        return Err(invalid);
    }
    let slash = chars_of("/");
    let joined = join_chars(&parts, slash.as_slice());
    Ok(string_from_chars(joined.as_slice()))
}

/// A one-line preview of a text: its words joined by single spaces, cut to
/// `max_chars` characters with `…` appended when it is longer.
pub open spec fn preview(text: Seq<char>, max_chars: nat) -> Seq<char> {
    let line = join(words(text), seq![' ']);
    if line.len() <= max_chars {
        line
    } else {
        line.take(max_chars as int).push('…')
    }
}

/// The one-line preview of a text (see `preview`).
pub fn compact_preview(text: &str, max_chars: usize) -> (r: String)
    ensures
        r@ == preview(text@, max_chars as nat),
{
    let s = chars_of(text);
    let ws = split_words(s.as_slice());
    let space = chars_of(" ");
    proof {
        reveal_strlit(" ");
    }
    assert(space@ =~= seq![' ']);
    let line = join_chars(&ws, space.as_slice());
    if line.len() <= max_chars {
        return string_from_chars(line.as_slice());
    }
    let mut cut = slice_range(line.as_slice(), 0, max_chars);
    cut.push('…');
    assert(cut@ =~= line@.take(max_chars as int).push('…'));
    string_from_chars(cut.as_slice())
}

/// A prompt file as read: its path and what reading it gave.
pub struct LoadedPrompt {
    pub path: PromptPath,
    /// The file's text, or the message of the read error.
    pub content: Result<String, String>,
}

/// The key a file gives under the root.
pub open spec fn file_key(root: Seq<Seq<char>>, f: LoadedPrompt) -> Option<Seq<char>> {
    prompt_key(root, path_view(f.path))
}

/// Whether a file stops the loading: it gives no key or could not be read.
pub open spec fn load_fails(root: Seq<Seq<char>>, f: LoadedPrompt) -> bool {
    file_key(root, f) is None || f.content is Err
}

/// The order in which files are taken: by path, then by position.
pub open spec fn file_before(fs: Seq<LoadedPrompt>, i: int, j: int) -> bool {
    path_lt(path_view(fs[i].path), path_view(fs[j].path)) || (path_view(fs[i].path) == path_view(
        fs[j].path,
    ) && i < j)
}

/// Whether some file stops the loading.
pub open spec fn any_failure(root: Seq<Seq<char>>, fs: Seq<LoadedPrompt>) -> bool {
    exists|i: int| 0 <= i < fs.len() && #[trigger] load_fails(root, fs[i])
}

/// Whether file `i` is the first, in the order files are taken, that stops
/// the loading.
pub open spec fn is_first_failure(root: Seq<Seq<char>>, fs: Seq<LoadedPrompt>, i: int) -> bool {
    &&& 0 <= i < fs.len()
    &&& load_fails(root, fs[i])
    &&& forall|j: int|
        0 <= j < fs.len() && j != i && #[trigger] load_fails(root, fs[j]) ==> file_before(fs, i, j)
}

/// The error that a failing file gives.
pub open spec fn failure_error(root: Seq<Seq<char>>, f: LoadedPrompt, e: PromptStoreError) -> bool {
    match file_key(root, f) {
        None => e matches PromptStoreError::InvalidPromptPath(p) && p@ == f.path.display@,
        Some(_) => match f.content {
            Err(m) => e matches PromptStoreError::Io { path, message } && path@ == f.path.display@
                && message@ == m@,
            Ok(_) => false,
        },
    }
}

/// The message of the error that a failing file gives (see
/// `failure_error` and `PromptStoreError::message`).
pub open spec fn failure_message(root: Seq<Seq<char>>, f: LoadedPrompt) -> Seq<char> {
    match file_key(root, f) {
        None => "invalid prompt file path: "@ + f.path.display@,
        Some(_) => match f.content {
            Err(m) => "io error at "@ + f.path.display@ + ": "@ + m@,
            Ok(_) => Seq::empty(),
        },
    }
}

/// Whether some file gives the key.
pub open spec fn gives_key(root: Seq<Seq<char>>, fs: Seq<LoadedPrompt>, k: Seq<char>) -> bool {
    exists|i: int| 0 <= i < fs.len() && #[trigger] file_key(root, fs[i]) == Some(k)
}

/// Whether file `w` is the last file, in the order files are taken, among
/// the first `n` files that give key `k`.
pub open spec fn is_winner_among(
    root: Seq<Seq<char>>,
    fs: Seq<LoadedPrompt>,
    n: int,
    k: Seq<char>,
    w: int,
) -> bool {
    &&& 0 <= w < n
    &&& file_key(root, fs[w]) == Some(k)
    &&& forall|j: int|
        0 <= j < n && j != w && #[trigger] file_key(root, fs[j]) == Some(k) ==> file_before(fs, j, w)
}

/// The text a file was read as.
pub open spec fn loaded_text(f: LoadedPrompt) -> Seq<char> {
    match f.content {
        Ok(t) => t@,
        Err(_) => Seq::empty(),
    }
}

/// Keys in strictly increasing order.
pub open spec fn keys_sorted(ev: Seq<(Seq<char>, Seq<char>)>) -> bool {
    forall|a: int, b: int| 0 <= a < b < ev.len() ==> text_lt(#[trigger] ev[a].0, #[trigger] ev[b].0)
}

/// Whether the table has the key.
pub open spec fn has_key(ev: Seq<(Seq<char>, Seq<char>)>, k: Seq<char>) -> bool {
    exists|a: int| 0 <= a < ev.len() && #[trigger] ev[a].0 == k
}

/// The text of a key in the table.
pub open spec fn prompt_text(ev: Seq<(Seq<char>, Seq<char>)>, k: Seq<char>) -> Option<Seq<char>> {
    if has_key(ev, k) {
        Some(ev[choose|a: int| 0 <= a < ev.len() && #[trigger] ev[a].0 == k].1)
    } else {
        None
    }
}

/// The first key of the table, if any.
pub open spec fn first_key(ev: Seq<(Seq<char>, Seq<char>)>) -> Option<Seq<char>> {
    if ev.len() > 0 {
        Some(ev[0].0)
    } else {
        None
    }
}

/// The keys of the table, in order.
pub open spec fn table_keys(ev: Seq<(Seq<char>, Seq<char>)>) -> Seq<Seq<char>> {
    ev.map_values(|p: (Seq<char>, Seq<char>)| p.0)
}

/// The table that the files load as: sorted by key, one entry for each key
/// some file gives, holding the text of the last file, in the order files
/// are taken, that gives it.
pub open spec fn loads_as(
    root: Seq<Seq<char>>,
    fs: Seq<LoadedPrompt>,
    ev: Seq<(Seq<char>, Seq<char>)>,
) -> bool {
    &&& keys_sorted(ev)
    &&& forall|k: Seq<char>| has_key(ev, k) <==> gives_key(root, fs, k)
    &&& forall|a: int, w: int|
        0 <= a < ev.len() && #[trigger] is_winner_among(root, fs, fs.len() as int, ev[a].0, w)
            ==> ev[a].1 == loaded_text(fs[w])
}

proof fn lemma_before_order(fs: Seq<LoadedPrompt>, i: int, j: int, k: int)
    ensures
        !file_before(fs, i, i),
        file_before(fs, i, j) && file_before(fs, j, k) ==> file_before(fs, i, k),
        i != j ==> file_before(fs, i, j) || file_before(fs, j, i),
        file_before(fs, i, j) ==> !file_before(fs, j, i),
{
    let pi = path_view(fs[i].path);
    let pj = path_view(fs[j].path);
    let pk = path_view(fs[k].path);
    lemma_path_lt_irreflexive(pi);
    lemma_path_lt_total(pi, pj);
    if path_lt(pi, pj) {
        lemma_path_lt_asymmetric(pi, pj);
    }
    if path_lt(pj, pi) {
        lemma_path_lt_asymmetric(pj, pi);
    }
    if path_lt(pi, pj) && path_lt(pj, pk) {
        lemma_path_lt_transitive(pi, pj, pk);
    }
}

proof fn lemma_has_key_text(ev: Seq<(Seq<char>, Seq<char>)>, a: int)
    requires
        keys_sorted(ev),
        0 <= a < ev.len(),
    ensures
        has_key(ev, ev[a].0),
        prompt_text(ev, ev[a].0) == Some(ev[a].1),
{
    let k = ev[a].0;
    assert(ev[a].0 == k);
    assert(has_key(ev, k));
    let b = choose|b: int| 0 <= b < ev.len() && #[trigger] ev[b].0 == k;
    assert(0 <= b < ev.len() && ev[b].0 == k);
    lemma_text_lt_irreflexive(k);
    if b < a {
        assert(text_lt(ev[b].0, ev[a].0));
    } else if a < b {
        assert(text_lt(ev[a].0, ev[b].0));
    }
    assert(b == a);
}

/// The first file, in the order files are taken, that stops the loading.
fn first_failure(root: &PromptPath, files: &Vec<LoadedPrompt>) -> (r: Option<usize>)
    ensures
        match r {
            Some(b) => is_first_failure(path_view(*root), files@, b as int),
            None => !any_failure(path_view(*root), files@),
        },
{
    let ghost rv = path_view(*root);
    let ghost fs = files@;
    let mut best: Option<usize> = None;
    let mut i: usize = 0;
    while i < files.len()
        invariant
            i <= files.len(),
            fs == files@,
            rv == path_view(*root),
            match best {
                Some(b) => b < i && load_fails(rv, fs[b as int]) && forall|j: int|
                    0 <= j < i && j != b && #[trigger] load_fails(rv, fs[j]) ==> file_before(
                        fs,
                        b as int,
                        j,
                    ),
                None => forall|j: int| 0 <= j < i ==> !#[trigger] load_fails(rv, fs[j]),
            },
        decreases files.len() - i,
    {
        let key = path_to_prompt_key(root, &files[i].path);
        let fails = match (&key, &files[i].content) {
            (Ok(_), Ok(_)) => false,
            _ => true,
        };
        if fails {
            match best {
                None => {
                    best = Some(i);
                },
                Some(b) => {
                    let pb = component_chars(&files[b].path);
                    let pi = component_chars(&files[i].path);
                    let c = compare_path(&pi, &pb);
                    proof {
                        assert forall|j: int|
                            0 <= j < i + 1 && #[trigger] load_fails(rv, fs[j]) implies (c
                            == Comparison::Less ==> (j == i || file_before(fs, i as int, j))) && (c
                            != Comparison::Less ==> (j == b || file_before(fs, b as int, j))) by {
                            lemma_before_order(fs, i as int, b as int, j);
                            lemma_before_order(fs, b as int, i as int, j);
                        }
                    }
                    if c == Comparison::Less {
                        best = Some(i);
                    }
                },
            }
        }
        i = i + 1;
    }
    proof {
        match best {
            Some(b) => {},
            None => {
                assert forall|j: int| 0 <= j < fs.len() implies !load_fails(rv, fs[j]) by {}
            },
        }
    }
    best
}

/// One prompt of the table: its key and its text.
struct PromptEntry {
    key: String,
    text: String,
}

spec fn entry_views(es: Seq<PromptEntry>) -> Seq<(Seq<char>, Seq<char>)> {
    es.map_values(|e: PromptEntry| (e.key@, e.text@))
}

proof fn lemma_insert_sorted(ev: Seq<(Seq<char>, Seq<char>)>, p: int, e: (Seq<char>, Seq<char>))
    requires
        keys_sorted(ev),
        0 <= p <= ev.len(),
        forall|a: int| 0 <= a < p ==> text_lt(#[trigger] ev[a].0, e.0),
        p < ev.len() ==> text_lt(e.0, ev[p].0),
    ensures
        keys_sorted(ev.insert(p, e)),
{
    let ev2 = ev.insert(p, e);
    assert forall|a: int, b: int| 0 <= a < b < ev2.len() implies text_lt(
        #[trigger] ev2[a].0,
        #[trigger] ev2[b].0,
    ) by {
        if b < p {
            assert(ev2[a] == ev[a] && ev2[b] == ev[b]);
            assert(text_lt(ev[a].0, ev[b].0));
        } else if b == p {
            assert(ev2[a] == ev[a]);
        } else if a < p {
            assert(ev2[b] == ev[b - 1]);
            assert(ev2[a] == ev[a]);
            assert(text_lt(ev[a].0, ev[b - 1].0));
        } else if a == p {
            assert(ev2[b] == ev[b - 1]);
            if b - 1 > p {
                assert(text_lt(ev[p].0, ev[b - 1].0));
                lemma_text_lt_transitive(e.0, ev[p].0, ev[b - 1].0);
            }
        } else {
            assert(ev2[a] == ev[a - 1]);
            assert(ev2[b] == ev[b - 1]);
            assert(text_lt(ev[a - 1].0, ev[b - 1].0));
        }
    }
}

/// Where a key stands in a sorted table: the number of keys below it, and
/// whether the next key is the key itself.
fn locate(es: &Vec<PromptEntry>, k: &[char]) -> (r: (usize, bool))
    requires
        keys_sorted(entry_views(es@)),
    ensures
        r.0 <= es.len(),
        forall|a: int| 0 <= a < r.0 ==> text_lt(#[trigger] entry_views(es@)[a].0, k@),
        r.1 == (r.0 < es.len() && entry_views(es@)[r.0 as int].0 == k@),
        r.0 < es.len() && !r.1 ==> text_lt(k@, entry_views(es@)[r.0 as int].0),
        r.1 == has_key(entry_views(es@), k@),
{
    let ghost ev = entry_views(es@);
    let mut p: usize = 0;
    while p < es.len()
        invariant
            p <= es.len(),
            ev == entry_views(es@),
            keys_sorted(ev),
            forall|a: int| 0 <= a < p ==> text_lt(#[trigger] ev[a].0, k@),
        decreases es.len() - p,
    {
        let ek = chars_of(es[p].key.as_str());
        assert(ev[p as int].0 == ek@);
        let c = compare_text(ek.as_slice(), k);
        if c != Comparison::Less {
            let found = c == Comparison::Equal;
            proof {
                lemma_text_lt_irreflexive(k@);
                if found {
                    assert(ev[p as int].0 == k@);
                } else {
                    assert forall|a: int| 0 <= a < ev.len() implies #[trigger] ev[a].0 != k@ by {
                        if a > p {
                            assert(text_lt(ev[p as int].0, ev[a].0));
                            lemma_text_lt_transitive(k@, ev[p as int].0, ev[a].0);
                        } else if a < p {
                            assert(text_lt(ev[a].0, k@));
                        }
                    }
                }
            }
            return (p, found);
        }
        p = p + 1;
    }
    proof {
        lemma_text_lt_irreflexive(k@);
        assert forall|a: int| 0 <= a < ev.len() implies #[trigger] ev[a].0 != k@ by {
            assert(text_lt(ev[a].0, k@));
        }
    }
    (p, false)
}

/// What holds of the table after the first `n` files: sorted by key, each
/// entry holding the key and text of the winning file among the first `n`
/// that give its key, and every key those files give present.
spec fn table_inv(
    rv: Seq<Seq<char>>,
    fs: Seq<LoadedPrompt>,
    n: int,
    ev: Seq<(Seq<char>, Seq<char>)>,
    ws: Seq<usize>,
) -> bool {
    &&& ev.len() == ws.len()
    &&& keys_sorted(ev)
    &&& forall|a: int|
        0 <= a < ev.len() ==> #[trigger] is_winner_among(rv, fs, n, ev[a].0, ws[a] as int) && ev[a].1
            == loaded_text(fs[ws[a] as int])
    &&& forall|j: int| 0 <= j < n ==> has_key(ev, (#[trigger] file_key(rv, fs[j]))->Some_0)
}

/// A later file with a key already in the table replaces its entry.
proof fn lemma_table_replace(
    rv: Seq<Seq<char>>,
    fs: Seq<LoadedPrompt>,
    n: usize,
    ev: Seq<(Seq<char>, Seq<char>)>,
    ws: Seq<usize>,
    p: int,
    k: Seq<char>,
    t: Seq<char>,
)
    requires
        table_inv(rv, fs, n as int, ev, ws),
        n < fs.len(),
        file_key(rv, fs[n as int]) == Some(k),
        loaded_text(fs[n as int]) == t,
        0 <= p < ev.len(),
        ev[p].0 == k,
        file_before(fs, ws[p] as int, n as int),
    ensures
        table_inv(rv, fs, n + 1, ev.update(p, (k, t)), ws.update(p, n)),
{
    let ev2 = ev.update(p, (k, t));
    let ws2 = ws.update(p, n);
    let w = ws[p] as int;
    lemma_text_lt_irreflexive(k);
    assert(is_winner_among(rv, fs, n as int, ev[p].0, w));
    assert forall|a: int, b: int| 0 <= a < b < ev2.len() implies text_lt(
        #[trigger] ev2[a].0,
        #[trigger] ev2[b].0,
    ) by {
        assert(ev2[a].0 == ev[a].0 && ev2[b].0 == ev[b].0);
        assert(text_lt(ev[a].0, ev[b].0));
    }
    assert forall|a: int| 0 <= a < ev2.len() implies #[trigger] is_winner_among(
        rv,
        fs,
        n + 1,
        ev2[a].0,
        ws2[a] as int,
    ) && ev2[a].1 == loaded_text(fs[ws2[a] as int]) by {
        if a == p {
            assert forall|j: int|
                0 <= j < n + 1 && j != n && #[trigger] file_key(rv, fs[j]) == Some(k) implies file_before(
                fs,
                j,
                n as int,
            ) by {
                lemma_before_order(fs, j, w, n as int);
            }
        } else {
            assert(ev2[a].0 != k) by {
                if a < p {
                    assert(text_lt(ev[a].0, ev[p].0));
                } else {
                    assert(text_lt(ev[p].0, ev[a].0));
                }
            }
            assert(is_winner_among(rv, fs, n as int, ev[a].0, ws[a] as int));
        }
    }
    assert forall|j: int| 0 <= j < n + 1 implies has_key(ev2, (#[trigger] file_key(rv, fs[j]))->Some_0) by {
        if j < n {
            let x = file_key(rv, fs[j])->Some_0;
            assert(has_key(ev, x));
            let a = choose|a: int| 0 <= a < ev.len() && #[trigger] ev[a].0 == x;
            assert(ev2[a].0 == x);
        } else {
            assert(ev2[p].0 == k);
        }
    }
}

/// A later file with a key already in the table that comes before the
/// entry's winner leaves the table as it is.
proof fn lemma_table_keep(
    rv: Seq<Seq<char>>,
    fs: Seq<LoadedPrompt>,
    n: usize,
    ev: Seq<(Seq<char>, Seq<char>)>,
    ws: Seq<usize>,
    p: int,
    k: Seq<char>,
)
    requires
        table_inv(rv, fs, n as int, ev, ws),
        n < fs.len(),
        file_key(rv, fs[n as int]) == Some(k),
        0 <= p < ev.len(),
        ev[p].0 == k,
        file_before(fs, n as int, ws[p] as int),
    ensures
        table_inv(rv, fs, n + 1, ev, ws),
{
    let w = ws[p] as int;
    lemma_text_lt_irreflexive(k);
    assert(is_winner_among(rv, fs, n as int, ev[p].0, w));
    assert forall|a: int| 0 <= a < ev.len() implies #[trigger] is_winner_among(
        rv,
        fs,
        n + 1,
        ev[a].0,
        ws[a] as int,
    ) && ev[a].1 == loaded_text(fs[ws[a] as int]) by {
        if a == p {
            assert forall|j: int|
                0 <= j < n + 1 && j != w && #[trigger] file_key(rv, fs[j]) == Some(k) implies file_before(
                fs,
                j,
                w,
            ) by {}
        } else {
            assert(ev[a].0 != k) by {
                if a < p {
                    assert(text_lt(ev[a].0, ev[p].0));
                } else {
                    assert(text_lt(ev[p].0, ev[a].0));
                }
            }
            assert(is_winner_among(rv, fs, n as int, ev[a].0, ws[a] as int));
        }
    }
    assert forall|j: int| 0 <= j < n + 1 implies has_key(ev, (#[trigger] file_key(rv, fs[j]))->Some_0) by {
        if j == n {
            assert(ev[p].0 == k);
        }
    }
}

/// A file with a key not yet in the table adds it, in key order.
proof fn lemma_table_insert(
    rv: Seq<Seq<char>>,
    fs: Seq<LoadedPrompt>,
    n: usize,
    ev: Seq<(Seq<char>, Seq<char>)>,
    ws: Seq<usize>,
    p: int,
    k: Seq<char>,
    t: Seq<char>,
)
    requires
        table_inv(rv, fs, n as int, ev, ws),
        n < fs.len(),
        file_key(rv, fs[n as int]) == Some(k),
        loaded_text(fs[n as int]) == t,
        0 <= p <= ev.len(),
        forall|a: int| 0 <= a < p ==> text_lt(#[trigger] ev[a].0, k),
        p < ev.len() ==> text_lt(k, ev[p].0),
        !has_key(ev, k),
    ensures
        table_inv(rv, fs, n + 1, ev.insert(p, (k, t)), ws.insert(p, n)),
{
    let ev2 = ev.insert(p, (k, t));
    let ws2 = ws.insert(p, n);
    lemma_insert_sorted(ev, p, (k, t));
    assert forall|a: int| 0 <= a < ev.len() implies #[trigger] ev[a].0 != k by {
        assert(!has_key(ev, k));
    }
    assert forall|j: int| 0 <= j < n implies #[trigger] file_key(rv, fs[j]) != Some(k) by {
        let x = file_key(rv, fs[j])->Some_0;
        assert(has_key(ev, x));
    }
    assert forall|a: int| 0 <= a < ev2.len() implies #[trigger] is_winner_among(
        rv,
        fs,
        n + 1,
        ev2[a].0,
        ws2[a] as int,
    ) && ev2[a].1 == loaded_text(fs[ws2[a] as int]) by {
        if a < p {
            assert(ev2[a] == ev[a] && ws2[a] == ws[a]);
            assert(is_winner_among(rv, fs, n as int, ev[a].0, ws[a] as int));
        } else if a > p {
            assert(ev2[a] == ev[a - 1] && ws2[a] == ws[a - 1]);
            assert(is_winner_among(rv, fs, n as int, ev[a - 1].0, ws[a - 1] as int));
        } else {
            assert(ev2[a].0 == k && ws2[a] == n);
        }
    }
    assert forall|j: int| 0 <= j < n + 1 implies has_key(ev2, (#[trigger] file_key(rv, fs[j]))->Some_0) by {
        if j < n {
            let x = file_key(rv, fs[j])->Some_0;
            assert(has_key(ev, x));
            let a = choose|a: int| 0 <= a < ev.len() && #[trigger] ev[a].0 == x;
            if a < p {
                assert(ev2[a].0 == x);
            } else {
                assert(ev2[a + 1].0 == x);
            }
        } else {
            assert(ev2[p].0 == k);
        }
    }
}

/// After all files the invariant is the loading contract.
proof fn lemma_table_done(rv: Seq<Seq<char>>, fs: Seq<LoadedPrompt>, ev: Seq<(Seq<char>, Seq<char>)>, ws: Seq<usize>)
    requires
        table_inv(rv, fs, fs.len() as int, ev, ws),
    ensures
        loads_as(rv, fs, ev),
{
    assert forall|k: Seq<char>| has_key(ev, k) <==> gives_key(rv, fs, k) by {
        if has_key(ev, k) {
            let a = choose|a: int| 0 <= a < ev.len() && #[trigger] ev[a].0 == k;
            assert(is_winner_among(rv, fs, fs.len() as int, ev[a].0, ws[a] as int));
            assert(file_key(rv, fs[ws[a] as int]) == Some(k));
        }
        if gives_key(rv, fs, k) {
            let j = choose|j: int| 0 <= j < fs.len() && #[trigger] file_key(rv, fs[j]) == Some(k);
            assert(has_key(ev, file_key(rv, fs[j])->Some_0));
        }
    }
    assert forall|a: int, w: int|
        0 <= a < ev.len() && #[trigger] is_winner_among(rv, fs, fs.len() as int, ev[a].0, w) implies ev[a].1
        == loaded_text(fs[w]) by {
        let wa = ws[a] as int;
        assert(is_winner_among(rv, fs, fs.len() as int, ev[a].0, wa));
        if w != wa {
            assert(file_before(fs, w, wa));
            assert(file_before(fs, wa, w));
            lemma_before_order(fs, w, wa, w);
        }
    }
}

/// The table the files load as, when no file stops the loading.
#[verifier::spinoff_prover]
fn collect_prompts(root: &PromptPath, files: &Vec<LoadedPrompt>) -> (r: Vec<PromptEntry>)
    requires
        !any_failure(path_view(*root), files@),
    ensures
        loads_as(path_view(*root), files@, entry_views(r@)),
{
    let ghost rv = path_view(*root);
    let ghost fs = files@;
    let mut es: Vec<PromptEntry> = Vec::new();
    let mut winners: Vec<usize> = Vec::new();
    let mut n: usize = 0;
    while n < files.len()
        invariant
            n <= files.len(),
            fs == files@,
            rv == path_view(*root),
            !any_failure(rv, fs),
            table_inv(rv, fs, n as int, entry_views(es@), winners@),
        decreases files.len() - n,
    {
        let ghost ev = entry_views(es@);
        let ghost ws = winners@;
        assert(!load_fails(rv, fs[n as int]));
        let key = match path_to_prompt_key(root, &files[n].path) {
            Ok(k) => k,
            Err(_) => {
                return es;
            },
        };
        let text = match &files[n].content {
            Ok(t) => t.clone(),
            Err(_) => {
                return es;
            },
        };
        let ghost k = key@;
        assert(file_key(rv, fs[n as int]) == Some(k));
        assert(loaded_text(fs[n as int]) == text@);
        let kc = chars_of(key.as_str());
        let (p, found) = locate(&es, kc.as_slice());
        if found {
            let w = winners[p];
            assert(is_winner_among(rv, fs, n as int, ev[p as int].0, ws[p as int] as int));
            let pw = component_chars(&files[w].path);
            let pn = component_chars(&files[n].path);
            let c = compare_path(&pw, &pn);
            if c != Comparison::Greater {
                assert(file_before(fs, w as int, n as int));
                es.set(p, PromptEntry { key, text });
                winners.set(p, n);
                proof {
                    assert(entry_views(es@) =~= ev.update(p as int, (k, text@)));
                    assert(winners@ =~= ws.update(p as int, n));
                    lemma_table_replace(rv, fs, n, ev, ws, p as int, k, text@);
                }
            } else {
                proof {
                    assert(file_before(fs, n as int, w as int));
                    lemma_table_keep(rv, fs, n, ev, ws, p as int, k);
                }
            }
        } else {
            es.insert(p, PromptEntry { key, text });
            winners.insert(p, n);
            proof {
                assert(entry_views(es@) =~= ev.insert(p as int, (k, text@)));
                assert(winners@ =~= ws.insert(p as int, n));
                lemma_table_insert(rv, fs, n, ev, ws, p as int, k, text@);
            }
        }
        n = n + 1;
    }
    proof {
        lemma_table_done(rv, fs, entry_views(es@), winners@);
    }
    es
}

/// The table the files load as, or the error of the first file, in the
/// order files are taken, that stops the loading.
fn load_prompt_table(root: &PromptPath, files: &Vec<LoadedPrompt>) -> (r: Result<
    Vec<PromptEntry>,
    PromptStoreError,
>)
    ensures
        match r {
            Ok(es) => !any_failure(path_view(*root), files@) && loads_as(
                path_view(*root),
                files@,
                entry_views(es@),
            ),
            Err(e) => exists|i: int|
                is_first_failure(path_view(*root), files@, i) && #[trigger] failure_error(
                    path_view(*root),
                    files@[i],
                    e,
                ),
        },
{
    match first_failure(root, files) {
        Some(b) => {
            let f = &files[b];
            let e = match path_to_prompt_key(root, &f.path) {
                Err(e) => e,
                Ok(_) => match &f.content {
                    Err(m) => PromptStoreError::Io { path: f.path.display.clone(), message: m.clone() },
                    Ok(_) => PromptStoreError::InvalidPromptPath(f.path.display.clone()),
                },
            };
            assert(failure_error(path_view(*root), files@[b as int], e));
            Err(e)
        },
        None => Ok(collect_prompts(root, files)),
    }
}

/// What a load or a reload leaves: how many prompts there are and which
/// one is active.
#[derive(Debug)]
pub struct PromptReloadSummary {
    pub prompt_count: usize,
    pub active_prompt_key: Option<String>,
}

/// The state a store keeps: keys in increasing order, and an active key
/// that is one of them (none only when there are no prompts).
pub open spec fn store_state_ok(ev: Seq<(Seq<char>, Seq<char>)>, active: Option<Seq<char>>) -> bool {
    &&& keys_sorted(ev)
    &&& match active {
        Some(k) => has_key(ev, k),
        None => ev.len() == 0,
    }
}

/// The answer to a request for the system prompt: the requested key and
/// its text, refused (with the key) when no prompt has it; without a
/// request, the active key and its text, or nothing.
pub open spec fn resolution(
    ev: Seq<(Seq<char>, Seq<char>)>,
    active: Option<Seq<char>>,
    requested: Option<Seq<char>>,
) -> Result<(Option<Seq<char>>, Option<Seq<char>>), Seq<char>> {
    match requested {
        Some(k) => match prompt_text(ev, k) {
            Some(t) => Ok((Some(k), Some(t))),
            None => Err(k),
        },
        None => match active {
            Some(a) => match prompt_text(ev, a) {
                Some(t) => Ok((Some(a), Some(t))),
                None => Ok((None, None)),
            },
            None => Ok((None, None)),
        },
    }
}

/// The active key after a reload: the previous one if the new prompts
/// still have it, otherwise the first key.
pub open spec fn active_after_reload(
    ev: Seq<(Seq<char>, Seq<char>)>,
    previous: Option<Seq<char>>,
) -> Option<Seq<char>> {
    match previous {
        Some(p) => if has_key(ev, p) {
            Some(p)
        } else {
            first_key(ev)
        },
        None => first_key(ev),
    }
}

/// The prompts loaded from a directory, and the active one.
pub struct PromptStore {
    root_dir: PromptPath,
    prompts: Vec<PromptEntry>,
    active_prompt_key: Option<String>,
}

fn first_entry_key(es: &Vec<PromptEntry>) -> (r: Option<String>)
    ensures
        opt_string_view(r) == first_key(entry_views(es@)),
{
    if es.len() > 0 {
        Some(es[0].key.clone())
    } else {
        None
    }
}

fn clone_opt(o: &Option<String>) -> (r: Option<String>)
    ensures
        opt_string_view(r) == opt_string_view(*o),
{
    match o {
        Some(s) => Some(s.clone()),
        None => None,
    }
}

proof fn lemma_first_key_held(ev: Seq<(Seq<char>, Seq<char>)>)
    requires
        ev.len() > 0,
    ensures
        has_key(ev, ev[0].0),
{
    assert(ev[0].0 == ev[0].0);
}

proof fn lemma_failure_exists(root: Seq<Seq<char>>, fs: Seq<LoadedPrompt>, i: int)
    requires
        is_first_failure(root, fs, i),
    ensures
        any_failure(root, fs),
{
    assert(load_fails(root, fs[i]));
}

impl PromptStore {
    /// The prompts, by key in increasing order.
    pub closed spec fn table(&self) -> Seq<(Seq<char>, Seq<char>)> {
        entry_views(self.prompts@)
    }

    /// The active key.
    pub closed spec fn active(&self) -> Option<Seq<char>> {
        opt_string_view(self.active_prompt_key)
    }

    /// The prompt directory.
    pub closed spec fn root(&self) -> PromptPath {
        self.root_dir
    }

    /// The store's state is consistent.
    pub open spec fn valid(&self) -> bool {
        store_state_ok(self.table(), self.active())
    }

    /// Loads the prompt files found under `root_dir` and activates the
    /// preferred prompt, or the first one. Fails with the error of the first
    /// file, in path order, that gives no key or could not be read, or with
    /// `MissingPromptKey` when no prompt has the preferred key.
    pub fn load(
        root_dir: PromptPath,
        files: Vec<LoadedPrompt>,
        preferred_active_prompt: Option<String>,
    ) -> (r: Result<PromptStore, PromptStoreError>)
        ensures
            r is Ok <==> !any_failure(path_view(root_dir), files@) && match preferred_active_prompt {
                Some(p) => gives_key(path_view(root_dir), files@, p@),
                None => true,
            },
            match r {
                Ok(s) => {
                    &&& s.valid()
                    &&& s.root() == root_dir
                    &&& loads_as(path_view(root_dir), files@, s.table())
                    &&& s.active() == match preferred_active_prompt {
                        Some(p) => Some(p@),
                        None => first_key(s.table()),
                    }
                },
                Err(e) => if any_failure(path_view(root_dir), files@) {
                    exists|i: int|
                        is_first_failure(path_view(root_dir), files@, i) && #[trigger] failure_error(
                            path_view(root_dir),
                            files@[i],
                            e,
                        )
                } else {
                    preferred_active_prompt matches Some(p) && e matches PromptStoreError::MissingPromptKey(
                        m,
                    ) && m@ == p@
                },
            },
    {
        let prompts = match load_prompt_table(&root_dir, &files) {
            Ok(es) => es,
            Err(e) => {
                proof {
                    let i = choose|i: int|
                        is_first_failure(path_view(root_dir), files@, i) && #[trigger] failure_error(
                            path_view(root_dir),
                            files@[i],
                            e,
                        );
                    lemma_failure_exists(path_view(root_dir), files@, i);
                }
                return Err(e);
            },
        };
        let ghost ev = entry_views(prompts@);
        let active_prompt_key = match preferred_active_prompt {
            Some(preferred) => {
                let pc = chars_of(preferred.as_str());
                let (_, found) = locate(&prompts, pc.as_slice());
                if found {
                    Some(preferred)
                } else {
                    return Err(PromptStoreError::MissingPromptKey(preferred));
                }
            },
            None => {
                proof {
                    if ev.len() > 0 {
                        lemma_first_key_held(ev);
                    }
                }
                first_entry_key(&prompts)
            },
        };
        Ok(PromptStore { root_dir, prompts, active_prompt_key })
    }

    /// How many prompts there are and which one is active.
    pub fn summary(&self) -> (r: PromptReloadSummary)
        ensures
            r.prompt_count == self.table().len(),
            opt_string_view(r.active_prompt_key) == self.active(),
    {
        PromptReloadSummary {
            prompt_count: self.prompts.len(),
            active_prompt_key: clone_opt(&self.active_prompt_key),
        }
    }

    /// The prompt keys, in increasing order.
    pub fn list_prompt_keys(&self) -> (r: Vec<String>)
        ensures
            string_views(r@) == table_keys(self.table()),
    {
        let ghost ev = self.table();
        let mut r: Vec<String> = Vec::new();
        let mut i: usize = 0;
        while i < self.prompts.len()
            invariant
                i <= self.prompts.len(),
                ev == self.table(),
                string_views(r@) == table_keys(ev).take(i as int),
            decreases self.prompts.len() - i,
        {
            let ghost before = r@;
            let k = self.prompts[i].key.clone();
            r.push(k);
            assert(string_views(r@) =~= string_views(before).push(k@));
            assert(table_keys(ev).take(i + 1) =~= table_keys(ev).take(i as int).push(ev[i as int].0));
            i = i + 1;
        }
        assert(table_keys(ev).take(self.prompts.len() as int) =~= table_keys(ev));
        r
    }

    /// The active key, if any.
    pub fn active_prompt_key(&self) -> (r: Option<&str>)
        ensures
            match r {
                Some(k) => self.active() == Some(k@),
                None => self.active() is None,
            },
    {
        match &self.active_prompt_key {
            Some(k) => Some(k.as_str()),
            None => None,
        }
    }

    fn text_of(&self, key: &[char]) -> (r: Option<&String>)
        requires
            keys_sorted(self.table()),
        ensures
            match r {
                Some(t) => prompt_text(self.table(), key@) == Some(t@),
                None => prompt_text(self.table(), key@) is None,
            },
    {
        let (p, found) = locate(&self.prompts, key);
        if found {
            proof {
                lemma_has_key_text(self.table(), p as int);
            }
            Some(&self.prompts[p].text)
        } else {
            None
        }
    }

    /// A one-line preview of the active prompt, cut to `max_chars`
    /// characters.
    pub fn active_prompt_preview(&self, max_chars: usize) -> (r: Option<String>)
        requires
            self.valid(),
        ensures
            match self.active() {
                Some(k) => match prompt_text(self.table(), k) {
                    Some(t) => r matches Some(p) && p@ == preview(t, max_chars as nat),
                    None => r is None,
                },
                None => r is None,
            },
    {
        let active_key = match &self.active_prompt_key {
            Some(k) => k,
            None => {
                return None;
            },
        };
        let kc = chars_of(active_key.as_str());
        match self.text_of(kc.as_slice()) {
            Some(text) => Some(compact_preview(text.as_str(), max_chars)),
            None => None,
        }
    }

    /// Makes the prompt with the key the active one; refused with
    /// `MissingPromptKey` when no prompt has it.
    pub fn set_active_prompt(&mut self, key: &str) -> (r: Result<(), PromptStoreError>)
        requires
            old(self).valid(),
        ensures
            final(self).valid(),
            final(self).table() == old(self).table(),
            final(self).root() == old(self).root(),
            if has_key(old(self).table(), key@) {
                r is Ok && final(self).active() == Some(key@)
            } else {
                &&& final(self).active() == old(self).active()
                &&& r matches Err(PromptStoreError::MissingPromptKey(m)) && m@ == key@
            },
    {
        let kc = chars_of(key);
        let (_, found) = locate(&self.prompts, kc.as_slice());
        if !found {
            return Err(PromptStoreError::MissingPromptKey(string_from_chars(kc.as_slice())));
        }
        self.active_prompt_key = Some(string_from_chars(kc.as_slice()));
        Ok(())
    }

    /// The system prompt for a request: the requested prompt, or the
    /// active one when none is requested (see `resolution`).
    pub fn resolve_system_prompt(&self, requested_prompt_key: Option<&str>) -> (r: Result<
        (Option<String>, Option<String>),
        PromptStoreError,
    >)
        requires
            self.valid(),
        ensures
            match resolution(
                self.table(),
                self.active(),
                match requested_prompt_key {
                    Some(k) => Some(k@),
                    None => None,
                },
            ) {
                Ok((k, t)) => r matches Ok((rk, rt)) && opt_string_view(rk) == k && opt_string_view(
                    rt,
                ) == t,
                Err(m) => r matches Err(PromptStoreError::MissingPromptKey(x)) && x@ == m,
            },
    {
        if let Some(requested_key) = requested_prompt_key {
            let kc = chars_of(requested_key);
            return match self.text_of(kc.as_slice()) {
                Some(text) => Ok((Some(string_from_chars(kc.as_slice())), Some(text.clone()))),
                None => Err(PromptStoreError::MissingPromptKey(string_from_chars(kc.as_slice()))),
            };
        }
        let active_key = match &self.active_prompt_key {
            Some(k) => k,
            None => {
                return Ok((None, None));
            },
        };
        let kc = chars_of(active_key.as_str());
        match self.text_of(kc.as_slice()) {
            Some(text) => Ok((Some(active_key.clone()), Some(text.clone()))),
            None => Ok((None, None)),
        }
    }

    /// Loads the prompt files found again. The active key is kept if the
    /// new prompts still have it, otherwise the first key becomes active.
    /// On failure the store is left as it was.
    pub fn reload(&mut self, files: Vec<LoadedPrompt>) -> (r: Result<PromptReloadSummary, PromptStoreError>)
        requires
            old(self).valid(),
        ensures
            final(self).valid(),
            final(self).root() == old(self).root(),
            r is Ok <==> !any_failure(path_view(old(self).root()), files@),
            match r {
                Ok(summary) => {
                    &&& loads_as(path_view(old(self).root()), files@, final(self).table())
                    &&& final(self).active() == active_after_reload(
                        final(self).table(),
                        old(self).active(),
                    )
                    &&& summary.prompt_count == final(self).table().len()
                    &&& opt_string_view(summary.active_prompt_key) == final(self).active()
                },
                Err(e) => {
                    &&& final(self).table() == old(self).table()
                    &&& final(self).active() == old(self).active()
                    &&& exists|i: int|
                        is_first_failure(path_view(old(self).root()), files@, i)
                            && #[trigger] failure_error(path_view(old(self).root()), files@[i], e)
                },
            },
    {
        let prompts = match load_prompt_table(&self.root_dir, &files) {
            Ok(es) => es,
            Err(e) => {
                proof {
                    let i = choose|i: int|
                        is_first_failure(path_view(self.root_dir), files@, i)
                            && #[trigger] failure_error(path_view(self.root_dir), files@[i], e);
                    lemma_failure_exists(path_view(self.root_dir), files@, i);
                    assert(self.root() == old(self).root());
                    assert(is_first_failure(path_view(old(self).root()), files@, i)
                        && failure_error(path_view(old(self).root()), files@[i], e));
                }
                return Err(e);
            },
        };
        let ghost ev = entry_views(prompts@);
        let previous = clone_opt(&self.active_prompt_key);
        let active = match previous {
            Some(prev) => {
                let pc = chars_of(prev.as_str());
                let (_, found) = locate(&prompts, pc.as_slice());
                if found {
                    Some(prev)
                } else {
                    proof {
                        if ev.len() > 0 {
                            lemma_first_key_held(ev);
                        }
                    }
                    first_entry_key(&prompts)
                }
            },
            None => {
                proof {
                    if ev.len() > 0 {
                        lemma_first_key_held(ev);
                    }
                }
                first_entry_key(&prompts)
            },
        };
        self.prompts = prompts;
        self.active_prompt_key = active;
        Ok(self.summary())
    }

    /// The prompt directory.
    pub fn root_dir(&self) -> (r: &PromptPath)
        ensures
            *r == self.root(),
    {
        &self.root_dir
    }
}

/// Law: without a request, the store answers as it would to a request for
/// its active prompt.
pub proof fn lemma_unrequested_is_active(
    ev: Seq<(Seq<char>, Seq<char>)>,
    active: Seq<char>,
    other: Option<Seq<char>>,
)
    requires
        store_state_ok(ev, Some(active)),
    ensures
        resolution(ev, Some(active), None) == resolution(ev, other, Some(active)),
        resolution(ev, Some(active), None) is Ok,
{
    let a = choose|a: int| 0 <= a < ev.len() && #[trigger] ev[a].0 == active;
    lemma_has_key_text(ev, a);
}

/// Law: the prompt keys are listed in strictly increasing order, so no key
/// is listed twice.
pub proof fn lemma_keys_listed_in_order(ev: Seq<(Seq<char>, Seq<char>)>)
    requires
        keys_sorted(ev),
    ensures
        forall|a: int, b: int|
            0 <= a < b < ev.len() ==> text_lt(table_keys(ev)[a], table_keys(ev)[b])
                && table_keys(ev)[a] != table_keys(ev)[b],
{
    assert forall|a: int, b: int| 0 <= a < b < ev.len() implies text_lt(
        table_keys(ev)[a],
        table_keys(ev)[b],
    ) && table_keys(ev)[a] != table_keys(ev)[b] by {
        assert(text_lt(ev[a].0, ev[b].0));
        lemma_text_lt_irreflexive(ev[a].0);
    }
}

} // verus!
