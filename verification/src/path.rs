//! A model of Windows path syntax, following the rules of the Windows
//! `std::path` implementation: prefixes, roots, the final component
//! (`file_name`), the containing directory (`parent`), pushing a path onto
//! another (`join`) and the stem of a file name.
//!
//! A path may open with a prefix: a drive (`C:`), a UNC share
//! (`\\server\share`), a device (`\\.\COM1`), or a verbatim prefix
//! (`\\?\C:`, `\\?\UNC\server\share`, `\\?\anything`). Every prefix but a
//! bare drive carries an implied root. After the prefix, a separator forms
//! the root. Components are separated by `\` and `/`, and in verbatim paths
//! by `\` alone. Empty components are skipped, and `.` components too
//! outside verbatim paths.

use vstd::prelude::*;
use crate::text::{chars_of, push, push_chars, string_of_range};

verus! {

pub open spec fn is_separator(c: char) -> bool {
    c == '\\' || c == '/'
}

/// A separator in the component syntax of a path: only `\` in verbatim paths.
pub open spec fn is_separator_in(c: char, verbatim: bool) -> bool {
    if verbatim {
        c == '\\'
    } else {
        is_separator(c)
    }
}

pub open spec fn is_ascii_letter(c: char) -> bool {
    ('a' <= c && c <= 'z') || ('A' <= c && c <= 'Z')
}

/// Index of the first separator of `s` at or after `i`, or the length of `s`.
pub open spec fn sep_from(s: Seq<char>, i: int, verbatim: bool) -> int
    decreases s.len() - i,
{
    if i < 0 || i >= s.len() {
        s.len() as int
    } else if is_separator_in(s[i], verbatim) {
        i
    } else {
        sep_from(s, i + 1, verbatim)
    }
}

/// The path opens with `\\?\`.
pub open spec fn is_verbatim(p: Seq<char>) -> bool {
    p.len() >= 4 && p[0] == '\\' && p[1] == '\\' && p[2] == '?' && p[3] == '\\'
}

/// The path opens with `\\.\`.
pub open spec fn is_device(p: Seq<char>) -> bool {
    p.len() >= 4 && p[0] == '\\' && p[1] == '\\' && p[2] == '.' && p[3] == '\\'
}

/// The path opens with `\\?\UNC\`.
pub open spec fn is_verbatim_unc(p: Seq<char>) -> bool {
    is_verbatim(p) && p.len() >= 8 && p[4] == 'U' && p[5] == 'N' && p[6] == 'C' && p[7] == '\\'
}

/// The path opens with `\\`.
pub open spec fn opens_with_two_backslashes(p: Seq<char>) -> bool {
    p.len() >= 2 && p[0] == '\\' && p[1] == '\\'
}

/// The path opens with a drive designator such as `C:`.
pub open spec fn is_disk(p: Seq<char>) -> bool {
    !opens_with_two_backslashes(p) && p.len() >= 2 && is_ascii_letter(p[0]) && p[1] == ':'
}

/// Length of the prefix of `p`; 0 when it has none.
/// - `\\?\UNC\server\share`: up to the end of the share (of the server
///   when the share is empty);
/// - `\\?\X:`: 6; other `\\?\x`: up to the end of `x`;
/// - `\\.\x`: up to the end of `x`;
/// - `\\server\share`: up to the end of the share, when both are non-empty;
/// - `X:`: 2.
pub open spec fn prefix_len(p: Seq<char>) -> int {
    if opens_with_two_backslashes(p) {
        if is_verbatim(p) {
            if is_verbatim_unc(p) {
                let a = sep_from(p, 8, true);
                if a >= p.len() {
                    a
                } else {
                    let b = sep_from(p, a + 1, true);
                    if b == a + 1 {
                        a
                    } else {
                        b
                    }
                }
            } else {
                let a = sep_from(p, 4, true);
                if a == 6 && is_ascii_letter(p[4]) && p[5] == ':' {
                    6
                } else {
                    a
                }
            }
        } else if is_device(p) {
            sep_from(p, 4, false)
        } else {
            let a = sep_from(p, 2, false);
            if a > 2 && a < p.len() {
                let b = sep_from(p, a + 1, false);
                if b > a + 1 {
                    b
                } else {
                    0
                }
            } else {
                0
            }
        }
    } else if is_disk(p) {
        2
    } else {
        0
    }
}

/// The prefix, if any, is a bare drive designator (which has no implied root).
pub open spec fn has_disk_prefix(p: Seq<char>) -> bool {
    is_disk(p)
}

/// Length of the prefix together with the separator that forms the root, if any.
pub open spec fn root_len(p: Seq<char>) -> int {
    if prefix_len(p) < p.len() && is_separator(p[prefix_len(p)]) {
        prefix_len(p) + 1
    } else {
        prefix_len(p)
    }
}

/// 1 when a path without prefix or root opens with a `.` component, else 0.
pub open spec fn cur_dir_len(p: Seq<char>) -> int {
    if prefix_len(p) == 0 && root_len(p) == 0 && p.len() >= 1 && p[0] == '.' && (p.len() == 1
        || is_separator(p[1])) {
        1
    } else {
        0
    }
}

/// A component that names something: not empty, and not `.` outside verbatim paths.
pub open spec fn is_named(c: Seq<char>, verbatim: bool) -> bool {
    c.len() > 0 && (verbatim || c != seq!['.'])
}

/// Reads `s` backwards; `cur` holds the characters, already read, of the
/// component being read. Yields the last named component.
pub open spec fn last_named_from(s: Seq<char>, cur: Seq<char>, verbatim: bool) -> Option<
    Seq<char>,
>
    decreases s.len(),
{
    if s.len() == 0 {
        if is_named(cur, verbatim) {
            Some(cur)
        } else {
            None
        }
    } else if is_separator_in(s.last(), verbatim) {
        if is_named(cur, verbatim) {
            Some(cur)
        } else {
            last_named_from(s.drop_last(), seq![], verbatim)
        }
    } else {
        last_named_from(s.drop_last(), seq![s.last()] + cur, verbatim)
    }
}

/// The last named component of `s` (the text of a path after its root).
pub open spec fn last_named(s: Seq<char>, verbatim: bool) -> Option<Seq<char>> {
    last_named_from(s, seq![], verbatim)
}

/// Reads `s` backwards like `last_named_from`; yields the text of `s` that
/// comes before the last named component.
pub open spec fn before_named_from(s: Seq<char>, cur: Seq<char>, verbatim: bool) -> Option<
    Seq<char>,
>
    decreases s.len(),
{
    if s.len() == 0 {
        if is_named(cur, verbatim) {
            Some(s)
        } else {
            None
        }
    } else if is_separator_in(s.last(), verbatim) {
        if is_named(cur, verbatim) {
            Some(s)
        } else {
            before_named_from(s.drop_last(), seq![], verbatim)
        }
    } else {
        before_named_from(s.drop_last(), seq![s.last()] + cur, verbatim)
    }
}

/// The text of `p` after its prefix and root.
pub open spec fn body(p: Seq<char>) -> Seq<char> {
    p.skip(root_len(p))
}

/// The final component of a path, as `Path::file_name` gives it: `None`
/// when the path has no component after its prefix and root, or when the
/// last one is `.` or `..`.
pub open spec fn spec_file_name(p: Seq<char>) -> Option<Seq<char>> {
    match last_named(body(p), is_verbatim(p)) {
        Some(c) => if c == seq!['.'] || c == seq!['.', '.'] {
            None
        } else {
            Some(c)
        },
        None => None,
    }
}

/// Whether `base` needs a separator before a relative path is pushed: it
/// is not empty, does not end in a separator and is not a bare drive.
pub open spec fn needs_separator(base: Seq<char>) -> bool {
    base.len() > 0 && !is_separator(base.last()) && !(has_disk_prefix(base) && base.len() == 2)
}

/// `base` with `name` pushed onto it, as `PathBuf::push` does: a name with
/// a prefix replaces `base`; a name that starts with a separator keeps only
/// the prefix of `base`; otherwise the name is appended, after a `\` where
/// `base` needs one. (For a verbatim `base`, `PathBuf::push` first rebuilds
/// it from its components; that agrees with appending to it whenever the
/// base holds no empty or `.` components.)
pub open spec fn spec_join(base: Seq<char>, name: Seq<char>) -> Seq<char> {
    if prefix_len(name) > 0 {
        name
    } else if name.len() > 0 && is_separator(name[0]) {
        base.take(prefix_len(base)) + name
    } else if needs_separator(base) {
        base.push('\\') + name
    } else {
        base + name
    }
}

/// `s` without trailing empty components, and without trailing `.`
/// components outside verbatim paths, never shorter than `floor`.
pub open spec fn trim_tail(s: Seq<char>, floor: int, verbatim: bool) -> Seq<char>
    decreases s.len(),
{
    if s.len() <= floor || s.len() == 0 {
        s
    } else if is_separator_in(s.last(), verbatim) {
        trim_tail(s.drop_last(), floor, verbatim)
    } else if !verbatim && s.last() == '.' && (s.len() - 1 == floor || (s.len() >= 2
        && is_separator(s[s.len() - 2]))) {
        trim_tail(s.drop_last(), floor, verbatim)
    } else {
        s
    }
}

/// The path without its final component, as `Path::parent` gives it:
/// `None` when the path has no component after its prefix and root, and
/// the empty path for a lone `.`.
pub open spec fn spec_parent(p: Seq<char>) -> Option<Seq<char>> {
    match before_named_from(body(p), seq![], is_verbatim(p)) {
        Some(b) => Some(
            trim_tail(p.take(root_len(p) + b.len()), root_len(p) + cur_dir_len(p), is_verbatim(p)),
        ),
        None => if cur_dir_len(p) == 1 {
            Some(seq![])
        } else {
            None
        },
    }
}

/// Index of the last `.` in `n`, or -1.
pub open spec fn last_dot(n: Seq<char>) -> int
    decreases n.len(),
{
    if n.len() == 0 {
        -1
    } else if n.last() == '.' {
        n.len() - 1
    } else {
        last_dot(n.drop_last())
    }
}

/// The stem of a file name: the text before its last `.`, unless the
/// name has no `.` or its only `.` leads it.
pub open spec fn stem_of(n: Seq<char>) -> Seq<char> {
    if last_dot(n) <= 0 {
        n
    } else {
        n.take(last_dot(n))
    }
}

/// The stem of the final component, as `Path::file_stem` gives it.
pub open spec fn spec_file_stem(p: Seq<char>) -> Option<Seq<char>> {
    match spec_file_name(p) {
        Some(n) => Some(stem_of(n)),
        None => None,
    }
}

pub open spec fn opt_view(o: Option<String>) -> Option<Seq<char>> {
    match o {
        Some(s) => Some(s@),
        None => None,
    }
}

fn is_sep(c: char) -> (b: bool)
    ensures
        b == is_separator(c),
{
    c == '\\' || c == '/'
}

fn is_sep_in(c: char, verbatim: bool) -> (b: bool)
    ensures
        b == is_separator_in(c, verbatim),
{
    if verbatim {
        c == '\\'
    } else {
        c == '\\' || c == '/'
    }
}

fn is_letter(c: char) -> (b: bool)
    ensures
        b == is_ascii_letter(c),
{
    ('a' <= c && c <= 'z') || ('A' <= c && c <= 'Z')
}

/// Index of the first separator of `v` at or after `i`, or its length.
fn sep_index(v: &Vec<char>, i: usize, verbatim: bool) -> (r: usize)
    requires
        i <= v@.len(),
    ensures
        r == sep_from(v@, i as int, verbatim),
        i <= r <= v@.len(),
    decreases v@.len() - i,
{
    if i >= v.len() {
        v.len()
    } else if is_sep_in(v[i], verbatim) {
        i
    } else {
        sep_index(v, i + 1, verbatim)
    }
}

fn verbatim_path(v: &Vec<char>) -> (b: bool)
    ensures
        b == is_verbatim(v@),
{
    v.len() >= 4 && v[0] == '\\' && v[1] == '\\' && v[2] == '?' && v[3] == '\\'
}

fn disk_path(v: &Vec<char>) -> (b: bool)
    ensures
        b == is_disk(v@),
{
    !(v.len() >= 2 && v[0] == '\\' && v[1] == '\\') && v.len() >= 2 && is_letter(v[0]) && v[1]
        == ':'
}

fn prefix_length(v: &Vec<char>) -> (n: usize)
    ensures
        n == prefix_len(v@),
        n <= v@.len(),
{
    if v.len() >= 2 && v[0] == '\\' && v[1] == '\\' {
        if verbatim_path(v) {
            if v.len() >= 8 && v[4] == 'U' && v[5] == 'N' && v[6] == 'C' && v[7] == '\\' {
                let a = sep_index(v, 8, true);
                if a >= v.len() {
                    a
                } else {
                    let b = sep_index(v, a + 1, true);
                    if b == a + 1 {
                        a
                    } else {
                        b
                    }
                }
            } else {
                let a = sep_index(v, 4, true);
                if a == 6 && is_letter(v[4]) && v[5] == ':' {
                    6
                } else {
                    a
                }
            }
        } else if v.len() >= 4 && v[2] == '.' && v[3] == '\\' {
            sep_index(v, 4, false)
        } else {
            let a = sep_index(v, 2, false);
            if a > 2 && a < v.len() {
                let b = sep_index(v, a + 1, false);
                if b > a + 1 {
                    b
                } else {
                    0
                }
            } else {
                0
            }
        }
    } else if disk_path(v) {
        2
    } else {
        0
    }
}

fn root_length(v: &Vec<char>) -> (n: usize)
    ensures
        n == root_len(v@),
        n <= v@.len(),
{
    let p = prefix_length(v);
    if p < v.len() && is_sep(v[p]) {
        p + 1
    } else {
        p
    }
}

fn cur_dir_length(v: &Vec<char>) -> (n: usize)
    ensures
        n == cur_dir_len(v@),
{
    if prefix_length(v) == 0 && root_length(v) == 0 && v.len() >= 1 && v[0] == '.' && (v.len()
        == 1 || is_sep(v[1])) {
        1
    } else {
        0
    }
}

/// Whether `v[a..b]` is a named component.
fn named_range(v: &Vec<char>, a: usize, b: usize, verbatim: bool) -> (r: bool)
    requires
        a <= b <= v@.len(),
    ensures
        r == is_named(v@.subrange(a as int, b as int), verbatim),
{
    let ghost cur = v@.subrange(a as int, b as int);
    let ghost dot: Seq<char> = seq!['.'];
    if b == a {
        false
    } else if verbatim {
        true
    } else if b == a + 1 {
        if v[a] == '.' {
            assert(cur =~= dot);
            false
        } else {
            assert(cur[0] != dot[0]);
            true
        }
    } else {
        assert(cur.len() != dot.len());
        true
    }
}

/// Bounds of the last named component of `v[lo..]`.
fn last_named_range(v: &Vec<char>, lo: usize, verbatim: bool) -> (r: Option<(usize, usize)>)
    requires
        lo <= v@.len(),
    ensures
        match r {
            None => {
                &&& last_named(v@.subrange(lo as int, v@.len() as int), verbatim) is None
                &&& before_named_from(v@.subrange(lo as int, v@.len() as int), seq![], verbatim) is None
            },
            Some((a, b)) => {
                &&& lo <= a < b <= v@.len()
                &&& last_named(v@.subrange(lo as int, v@.len() as int), verbatim) == Some(
                    v@.subrange(a as int, b as int),
                )
                &&& before_named_from(v@.subrange(lo as int, v@.len() as int), seq![], verbatim)
                    == Some(v@.subrange(lo as int, a as int))
            },
        },
{
    let ghost whole = v@.subrange(lo as int, v@.len() as int);
    let mut i: usize = v.len();
    let mut end: usize = v.len();
    assert(v@.subrange(i as int, end as int) =~= seq![]);
    while i > lo
        invariant
            lo <= i <= end <= v@.len(),
            whole == v@.subrange(lo as int, v@.len() as int),
            last_named(whole, verbatim) == last_named_from(
                v@.subrange(lo as int, i as int),
                v@.subrange(i as int, end as int),
                verbatim,
            ),
            before_named_from(whole, seq![], verbatim) == before_named_from(
                v@.subrange(lo as int, i as int),
                v@.subrange(i as int, end as int),
                verbatim,
            ),
        decreases i,
    {
        let c = v[i - 1];
        let ghost s = v@.subrange(lo as int, i as int);
        let ghost cur = v@.subrange(i as int, end as int);
        assert(s.last() == c);
        assert(s.drop_last() =~= v@.subrange(lo as int, i - 1));
        if is_sep_in(c, verbatim) {
            let named = named_range(v, i, end, verbatim);
            if named {
                return Some((i, end));
            }
            i = i - 1;
            end = i;
            assert(v@.subrange(i as int, end as int) =~= seq![]);
        } else {
            assert(seq![c] + cur =~= v@.subrange(i - 1, end as int));
            i = i - 1;
        }
    }
    assert(v@.subrange(lo as int, i as int).len() == 0);
    let named = named_range(v, i, end, verbatim);
    if named {
        Some((i, end))
    } else {
        None
    }
}

/// No character of `c` is a separator of either kind.
pub open spec fn no_separator(c: Seq<char>) -> bool {
    forall|i: int| 0 <= i < c.len() ==> !is_separator(#[trigger] c[i])
}

proof fn lemma_sep_from_bounds(s: Seq<char>, i: int, verbatim: bool)
    requires
        0 <= i,
    ensures
        i <= s.len() ==> i <= sep_from(s, i, verbatim) <= s.len(),
        i > s.len() ==> sep_from(s, i, verbatim) == s.len(),
    decreases s.len() - i,
{
    if i < s.len() && !is_separator_in(s[i], verbatim) {
        lemma_sep_from_bounds(s, i + 1, verbatim);
    }
}

/// A prefix lies within its path, and a verbatim prefix is at least `\\?\`.
proof fn lemma_prefix_bounds(p: Seq<char>)
    ensures
        0 <= prefix_len(p) <= p.len(),
        is_verbatim(p) ==> prefix_len(p) >= 4,
{
    lemma_sep_from_bounds(p, 2, false);
    lemma_sep_from_bounds(p, 4, false);
    lemma_sep_from_bounds(p, 4, true);
    lemma_sep_from_bounds(p, 8, true);
    let a8 = sep_from(p, 8, true);
    if 0 <= a8 + 1 {
        lemma_sep_from_bounds(p, a8 + 1, true);
    }
    let a2 = sep_from(p, 2, false);
    if 0 <= a2 + 1 {
        lemma_sep_from_bounds(p, a2 + 1, false);
    }
}

/// A component found by `last_named_from` is named and holds no separator
/// of the path's kind.
proof fn lemma_last_named_shape(s: Seq<char>, cur: Seq<char>, verbatim: bool)
    requires
        forall|i: int| 0 <= i < cur.len() ==> !is_separator_in(#[trigger] cur[i], verbatim),
    ensures
        last_named_from(s, cur, verbatim) matches Some(c) ==> is_named(c, verbatim) && (forall|
            i: int,
        | 0 <= i < c.len() ==> !is_separator_in(#[trigger] c[i], verbatim)),
    decreases s.len(),
{
    if s.len() > 0 {
        if is_separator_in(s.last(), verbatim) {
            if !is_named(cur, verbatim) {
                lemma_last_named_shape(s.drop_last(), seq![], verbatim);
            }
        } else {
            let next = seq![s.last()] + cur;
            assert forall|i: int| 0 <= i < next.len() implies !is_separator_in(
                #[trigger] next[i],
                verbatim,
            ) by {
                if i > 0 {
                    assert(next[i] == cur[i - 1]);
                }
            }
            lemma_last_named_shape(s.drop_last(), next, verbatim);
        }
    }
}

/// Reading `head + name.take(k)` backwards with `name.skip(k)` already read
/// ends on `name`, when `head` is empty or ends in a separator.
proof fn lemma_last_named_after_head(head: Seq<char>, name: Seq<char>, k: int, verbatim: bool)
    requires
        0 <= k <= name.len(),
        head.len() == 0 || is_separator_in(head.last(), verbatim),
        is_named(name, verbatim),
        no_separator(name),
    ensures
        last_named_from(head + name.take(k), name.skip(k), verbatim) == Some(name),
    decreases k,
{
    if k == 0 {
        assert(head + name.take(0) =~= head);
        assert(name.skip(0) =~= name);
    } else {
        let t = head + name.take(k);
        assert(t.last() == name[k - 1]);
        assert(t.drop_last() =~= head + name.take(k - 1));
        assert(seq![t.last()] + name.skip(k) =~= name.skip(k - 1));
        lemma_last_named_after_head(head, name, k - 1, verbatim);
    }
}

/// The last named component of `head + name` is `name`.
proof fn lemma_last_named_of_suffix(head: Seq<char>, name: Seq<char>, verbatim: bool)
    requires
        head.len() == 0 || is_separator_in(head.last(), verbatim),
        is_named(name, verbatim),
        no_separator(name),
    ensures
        last_named(head + name, verbatim) == Some(name),
{
    lemma_last_named_after_head(head, name, name.len() as int, verbatim);
    assert(name.take(name.len() as int) =~= name);
    assert(name.skip(name.len() as int) =~= seq![]);
}

/// Pushing a file name onto a directory gives a path whose file name is
/// that name. This holds unless the name holds a `/` (possible only for a
/// verbatim source), the name itself opens with a prefix (`C:x`), the
/// directory is an unfinished prefix that the name would complete
/// (`\\server`, `\\?\UNC\server\`), or the directory is verbatim and ends
/// in `/`.
pub proof fn lemma_join_file_name(base: Seq<char>, source: Seq<char>)
    requires
        spec_file_name(source) is Some,
        no_separator(spec_file_name(source).unwrap()),
        prefix_len(spec_file_name(source).unwrap()) == 0,
        prefix_len(spec_join(base, spec_file_name(source).unwrap())) == prefix_len(base),
        !(is_verbatim(base) && base.last() == '/'),
    ensures
        spec_file_name(spec_join(base, spec_file_name(source).unwrap())) == spec_file_name(source),
{
    let name = spec_file_name(source).unwrap();
    let vs = is_verbatim(source);
    lemma_last_named_shape(body(source), seq![], vs);
    assert(name.len() > 0);
    assert(name != seq!['.']);
    let joined = spec_join(base, name);
    let head = if needs_separator(base) {
        base.push('\\')
    } else {
        base
    };
    assert(!is_separator(name[0]));
    assert(joined =~= head + name);
    lemma_prefix_bounds(base);
    lemma_prefix_bounds(joined);
    let pl = prefix_len(base);
    let v = is_verbatim(base);
    if base.len() >= 4 {
        assert(joined[0] == base[0] && joined[1] == base[1] && joined[2] == base[2] && joined[3]
            == base[3]);
    }
    assert(is_verbatim(joined) == v);
    let rl = root_len(joined);
    if pl < base.len() {
        assert(joined[pl] == base[pl]);
        assert(rl == root_len(base));
    } else if needs_separator(base) {
        assert(joined[pl] == '\\');
        assert(rl == pl + 1);
    } else {
        assert(joined[pl] == name[0]);
        assert(rl == pl);
    }
    assert(rl <= head.len());
    let x = head.skip(rl);
    assert(joined.skip(rl) =~= x + name);
    if x.len() > 0 {
        assert(x.last() == head.last());
        if !needs_separator(base) {
            assert(base.len() > 0);
            if has_disk_prefix(base) && base.len() == 2 {
                assert(pl == 2);
            }
            assert(is_separator(base.last()));
        }
        assert(is_separator_in(x.last(), v));
    }
    assert(is_named(name, v));
    lemma_last_named_of_suffix(x, name, v);
}

/// The final component of `path`.
pub fn file_name(path: &str) -> (r: Option<String>)
    ensures
        opt_view(r) == spec_file_name(path@),
{
    let v = chars_of(path);
    let lo = root_length(&v);
    let verbatim = verbatim_path(&v);
    assert(v@.skip(lo as int) =~= v@.subrange(lo as int, v@.len() as int));
    match last_named_range(&v, lo, verbatim) {
        None => None,
        Some((a, b)) => {
            let ghost comp = v@.subrange(a as int, b as int);
            let ghost dot: Seq<char> = seq!['.'];
            let ghost dots: Seq<char> = seq!['.', '.'];
            if b - a == 2 && v[a] == '.' && v[a + 1] == '.' {
                assert(comp =~= dots);
                None
            } else if b - a == 1 && v[a] == '.' {
                assert(comp =~= dot);
                None
            } else {
                assert(comp != dots) by {
                    if comp.len() == 2 {
                        if comp[0] == '.' {
                            assert(comp[1] != dots[1]);
                        } else {
                            assert(comp[0] != dots[0]);
                        }
                    }
                }
                assert(comp != dot) by {
                    if comp.len() == 1 {
                        assert(comp[0] != dot[0]);
                    }
                }
                Some(string_of_range(&v, a, b))
            }
        },
    }
}

/// `base` with `name` pushed onto it.
pub fn join(base: &str, name: &str) -> (r: String)
    ensures
        r@ == spec_join(base@, name@),
{
    let b = chars_of(base);
    let n = chars_of(name);
    let mut out = String::new();
    if prefix_length(&n) > 0 {
        push_chars(&mut out, &n);
    } else if n.len() > 0 && is_sep(n[0]) {
        let pl = prefix_length(&b);
        let head = string_of_range(&b, 0, pl);
        assert(b@.subrange(0, pl as int) =~= b@.take(pl as int));
        out = head;
        push_chars(&mut out, &n);
    } else {
        push_chars(&mut out, &b);
        let needs = b.len() > 0 && !is_sep(b[b.len() - 1]) && !(disk_path(&b) && b.len() == 2);
        if needs {
            push(&mut out, '\\');
        }
        push_chars(&mut out, &n);
    }
    assert(out@ =~= spec_join(base@, name@));
    out
}

/// `v[0..n]` trimmed as `trim_tail` trims it.
fn trimmed_len(v: &Vec<char>, n: usize, floor: usize, verbatim: bool) -> (m: usize)
    requires
        n <= v@.len(),
    ensures
        m <= n,
        v@.take(m as int) == trim_tail(v@.take(n as int), floor as int, verbatim),
    decreases n,
{
    if n <= floor || n == 0 {
        n
    } else if is_sep_in(v[n - 1], verbatim) {
        assert(v@.take(n as int).drop_last() =~= v@.take(n - 1));
        trimmed_len(v, n - 1, floor, verbatim)
    } else if !verbatim && v[n - 1] == '.' && (n - 1 == floor || (n >= 2 && is_sep(v[n - 2]))) {
        assert(v@.take(n as int).drop_last() =~= v@.take(n - 1));
        trimmed_len(v, n - 1, floor, verbatim)
    } else {
        n
    }
}

/// The directory that contains `path`.
pub fn parent(path: &str) -> (r: Option<String>)
    ensures
        opt_view(r) == spec_parent(path@),
{
    let v = chars_of(path);
    let lo = root_length(&v);
    let verbatim = verbatim_path(&v);
    assert(v@.skip(lo as int) =~= v@.subrange(lo as int, v@.len() as int));
    match last_named_range(&v, lo, verbatim) {
        None => {
            if cur_dir_length(&v) == 1 {
                Some(String::new())
            } else {
                None
            }
        },
        Some((a, _b)) => {
            let floor = lo + cur_dir_length(&v);
            let m = trimmed_len(&v, a, floor, verbatim);
            assert(v@.subrange(0, m as int) =~= v@.take(m as int));
            assert(v@.subrange(lo as int, a as int).len() + lo == a);
            Some(string_of_range(&v, 0, m))
        },
    }
}

/// Index of the last `.` in `v[0..n]`, or `None`.
fn last_dot_index(v: &Vec<char>, n: usize) -> (r: Option<usize>)
    requires
        n <= v@.len(),
    ensures
        match r {
            None => last_dot(v@.take(n as int)) == -1,
            Some(k) => k < n && last_dot(v@.take(n as int)) == k,
        },
    decreases n,
{
    if n == 0 {
        None
    } else if v[n - 1] == '.' {
        Some(n - 1)
    } else {
        assert(v@.take(n as int).drop_last() =~= v@.take(n - 1));
        last_dot_index(v, n - 1)
    }
}

/// The stem of the final component of `path`.
pub fn file_stem(path: &str) -> (r: Option<String>)
    ensures
        opt_view(r) == spec_file_stem(path@),
{
    match file_name(path) {
        None => None,
        Some(name) => {
            let v = chars_of(name.as_str());
            assert(v@.take(v@.len() as int) =~= v@);
            match last_dot_index(&v, v.len()) {
                Some(k) => {
                    if k == 0 {
                        Some(name)
                    } else {
                        assert(v@.subrange(0, k as int) =~= v@.take(k as int));
                        Some(string_of_range(&v, 0, k))
                    }
                },
                None => Some(name),
            }
        },
    }
}

} // verus!
