//! Paths as the names they consist of. Two paths that differ only in repeated
//! or closing slashes, or in names that stand for where one is, are the same.
use crate::text::{
    chars_of, find_char, lemma_find_char, lemma_views_push, same_text, string_of, views,
};
use vstd::prelude::*;
use vstd::string::*;

verus! {

/// Whether the first character of `s` belongs to no name: it is a slash, or a
/// dot that is a name by itself.
pub open spec fn is_idle(s: Seq<char>) -> bool {
    &&& s.len() > 0
    &&& s[0] == '/' || (s[0] == '.' && (s.len() == 1 || s[1] == '/'))
}

/// The names in a path.
pub open spec fn names(s: Seq<char>) -> Seq<Seq<char>>
    decreases s.len(),
    via names_decreases
{
    if s.len() == 0 {
        Seq::empty()
    } else if is_idle(s) {
        names(s.skip(1))
    } else {
        let k = find_char(s, '/');
        seq![s.take(k)] + names(s.skip(k))
    }
}

#[via_fn]
proof fn names_decreases(s: Seq<char>) {
    lemma_find_char(s, '/');
}

/// How a path begins, if not with a name: at the root, or explicitly where one is.
pub open spec fn lead(p: Seq<char>) -> Seq<char> {
    if is_idle(p) {
        p.take(1)
    } else {
        Seq::empty()
    }
}

/// What a path consists of: how it begins, and its names.
pub open spec fn parts(p: Seq<char>) -> Seq<Seq<char>> {
    if is_idle(p) {
        seq![lead(p)] + names(p)
    } else {
        names(p)
    }
}

/// What is left of a path behind its first `n` names and the slashes there.
pub open spec fn behind(s: Seq<char>, n: nat) -> Seq<char>
    decreases s.len(),
    via behind_decreases
{
    if s.len() == 0 {
        s
    } else if is_idle(s) {
        behind(s.skip(1), n)
    } else if n == 0 {
        s
    } else {
        behind(s.skip(find_char(s, '/')), (n - 1) as nat)
    }
}

#[via_fn]
proof fn behind_decreases(s: Seq<char>, n: nat) {
    lemma_find_char(s, '/');
}

/// A path without the slashes, and the dots that are names by themselves, at its end.
pub open spec fn unclosed(s: Seq<char>) -> Seq<char>
    decreases s.len(),
{
    if s.len() > 0 && (s.last() == '/' || (s.last() == '.' && (s.len() == 1 || s[s.len() - 2]
        == '/'))) {
        unclosed(s.drop_last())
    } else {
        s
    }
}

/// The path that leads from `root` to `path`, if `path` is `root` or lies under it.
pub open spec fn path_under(root: Seq<char>, path: Seq<char>) -> Option<Seq<char>> {
    if !parts(root).is_prefix_of(parts(path)) {
        None
    } else if parts(root).len() == 0 {
        let n = lead(path).len() as int;
        Some(lead(path) + unclosed(path.skip(n)))
    } else {
        Some(unclosed(behind(path, names(root).len())))
    }
}

/// How `path` is shown: from `root` where it lies under it, else as it is.
pub open spec fn shown_under(root: Seq<char>, path: Seq<char>) -> Seq<char> {
    match path_under(root, path) {
        Some(rest) => rest,
        None => path,
    }
}

fn idle_at(cs: &Vec<char>, i: usize) -> (r: bool)
    requires
        i <= cs@.len(),
    ensures
        r == is_idle(cs@.skip(i as int)),
{
    let n: usize = cs.len();
    i < n && (cs[i] == '/' || (cs[i] == '.' && (i == n - 1 || cs[i + 1] == '/')))
}

fn name_end(cs: &Vec<char>, from: usize) -> (r: usize)
    requires
        from <= cs@.len(),
    ensures
        from <= r <= cs@.len(),
        r - from == find_char(cs@.skip(from as int), '/'),
{
    let mut i: usize = from;
    while i < cs.len() && cs[i] != '/'
        invariant
            from <= i <= cs@.len(),
            find_char(cs@.skip(from as int), '/') == i - from + find_char(
                cs@.skip(i as int),
                '/',
            ),
        decreases cs@.len() - i,
    {
        proof {
            assert(cs@.skip(i as int).skip(1) =~= cs@.skip(i + 1));
        }
        i = i + 1;
    }
    i
}

/// The names in a path.
pub fn path_names(path: &str) -> (r: Vec<String>)
    ensures
        views(r@) == names(path@),
{
    let cs = chars_of(path);
    let n: usize = cs.len();
    let mut out: Vec<String> = Vec::new();
    let mut i: usize = 0;
    proof {
        assert(path@.skip(0) =~= path@);
        assert(views(out@) + names(path@) =~= names(path@));
    }
    while i < n
        invariant
            i <= n,
            n == cs@.len(),
            cs@ == path@,
            names(path@) == views(out@) + names(path@.skip(i as int)),
        decreases n - i,
    {
        let ghost s = path@.skip(i as int);
        if idle_at(&cs, i) {
            proof {
                assert(s.skip(1) =~= path@.skip(i + 1));
            }
            i = i + 1;
        } else {
            let k = name_end(&cs, i);
            let name = string_of(&cs, i, k);
            proof {
                lemma_find_char(s, '/');
                assert(name@ =~= s.take(k - i));
                assert(s.skip(k - i) =~= path@.skip(k as int));
                lemma_views_push(out@, name);
                assert(views(out@) + (seq![name@] + names(path@.skip(k as int))) =~= views(
                    out@,
                ).push(name@) + names(path@.skip(k as int)));
            }
            out.push(name);
            i = k;
        }
    }
    proof {
        assert(path@.skip(n as int) =~= Seq::<char>::empty());
        assert(views(out@) + Seq::<Seq<char>>::empty() =~= views(out@));
    }
    out
}

/// What a path consists of.
pub fn path_parts(path: &str) -> (r: Vec<String>)
    ensures
        views(r@) == parts(path@),
{
    let cs = chars_of(path);
    let mut found = path_names(path);
    proof {
        assert(path@.skip(0) =~= path@);
    }
    if idle_at(&cs, 0) {
        let first = string_of(&cs, 0, 1);
        let ghost before = found@;
        found.insert(0, first);
        proof {
            assert(first@ =~= lead(path@));
            assert(views(found@) =~= seq![first@] + views(before));
        }
    }
    found
}

fn begins_with(all: &Vec<String>, first: &Vec<String>) -> (r: bool)
    ensures
        r == views(first@).is_prefix_of(views(all@)),
{
    if first.len() > all.len() {
        return false;
    }
    let mut i: usize = 0;
    while i < first.len()
        invariant
            i <= first@.len() <= all@.len(),
            forall|j: int| 0 <= j < i ==> (#[trigger] first@[j])@ == all@[j]@,
        decreases first@.len() - i,
    {
        if !same_text(first[i].as_str(), all[i].as_str()) {
            proof {
                assert(views(first@)[i as int] != views(all@)[i as int]);
                assert(views(all@).subrange(0, first@.len() as int)[i as int] == all@[i as int]@);
            }
            return false;
        }
        i = i + 1;
    }
    proof {
        assert(views(first@) =~= views(all@).subrange(0, first@.len() as int)) by {
            assert forall|j: int| 0 <= j < first@.len() implies views(first@)[j] == views(
                all@,
            ).subrange(0, first@.len() as int)[j] by {
                assert(first@[j]@ == all@[j]@);
            }
        }
    }
    true
}

/// Whether two paths are the same.
pub fn same_path(a: &str, b: &str) -> (r: bool)
    ensures
        r == (parts(a@) == parts(b@)),
{
    let x = path_parts(a);
    let y = path_parts(b);
    let r = x.len() == y.len() && begins_with(&x, &y);
    proof {
        if r {
            assert(views(x@).subrange(0, y@.len() as int) =~= views(x@));
        } else if parts(a@) == parts(b@) {
            assert(views(x@).len() == views(y@).len());
            assert(views(x@).subrange(0, y@.len() as int) =~= views(y@));
        }
    }
    r
}

fn position_behind(cs: &Vec<char>, n: usize) -> (r: usize)
    ensures
        r <= cs@.len(),
        cs@.skip(r as int) == behind(cs@, n as nat),
{
    let mut i: usize = 0;
    let mut left: usize = n;
    proof {
        assert(cs@.skip(0) =~= cs@);
    }
    while i < cs.len()
        invariant
            i <= cs@.len(),
            behind(cs@, n as nat) == behind(cs@.skip(i as int), left as nat),
        decreases cs@.len() - i,
    {
        let ghost s = cs@.skip(i as int);
        if idle_at(cs, i) {
            proof {
                assert(s.skip(1) =~= cs@.skip(i + 1));
            }
            i = i + 1;
        } else if left == 0 {
            return i;
        } else {
            let k = name_end(cs, i);
            proof {
                lemma_find_char(s, '/');
                assert(s.skip(k - i) =~= cs@.skip(k as int));
            }
            left = left - 1;
            i = k;
        }
    }
    i
}

fn unclosed_text(cs: &Vec<char>, from: usize) -> (r: String)
    requires
        from <= cs@.len(),
    ensures
        r@ == unclosed(cs@.skip(from as int)),
{
    let mut to: usize = cs.len();
    proof {
        assert(cs@.subrange(from as int, to as int) =~= cs@.skip(from as int));
    }
    while to > from && (cs[to - 1] == '/' || (cs[to - 1] == '.' && (to - from == 1 || cs[to - 2]
        == '/')))
        invariant
            from <= to <= cs@.len(),
            unclosed(cs@.skip(from as int)) == unclosed(cs@.subrange(from as int, to as int)),
        decreases to,
    {
        proof {
            assert(cs@.subrange(from as int, to as int).drop_last() =~= cs@.subrange(
                from as int,
                to - 1,
            ));
        }
        to = to - 1;
    }
    string_of(cs, from, to)
}

/// The path that leads from `root` to `path`, if `path` is `root` or lies under it.
pub fn strip_prefix(root: &str, path: &str) -> (r: Option<String>)
    ensures
        match r {
            Some(rest) => path_under(root@, path@) == Some(rest@),
            None => path_under(root@, path@) is None,
        },
{
    let base = path_parts(root);
    let all = path_parts(path);
    if !begins_with(&all, &base) {
        return None;
    }
    let cs = chars_of(path);
    proof {
        assert(path@.skip(0) =~= path@);
        assert(views(base@).len() == base@.len());
    }
    if base.len() == 0 {
        let n: usize = if idle_at(&cs, 0) {
            1
        } else {
            0
        };
        let mut out = string_of(&cs, 0, n);
        proof {
            assert(out@ =~= lead(path@));
        }
        out.append(unclosed_text(&cs, n).as_str());
        Some(out)
    } else {
        let at = position_behind(&cs, path_names(root).len());
        Some(unclosed_text(&cs, at))
    }
}

/// How `path` is shown: from `root` where it lies under it, else as it is.
pub fn show_under(root: &str, path: &str) -> (r: String)
    ensures
        r@ == shown_under(root@, path@),
{
    match strip_prefix(root, path) {
        Some(rest) => rest,
        None => path.to_owned(),
    }
}

/// The first slash stays where it is when something behind it is dropped.
proof fn lemma_find_in_front(s: Seq<char>, c: char)
    requires
        s.len() > 0,
    ensures
        find_char(s, c) < s.len() - 1 ==> find_char(s.drop_last(), c) == find_char(s, c),
        find_char(s, c) >= s.len() - 1 ==> find_char(s.drop_last(), c) == s.len() - 1,
    decreases s.len(),
{
    lemma_find_char(s, c);
    if s.len() > 1 && s[0] != c {
        assert(s.skip(1).drop_last() =~= s.drop_last().skip(1));
        lemma_find_in_front(s.skip(1), c);
    }
}

/// A character at the end that belongs to no name can go.
proof fn lemma_names_unclosed_once(s: Seq<char>)
    requires
        s.len() > 0,
        s.last() == '/' || (s.last() == '.' && (s.len() == 1 || s[s.len() - 2] == '/')),
    ensures
        names(s.drop_last()) == names(s),
    decreases s.len(),
{
    let t = s.drop_last();
    if s.len() == 1 {
        assert(s.skip(1) =~= Seq::<char>::empty());
        assert(t =~= Seq::<char>::empty());
    } else if is_idle(s) {
        assert(s.skip(1).drop_last() =~= t.skip(1));
        assert(is_idle(t));
        lemma_names_unclosed_once(s.skip(1));
    } else {
        let k = find_char(s, '/');
        lemma_find_char(s, '/');
        lemma_find_in_front(s, '/');
        assert(!is_idle(t));
        assert(find_char(t, '/') == k);
        assert(t.take(k) =~= s.take(k));
        assert(s.skip(k).drop_last() =~= t.skip(k));
        lemma_names_unclosed_once(s.skip(k));
    }
}

proof fn lemma_names_unclosed(s: Seq<char>)
    ensures
        names(unclosed(s)) == names(s),
    decreases s.len(),
{
    if s.len() > 0 && (s.last() == '/' || (s.last() == '.' && (s.len() == 1 || s[s.len() - 2]
        == '/'))) {
        lemma_names_unclosed_once(s);
        lemma_names_unclosed(s.drop_last());
    }
}

proof fn lemma_names_behind(s: Seq<char>, n: nat)
    requires
        n <= names(s).len(),
    ensures
        names(behind(s, n)) == names(s).skip(n as int),
        !is_idle(behind(s, n)),
    decreases s.len(),
{
    if s.len() == 0 {
        assert(names(s).skip(0) =~= names(s));
    } else if is_idle(s) {
        lemma_names_behind(s.skip(1), n);
    } else if n == 0 {
        assert(names(s).skip(0) =~= names(s));
    } else {
        let k = find_char(s, '/');
        lemma_find_char(s, '/');
        lemma_names_behind(s.skip(k), (n - 1) as nat);
        assert(names(s).skip(n as int) =~= names(s.skip(k)).skip(n - 1));
    }
}

/// The path that leads from a root to a path holds the names that the root lacks.
pub proof fn root_and_rest_make_the_path(root: Seq<char>, path: Seq<char>)
    requires
        path_under(root, path) is Some,
        parts(root).len() > 0,
    ensures
        parts(path) == parts(root) + names(path_under(root, path)->Some_0),
{
    let n = names(root).len();
    assert(parts(path).subrange(0, parts(root).len() as int) == parts(root));
    if is_idle(root) {
        assert(parts(root)[0] == parts(path)[0]);
        if !is_idle(path) {
            lemma_names_are_busy(path);
            assert(parts(path)[0] == lead(root));
        }
    } else {
        lemma_names_are_busy(root);
        if is_idle(path) {
            assert(parts(path)[0] == parts(root)[0]);
        }
    }
    assert(is_idle(root) == is_idle(path));
    lemma_names_behind(path, n);
    lemma_names_unclosed(behind(path, n));
    assert(parts(path) =~= parts(root) + names(path).skip(n as int));
}

/// No name in a path is empty, a slash, or a dot.
proof fn lemma_names_are_busy(s: Seq<char>)
    ensures
        forall|i: int|
            0 <= i < names(s).len() ==> (#[trigger] names(s)[i]).len() > 0 && !is_idle(names(s)[i]),
    decreases s.len(),
{
    if s.len() == 0 {
    } else if is_idle(s) {
        lemma_names_are_busy(s.skip(1));
        assert(names(s) == names(s.skip(1)));
    } else {
        let k = find_char(s, '/');
        lemma_find_char(s, '/');
        lemma_names_are_busy(s.skip(k));
        assert(!is_idle(s.take(k)));
        assert forall|i: int| 0 <= i < names(s).len() implies (#[trigger] names(s)[i]).len() > 0
            && !is_idle(names(s)[i]) by {
            if i > 0 {
                assert(names(s)[i] == names(s.skip(k))[i - 1]);
            }
        }
    }
}

} // verus!
