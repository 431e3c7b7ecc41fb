//! What holds of how paths are read and shown.
use crate::paths::{behind, is_idle, names, parts, path_under, shown_under, unclosed};
use crate::text::{find_char, lemma_find_char};
use vstd::prelude::*;

verus! {

proof fn lemma_find_before(s: Seq<char>, w: Seq<char>)
    ensures
        find_char(s + seq!['/'] + w, '/') == find_char(s, '/'),
    decreases s.len(),
{
    let all = s + seq!['/'] + w;
    if s.len() > 0 && s[0] != '/' {
        assert(all.skip(1) =~= s.skip(1) + seq!['/'] + w);
        lemma_find_before(s.skip(1), w);
    } else if s.len() == 0 {
        assert(all[0] == '/');
    }
}

proof fn lemma_idle_before(s: Seq<char>, w: Seq<char>)
    requires
        s.len() > 0,
    ensures
        is_idle(s + seq!['/'] + w) == is_idle(s),
{
    let all = s + seq!['/'] + w;
    assert(all[0] == s[0]);
    if s.len() == 1 {
        assert(all[1] == '/');
    } else {
        assert(all[1] == s[1]);
    }
}

/// The names in a path are those before a slash and those behind it, in order.
pub proof fn names_join(s: Seq<char>, w: Seq<char>)
    ensures
        names(s + seq!['/'] + w) == names(s) + names(w),
    decreases s.len(),
{
    let all = s + seq!['/'] + w;
    if s.len() == 0 {
        assert(all[0] == '/');
        assert(all.skip(1) =~= w);
        assert(names(s) + names(w) =~= names(w));
    } else {
        lemma_idle_before(s, w);
        if is_idle(s) {
            assert(all.skip(1) =~= s.skip(1) + seq!['/'] + w);
            names_join(s.skip(1), w);
        } else {
            let k = find_char(s, '/');
            lemma_find_char(s, '/');
            lemma_find_before(s, w);
            assert(all.take(k) =~= s.take(k));
            assert(all.skip(k) =~= s.skip(k) + seq!['/'] + w);
            names_join(s.skip(k), w);
            assert(names(all) =~= names(s) + names(w));
        }
    }
}

/// A text without a slash is one name, unless it is empty or one dot, which
/// names nothing.
pub proof fn names_of_one(w: Seq<char>)
    requires
        forall|i: int| 0 <= i < w.len() ==> #[trigger] w[i] != '/',
    ensures
        w.len() == 0 || w == seq!['.'] ==> names(w).len() == 0,
        w.len() > 0 && w != seq!['.'] ==> names(w) == seq![w],
{
    lemma_find_char(w, '/');
    assert(names(Seq::<char>::empty()).len() == 0);
    if w.len() > 0 {
        let k = find_char(w, '/');
        assert(w.take(k) =~= w);
        assert(w.skip(k) =~= Seq::<char>::empty());
        if is_idle(w) {
            assert(w =~= seq!['.']);
            assert(w.skip(1) =~= Seq::<char>::empty());
        } else {
            if w == seq!['.'] {
                assert(w[0] == '.');
            }
            assert(names(w) =~= seq![w]);
        }
    }
}

/// Whether a path begins at the root counts: two paths with the same names are
/// the same only where they begin alike.
pub proof fn root_counts(p: Seq<char>)
    requires
        p.len() == 0 || (p[0] != '/' && p[0] != '.'),
    ensures
        parts(p) == names(p),
        parts(seq!['/'] + p) == seq![seq!['/']] + names(p),
{
    let abs = seq!['/'] + p;
    assert(abs.skip(1) =~= p);
    assert(abs.take(1) =~= seq!['/']);
}

proof fn lemma_behind_joined(s: Seq<char>, w: Seq<char>)
    requires
        w.len() > 0,
        !is_idle(w),
    ensures
        behind(s + seq!['/'] + w, names(s).len()) == w,
    decreases s.len(),
{
    let all = s + seq!['/'] + w;
    if s.len() == 0 {
        assert(all[0] == '/');
        assert(all.skip(1) =~= w);
        assert(behind(w, 0) == w);
    } else {
        lemma_idle_before(s, w);
        if is_idle(s) {
            assert(all.skip(1) =~= s.skip(1) + seq!['/'] + w);
            lemma_behind_joined(s.skip(1), w);
        } else {
            let k = find_char(s, '/');
            lemma_find_char(s, '/');
            lemma_find_before(s, w);
            assert(all.skip(k) =~= s.skip(k) + seq!['/'] + w);
            lemma_behind_joined(s.skip(k), w);
        }
    }
}

/// A path under a root is shown as what stands behind the root.
pub proof fn what_is_behind_the_root_is_shown(root: Seq<char>, rest: Seq<char>)
    requires
        root.len() > 0,
        rest.len() > 0,
        !is_idle(rest),
        rest.last() != '/' && rest.last() != '.',
    ensures
        shown_under(root, root + seq!['/'] + rest) == rest,
        path_under(root, root + seq!['/'] + rest) == Some(rest),
{
    let path = root + seq!['/'] + rest;
    names_join(root, rest);
    lemma_idle_before(root, rest);
    lemma_behind_joined(root, rest);
    assert(path.take(1) =~= root.take(1));
    assert(parts(path) =~= parts(root) + names(rest));
    assert(parts(path).subrange(0, parts(root).len() as int) =~= parts(root));
    assert(unclosed(rest) == rest);
    if parts(root).len() == 0 {
        assert(names(root).len() == 0);
        lemma_find_char(root, '/');
        assert(false);
    }
}

/// A path that does not lie under a root is shown as it is.
pub proof fn other_paths_are_shown_whole(root: Seq<char>, path: Seq<char>)
    requires
        !(parts(root).len() <= parts(path).len() && forall|i: int|
            0 <= i < parts(root).len() ==> #[trigger] parts(root)[i] == parts(path)[i]),
    ensures
        path_under(root, path) is None,
        shown_under(root, path) == path,
{
    if parts(root).is_prefix_of(parts(path)) {
        assert forall|i: int| 0 <= i < parts(root).len() implies #[trigger] parts(root)[i] == parts(
            path,
        )[i] by {
            assert(parts(path).subrange(0, parts(root).len() as int)[i] == parts(path)[i]);
        }
    }
}

} // verus!
