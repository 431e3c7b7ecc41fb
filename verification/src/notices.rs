//! Repeated notices: the same notice twice in a row becomes one with a count.
use crate::text::{
    cat4, chars_of, decimal, decimal_text, digits_value, is_digit, is_number, lemma_decimal,
    parse_number, same_text, string_of,
};
use vstd::prelude::*;
use vstd::string::*;

verus! {

/// `base` with the count `n` behind it.
pub open spec fn counted(base: Seq<char>, n: nat) -> Seq<char> {
    base + " (×"@ + decimal(n) + ")"@
}

/// Whether `s` is a text of `k` characters with a count behind it, as
/// `counted` writes it: digits alone, with no sign.
pub open spec fn count_at(s: Seq<char>, k: int) -> bool {
    &&& 0 <= k
    &&& k + 3 < s.len()
    &&& s.subrange(k, k + 3) == " (×"@
    &&& s.last() == ')'
    &&& is_number(s.subrange(k + 3, s.len() - 1))
}

/// The text before the count at the end of `s`, and the count; all of `s` and
/// one where it ends in no count.
pub open spec fn split_count(s: Seq<char>) -> (Seq<char>, nat) {
    if exists|k: int| count_at(s, k) {
        let k = choose|k: int| count_at(s, k);
        (s.take(k), digits_value(s.subrange(k + 3, s.len() - 1)))
    } else {
        (s, 1)
    }
}

/// `base` with a count behind it.
pub fn format_with_count(base: &str, count: usize) -> (r: String)
    ensures
        r@ == counted(base@, count as nat),
{
    cat4(base, " (×", decimal_text(count as u64).as_str(), ")")
}

/// Nothing that is read as a number holds a multiplication sign.
proof fn lemma_no_sign(d: Seq<char>, i: int)
    requires
        is_number(d),
        0 <= i < d.len(),
    ensures
        d[i] != '×',
{
    assert(is_digit(d[i]));
}

/// The count at the end of a text begins at the last multiplication sign in it.
pub proof fn lemma_count_at(s: Seq<char>, k: int, p: int)
    requires
        count_at(s, k),
        0 <= p < s.len(),
        s[p] == '×',
        forall|i: int| p < i < s.len() ==> s[i] != '×',
    ensures
        k + 2 == p,
{
    reveal_strlit(" (×");
    assert(s.subrange(k, k + 3)[2] == s[k + 2]);
    let mid = s.subrange(k + 3, s.len() - 1);
    if p > k + 2 {
        if p < s.len() - 1 {
            assert(mid[p - k - 3] == '×');
            lemma_no_sign(mid, p - k - 3);
        }
    }
}

/// A text ends in at most one count.
pub proof fn lemma_split_count(s: Seq<char>, k: int)
    requires
        count_at(s, k),
    ensures
        split_count(s) == (s.take(k), digits_value(s.subrange(k + 3, s.len() - 1))),
{
    reveal_strlit(" (×");
    let m = choose|m: int| count_at(s, m);
    let p = k + 2;
    assert(s.subrange(k, k + 3)[2] == s[p]);
    let mid = s.subrange(k + 3, s.len() - 1);
    assert forall|i: int| p < i < s.len() implies s[i] != '×' by {
        if i < s.len() - 1 {
            assert(mid[i - k - 3] == s[i]);
            lemma_no_sign(mid, i - k - 3);
        }
    }
    lemma_count_at(s, m, p);
}

/// The text before the count at the end of `s`, and the count; all of `s` and
/// one where it ends in no count.
pub fn split_count_suffix(s: &str) -> (r: (String, usize))
    ensures
        (r.0@, r.1 as nat) == split_count(s@),
{
    proof {
        reveal_strlit(" (×");
    }
    let cs = chars_of(s);
    let n: usize = cs.len();
    let mut q: usize = n;
    while q > 0 && cs[q - 1] != '×'
        invariant
            q <= n,
            n == cs@.len(),
            forall|i: int| q <= i < n ==> cs@[i] != '×',
        decreases q,
    {
        q = q - 1;
    }
    // The sign stands just before `q`.
    if q < 3 || q >= n || cs[q - 2] != '(' || cs[q - 3] != ' ' || cs[n - 1] != ')' {
        proof {
            assert forall|k: int| !count_at(s@, k) by {
                if count_at(s@, k) {
                    assert(s@.subrange(k, k + 3)[0] == s@[k]);
                    assert(s@.subrange(k, k + 3)[1] == s@[k + 1]);
                    assert(s@.subrange(k, k + 3)[2] == s@[k + 2]);
                    if q > 0 {
                        lemma_count_at(s@, k, q - 1);
                    }
                }
            }
        }
        return (s.to_owned(), 1);
    }
    let mid = string_of(&cs, q, n - 1);
    match parse_number(mid.as_str()) {
        Some(count) => {
            let base = string_of(&cs, 0, q - 3);
            proof {
                let k = q - 3;
                assert(s@.subrange(k, k + 3) =~= " (×"@);
                assert(count_at(s@, k));
                lemma_split_count(s@, k);
                assert(base@ =~= s@.take(k));
            }
            (base, count)
        },
        None => {
            proof {
                assert forall|k: int| !count_at(s@, k) by {
                    if count_at(s@, k) {
                        lemma_count_at(s@, k, q - 1);
                    }
                }
            }
            (s.to_owned(), 1)
        },
    }
}

/// A count that was put behind a text is found again, whatever the text.
pub proof fn counted_splits_back(base: Seq<char>, n: nat)
    requires
        n <= usize::MAX,
    ensures
        split_count(counted(base, n)) == (base, n),
{
    reveal_strlit(" (×");
    reveal_strlit(")");
    let s = counted(base, n);
    let k = base.len() as int;
    lemma_decimal(n);
    assert(s.subrange(k, k + 3) =~= " (×"@);
    assert(s.subrange(k + 3, s.len() - 1) =~= decimal(n));
    assert(count_at(s, k));
    lemma_split_count(s, k);
    assert(s.take(k) =~= base);
}

/// What a notice `prev` becomes when `text` follows it: `prev` with a higher
/// count where it says the same, nothing where it does not.
pub open spec fn folded(prev: Seq<char>, text: Seq<char>) -> Option<Seq<char>> {
    if prev == text {
        Some(counted(text, 2))
    } else {
        let (base, n) = split_count(prev);
        if base == text {
            Some(
                counted(
                    text,
                    if n < usize::MAX {
                        n + 1
                    } else {
                        n
                    },
                ),
            )
        } else {
            None
        }
    }
}

/// What a notice `prev` becomes when `text` follows it.
pub fn fold_notice(prev: &str, text: &str) -> (r: Option<String>)
    ensures
        match r {
            Some(s) => folded(prev@, text@) == Some(s@),
            None => folded(prev@, text@) is None,
        },
{
    if same_text(prev, text) {
        return Some(format_with_count(text, 2));
    }
    let (base, n) = split_count_suffix(prev);
    if same_text(base.as_str(), text) {
        Some(format_with_count(base.as_str(), n.saturating_add(1)))
    } else {
        None
    }
}

/// How `n` notices of the same `text` in a row read.
pub open spec fn repeated(text: Seq<char>, n: nat) -> Seq<char> {
    if n == 1 {
        text
    } else {
        counted(text, n)
    }
}

/// Whatever it says, a notice that was given `n` times in a row and comes once
/// more is shown once with the count `n + 1`; the count stops at the highest
/// number there is.
pub proof fn repeated_notice_counts(text: Seq<char>, n: nat)
    requires
        1 <= n <= usize::MAX,
    ensures
        n < usize::MAX ==> folded(repeated(text, n), text) == Some(repeated(text, n + 1)),
        n == usize::MAX ==> folded(repeated(text, n), text) == Some(repeated(text, n)),
{
    if n > 1 {
        counted_splits_back(text, n);
        reveal_strlit(" (×");
        assert(counted(text, n).len() > text.len());
    }
}

} // verus!
