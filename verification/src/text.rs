//! Text as sequences of characters: the string operations the rest of the
//! crate is written with, each with its meaning over `Seq<char>`.
use vstd::prelude::*;
use vstd::string::*;

verus! {

/// `String::push` appends one character to the end of the string.
pub assume_specification[ String::push ](s: &mut String, c: char)
    ensures
        final(s)@ == old(s)@.push(c),
;

/// How the formatter of the standard library quotes a text for debugging.
pub uninterp spec fn debug_quoted(s: Seq<char>) -> Seq<char>;

/// `<str as std::fmt::Debug>::fmt` under a plain `{:?}`: what it writes depends
/// on the text alone. Which characters it escapes and how is not stated.
#[verifier::external_body]
pub(crate) fn debug_text(s: &str) -> (r: String)
    ensures
        r@ == debug_quoted(s@),
{
    format!("{s:?}")
}

/// The texts held by a sequence of strings.
pub open spec fn views(v: Seq<String>) -> Seq<Seq<char>> {
    Seq::new(v.len(), |i: int| v[i]@)
}

pub proof fn lemma_views_push(v: Seq<String>, s: String)
    ensures
        views(v.push(s)) == views(v).push(s@),
{
    assert(views(v.push(s)) =~= views(v).push(s@));
}

/// The characters of a string, in order.
pub fn chars_of(s: &str) -> (v: Vec<char>)
    ensures
        v@ == s@,
{
    let mut v: Vec<char> = Vec::new();
    for c in it: s.chars()
        invariant
            v@ == s@.take(it.index() as int),
            it.seq() == s@,
    {
        proof {
            assert(s@.take(it.index() + 1) =~= s@.take(it.index() as int).push(c));
        }
        v.push(c);
    }
    proof {
        assert(s@.take(s@.len() as int) =~= s@);
    }
    v
}

/// The string made of the characters from index `from` up to but not including `to`.
pub fn string_of(cs: &Vec<char>, from: usize, to: usize) -> (r: String)
    requires
        from <= to <= cs@.len(),
    ensures
        r@ == cs@.subrange(from as int, to as int),
{
    let mut r = String::new();
    let mut i: usize = from;
    while i < to
        invariant
            from <= i <= to <= cs@.len(),
            r@ == cs@.subrange(from as int, i as int),
        decreases to - i,
    {
        r.push(cs[i]);
        i = i + 1;
        proof {
            assert(cs@.subrange(from as int, i as int) =~= cs@.subrange(from as int, i - 1).push(
                cs@[i - 1],
            ));
        }
    }
    r
}

/// Whether two strings hold the same text.
pub fn same_text(a: &str, b: &str) -> (r: bool)
    ensures
        r == (a@ == b@),
{
    let x = chars_of(a);
    let y = chars_of(b);
    if x.len() != y.len() {
        return false;
    }
    let mut i: usize = 0;
    while i < x.len()
        invariant
            i <= x@.len(),
            x@.len() == y@.len(),
            x@ == a@,
            y@ == b@,
            forall|j: int| 0 <= j < i ==> x@[j] == y@[j],
        decreases x@.len() - i,
    {
        if x[i] != y[i] {
            return false;
        }
        i = i + 1;
    }
    proof {
        assert(x@ =~= y@);
    }
    true
}

/// Two texts joined end to end.
pub fn cat2(a: &str, b: &str) -> (r: String)
    ensures
        r@ == a@ + b@,
{
    let mut r = a.to_owned();
    r.append(b);
    r
}

/// Three texts joined end to end.
pub fn cat3(a: &str, b: &str, c: &str) -> (r: String)
    ensures
        r@ == a@ + b@ + c@,
{
    let mut r = cat2(a, b);
    r.append(c);
    r
}

/// Four texts joined end to end.
pub fn cat4(a: &str, b: &str, c: &str, d: &str) -> (r: String)
    ensures
        r@ == a@ + b@ + c@ + d@,
{
    let mut r = cat3(a, b, c);
    r.append(d);
    r
}

/// Five texts joined end to end.
pub fn cat5(a: &str, b: &str, c: &str, d: &str, e: &str) -> (r: String)
    ensures
        r@ == a@ + b@ + c@ + d@ + e@,
{
    let mut r = cat4(a, b, c, d);
    r.append(e);
    r
}

/// `parts` with `sep` between each two of them.
pub open spec fn join(parts: Seq<Seq<char>>, sep: Seq<char>) -> Seq<char>
    decreases parts.len(),
{
    if parts.len() == 0 {
        Seq::empty()
    } else if parts.len() == 1 {
        parts[0]
    } else {
        join(parts.drop_last(), sep) + sep + parts.last()
    }
}

/// The texts of `parts` with `sep` between each two of them.
pub fn join_text(parts: &Vec<String>, sep: &str) -> (r: String)
    ensures
        r@ == join(views(parts@), sep@),
{
    let mut r = String::new();
    let mut i: usize = 0;
    while i < parts.len()
        invariant
            i <= parts@.len(),
            r@ == join(views(parts@).take(i as int), sep@),
        decreases parts@.len() - i,
    {
        let ghost vs = views(parts@);
        if i > 0 {
            r.append(sep);
        }
        r.append(parts[i].as_str());
        proof {
            assert(vs.take(i + 1).drop_last() =~= vs.take(i as int));
            assert(vs.take(i + 1).last() == parts@[i as int]@);
            if i == 0 {
                assert(vs.take(1)[0] == parts@[0]@);
                assert(r@ =~= parts@[0]@);
            }
        }
        i = i + 1;
    }
    proof {
        assert(views(parts@).take(parts@.len() as int) =~= views(parts@));
    }
    r
}

/// The decimal digit of a number below ten.
pub open spec fn digit(d: nat) -> char {
    ((48 + d) as u8) as char
}

/// A number written in decimal, without leading zeros.
pub open spec fn decimal(n: nat) -> Seq<char>
    decreases n,
{
    if n < 10 {
        seq![digit(n)]
    } else {
        decimal(n / 10).push(digit(n % 10))
    }
}

/// A number written in decimal, without leading zeros.
pub fn decimal_text(n: u64) -> (r: String)
    ensures
        r@ == decimal(n as nat),
    decreases n,
{
    let mut r = if n < 10 {
        String::new()
    } else {
        decimal_text(n / 10)
    };
    let d: u8 = (n % 10) as u8;
    r.push((48 + d) as char);
    proof {
        if n < 10 {
            assert(r@ =~= decimal(n as nat));
        }
    }
    r
}

/// Whether `c` is one of the characters `0` to `9`.
pub open spec fn is_digit(c: char) -> bool {
    '0' <= c && c <= '9'
}

/// The number that a sequence of digits spells in decimal.
pub open spec fn digits_value(s: Seq<char>) -> nat
    decreases s.len(),
{
    if s.len() == 0 {
        0
    } else {
        digits_value(s.drop_last()) * 10 + ((s.last() as int - 48) as nat)
    }
}

/// Whether every character of `s` is a digit.
pub open spec fn all_digits(s: Seq<char>) -> bool {
    forall|i: int| 0 <= i < s.len() ==> is_digit(#[trigger] s[i])
}

/// A number in decimal consists of digits and spells that number.
pub proof fn lemma_decimal(n: nat)
    ensures
        decimal(n).len() > 0,
        all_digits(decimal(n)),
        digits_value(decimal(n)) == n,
    decreases n,
{
    let d = decimal(n);
    assert(is_digit(digit(n % 10)) && digit(n % 10) as int - 48 == n % 10);
    if n < 10 {
        assert(d.drop_last() =~= Seq::<char>::empty());
        assert(digits_value(d.drop_last()) == 0);
    } else {
        lemma_decimal(n / 10);
        assert(d.drop_last() =~= decimal(n / 10));
    }
}

/// A prefix of a digit sequence spells no more than the whole of it.
pub proof fn lemma_digits_prefix(s: Seq<char>, i: int)
    requires
        0 <= i <= s.len(),
        all_digits(s),
    ensures
        digits_value(s.take(i)) <= digits_value(s),
    decreases s.len() - i,
{
    if i < s.len() {
        lemma_digits_prefix(s, i + 1);
        assert(s.take(i + 1).drop_last() =~= s.take(i));
        assert(s.take(i + 1).last() == s[i]);
    } else {
        assert(s.take(i) =~= s);
    }
}

/// Whether `s` is a number of type `usize` in digits, with no sign before them.
pub open spec fn is_number(s: Seq<char>) -> bool {
    &&& s.len() > 0
    &&& all_digits(s)
    &&& digits_value(s) <= usize::MAX
}

/// The number that a text spells in digits, if it is one of type `usize`.
pub fn parse_number(s: &str) -> (r: Option<usize>)
    ensures
        match r {
            Some(n) => is_number(s@) && n as nat == digits_value(s@),
            None => !is_number(s@),
        },
{
    let cs = chars_of(s);
    if cs.len() == 0 {
        return None;
    }
    let mut n: usize = 0;
    let mut i: usize = 0;
    while i < cs.len()
        invariant
            i <= cs@.len(),
            0 < cs@.len(),
            cs@ == s@,
            forall|j: int| 0 <= j < i ==> is_digit(#[trigger] s@[j]),
            n as nat == digits_value(s@.take(i as int)),
        decreases cs@.len() - i,
    {
        let c: char = cs[i];
        proof {
            assert(s@.take(i + 1).drop_last() =~= s@.take(i as int));
            assert(s@.take(i + 1).last() == c);
            if all_digits(s@) {
                lemma_digits_prefix(s@, i + 1);
            }
        }
        if c < '0' || c > '9' {
            proof {
                assert(!is_digit(s@[i as int]));
            }
            return None;
        }
        let v: usize = c as usize - 48;
        match n.checked_mul(10) {
            None => {
                return None;
            },
            Some(m) => {
                match m.checked_add(v) {
                    None => {
                        return None;
                    },
                    Some(t) => {
                        n = t;
                    },
                }
            },
        }
        i = i + 1;
    }
    proof {
        assert(s@.take(s@.len() as int) =~= s@);
    }
    Some(n)
}

/// The index of the first `c` in `s`, or the length of `s` where there is none.
pub open spec fn find_char(s: Seq<char>, c: char) -> int
    decreases s.len(),
{
    if s.len() == 0 || s[0] == c {
        0
    } else {
        1 + find_char(s.skip(1), c)
    }
}

pub proof fn lemma_find_char(s: Seq<char>, c: char)
    ensures
        0 <= find_char(s, c) <= s.len(),
        forall|j: int| 0 <= j < find_char(s, c) ==> s[j] != c,
        find_char(s, c) < s.len() ==> s[find_char(s, c)] == c,
    decreases s.len(),
{
    if s.len() == 0 || s[0] == c {
    } else {
        let t = s.skip(1);
        lemma_find_char(t, c);
        assert forall|j: int| 0 <= j < find_char(s, c) implies s[j] != c by {
            if j > 0 {
                assert(t[j - 1] != c);
            }
        }
    }
}

/// A line of text without the carriage return at its end.
pub open spec fn without_return(s: Seq<char>) -> Seq<char> {
    if s.len() > 0 && s.last() == '\r' {
        s.drop_last()
    } else {
        s
    }
}

/// The lines of a text: each ends before a line feed, or before a carriage
/// return and a line feed, or at the end of the text; a text that ends in a
/// line feed has no further line after it.
pub open spec fn lines(s: Seq<char>) -> Seq<Seq<char>>
    decreases s.len(),
    via lines_decreases
{
    let n = find_char(s, '\n');
    if s.len() == 0 {
        Seq::empty()
    } else if n < s.len() {
        seq![without_return(s.take(n))] + lines(s.skip(n + 1))
    } else {
        seq![s]
    }
}

#[via_fn]
proof fn lines_decreases(s: Seq<char>) {
    lemma_find_char(s, '\n');
}

/// The lines of a text.
pub fn split_lines(s: &str) -> (r: Vec<String>)
    ensures
        views(r@) == lines(s@),
{
    let cs = chars_of(s);
    let mut out: Vec<String> = Vec::new();
    let mut start: usize = 0;
    let mut i: usize = 0;
    proof {
        assert(s@.skip(0) =~= s@);
        assert(views(out@) + lines(s@) =~= lines(s@));
    }
    while i < cs.len()
        invariant
            cs@ == s@,
            start <= i <= cs@.len(),
            forall|j: int| start <= j < i ==> cs@[j] != '\n',
            lines(s@) == views(out@) + lines(s@.skip(start as int)),
        decreases cs@.len() - i,
    {
        if cs[i] == '\n' {
            let end: usize = if i > start && cs[i - 1] == '\r' {
                i - 1
            } else {
                i
            };
            let line = string_of(&cs, start, end);
            proof {
                let t = s@.skip(start as int);
                lemma_find_char(t, '\n');
                let n = find_char(t, '\n');
                assert(t[i - start] == '\n');
                if n < i - start {
                    assert(t[n] == cs@[start + n]);
                }
                assert(n == i - start);
                assert(without_return(t.take(n)) =~= line@);
                assert(t.skip(n + 1) =~= s@.skip(i + 1));
                lemma_views_push(out@, line);
                assert(views(out@) + (seq![line@] + lines(s@.skip(i + 1))) =~= views(out@).push(
                    line@,
                ) + lines(s@.skip(i + 1)));
            }
            out.push(line);
            start = i + 1;
        }
        i = i + 1;
    }
    proof {
        lemma_find_char(s@.skip(start as int), '\n');
    }
    if start < cs.len() {
        let line = string_of(&cs, start, cs.len());
        proof {
            let t = s@.skip(start as int);
            let n = find_char(t, '\n');
            if n < t.len() {
                assert(t[n] == cs@[start + n]);
            }
            assert(line@ =~= t);
            lemma_views_push(out@, line);
            assert(views(out@) + seq![t] =~= views(out@).push(t));
        }
        out.push(line);
    } else {
        proof {
            assert(views(out@) + lines(s@.skip(start as int)) =~= views(out@));
        }
    }
    out
}

/// Whether `c` has the Unicode property White_Space.
pub open spec fn is_space(c: char) -> bool {
    ||| '\u{9}' <= c && c <= '\u{d}'
    ||| c == ' '
    ||| c == '\u{85}'
    ||| c == '\u{a0}'
    ||| c == '\u{1680}'
    ||| '\u{2000}' <= c && c <= '\u{200a}'
    ||| c == '\u{2028}'
    ||| c == '\u{2029}'
    ||| c == '\u{202f}'
    ||| c == '\u{205f}'
    ||| c == '\u{3000}'
}

/// Whether `c` has the Unicode property White_Space.
pub fn is_space_char(c: char) -> (r: bool)
    ensures
        r == is_space(c),
{
    ('\u{9}' <= c && c <= '\u{d}') || c == ' ' || c == '\u{85}' || c == '\u{a0}' || c == '\u{1680}'
        || ('\u{2000}' <= c && c <= '\u{200a}') || c == '\u{2028}' || c == '\u{2029}' || c
        == '\u{202f}' || c == '\u{205f}' || c == '\u{3000}'
}

/// A text without the white space at its start.
pub open spec fn trim_start(s: Seq<char>) -> Seq<char>
    decreases s.len(),
{
    if s.len() > 0 && is_space(s[0]) {
        trim_start(s.skip(1))
    } else {
        s
    }
}

/// A text without the white space at its end.
pub open spec fn trim_end(s: Seq<char>) -> Seq<char>
    decreases s.len(),
{
    if s.len() > 0 && is_space(s.last()) {
        trim_end(s.drop_last())
    } else {
        s
    }
}

/// A text without the white space at its two ends.
pub open spec fn trim(s: Seq<char>) -> Seq<char> {
    trim_end(trim_start(s))
}

/// A text without the white space at its two ends.
pub fn trimmed(s: &str) -> (r: String)
    ensures
        r@ == trim(s@),
{
    let cs = chars_of(s);
    let mut from: usize = 0;
    proof {
        assert(cs@.subrange(0, cs@.len() as int) =~= cs@);
    }
    while from < cs.len() && is_space_char(cs[from])
        invariant
            from <= cs@.len(),
            cs@ == s@,
            trim_start(s@) == trim_start(cs@.subrange(from as int, cs@.len() as int)),
        decreases cs@.len() - from,
    {
        proof {
            let t = cs@.subrange(from as int, cs@.len() as int);
            assert(t.skip(1) =~= cs@.subrange(from + 1, cs@.len() as int));
        }
        from = from + 1;
    }
    let mut to: usize = cs.len();
    let ghost mid = cs@.subrange(from as int, cs@.len() as int);
    proof {
        assert(trim_start(s@) == mid);
    }
    while from < to && is_space_char(cs[to - 1])
        invariant
            from <= to <= cs@.len(),
            trim_end(mid) == trim_end(cs@.subrange(from as int, to as int)),
        decreases to,
    {
        proof {
            let t = cs@.subrange(from as int, to as int);
            assert(t.drop_last() =~= cs@.subrange(from as int, to - 1));
        }
        to = to - 1;
    }
    proof {
        let t = cs@.subrange(from as int, to as int);
        assert(trim_end(t) == t);
    }
    string_of(&cs, from, to)
}

/// Whether `s` starts with `p`.
pub fn starts_with(s: &str, p: &str) -> (r: bool)
    ensures
        r == p@.is_prefix_of(s@),
{
    let cs = chars_of(s);
    let ps = chars_of(p);
    if ps.len() > cs.len() {
        return false;
    }
    let mut i: usize = 0;
    while i < ps.len()
        invariant
            i <= ps@.len() <= cs@.len(),
            cs@ == s@,
            ps@ == p@,
            forall|j: int| 0 <= j < i ==> cs@[j] == ps@[j],
        decreases ps@.len() - i,
    {
        if cs[i] != ps[i] {
            proof {
                assert(s@.subrange(0, p@.len() as int)[i as int] != p@[i as int]);
            }
            return false;
        }
        i = i + 1;
    }
    proof {
        assert(s@.subrange(0, p@.len() as int) =~= p@);
    }
    true
}

/// Whether `s` ends with `p`.
pub fn ends_with(s: &str, p: &str) -> (r: bool)
    ensures
        r == p@.is_suffix_of(s@),
{
    let cs = chars_of(s);
    let ps = chars_of(p);
    if ps.len() > cs.len() {
        return false;
    }
    let n: usize = cs.len();
    let base: usize = n - ps.len();
    let mut i: usize = 0;
    while i < ps.len()
        invariant
            i <= ps@.len() <= cs@.len(),
            n == cs@.len(),
            base == n - ps@.len(),
            cs@ == s@,
            ps@ == p@,
            forall|j: int| 0 <= j < i ==> cs@[base + j] == ps@[j],
        decreases ps@.len() - i,
    {
        if cs[base + i] != ps[i] {
            proof {
                assert(s@.subrange(base as int, s@.len() as int)[i as int] != p@[i as int]);
            }
            return false;
        }
        i = i + 1;
    }
    proof {
        assert(s@.subrange(base as int, s@.len() as int) =~= p@);
    }
    true
}

/// The characters of `s` after the first `n`.
pub fn skip_chars(s: &str, n: usize) -> (r: String)
    requires
        n <= s@.len(),
    ensures
        r@ == s@.skip(n as int),
{
    let cs = chars_of(s);
    let r = string_of(&cs, n, cs.len());
    proof {
        assert(r@ =~= s@.skip(n as int));
    }
    r
}

/// The first `n` characters of `s`, or all of them where there are fewer.
pub open spec fn first_chars(s: Seq<char>, n: nat) -> Seq<char> {
    if s.len() > n {
        s.take(n as int)
    } else {
        s
    }
}

/// The first `n` characters of `s`, or all of them where there are fewer.
pub fn take_chars(s: &str, n: usize) -> (r: String)
    ensures
        r@ == first_chars(s@, n as nat),
{
    let cs = chars_of(s);
    if cs.len() > n {
        let r = string_of(&cs, 0, n);
        proof {
            assert(r@ =~= s@.take(n as int));
        }
        r
    } else {
        s.to_owned()
    }
}

/// A text of more than `max` characters cut to its first `keep` and marked
/// with three dots; a shorter one as it is.
pub open spec fn clip(s: Seq<char>, max: nat, keep: nat) -> Seq<char> {
    if s.len() > max {
        first_chars(s, keep) + "..."@
    } else {
        s
    }
}

/// A text of more than `max` characters cut to its first `keep` and marked
/// with three dots; a shorter one as it is.
pub fn clipped(s: &str, max: usize, keep: usize) -> (r: String)
    ensures
        r@ == clip(s@, max as nat, keep as nat),
{
    let cs = chars_of(s);
    if cs.len() > max {
        let mut r = take_chars(s, keep);
        r.append("...");
        r
    } else {
        s.to_owned()
    }
}

/// How many bytes `c` takes in UTF-8.
pub open spec fn char_bytes(c: char) -> nat {
    if c <= '\u{7f}' {
        1
    } else if c <= '\u{7ff}' {
        2
    } else if c <= '\u{ffff}' {
        3
    } else {
        4
    }
}

/// How many bytes `s` takes in UTF-8.
pub open spec fn byte_len(s: Seq<char>) -> nat
    decreases s.len(),
{
    if s.len() == 0 {
        0
    } else {
        byte_len(s.drop_last()) + char_bytes(s.last())
    }
}

/// The longest start of `s` that takes no more than `max` bytes in UTF-8.
pub open spec fn byte_prefix(s: Seq<char>, max: nat) -> Seq<char>
    decreases s.len(),
{
    if byte_len(s) <= max || s.len() == 0 {
        s
    } else {
        byte_prefix(s.drop_last(), max)
    }
}

/// A start of `s` that fits, where one character more would not, is the longest that fits.
pub proof fn lemma_byte_prefix(s: Seq<char>, k: int, max: nat)
    requires
        0 <= k <= s.len(),
        byte_len(s.take(k)) <= max,
        k < s.len() ==> byte_len(s.take(k + 1)) > max,
    ensures
        byte_prefix(s, max) == s.take(k),
    decreases s.len(),
{
    if k == s.len() {
        assert(s.take(k) =~= s);
    } else {
        lemma_byte_len_grows(s, k + 1);
        let t = s.drop_last();
        assert(t.take(k) =~= s.take(k));
        if k < t.len() {
            assert(t.take(k + 1) =~= s.take(k + 1));
        }
        lemma_byte_prefix(t, k, max);
    }
}

/// A start of `s` takes no more bytes than all of it.
pub proof fn lemma_byte_len_grows(s: Seq<char>, k: int)
    requires
        0 <= k <= s.len(),
    ensures
        byte_len(s.take(k)) <= byte_len(s),
    decreases s.len(),
{
    if k == s.len() {
        assert(s.take(k) =~= s);
    } else {
        assert(s.drop_last().take(k) =~= s.take(k));
        lemma_byte_len_grows(s.drop_last(), k);
    }
}

/// What is cut to a number of bytes takes no more than that.
pub proof fn lemma_prefix_fits(s: Seq<char>, max: nat)
    ensures
        byte_len(byte_prefix(s, max)) <= max,
    decreases s.len(),
{
    if byte_len(s) > max && s.len() > 0 {
        lemma_prefix_fits(s.drop_last(), max);
    }
}

/// Two texts together take as many bytes as both by themselves.
pub proof fn lemma_byte_len_adds(a: Seq<char>, b: Seq<char>)
    ensures
        byte_len(a + b) == byte_len(a) + byte_len(b),
    decreases b.len(),
{
    if b.len() == 0 {
        assert(a + b =~= a);
    } else {
        lemma_byte_len_adds(a, b.drop_last());
        assert((a + b).drop_last() =~= a + b.drop_last());
    }
}

fn bytes_of(c: char) -> (r: usize)
    ensures
        r == char_bytes(c),
        1 <= r <= 4,
{
    if c <= '\u{7f}' {
        1
    } else if c <= '\u{7ff}' {
        2
    } else if c <= '\u{ffff}' {
        3
    } else {
        4
    }
}

/// How many bytes `s` takes in UTF-8.
pub fn byte_count(s: &str) -> (r: u128)
    ensures
        r == byte_len(s@),
{
    let cs = chars_of(s);
    let mut n: u128 = 0;
    let mut i: usize = 0;
    while i < cs.len()
        invariant
            i <= cs@.len(),
            cs@ == s@,
            n == byte_len(cs@.take(i as int)),
            n <= 4 * i,
        decreases cs@.len() - i,
    {
        proof {
            assert(cs@.take(i + 1).drop_last() =~= cs@.take(i as int));
            assert(cs@.take(i + 1).last() == cs@[i as int]);
        }
        n = n + bytes_of(cs[i]) as u128;
        i = i + 1;
    }
    proof {
        assert(cs@.take(cs@.len() as int) =~= cs@);
    }
    n
}

/// How many bytes `s` takes in UTF-8, if no more than `max`.
pub fn bytes_within(s: &str, max: usize) -> (r: Option<usize>)
    requires
        max <= 0x1000_0000,
    ensures
        match r {
            Some(n) => n == byte_len(s@) && n <= max,
            None => byte_len(s@) > max,
        },
{
    let cs = chars_of(s);
    let mut n: usize = 0;
    let mut i: usize = 0;
    while i < cs.len()
        invariant
            i <= cs@.len(),
            cs@ == s@,
            n == byte_len(cs@.take(i as int)),
            n <= max <= 0x1000_0000,
        decreases cs@.len() - i,
    {
        proof {
            assert(cs@.take(i + 1).drop_last() =~= cs@.take(i as int));
            assert(cs@.take(i + 1).last() == cs@[i as int]);
            lemma_byte_len_grows(cs@, i + 1);
        }
        n = n + bytes_of(cs[i]);
        if n > max {
            return None;
        }
        i = i + 1;
    }
    proof {
        assert(cs@.take(cs@.len() as int) =~= cs@);
    }
    Some(n)
}

/// The longest start of `s` that takes no more than `max` bytes in UTF-8.
pub fn cut_bytes(s: &str, max: usize) -> (r: String)
    requires
        max <= 0x1000_0000,
    ensures
        r@ == byte_prefix(s@, max as nat),
{
    let cs = chars_of(s);
    let mut n: usize = 0;
    let mut i: usize = 0;
    while i < cs.len()
        invariant
            i <= cs@.len(),
            cs@ == s@,
            n == byte_len(cs@.take(i as int)),
            n <= max <= 0x1000_0000,
        decreases cs@.len() - i,
    {
        proof {
            assert(cs@.take(i + 1).drop_last() =~= cs@.take(i as int));
            assert(cs@.take(i + 1).last() == cs@[i as int]);
        }
        let m: usize = n + bytes_of(cs[i]);
        if m > max {
            let r = string_of(&cs, 0, i);
            proof {
                lemma_byte_prefix(s@, i as int, max as nat);
                assert(r@ =~= s@.take(i as int));
            }
            return r;
        }
        n = m;
        i = i + 1;
    }
    proof {
        assert(cs@.take(cs@.len() as int) =~= cs@);
    }
    s.to_owned()
}

/// A text that may be missing, as a sequence of one text or none.
pub open spec fn opt_part(p: Option<Seq<char>>) -> Seq<Seq<char>> {
    match p {
        Some(t) => seq![t],
        None => Seq::empty(),
    }
}

/// The text of an optional string.
pub open spec fn opt_text(p: Option<String>) -> Option<Seq<char>> {
    match p {
        Some(t) => Some(t@),
        None => None,
    }
}

/// Adds a text at the end, if there is one.
pub fn push_part(parts: &mut Vec<String>, p: Option<String>)
    ensures
        views(final(parts)@) == views(old(parts)@) + opt_part(opt_text(p)),
{
    match p {
        Some(t) => {
            proof {
                lemma_views_push(parts@, t);
                assert(views(parts@) + seq![t@] =~= views(parts@).push(t@));
            }
            parts.push(t);
        },
        None => {
            proof {
                assert(views(parts@) + Seq::<Seq<char>>::empty() =~= views(parts@));
            }
        },
    }
}

/// A copy of a list of texts.
pub fn clone_texts(v: &Vec<String>) -> (r: Vec<String>)
    ensures
        r@ == v@,
{
    let mut out: Vec<String> = Vec::new();
    let mut i: usize = 0;
    while i < v.len()
        invariant
            i <= v@.len(),
            out@ == v@.take(i as int),
        decreases v@.len() - i,
    {
        out.push(v[i].clone());
        proof {
            assert(v@.take(i + 1) =~= v@.take(i as int).push(v@[i as int]));
        }
        i = i + 1;
    }
    proof {
        assert(v@.take(v@.len() as int) =~= v@);
    }
    out
}

/// The index of the first white space in `s`, or its length where there is none.
pub open spec fn find_space(s: Seq<char>) -> int
    decreases s.len(),
{
    if s.len() == 0 || is_space(s[0]) {
        0
    } else {
        1 + find_space(s.skip(1))
    }
}

pub proof fn lemma_find_space(s: Seq<char>)
    ensures
        0 <= find_space(s) <= s.len(),
        forall|j: int| 0 <= j < find_space(s) ==> !is_space(#[trigger] s[j]),
        find_space(s) < s.len() ==> is_space(s[find_space(s)]),
    decreases s.len(),
{
    if s.len() == 0 || is_space(s[0]) {
    } else {
        let t = s.skip(1);
        lemma_find_space(t);
        assert forall|j: int| 0 <= j < find_space(s) implies !is_space(#[trigger] s[j]) by {
            if j > 0 {
                assert(t[j - 1] == s[j]);
                assert(!is_space(t[j - 1]));
            }
        }
    }
}

/// What is left of `s` without the white space at its start is no longer than `s`.
pub proof fn lemma_trim_start(s: Seq<char>)
    ensures
        trim_start(s).len() <= s.len(),
        trim_start(s) == s.skip(s.len() - trim_start(s).len()),
        trim_start(s).len() > 0 ==> !is_space(trim_start(s)[0]),
    decreases s.len(),
{
    if s.len() > 0 && is_space(s[0]) {
        lemma_trim_start(s.skip(1));
        let n = trim_start(s).len() as int;
        assert(s.skip(1).skip(s.len() - 1 - n) =~= s.skip(s.len() - n));
    } else {
        assert(s.skip(0) =~= s);
    }
}

/// The words of a text: its longest pieces without white space, in order.
pub open spec fn words(s: Seq<char>) -> Seq<Seq<char>>
    decreases s.len(),
    via words_decreases
{
    let t = trim_start(s);
    if t.len() == 0 {
        Seq::empty()
    } else {
        seq![t.take(find_space(t))] + words(t.skip(find_space(t)))
    }
}

#[via_fn]
proof fn words_decreases(s: Seq<char>) {
    lemma_trim_start(s);
    lemma_find_space(trim_start(s));
}

/// The words of a text.
pub fn split_words(s: &str) -> (r: Vec<String>)
    ensures
        views(r@) == words(s@),
{
    let cs = chars_of(s);
    let n: usize = cs.len();
    let mut out: Vec<String> = Vec::new();
    let mut i: usize = 0;
    proof {
        assert(s@.skip(0) =~= s@);
        assert(views(out@) + words(s@) =~= words(s@));
    }
    while i < n
        invariant
            i <= n,
            n == cs@.len(),
            cs@ == s@,
            words(s@) == views(out@) + words(s@.skip(i as int)),
        decreases n - i,
    {
        let ghost rest = s@.skip(i as int);
        if is_space_char(cs[i]) {
            proof {
                assert(rest.skip(1) =~= s@.skip(i + 1));
                assert(trim_start(rest) == trim_start(s@.skip(i + 1)));
            }
            i = i + 1;
        } else {
            let start: usize = i;
            while i < n && !is_space_char(cs[i])
                invariant
                    start <= i <= n,
                    n == cs@.len(),
                    forall|j: int| start <= j < i ==> !is_space(#[trigger] cs@[j]),
                decreases n - i,
            {
                i = i + 1;
            }
            let word = string_of(&cs, start, i);
            proof {
                assert(trim_start(rest) == rest);
                lemma_find_space(rest);
                let k = find_space(rest);
                if k < i - start {
                    assert(rest[k] == cs@[start + k]);
                }
                if k > i - start {
                    assert(rest[i - start] == cs@[i as int]);
                }
                assert(rest.take(k) =~= word@);
                assert(rest.skip(k) =~= s@.skip(i as int));
                lemma_views_push(out@, word);
                assert(views(out@) + (seq![word@] + words(s@.skip(i as int))) =~= views(
                    out@,
                ).push(word@) + words(s@.skip(i as int)));
            }
            out.push(word);
        }
    }
    proof {
        assert(trim_start(s@.skip(n as int)).len() == 0);
        assert(views(out@) + words(s@.skip(n as int)) =~= views(out@));
    }
    out
}

/// The text before the first `c` in `s` and the text behind it, where there is one.
pub fn split_at_char(s: &str, c: char) -> (r: Option<(String, String)>)
    ensures
        match r {
            Some((a, b)) => {
                &&& find_char(s@, c) < s@.len()
                &&& a@ == s@.take(find_char(s@, c))
                &&& b@ == s@.skip(find_char(s@, c) + 1)
            },
            None => find_char(s@, c) == s@.len(),
        },
{
    let cs = chars_of(s);
    let n: usize = cs.len();
    proof {
        lemma_find_char(s@, c);
    }
    let mut k: usize = 0;
    while k < n && cs[k] != c
        invariant
            k <= n,
            n == cs@.len(),
            cs@ == s@,
            forall|j: int| 0 <= j < k ==> cs@[j] != c,
        decreases n - k,
    {
        k = k + 1;
    }
    proof {
        assert(find_char(s@, c) == k);
    }
    if k == n {
        return None;
    }
    let a = string_of(&cs, 0, k);
    let b = string_of(&cs, k + 1, n);
    proof {
        assert(a@ =~= s@.take(k as int));
        assert(b@ =~= s@.skip(k + 1));
    }
    Some((a, b))
}

/// A text without the white space at its end.
pub fn trimmed_end(s: &str) -> (r: String)
    ensures
        r@ == trim_end(s@),
{
    let cs = chars_of(s);
    let mut to: usize = cs.len();
    proof {
        assert(cs@.take(to as int) =~= s@);
    }
    while to > 0 && is_space_char(cs[to - 1])
        invariant
            to <= cs@.len(),
            trim_end(s@) == trim_end(cs@.take(to as int)),
        decreases to,
    {
        proof {
            assert(cs@.take(to as int).drop_last() =~= cs@.take(to - 1));
        }
        to = to - 1;
    }
    let r = string_of(&cs, 0, to);
    proof {
        assert(r@ =~= cs@.take(to as int));
    }
    r
}

/// Whether `v` holds the text `s`.
pub fn holds(v: &Vec<String>, s: &str) -> (r: bool)
    ensures
        r == views(v@).contains(s@),
{
    let mut i: usize = 0;
    while i < v.len()
        invariant
            i <= v@.len(),
            forall|k: int| 0 <= k < i ==> (#[trigger] v@[k])@ != s@,
        decreases v@.len() - i,
    {
        if same_text(v[i].as_str(), s) {
            proof {
                assert(views(v@)[i as int] == s@);
            }
            return true;
        }
        i = i + 1;
    }
    proof {
        assert forall|k: int| 0 <= k < views(v@).len() implies views(v@)[k] != s@ by {
            assert(v@[k]@ != s@);
        }
    }
    false
}

/// The first `c` of a text that holds one is also the first of any longer text.
pub proof fn lemma_find_char_joined(a: Seq<char>, b: Seq<char>, c: char)
    requires
        find_char(a, c) < a.len(),
    ensures
        find_char(a + b, c) == find_char(a, c),
    decreases a.len(),
{
    lemma_find_char(a, c);
    if a.len() > 0 && a[0] != c {
        assert((a + b).skip(1) =~= a.skip(1) + b);
        lemma_find_char_joined(a.skip(1), b, c);
    }
}

/// A text that was joined at the end of a line has the lines of both.
pub proof fn lemma_lines_joined(a: Seq<char>, b: Seq<char>)
    requires
        a.len() == 0 || a.last() == '\n',
    ensures
        lines(a + b) == lines(a) + lines(b),
    decreases a.len(),
{
    if a.len() == 0 {
        assert(a + b =~= b);
        assert(lines(a) + lines(b) =~= lines(b));
    } else {
        let n = find_char(a, '\n');
        lemma_find_char(a, '\n');
        if n == a.len() {
            assert(a[a.len() - 1] != '\n');
        }
        lemma_find_char_joined(a, b, '\n');
        assert((a + b).take(n) =~= a.take(n));
        assert((a + b).skip(n + 1) =~= a.skip(n + 1) + b);
        lemma_lines_joined(a.skip(n + 1), b);
        assert(lines(a + b) =~= lines(a) + lines(b));
    }
}

/// No line holds a line feed.
pub proof fn lemma_lines_hold_no_feed(s: Seq<char>)
    ensures
        forall|i: int, j: int|
            0 <= i < lines(s).len() && 0 <= j < lines(s)[i].len() ==> #[trigger] lines(s)[i][j]
                != '\n',
    decreases s.len(),
{
    let n = find_char(s, '\n');
    lemma_find_char(s, '\n');
    if s.len() > 0 && n < s.len() {
        lemma_lines_hold_no_feed(s.skip(n + 1));
        assert forall|i: int, j: int|
            0 <= i < lines(s).len() && 0 <= j < lines(s)[i].len() implies #[trigger] lines(s)[i][j]
            != '\n' by {
            if i > 0 {
                assert(lines(s)[i] == lines(s.skip(n + 1))[i - 1]);
            } else {
                assert(lines(s)[0] == without_return(s.take(n)));
            }
        }
    } else if s.len() > 0 {
        assert(lines(s) == seq![s]);
    } else {
        assert(lines(s).len() == 0);
    }
}

/// What trimming leaves is a stretch of the text that neither begins nor ends
/// with white space; it is empty where there is nothing else.
pub proof fn lemma_trim(s: Seq<char>) -> (from: int)
    ensures
        0 <= from <= from + trim(s).len() <= s.len(),
        trim(s) == s.subrange(from, from + trim(s).len()),
        trim(s).len() > 0 ==> !is_space(trim(s)[0]) && !is_space(trim(s).last()),
        trim(s).len() == 0 ==> forall|i: int| 0 <= i < s.len() ==> is_space(#[trigger] s[i]),
{
    let from = lemma_trimmed_start(s);
    let t = trim_start(s);
    lemma_trimmed_end(t);
    assert(trim(s) =~= s.subrange(from, from + trim(s).len()));
    if trim(s).len() > 0 {
        assert(trim(s)[0] == t[0]);
    } else {
        if t.len() > 0 {
            assert(is_space(t[0]));
        }
        assert forall|i: int| 0 <= i < s.len() implies is_space(#[trigger] s[i]) by {
            assert(from == s.len());
        }
    }
    from
}

proof fn lemma_trimmed_start(s: Seq<char>) -> (from: int)
    ensures
        0 <= from <= s.len(),
        trim_start(s) == s.skip(from),
        forall|i: int| 0 <= i < from ==> is_space(#[trigger] s[i]),
        from < s.len() ==> !is_space(s[from]),
    decreases s.len(),
{
    if s.len() > 0 && is_space(s[0]) {
        let k = lemma_trimmed_start(s.skip(1));
        assert(s.skip(1).skip(k) =~= s.skip(k + 1));
        assert forall|i: int| 0 <= i < k + 1 implies is_space(#[trigger] s[i]) by {
            if i > 0 {
                assert(s.skip(1)[i - 1] == s[i]);
            }
        }
        k + 1
    } else {
        assert(s.skip(0) =~= s);
        0
    }
}

proof fn lemma_trimmed_end(s: Seq<char>)
    ensures
        trim_end(s).len() <= s.len(),
        trim_end(s) == s.take(trim_end(s).len() as int),
        forall|i: int| trim_end(s).len() <= i < s.len() ==> is_space(#[trigger] s[i]),
        trim_end(s).len() > 0 ==> !is_space(trim_end(s).last()),
    decreases s.len(),
{
    if s.len() > 0 && is_space(s.last()) {
        lemma_trimmed_end(s.drop_last());
        assert(trim_end(s) =~= s.take(trim_end(s).len() as int));
        assert forall|i: int| trim_end(s).len() <= i < s.len() implies is_space(#[trigger] s[i]) by {
            if i < s.len() - 1 {
                assert(s.drop_last()[i] == s[i]);
            }
        }
    } else {
        assert(s.take(s.len() as int) =~= s);
    }
}

/// A text that neither begins nor ends with white space is left as it is.
pub proof fn lemma_trim_keeps(s: Seq<char>)
    requires
        s.len() == 0 || (!is_space(s[0]) && !is_space(s.last())),
    ensures
        trim(s) == s,
{
}

} // verus!
