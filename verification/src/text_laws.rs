//! What holds of texts.
use crate::text::{
    byte_len, byte_prefix, clip, decimal, find_char, find_space, is_space, join,
    lemma_find_char, lemma_find_space, lemma_trim_start, lines, trim, trim_end, trim_start,
    without_return, words,
};
use vstd::prelude::*;

verus! {

/// Whether `t` stands somewhere in `s`.
pub open spec fn occurs(t: Seq<char>, s: Seq<char>) -> bool {
    exists|k: int| 0 <= k && k + t.len() <= s.len() && #[trigger] s.subrange(k, k + t.len()) == t
}

/// What stands between two texts stands in the whole.
pub proof fn middle_occurs(a: Seq<char>, m: Seq<char>, b: Seq<char>)
    ensures
        occurs(m, a + m + b),
{
    let all = a + m + b;
    let k = a.len() as int;
    assert(all.subrange(k, k + m.len()) =~= m);
}

/// What stands in a part stands in the whole.
pub proof fn part_of_a_part_occurs(t: Seq<char>, m: Seq<char>, s: Seq<char>)
    requires
        occurs(t, m),
        occurs(m, s),
    ensures
        occurs(t, s),
{
    let i = choose|k: int|
        0 <= k && k + t.len() <= m.len() && #[trigger] m.subrange(k, k + t.len()) == t;
    let j = choose|k: int|
        0 <= k && k + m.len() <= s.len() && #[trigger] s.subrange(k, k + m.len()) == m;
    assert(s.subrange(j + i, j + i + t.len()) =~= s.subrange(j, j + m.len()).subrange(
        i,
        i + t.len(),
    ));
}

/// Nothing is lost where texts are joined: each stands in the whole.
pub proof fn joined_parts_occur(parts: Seq<Seq<char>>, sep: Seq<char>, i: int)
    requires
        0 <= i < parts.len(),
    ensures
        occurs(parts[i], join(parts, sep)),
    decreases parts.len(),
{
    let all = join(parts, sep);
    if parts.len() == 1 {
        assert(all.subrange(0, 0int + parts[0].len()) =~= parts[0]);
    } else if i == parts.len() - 1 {
        let k = (join(parts.drop_last(), sep) + sep).len();
        assert(all.subrange(k as int, k as int + parts[i].len()) =~= parts[i]);
    } else {
        joined_parts_occur(parts.drop_last(), sep, i);
        let front = join(parts.drop_last(), sep);
        let p = parts[i];
        let k = choose|k: int|
            0 <= k && k + p.len() <= front.len() && #[trigger] front.subrange(k, k + p.len()) == p;
        assert(all.subrange(k, k + p.len()) =~= front.subrange(k, k + p.len()));
    }
}

/// Joining in two steps is joining at once, with the separator where the two meet.
pub proof fn joins_join(a: Seq<Seq<char>>, b: Seq<Seq<char>>, sep: Seq<char>)
    requires
        a.len() > 0,
        b.len() > 0,
    ensures
        join(a + b, sep) == join(a, sep) + sep + join(b, sep),
        join(Seq::<Seq<char>>::empty(), sep).len() == 0,
        join(seq![a[0]], sep) == a[0],
    decreases b.len(),
{
    assert((a + b).drop_last() =~= a + b.drop_last());
    assert((a + b).last() == b.last());
    if b.len() == 1 {
        assert(a + b.drop_last() =~= a);
    } else {
        joins_join(a, b.drop_last(), sep);
        assert(join(a + b, sep) =~= join(a, sep) + sep + join(b, sep));
    }
}

/// A text without a line feed is one line; with one behind it, it is one line
/// without the carriage return there; an empty text has no line.
pub proof fn lines_of_one(t: Seq<char>)
    requires
        forall|i: int| 0 <= i < t.len() ==> #[trigger] t[i] != '\n',
    ensures
        lines(Seq::<char>::empty()).len() == 0,
        t.len() > 0 ==> lines(t) == seq![t],
        t.len() == 0 || t.last() != '\r' ==> lines(t.push('\n')) == seq![t],
        t.len() > 0 && t.last() == '\r' ==> lines(t.push('\n')) == seq![t.drop_last()],
{
    lemma_find_char(t, '\n');
    let s = t.push('\n');
    lemma_find_char(s, '\n');
    let n = find_char(s, '\n');
    assert(s[t.len() as int] == '\n');
    if n < t.len() {
        assert(s[n] == t[n]);
    }
    assert(n == t.len());
    assert(s.take(n) =~= t);
    assert(s.skip(n + 1) =~= Seq::<char>::empty());
    assert(lines(s.skip(n + 1)).len() == 0);
    assert(lines(s) =~= seq![without_return(t)]);
}

/// Trimming takes away white space at the two ends, all of it and nothing else.
pub proof fn trimming_takes_only_space(s: Seq<char>) -> (from: int)
    ensures
        0 <= from <= from + trim(s).len() <= s.len(),
        trim(s) == s.subrange(from, from + trim(s).len()),
        forall|i: int| 0 <= i < from ==> is_space(#[trigger] s[i]),
        forall|i: int| from + trim(s).len() <= i < s.len() ==> is_space(#[trigger] s[i]),
        trim(s).len() > 0 ==> !is_space(trim(s)[0]) && !is_space(trim(s).last()),
{
    lemma_trim_start(s);
    let t = trim_start(s);
    let from = s.len() - t.len();
    lemma_space_before(s);
    lemma_space_behind(t);
    assert(trim(s) =~= s.subrange(from, from + trim(s).len()));
    assert forall|i: int| from + trim(s).len() <= i < s.len() implies is_space(#[trigger] s[i]) by {
        assert(t[i - from] == s[i]);
    }
    if trim(s).len() > 0 {
        assert(trim(s)[0] == t[0]);
    }
    from
}

proof fn lemma_space_before(s: Seq<char>)
    ensures
        trim_start(s).len() <= s.len(),
        forall|i: int| 0 <= i < s.len() - trim_start(s).len() ==> is_space(#[trigger] s[i]),
    decreases s.len(),
{
    if s.len() > 0 && is_space(s[0]) {
        lemma_space_before(s.skip(1));
        assert forall|i: int| 0 <= i < s.len() - trim_start(s).len() implies is_space(
            #[trigger] s[i],
        ) by {
            if i > 0 {
                assert(s.skip(1)[i - 1] == s[i]);
            }
        }
    }
}

proof fn lemma_space_behind(s: Seq<char>)
    ensures
        trim_end(s).len() <= s.len(),
        trim_end(s) == s.take(trim_end(s).len() as int),
        forall|i: int| trim_end(s).len() <= i < s.len() ==> is_space(#[trigger] s[i]),
        trim_end(s).len() > 0 ==> !is_space(trim_end(s).last()),
    decreases s.len(),
{
    if s.len() > 0 && is_space(s.last()) {
        lemma_space_behind(s.drop_last());
        assert(trim_end(s) =~= s.take(trim_end(s).len() as int));
        assert forall|i: int| trim_end(s).len() <= i < s.len() implies is_space(#[trigger] s[i]) by {
            if i < s.len() - 1 {
                assert(s.drop_last()[i] == s[i]);
            }
        }
    } else {
        assert(s.take(s.len() as int) =~= s);
    }
}

/// Trimming the end only takes white space there, all of it and nothing else.
pub proof fn end_is_trimmed_of_space(s: Seq<char>)
    ensures
        trim_end(s).is_prefix_of(s),
        forall|i: int| trim_end(s).len() <= i < s.len() ==> is_space(#[trigger] s[i]),
        trim_end(s).len() > 0 ==> !is_space(trim_end(s).last()),
{
    lemma_space_behind(s);
    assert(s.subrange(0, trim_end(s).len() as int) =~= trim_end(s));
}

/// Trimming the end takes nothing of a text that ends in something seen.
pub proof fn trimming_keeps_what_is_seen(t: Seq<char>, s: Seq<char>)
    requires
        t.len() > 0,
        !is_space(t.last()),
        occurs(t, s),
    ensures
        occurs(t, trim_end(s)),
{
    lemma_space_behind(s);
    let k = choose|k: int|
        0 <= k && k + t.len() <= s.len() && #[trigger] s.subrange(k, k + t.len()) == t;
    assert(s[k + t.len() - 1] == s.subrange(k, k + t.len())[t.len() - 1]);
    assert(trim_end(s).subrange(k, k + t.len()) =~= t);
}

/// Blanks, tabs and line ends are white space; letters, digits and the marks of
/// ordinary writing are not.
pub proof fn space_is_what_is_not_seen(c: char)
    ensures
        c == ' ' || c == '\t' || c == '\n' || c == '\r' ==> is_space(c),
        '!' <= c && c <= '~' ==> !is_space(c),
{
}

/// A word is a piece without white space.
pub proof fn words_of_one(t: Seq<char>)
    requires
        t.len() > 0,
        forall|i: int| 0 <= i < t.len() ==> !is_space(#[trigger] t[i]),
    ensures
        words(t) == seq![t],
        words(Seq::<char>::empty()).len() == 0,
{
    lemma_find_space(t);
    assert(trim_start(t) == t);
    assert(t.take(find_space(t)) =~= t);
    assert(t.skip(find_space(t)) =~= Seq::<char>::empty());
    assert(trim_start(Seq::<char>::empty()).len() == 0);
    assert(words(t.skip(find_space(t))).len() == 0);
    assert(words(t) =~= seq![t]);
}

/// White space parts words: what stands on its two sides is read by itself.
pub proof fn space_parts_words(a: Seq<char>, c: char, b: Seq<char>)
    requires
        is_space(c),
    ensures
        words(a + seq![c] + b) == words(a) + words(b),
    decreases a.len(),
{
    let s = a + seq![c] + b;
    if a.len() == 0 {
        assert(s.skip(1) =~= b);
        assert(trim_start(s) == trim_start(b));
        assert(words(s) == words(b));
        assert(trim_start(a).len() == 0);
        assert(words(a) + words(b) =~= words(b));
    } else if is_space(a[0]) {
        assert(s.skip(1) =~= a.skip(1) + seq![c] + b);
        space_parts_words(a.skip(1), c, b);
        assert(trim_start(s) == trim_start(s.skip(1)));
        assert(trim_start(a) == trim_start(a.skip(1)));
        assert(words(s) == words(s.skip(1)));
        assert(words(a) == words(a.skip(1)));
    } else {
        assert(s[0] == a[0]);
        assert(trim_start(s) == s);
        assert(trim_start(a) == a);
        let n = find_space(a);
        lemma_find_space(a);
        lemma_find_space_joined(a, c, b);
        assert(s.take(n) =~= a.take(n));
        assert(s.skip(n) =~= a.skip(n) + seq![c] + b);
        space_parts_words(a.skip(n), c, b);
        assert(words(s) =~= words(a) + words(b));
    }
}

proof fn lemma_find_space_joined(a: Seq<char>, c: char, b: Seq<char>)
    requires
        is_space(c),
    ensures
        find_space(a + seq![c] + b) == find_space(a),
    decreases a.len(),
{
    let s = a + seq![c] + b;
    if a.len() > 0 && !is_space(a[0]) {
        assert(s.skip(1) =~= a.skip(1) + seq![c] + b);
        lemma_find_space_joined(a.skip(1), c, b);
    } else if a.len() == 0 {
        assert(s[0] == c);
    }
}

/// A text that is not too long is left as it is; of a longer one the start is
/// kept, and dots say that there is more.
pub proof fn clipping_keeps_the_start(s: Seq<char>, max: nat, keep: nat)
    requires
        keep <= max,
    ensures
        s.len() <= max ==> clip(s, max, keep) == s,
        s.len() > max ==> clip(s, max, keep) == s.subrange(0, keep as int) + "..."@,
{
    if s.len() > keep {
        assert(s.take(keep as int) =~= s.subrange(0, keep as int));
    } else if s.len() > max {
        assert(s.subrange(0, keep as int) =~= s);
    }
}

/// A number is written digit by digit, the highest first.
pub proof fn numbers_are_written_digit_by_digit(a: nat, d: nat)
    requires
        d < 10,
    ensures
        decimal(d) == seq![((48 + d) as u8) as char],
        a > 0 ==> decimal(10 * a + d) == decimal(a).push(((48 + d) as u8) as char),
{
    if a > 0 {
        assert((10 * a + d) / 10 == a);
        assert((10 * a + d) % 10 == d);
    }
}

/// Cutting to a number of bytes keeps the longest start that fits.
pub proof fn cut_keeps_the_longest_start(s: Seq<char>, max: nat)
    ensures
        byte_prefix(s, max).is_prefix_of(s),
        byte_len(s) <= max ==> byte_prefix(s, max) == s,
        byte_len(byte_prefix(s, max)) <= max,
        byte_prefix(s, max).len() < s.len() ==> byte_len(
            s.take(byte_prefix(s, max).len() as int + 1),
        ) > max,
    decreases s.len(),
{
    if byte_len(s) <= max || s.len() == 0 {
        assert(s.subrange(0, s.len() as int) =~= s);
    } else {
        let t = s.drop_last();
        cut_keeps_the_longest_start(t, max);
        let p = byte_prefix(t, max);
        assert(s.subrange(0, p.len() as int) =~= t.subrange(0, p.len() as int));
        if p.len() < t.len() {
            assert(s.take(p.len() as int + 1) =~= t.take(p.len() as int + 1));
        } else {
            assert(s.take(p.len() as int + 1) =~= s);
        }
    }
}

/// Bytes are counted character by character: one for each ASCII character,
/// never more than four.
pub proof fn bytes_are_counted(c: char)
    ensures
        byte_len(Seq::<char>::empty()) == 0,
        c <= '\u{7f}' ==> byte_len(seq![c]) == 1,
        c > '\u{7f}' && c <= '\u{7ff}' ==> byte_len(seq![c]) == 2,
        c > '\u{7ff}' && c <= '\u{ffff}' ==> byte_len(seq![c]) == 3,
        c > '\u{ffff}' ==> byte_len(seq![c]) == 4,
{
    let one = seq![c];
    assert(one.drop_last() =~= Seq::<char>::empty());
    assert(byte_len(one.drop_last()) == 0);
}

} // verus!
