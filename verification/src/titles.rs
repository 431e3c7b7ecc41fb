//! Titles of sessions.
use crate::text::{
    chars_of, clip, clipped, find_char, is_space, lemma_find_char, lemma_lines_hold_no_feed,
    lemma_lines_joined, lemma_trim, lemma_trim_keeps, lines, skip_chars, split_lines, string_of,
    trim, trimmed, views,
};
use vstd::prelude::*;
use vstd::string::*;

verus! {

/// The longest title there is, in characters.
pub const MAX_TITLE: usize = 60;

/// The title of a session that has none of its own yet.
pub const DEFAULT_TITLE: &'static str = "New session";

/// The text cut to a title's length.
pub open spec fn short_title(text: Seq<char>) -> Seq<char> {
    clip(text, 60, 57)
}

/// No title is longer than the longest there is.
pub proof fn short_title_fits(text: Seq<char>)
    ensures
        short_title(text).len() <= MAX_TITLE,
{
    reveal_strlit("...");
}

/// The text cut to a title's length, with dots where something was cut off.
pub fn truncate_title(text: &str) -> (r: String)
    ensures
        r@ == short_title(text@),
        r@.len() <= MAX_TITLE,
{
    proof {
        short_title_fits(text@);
    }
    clipped(text, 60, 57)
}

/// The first of `ls` that is more than white space.
pub open spec fn first_filled(ls: Seq<Seq<char>>) -> Option<Seq<char>>
    decreases ls.len(),
{
    if ls.len() == 0 {
        None
    } else if trim(ls[0]).len() > 0 {
        Some(ls[0])
    } else {
        first_filled(ls.skip(1))
    }
}

/// The first line of `text` that is more than white space, trimmed.
pub open spec fn title_line(text: Seq<char>) -> Seq<char> {
    match first_filled(lines(text)) {
        Some(line) => trim(line),
        None => trim(text),
    }
}

fn first_title_line(text: &str) -> (r: String)
    ensures
        r@ == title_line(text@),
{
    let ls = split_lines(text);
    let mut i: usize = 0;
    proof {
        assert(lines(text@).skip(0) =~= lines(text@));
    }
    while i < ls.len()
        invariant
            i <= ls@.len(),
            views(ls@) == lines(text@),
            first_filled(lines(text@)) == first_filled(lines(text@).skip(i as int)),
        decreases ls@.len() - i,
    {
        let line = trimmed(ls[i].as_str());
        proof {
            assert(lines(text@)[i as int] == ls@[i as int]@);
            assert(lines(text@).skip(i as int).skip(1) =~= lines(text@).skip(i + 1));
        }
        if !line.as_str().is_empty() {
            return line;
        }
        i = i + 1;
    }
    trimmed(text)
}

/// The title that a session gets from the first message of the user: its first
/// filled line, cut to a title's length.
pub fn title_fallback(text: &str) -> (r: String)
    ensures
        r@ == short_title(title_line(text@)),
        r@.len() <= MAX_TITLE,
{
    truncate_title(first_title_line(text).as_str())
}

/// A text without one layer of quotes round it.
pub open spec fn unquoted(s: Seq<char>) -> Seq<char> {
    if s.len() >= 2 && s[0] == s.last() && (s[0] == '"' || s[0] == '\'') {
        s.subrange(1, s.len() - 1)
    } else {
        s
    }
}

/// An ASCII capital letter as a small one, any other character as it is.
pub open spec fn ascii_lower(c: char) -> char {
    if 'A' <= c && c <= 'Z' {
        ((c as u8 + 32) as u8) as char
    } else {
        c
    }
}

/// Whether `s` starts with "title:" in capital or small letters.
pub open spec fn has_title_label(s: Seq<char>) -> bool {
    s.len() >= 6 && forall|i: int| 0 <= i < 6 ==> ascii_lower(#[trigger] s[i]) == "title:"@[i]
}

/// What a title reads that a model answered with `raw`: the first filled line
/// without quotes round it and without the label before it, cut to length.
pub open spec fn clean_title(raw: Seq<char>) -> Seq<char> {
    let line = unquoted(title_line(raw));
    short_title(
        if has_title_label(line) {
            trim(line.skip(6))
        } else {
            line
        },
    )
}

fn lower_ascii(c: char) -> (r: char)
    ensures
        r == ascii_lower(c),
{
    if 'A' <= c && c <= 'Z' {
        (c as u8 + 32) as char
    } else {
        c
    }
}

fn labelled(cs: &Vec<char>) -> (r: bool)
    ensures
        r == has_title_label(cs@),
{
    if cs.len() < 6 {
        return false;
    }
    let label = chars_of("title:");
    proof {
        reveal_strlit("title:");
    }
    let mut i: usize = 0;
    while i < 6
        invariant
            i <= 6 <= cs@.len(),
            label@ == "title:"@,
            label@.len() == 6,
            forall|k: int| 0 <= k < i ==> ascii_lower(#[trigger] cs@[k]) == "title:"@[k],
        decreases 6 - i,
    {
        if lower_ascii(cs[i]) != label[i] {
            return false;
        }
        i = i + 1;
    }
    true
}

/// The title in the answer of a model.
pub fn sanitize_title(raw: &str) -> (r: String)
    ensures
        r@ == clean_title(raw@),
        r@.len() <= MAX_TITLE,
{
    let line = first_title_line(raw);
    let cs = chars_of(line.as_str());
    let n: usize = cs.len();
    let bare = if n >= 2 && cs[0] == cs[n - 1] && (cs[0] == '"' || cs[0] == '\'') {
        string_of(&cs, 1, n - 1)
    } else {
        line
    };
    let inner = chars_of(bare.as_str());
    if labelled(&inner) {
        let rest = skip_chars(bare.as_str(), 6);
        truncate_title(trimmed(rest.as_str()).as_str())
    } else {
        truncate_title(bare.as_str())
    }
}

/// A text without a filled line is white space throughout.
proof fn lemma_no_filled_line(s: Seq<char>)
    requires
        first_filled(lines(s)) is None,
    ensures
        forall|i: int| 0 <= i < s.len() ==> is_space(#[trigger] s[i]),
    decreases s.len(),
{
    let n = find_char(s, '\n');
    lemma_find_char(s, '\n');
    if s.len() > 0 {
        let ls = lines(s);
        if n < s.len() {
            assert(ls.skip(1) =~= lines(s.skip(n + 1)));
            lemma_no_filled_line(s.skip(n + 1));
        }
        let line = ls[0];
        lemma_trim(line);
        assert forall|i: int| 0 <= i < s.len() implies is_space(#[trigger] s[i]) by {
            if i < n && i < line.len() {
                assert(line[i] == s[i]);
            } else if i > n {
                assert(s.skip(n + 1)[i - n - 1] == s[i]);
            }
        }
    }
}

/// The line that a title is taken from holds no line feed, and no white space
/// at its ends.
proof fn lemma_title_line(text: Seq<char>)
    ensures
        forall|i: int| 0 <= i < title_line(text).len() ==> #[trigger] title_line(text)[i] != '\n',
        title_line(text).len() > 0 ==> !is_space(title_line(text)[0]) && !is_space(
            title_line(text).last(),
        ),
{
    match first_filled(lines(text)) {
        Some(line) => {
            lemma_first_filled(lines(text));
            let k = choose|k: int| 0 <= k < lines(text).len() && #[trigger] lines(text)[k] == line;
            lemma_lines_hold_no_feed(text);
            let from = lemma_trim(line);
            assert forall|i: int| 0 <= i < title_line(text).len() implies #[trigger] title_line(
                text,
            )[i] != '\n' by {
                assert(title_line(text)[i] == lines(text)[k][from + i]);
            }
        },
        None => {
            lemma_no_filled_line(text);
            let from = lemma_trim(text);
            if trim(text).len() > 0 {
                assert(trim(text)[0] == text[from]);
            }
        },
    }
}

proof fn lemma_first_filled(ls: Seq<Seq<char>>)
    ensures
        first_filled(ls) matches Some(line) ==> exists|k: int|
            0 <= k < ls.len() && #[trigger] ls[k] == line,
    decreases ls.len(),
{
    if ls.len() > 0 && trim(ls[0]).len() == 0 {
        lemma_first_filled(ls.skip(1));
        if let Some(line) = first_filled(ls.skip(1)) {
            let k = choose|k: int| 0 <= k < ls.skip(1).len() && #[trigger] ls.skip(1)[k] == line;
            assert(ls[k + 1] == line);
        }
    }
}

/// A title that was taken from a text is its own title.
pub proof fn fallback_is_idempotent(text: Seq<char>)
    ensures
        short_title(title_line(short_title(title_line(text)))) == short_title(title_line(text)),
{
    reveal_strlit("...");
    lemma_title_line(text);
    short_title_fits(title_line(text));
    let t = short_title(title_line(text));
    if t.len() > 0 {
        assert(!is_space(t[0]) && !is_space(t.last()));
        lemma_trim_keeps(t);
        lemma_find_char(t, '\n');
        assert(find_char(t, '\n') == t.len());
        assert(lines(t) == seq![t]);
        assert(first_filled(lines(t)) == Some(t));
    } else {
        assert(lines(t).len() == 0);
        lemma_trim_keeps(t);
    }
}

/// Two texts whose first filled line is the same have the same title.
pub proof fn only_first_filled_line_counts(a: Seq<char>, b: Seq<char>)
    requires
        first_filled(lines(a)) == first_filled(lines(b)),
    ensures
        title_line(a) == title_line(b),
        clean_title(a) == clean_title(b),
{
    if first_filled(lines(a)) is None {
        lemma_no_filled_line(a);
        lemma_no_filled_line(b);
        let i = lemma_trim(a);
        let j = lemma_trim(b);
        if trim(a).len() > 0 {
            assert(trim(a)[0] == a[i]);
        }
        if trim(b).len() > 0 {
            assert(trim(b)[0] == b[j]);
        }
        assert(trim(a) =~= trim(b));
    }
}

proof fn lemma_filled_in_front(a: Seq<Seq<char>>, b: Seq<Seq<char>>)
    requires
        first_filled(a) is Some,
    ensures
        first_filled(a + b) == first_filled(a),
    decreases a.len(),
{
    if trim(a[0]).len() == 0 {
        assert((a + b).skip(1) =~= a.skip(1) + b);
        lemma_filled_in_front(a.skip(1), b);
    }
}

/// What comes behind the first filled line never gets into a title.
pub proof fn later_lines_do_not_count(head: Seq<char>, tail: Seq<char>)
    requires
        head.len() > 0 && head.last() == '\n',
        first_filled(lines(head)) is Some,
    ensures
        title_line(head + tail) == title_line(head),
        clean_title(head + tail) == clean_title(head),
{
    lemma_lines_joined(head, tail);
    lemma_filled_in_front(lines(head), lines(tail));
}

} // verus!
