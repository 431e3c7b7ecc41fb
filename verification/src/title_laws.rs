//! What holds of titles.
use crate::effects::{ChatPurpose, Effect};
use crate::helpers::client_error;
use crate::prompts::TITLE_SYSTEM_PROMPT;
use crate::providers::after_slash;
use crate::sessions::{first_user_text, title_sought};
use crate::state::App;
use crate::text::{lines, trim};
use crate::titles::{
    ascii_lower, clean_title, first_filled, has_title_label, short_title, title_line, unquoted,
};
use vstd::prelude::*;

verus! {

/// The first filled line is the first one that is more than white space.
pub proof fn blank_lines_are_passed_over(blank: Seq<Seq<char>>, line: Seq<char>, rest: Seq<
    Seq<char>,
>)
    requires
        forall|i: int| 0 <= i < blank.len() ==> trim(#[trigger] blank[i]).len() == 0,
        trim(line).len() > 0,
    ensures
        first_filled(blank + seq![line] + rest) == Some(line),
        first_filled(blank) is None,
    decreases blank.len(),
{
    let all = blank + seq![line] + rest;
    if blank.len() == 0 {
        assert(all[0] == line);
    } else {
        assert(all[0] == blank[0]);
        let less = blank.skip(1);
        assert(all.skip(1) =~= less + seq![line] + rest);
        assert forall|i: int| 0 <= i < less.len() implies trim(#[trigger] less[i]).len() == 0 by {
            assert(less[i] == blank[i + 1]);
        }
        blank_lines_are_passed_over(less, line, rest);
    }
}

/// One pair of quotes round a title is taken away; a title without is left alone.
pub proof fn quotes_are_taken_away(t: Seq<char>, s: Seq<char>)
    ensures
        unquoted(seq!['"'] + t + seq!['"']) == t,
        unquoted(seq!['\''] + t + seq!['\'']) == t,
        s.len() < 2 ==> unquoted(s) == s,
        s.len() > 0 && s[0] != '"' && s[0] != '\'' ==> unquoted(s) == s,
        s.len() > 0 && s[0] != s.last() ==> unquoted(s) == s,
{
    let a = seq!['"'] + t + seq!['"'];
    let b = seq!['\''] + t + seq!['\''];
    assert(a.subrange(1, a.len() - 1) =~= t);
    assert(b.subrange(1, b.len() - 1) =~= t);
}

/// The label "title:" counts in capital and in small letters, and no other text
/// does.
pub proof fn labels_count_in_any_letters(s: Seq<char>)
    ensures
        has_title_label(s) <==> s.len() >= 6 && (s[0] == 't' || s[0] == 'T') && (s[1] == 'i' || s[1]
            == 'I') && (s[2] == 't' || s[2] == 'T') && (s[3] == 'l' || s[3] == 'L') && (s[4] == 'e'
            || s[4] == 'E') && s[5] == ':',
{
    reveal_strlit("title:");
    if s.len() >= 6 {
        lemma_letter(s[0], 't', 'T');
        lemma_letter(s[1], 'i', 'I');
        lemma_letter(s[2], 't', 'T');
        lemma_letter(s[3], 'l', 'L');
        lemma_letter(s[4], 'e', 'E');
        assert(ascii_lower(s[5]) == ':' <==> s[5] == ':');
        if has_title_label(s) {
            assert(ascii_lower(s[0]) == 't');
            assert(ascii_lower(s[1]) == 'i');
            assert(ascii_lower(s[2]) == 't');
            assert(ascii_lower(s[3]) == 'l');
            assert(ascii_lower(s[4]) == 'e');
            assert(ascii_lower(s[5]) == ':');
        } else {
            let i = choose|i: int| 0 <= i < 6 && ascii_lower(#[trigger] s[i]) != "title:"@[i];
            assert(i == 0 || i == 1 || i == 2 || i == 3 || i == 4 || i == 5);
        }
    }
}

proof fn lemma_letter(c: char, small: char, capital: char)
    requires
        'a' <= small && small <= 'z',
        capital as int + 32 == small as int,
    ensures
        ascii_lower(c) == small <==> c == small || c == capital,
{
    if 'A' <= c && c <= 'Z' {
        assert(ascii_lower(c) as int == c as int + 32);
        if ascii_lower(c) == small {
            assert(c as int == capital as int);
        }
    }
}

/// The title of a reply is its first filled line, without quotes and label, and
/// cut where it is too long.
pub proof fn reply_becomes_a_title(raw: Seq<char>, line: Seq<char>)
    requires
        first_filled(lines(raw)) == Some(line),
    ensures
        ({
            let bare = unquoted(trim(line));
            let named = if has_title_label(bare) {
                trim(bare.skip(6))
            } else {
                bare
            };
            &&& named.len() <= 60 ==> clean_title(raw) == named
            &&& named.len() > 60 ==> clean_title(raw) == named.subrange(0, 57) + "..."@
        }),
        title_line(raw) == trim(line),
{
    let bare = unquoted(trim(line));
    let named = if has_title_label(bare) {
        trim(bare.skip(6))
    } else {
        bare
    };
    if named.len() > 60 {
        assert(named.take(57) =~= named.subrange(0, 57));
    }
}

/// A short title is kept, a long one is cut and marked.
pub proof fn long_titles_are_cut(text: Seq<char>)
    ensures
        text.len() <= 60 ==> short_title(text) == text,
        text.len() > 60 ==> short_title(text) == text.subrange(0, 57) + "..."@,
{
    if text.len() > 60 {
        assert(text.take(57) =~= text.subrange(0, 57));
    }
}

/// A title is asked for where the session has none and a small model can be
/// used: for that session, of what the user said first. Else that becomes the
/// title.
pub proof fn title_is_made_of_the_first_text(
    pre: App,
    post: App,
    old_fx: Seq<Effect>,
    new_fx: Seq<Effect>,
    text: Seq<char>,
)
    requires
        pre.current_session is Some,
        pre.current_session->Some_0.title@ == "New session"@,
        first_user_text(pre.messages@) == Some(text),
        title_sought(pre, post, old_fx, new_fx),
    ensures
        post.messages == pre.messages,
        post.stored_messages == pre.stored_messages,
        ({
            let asked = pre.config.small_model is Some && client_error(
                pre,
                pre.config.small_model->Some_0@,
            ) is None;
            let own = short_title(title_line(text));
            &&& asked ==> {
                &&& post == pre
                &&& new_fx.len() == old_fx.len() + 1
                &&& new_fx.drop_last() == old_fx
                &&& new_fx.last() is Chat
                &&& new_fx.last()->Chat_0.purpose == ChatPurpose::Title
                &&& new_fx.last()->Chat_0.system_prompt@ == TITLE_SYSTEM_PROMPT@
                &&& new_fx.last()->Chat_0.user_text@ == text
                &&& new_fx.last()->Chat_0.session_id@ == pre.current_session->Some_0.id@
                &&& new_fx.last()->Chat_0.fallback@ == own
                &&& new_fx.last()->Chat_0.resolved.model_id@ == after_slash(
                    pre.config.small_model->Some_0@,
                )
            }
            &&& !asked && own.len() > 0 ==> post.current_session is Some
                && post.current_session->Some_0.title@ == own
                && post.current_session->Some_0.id == pre.current_session->Some_0.id
            &&& !asked && own.len() == 0 ==> post == pre && new_fx == old_fx
        }),
{
}

} // verus!
