//! How the lines that the user types are read: values with a default, and
//! the answer to a yes-or-no question.

use crate::text::{
    ascii_lowered, eq_ignore_ascii_case, is_blank, is_white_space, lemma_trimmed_blank,
    lemma_trimmed_padded, trim, trimmed,
};
use vstd::prelude::*;
use vstd::string::*;

verus! {

/// The value that a typed line gives: the line without the white space around
/// it or, where nothing else was typed, the default.
pub open spec fn value_or_default(line: Seq<char>, default: Seq<char>) -> Seq<char> {
    if trimmed(line).len() == 0 {
        default
    } else {
        trimmed(line)
    }
}

/// Whether `answer`, already trimmed and lowered, says yes.
pub open spec fn says_yes(answer: Seq<char>) -> bool {
    answer == seq!['y'] || answer == seq!['y', 'e', 's']
}

/// Whether `answer`, already trimmed and lowered, says no.
pub open spec fn says_no(answer: Seq<char>) -> bool {
    answer == seq!['n'] || answer == seq!['n', 'o']
}

/// The answer that a typed line gives to a yes-or-no question: `Some(true)`
/// for yes, `Some(false)` for no, `None` where the question has to be asked
/// again. White space around the answer and the ASCII case of its letters do
/// not count, and a line without an answer stands for the default.
pub open spec fn answer_of(line: Seq<char>, default_yes: bool) -> Option<bool> {
    let answer = ascii_lowered(trimmed(line));
    if answer.len() == 0 {
        Some(default_yes)
    } else if says_yes(answer) {
        Some(true)
    } else if says_no(answer) {
        Some(false)
    } else {
        None
    }
}

/// The text that asks for a value and names its default.
pub open spec fn prompt_with_default(label: Seq<char>, default: Seq<char>) -> Seq<char> {
    label + " (default: "@ + default + "): "@
}

/// Reads a value from the line that the user typed, falling back on `default`
/// where the line holds nothing but white space. The value is taken as typed:
/// it is not checked to be a number.
pub fn read_input_with_default(line: &str, default: &str) -> (value: String)
    ensures
        value@ == value_or_default(line@, default@),
{
    let typed = trim(line);
    if typed.unicode_len() == 0 {
        String::from_str(default)
    } else {
        String::from_str(typed)
    }
}

/// Builds the text that asks for the value named `label`.
pub fn input_prompt(label: &str, default: &str) -> (text: String)
    ensures
        text@ == prompt_with_default(label@, default@),
{
    String::from_str(label).concat(" (default: ").concat(default).concat("): ")
}

/// Reads the answer to a yes-or-no question from the line that the user typed.
pub fn confirm(line: &str, default_yes: bool) -> (answer: Option<bool>)
    ensures
        answer == answer_of(line@, default_yes),
{
    let typed = trim(line);
    proof {
        reveal_strlit("y");
        reveal_strlit("yes");
        reveal_strlit("n");
        reveal_strlit("no");
        assert(ascii_lowered("y"@) =~= seq!['y']);
        assert(ascii_lowered("yes"@) =~= seq!['y', 'e', 's']);
        assert(ascii_lowered("n"@) =~= seq!['n']);
        assert(ascii_lowered("no"@) =~= seq!['n', 'o']);
    }
    if typed.unicode_len() == 0 {
        Some(default_yes)
    } else if eq_ignore_ascii_case(typed, "y") || eq_ignore_ascii_case(typed, "yes") {
        Some(true)
    } else if eq_ignore_ascii_case(typed, "n") || eq_ignore_ascii_case(typed, "no") {
        Some(false)
    } else {
        None
    }
}

/// A line on which nothing but white space was typed gives the default.
pub proof fn lemma_blank_line_gives_default(line: Seq<char>, default: Seq<char>)
    requires
        is_blank(line),
    ensures
        value_or_default(line, default) == default,
{
    lemma_trimmed_blank(line);
}

/// A value that was typed is taken as it stands, whatever white space is
/// around it and whatever the default is.
pub proof fn lemma_typed_value_is_kept(
    before: Seq<char>,
    typed: Seq<char>,
    after: Seq<char>,
    default: Seq<char>,
)
    requires
        is_blank(before),
        is_blank(after),
        typed.len() > 0,
        !is_white_space(typed.first()),
        !is_white_space(typed.last()),
    ensures
        value_or_default(before + typed + after, default) == typed,
{
    lemma_trimmed_padded(before, typed, after);
}

/// A line on which nothing but white space was typed answers with the default.
pub proof fn lemma_blank_line_answers_default(line: Seq<char>, default_yes: bool)
    requires
        is_blank(line),
    ensures
        answer_of(line, default_yes) == Some(default_yes),
{
    lemma_trimmed_blank(line);
}

/// A word that was typed answers yes where it is `y` or `yes`, no where it is
/// `n` or `no`, written in capital or small letters, and asks the question
/// again in every other case. The default plays no part then.
pub proof fn lemma_typed_word_answers(
    before: Seq<char>,
    word: Seq<char>,
    after: Seq<char>,
    default_yes: bool,
)
    requires
        is_blank(before),
        is_blank(after),
        word.len() > 0,
        !is_white_space(word.first()),
        !is_white_space(word.last()),
    ensures
        says_yes(ascii_lowered(word)) ==> answer_of(before + word + after, default_yes) == Some(
            true,
        ),
        says_no(ascii_lowered(word)) ==> answer_of(before + word + after, default_yes) == Some(
            false,
        ),
        !says_yes(ascii_lowered(word)) && !says_no(ascii_lowered(word)) ==> answer_of(
            before + word + after,
            default_yes,
        ).is_none(),
{
    lemma_trimmed_padded(before, word, after);
    assert(ascii_lowered(word).len() == word.len());
    if says_yes(ascii_lowered(word)) && says_no(ascii_lowered(word)) {
        assert(ascii_lowered(word)[0] == 'y');
        assert(ascii_lowered(word)[0] == 'n');
    }
}

} // verus!
