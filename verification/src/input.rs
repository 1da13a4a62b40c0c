//! Validation of what the user types for a new shortcut.

use vstd::prelude::*;

verus! {

/// Whether `c` has the Unicode property `White_Space`, as
/// `char::is_whitespace` tells it.
pub uninterp spec fn is_white_space(c: char) -> bool;

/// `text` without the whitespace at its start.
pub open spec fn trim_start(text: Seq<char>) -> Seq<char>
    decreases text.len(),
{
    if text.len() > 0 && is_white_space(text.first()) {
        trim_start(text.drop_first())
    } else {
        text
    }
}

/// `text` without the whitespace at its end.
pub open spec fn trim_end(text: Seq<char>) -> Seq<char>
    decreases text.len(),
{
    if text.len() > 0 && is_white_space(text.last()) {
        trim_end(text.drop_last())
    } else {
        text
    }
}

/// `text` without the whitespace at its start and at its end.
pub open spec fn trimmed(text: Seq<char>) -> Seq<char> {
    trim_end(trim_start(text))
}

/// Text is blank when trimming leaves nothing of it.
pub open spec fn blank(text: Seq<char>) -> bool {
    trimmed(text).len() == 0
}

/// Every character of `text` is whitespace.
pub open spec fn all_white_space(text: Seq<char>) -> bool {
    forall|i: int| 0 <= i < text.len() ==> is_white_space(#[trigger] text[i])
}

/// What the user typed can become a shortcut when neither its name nor its
/// command is blank. The icon path is not looked at.
pub open spec fn acceptable(name: Seq<char>, command: Seq<char>) -> bool {
    !blank(name) && !blank(command)
}

/// Trimming the start leaves nothing exactly of text that is all
/// whitespace; what it leaves of other text does not start with whitespace.
proof fn lemma_trim_start(text: Seq<char>)
    ensures
        trim_start(text).len() == 0 <==> all_white_space(text),
        trim_start(text).len() > 0 ==> !is_white_space(trim_start(text).first()),
    decreases text.len(),
{
    if text.len() > 0 && is_white_space(text.first()) {
        let rest = text.drop_first();
        lemma_trim_start(rest);
        if all_white_space(rest) {
            assert forall|i: int| 0 <= i < text.len() implies is_white_space(#[trigger] text[i]) by {
                if i > 0 {
                    assert(text[i] == rest[i - 1]);
                }
            }
        }
        if all_white_space(text) {
            assert forall|i: int| 0 <= i < rest.len() implies is_white_space(#[trigger] rest[i]) by {
                assert(rest[i] == text[i + 1]);
            }
        }
    } else if text.len() > 0 {
        assert(!is_white_space(text[0]));
    }
}

/// Trimming the end leaves nothing exactly of text that is all whitespace.
proof fn lemma_trim_end(text: Seq<char>)
    ensures
        trim_end(text).len() == 0 <==> all_white_space(text),
    decreases text.len(),
{
    if text.len() > 0 && is_white_space(text.last()) {
        let rest = text.drop_last();
        lemma_trim_end(rest);
        if all_white_space(rest) {
            assert forall|i: int| 0 <= i < text.len() implies is_white_space(#[trigger] text[i]) by {
                if i < rest.len() {
                    assert(text[i] == rest[i]);
                }
            }
        }
        if all_white_space(text) {
            assert forall|i: int| 0 <= i < rest.len() implies is_white_space(#[trigger] rest[i]) by {
                assert(rest[i] == text[i]);
            }
        }
    } else if text.len() > 0 {
        assert(!is_white_space(text[text.len() - 1]));
    }
}

/// Blank text is text that holds nothing but whitespace. The empty text is
/// blank; text with one character that is not whitespace is not.
pub proof fn blank_is_all_white_space(text: Seq<char>)
    ensures
        blank(text) <==> all_white_space(text),
        text.len() == 0 ==> blank(text),
{
    let kept = trim_start(text);
    lemma_trim_start(text);
    lemma_trim_end(kept);
    if kept.len() > 0 {
        assert(!is_white_space(kept[0]));
    }
}

/// Text with one more character at its end is all whitespace exactly when
/// the text was and the character is whitespace.
proof fn lemma_all_white_space_push(text: Seq<char>, c: char)
    ensures
        all_white_space(text.push(c)) == (all_white_space(text) && is_white_space(c)),
{
    let longer = text.push(c);
    if all_white_space(text) && is_white_space(c) {
        assert forall|i: int| 0 <= i < longer.len() implies is_white_space(#[trigger] longer[i]) by {
            if i < text.len() {
                assert(longer[i] == text[i]);
            }
        }
    }
    if all_white_space(longer) {
        assert(longer[text.len() as int] == c);
        assert forall|i: int| 0 <= i < text.len() implies is_white_space(#[trigger] text[i]) by {
            assert(longer[i] == text[i]);
        }
    }
}

/// Calls `char::is_whitespace`, which tells whether a character has the
/// Unicode property `White_Space`. Which characters have it is not stated
/// here: the answer is taken as the meaning of `is_white_space`.
#[verifier::external_body]
fn has_white_space_property(c: char) -> (answer: bool)
    ensures
        answer == is_white_space(c),
{
    c.is_whitespace()
}

/// Whether `text` is blank: whether trimming whitespace from both of its
/// ends leaves nothing.
pub fn is_blank(text: &str) -> (answer: bool)
    ensures
        answer == blank(text@),
{
    let mut answer: bool = true;
    for c in it: text.chars()
        invariant
            it.seq() == text@,
            answer == all_white_space(text@.take(it.index())),
    {
        proof {
            assert(text@.take(it.index() + 1) =~= text@.take(it.index()).push(c));
            lemma_all_white_space_push(text@.take(it.index()), c);
        }
        if !has_white_space_property(c) {
            answer = false;
        }
    }
    proof {
        assert(text@.take(text@.len() as int) =~= text@);
        blank_is_all_white_space(text@);
    }
    answer
}

} // verus!
