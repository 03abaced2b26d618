//! Output lines: the text of a value, and a label set before it.

use vstd::prelude::*;
use crate::decimal::{decimal, signed_decimal, signed_text, unsigned_text};

verus! {

/// `String::push` of the standard library appends the given character to the
/// end of the string and leaves what was there before untouched.
pub assume_specification[ String::push ](text: &mut String, ch: char)
    ensures
        final(text)@ == old(text)@.push(ch),
;

/// A line of the form `label = value`.
pub open spec fn labelled(label: Seq<char>, value: Seq<char>) -> Seq<char> {
    label + seq![' ', '=', ' '] + value
}

/// The word that stands for a truth value.
pub open spec fn bool_word(b: bool) -> Seq<char> {
    if b {
        seq!['t', 'r', 'u', 'e']
    } else {
        seq!['f', 'a', 'l', 's', 'e']
    }
}

/// Joins a label and the text of a value into one line.
pub fn labelled_line(label: &str, value: &str) -> (line: String)
    ensures
        line@ == labelled(label@, value@),
{
    proof {
        reveal_strlit(" = ");
    }
    let mut line = String::from_str(label);
    line.append(" = ");
    line.append(value);
    assert(line@ =~= labelled(label@, value@));
    line
}

/// The line for a signed integer of any width up to 128 bits.
pub fn signed_line(label: &str, value: i128) -> (line: String)
    ensures
        line@ == labelled(label@, signed_decimal(value as int)),
{
    let text = signed_text(value);
    labelled_line(label, text.as_str())
}

/// The line for an unsigned integer of any width up to 128 bits.
pub fn unsigned_line(label: &str, value: u128) -> (line: String)
    ensures
        line@ == labelled(label@, decimal(value as nat)),
{
    let text = unsigned_text(value);
    labelled_line(label, text.as_str())
}

/// The text of a truth value.
pub fn bool_text(b: bool) -> (text: &'static str)
    ensures
        text@ == bool_word(b),
{
    proof {
        reveal_strlit("true");
        reveal_strlit("false");
    }
    let text: &'static str = if b {
        "true"
    } else {
        "false"
    };
    assert(text@ =~= bool_word(b));
    text
}

/// The line for a truth value.
pub fn bool_line(label: &str, value: bool) -> (line: String)
    ensures
        line@ == labelled(label@, bool_word(value)),
{
    labelled_line(label, bool_text(value))
}

/// The text of a single character: that character and nothing else, whatever
/// its place in Unicode.
pub fn char_text(c: char) -> (text: String)
    ensures
        text@ == seq![c],
{
    let mut text = String::new();
    text.push(c);
    assert(text@ =~= seq![c]);
    text
}

/// The line for a single character.
pub fn char_line(label: &str, value: char) -> (line: String)
    ensures
        line@ == labelled(label@, seq![value]),
{
    let text = char_text(value);
    labelled_line(label, text.as_str())
}

} // verus!
