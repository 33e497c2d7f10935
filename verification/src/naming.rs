//! Turns the name of a kind as it is written in code, such as `NoteOff`, into
//! the name under which callers know it, `note_off`.

use vstd::prelude::*;

verus! {

/// Whether a character is upper case: the result of `char::is_uppercase`.
pub uninterp spec fn is_uppercase(ch: char) -> bool;

/// The lower-case form of a character, which may be more than one
/// character: what `char::to_lowercase` yields.
pub uninterp spec fn lowercase_of(ch: char) -> Seq<char>;

/// Calls `char::is_uppercase`, which tells whether the character has the
/// Unicode property `Uppercase`. The contract only names that answer.
#[verifier::external_body]
fn char_is_uppercase(ch: char) -> (upper: bool)
    ensures
        upper == is_uppercase(ch),
{
    ch.is_uppercase()
}

/// Calls `char::to_lowercase` and collects the characters it yields into a
/// string. The contract only names that sequence of characters.
#[verifier::external_body]
fn char_to_lowercase(ch: char) -> (lower: String)
    ensures
        lower@ == lowercase_of(ch),
{
    format!("{}", ch.to_lowercase())
}

/// Calls `String::push`, which appends one character to the string.
#[verifier::external_body]
fn push_char(text: &mut String, ch: char)
    ensures
        final(text)@ == old(text)@.push(ch),
{
    text.push(ch);
}

/// What a character becomes, given whether it comes first, whether it is
/// upper case and what its lower-case form is: an upper-case character gives
/// its lower-case form, with an underscore before it unless it comes first;
/// any other character stays.
pub open spec fn piece(ch: char, first: bool, upper: bool, lower: Seq<char>) -> Seq<char> {
    if upper && !first {
        seq!['_'] + lower
    } else if upper {
        lower
    } else {
        seq![ch]
    }
}

/// The pieces of the first `count` characters of `text`, one after another.
pub open spec fn underscore_separated(text: Seq<char>, count: nat) -> Seq<char>
    recommends
        count <= text.len(),
    decreases count,
{
    if count == 0 {
        Seq::empty()
    } else {
        underscore_separated(text, (count - 1) as nat) + piece(
            text[count - 1],
            count == 1,
            is_uppercase(text[count - 1]),
            lowercase_of(text[count - 1]),
        )
    }
}

/// Appends to `literal` what the character `ch` becomes. `lower` is read only
/// where `upper` holds.
pub fn append_piece(literal: &mut String, ch: char, first: bool, upper: bool, lower: &str)
    ensures
        final(literal)@ == old(literal)@ + piece(ch, first, upper, lower@),
{
    let ghost before = literal@;
    if upper && !first {
        push_char(literal, '_');
        literal.append(lower);
        assert(literal@ =~= before + (seq!['_'] + lower@));
    } else if upper {
        literal.append(lower);
    } else {
        push_char(literal, ch);
        assert(literal@ =~= before + seq![ch]);
    }
}

/// Rewrites a name in which each word starts with a capital into lower case
/// with an underscore between the words.
pub fn pascal_case_to_underscore_separated_literal(string_to_process: &str) -> (literal: String)
    ensures
        literal@ == underscore_separated(string_to_process@, string_to_process@.len()),
{
    let mut literal = String::new();
    let length: usize = string_to_process.unicode_len();
    let mut i: usize = 0;
    while i < length
        invariant
            length == string_to_process@.len(),
            i <= length,
            literal@ == underscore_separated(string_to_process@, i as nat),
        decreases length - i,
    {
        let ch: char = string_to_process.get_char(i);
        if char_is_uppercase(ch) {
            let lower = char_to_lowercase(ch);
            append_piece(&mut literal, ch, i == 0, true, lower.as_str());
        } else {
            append_piece(&mut literal, ch, i == 0, false, "");
        }
        i += 1;
    }
    literal
}

} // verus!
