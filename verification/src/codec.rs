//! The text form of a [`ToggleState`]: four characters, one per toggle.

use crate::state::ToggleState;
use vstd::prelude::*;

verus! {

/// Why a text could not be read as a state.
#[derive(Clone, Copy, Debug, PartialEq, Eq, Structural)]
pub enum DecodeError {
    /// The text has fewer than four characters.
    TooShort,
}

/// The character that stands for one toggle: `'1'` for on, `'0'` for off.
pub open spec fn flag_char(on: bool) -> char {
    if on {
        '1'
    } else {
        '0'
    }
}

/// The toggle that a character stands for: on for `'1'`, off for any other
/// character.
pub open spec fn char_flag(c: char) -> bool {
    c == '1'
}

/// A well-formed text: exactly four characters, each `'0'` or `'1'`.
pub open spec fn is_encoded(text: Seq<char>) -> bool {
    &&& text.len() == 4
    &&& forall|i: int| 0 <= i < 4 ==> text[i] == '0' || text[i] == '1'
}

/// The text form of `state`: the characters of A1, A2, B1 and B2, in that
/// order.
pub open spec fn encoding(state: ToggleState) -> Seq<char> {
    seq![flag_char(state.a1), flag_char(state.a2), flag_char(state.b1), flag_char(state.b2)]
}

/// The state that `text` stands for.
///
/// A text of fewer than four characters stands for none. Of a longer one only
/// the first four characters count, and each is read with [`char_flag`], so
/// that no text of four characters or more is refused.
pub open spec fn decoding(text: Seq<char>) -> Result<ToggleState, DecodeError> {
    if text.len() < 4 {
        Err(DecodeError::TooShort)
    } else {
        Ok(
            ToggleState {
                a1: char_flag(text[0]),
                a2: char_flag(text[1]),
                b1: char_flag(text[2]),
                b2: char_flag(text[3]),
            },
        )
    }
}

/// The one-character text of a single toggle.
fn flag_text(on: bool) -> (text: &'static str)
    ensures
        text@ == seq![flag_char(on)],
{
    proof {
        reveal_strlit("1");
        reveal_strlit("0");
    }
    if on {
        "1"
    } else {
        "0"
    }
}

/// Writes `state` as text.
///
/// The result always has four characters, each `'0'` or `'1'`.
pub fn encode(state: ToggleState) -> (text: String)
    ensures
        text@ == encoding(state),
        is_encoded(text@),
{
    let mut text = String::new();
    text.append(flag_text(state.a1));
    text.append(flag_text(state.a2));
    text.append(flag_text(state.b1));
    text.append(flag_text(state.b2));
    text
}

/// Reads a state from `text`.
///
/// Fails exactly when `text` has fewer than four characters. Otherwise the
/// first four characters give A1, A2, B1 and B2: `'1'` turns a toggle on and
/// any other character turns it off. What follows the fourth character is not
/// looked at.
pub fn decode(text: &str) -> (result: Result<ToggleState, DecodeError>)
    ensures
        result == decoding(text@),
        result is Err <==> text@.len() < 4,
{
    let mut chars = text.chars();
    let a1 = match chars.next() {
        Some(c) => c == '1',
        None => {
            return Err(DecodeError::TooShort);
        },
    };
    let a2 = match chars.next() {
        Some(c) => c == '1',
        None => {
            return Err(DecodeError::TooShort);
        },
    };
    let b1 = match chars.next() {
        Some(c) => c == '1',
        None => {
            return Err(DecodeError::TooShort);
        },
    };
    let b2 = match chars.next() {
        Some(c) => c == '1',
        None => {
            return Err(DecodeError::TooShort);
        },
    };
    Ok(ToggleState { a1, a2, b1, b2 })
}

/// Reading back what was written gives the state that was written.
pub proof fn lemma_decode_encode(state: ToggleState)
    ensures
        decoding(encoding(state)) == Ok::<ToggleState, DecodeError>(state),
{
}

/// The text form of every state is well-formed: four characters, each `'0'`
/// or `'1'`.
pub proof fn lemma_encoding_is_encoded(state: ToggleState)
    ensures
        is_encoded(encoding(state)),
{
}

/// Two states with the same text form are the same state.
pub proof fn lemma_encoding_is_injective(left: ToggleState, right: ToggleState)
    requires
        encoding(left) == encoding(right),
    ensures
        left == right,
{
    lemma_decode_encode(left);
    lemma_decode_encode(right);
}

/// A well-formed text is read without error, and writing the state that was
/// read gives the same text again.
pub proof fn lemma_encode_decode(text: Seq<char>)
    requires
        is_encoded(text),
    ensures
        decoding(text) is Ok,
        encoding(decoding(text)->Ok_0) == text,
{
    assert(encoding(decoding(text)->Ok_0) =~= text);
}

/// A text of fewer than four characters is refused for its length, whatever
/// it holds.
pub proof fn lemma_short_text_is_refused(text: Seq<char>)
    requires
        text.len() < 4,
    ensures
        decoding(text) == Err::<ToggleState, DecodeError>(DecodeError::TooShort),
{
}

/// A text of four characters or more is never refused: a toggle is on where
/// the text has `'1'` and off where it has anything else, `'0'` or not.
pub proof fn lemma_long_text_is_read(text: Seq<char>)
    requires
        text.len() >= 4,
    ensures
        decoding(text) is Ok,
        decoding(text)->Ok_0.a1 <==> text[0] == '1',
        decoding(text)->Ok_0.a2 <==> text[1] == '1',
        decoding(text)->Ok_0.b1 <==> text[2] == '1',
        decoding(text)->Ok_0.b2 <==> text[3] == '1',
{
}

/// Only the first four characters count: a text reads as its first four
/// characters alone do.
pub proof fn lemma_decoding_reads_four(text: Seq<char>)
    requires
        text.len() >= 4,
    ensures
        decoding(text) == decoding(text.subrange(0, 4)),
{
}

} // verus!
