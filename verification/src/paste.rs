//! Pasting: taking a state over from a text that another instance copied.

use crate::codec::{decode, decoding, encoding, DecodeError};
use crate::state::ToggleState;
use vstd::prelude::*;

verus! {

impl ToggleState {
    /// The state after `text` was pasted into `self`: the state that `text`
    /// stands for, or `self` where it stands for none.
    pub open spec fn pasted(self, text: Seq<char>) -> ToggleState {
        match decoding(text) {
            Ok(state) => state,
            Err(_) => self,
        }
    }

    /// Pastes `text` into this state.
    ///
    /// A text of four characters or more replaces all four toggles with what
    /// it stands for. A shorter one is reported as
    /// [`DecodeError::TooShort`] and leaves every toggle as it was.
    pub fn paste(&mut self, text: &str) -> (result: Result<(), DecodeError>)
        ensures
            *final(self) == old(self).pasted(text@),
            text@.len() >= 4 ==> result == Ok::<(), DecodeError>(()),
            text@.len() < 4 ==> result == Err::<(), DecodeError>(DecodeError::TooShort)
                && *final(self) == *old(self),
    {
        match decode(text) {
            Ok(state) => {
                *self = state;
                Ok(())
            },
            Err(error) => Err(error),
        }
    }
}

/// Pasting a text that is too short changes nothing.
pub proof fn lemma_short_paste_keeps_state(state: ToggleState, text: Seq<char>)
    requires
        text.len() < 4,
    ensures
        state.pasted(text) == state,
{
}

/// Pasting what was copied from one state into any other gives the state
/// that was copied.
pub proof fn lemma_paste_of_copy(copied: ToggleState, into: ToggleState)
    ensures
        into.pasted(encoding(copied)) == copied,
{
}

} // verus!
