//! The state of a two-by-two grid of toggles and its four-character text form.
//!
//! A [`ToggleState`] records which of the toggles A1, A2, B1 and B2 are on.
//! [`encode`] writes a state as four characters, one per toggle, `'1'` for on
//! and `'0'` for off; [`decode`] reads such a text back. The text is what two
//! running instances exchange through the clipboard: one copies its state,
//! the other pastes it with [`ToggleState::paste`].
//!
//! Lengths are counted in characters, not in bytes.

pub mod codec;
pub mod paste;
pub mod state;

pub use codec::{decode, encode, DecodeError};
pub use state::ToggleState;
