use toggle_codec::{encode, DecodeError, ToggleState};

fn state(a1: bool, a2: bool, b1: bool, b2: bool) -> ToggleState {
    ToggleState { a1, a2, b1, b2 }
}

#[test]
fn new_state_is_all_off() {
    assert_eq!(ToggleState::new(), state(false, false, false, false));
    assert_eq!(ToggleState::default(), ToggleState::new());
    assert_eq!(encode(ToggleState::new()), "0000");
}

#[test]
fn paste_empty_leaves_state_unchanged() {
    let mut s = state(true, false, true, false);
    assert_eq!(s.paste(""), Err(DecodeError::TooShort));
    assert_eq!(s, state(true, false, true, false));
}

#[test]
fn paste_two_characters_leaves_state_unchanged() {
    let mut s = state(false, true, true, true);
    assert_eq!(s.paste("01"), Err(DecodeError::TooShort));
    assert_eq!(s, state(false, true, true, true));
}

#[test]
fn paste_three_characters_leaves_state_unchanged() {
    let mut s = ToggleState::new();
    assert_eq!(s.paste("111"), Err(DecodeError::TooShort));
    assert_eq!(s, ToggleState::new());
    let mut t = state(true, true, true, true);
    assert_eq!(t.paste("000"), Err(DecodeError::TooShort));
    assert_eq!(t, state(true, true, true, true));
}

#[test]
fn paste_replaces_all_four_toggles() {
    let mut s = state(false, false, true, true);
    assert_eq!(s.paste("1100"), Ok(()));
    assert_eq!(s, state(true, true, false, false));
}

#[test]
fn paste_reads_other_characters_as_off() {
    let mut s = state(true, true, true, true);
    assert_eq!(s.paste("10xx"), Ok(()));
    assert_eq!(s, state(true, false, false, false));
}

#[test]
fn paste_ignores_what_follows_the_fourth_character() {
    let mut s = state(false, false, false, true);
    assert_eq!(s.paste("11001"), Ok(()));
    assert_eq!(s, state(true, true, false, false));
}

#[test]
fn paste_of_what_was_copied() {
    for bits in 0u8..16 {
        let copied = state(bits & 8 != 0, bits & 4 != 0, bits & 2 != 0, bits & 1 != 0);
        let text = encode(copied);
        for other in 0u8..16 {
            let mut into = state(other & 8 != 0, other & 4 != 0, other & 2 != 0, other & 1 != 0);
            assert_eq!(into.paste(&text), Ok(()));
            assert_eq!(into, copied);
        }
    }
}

#[test]
fn paste_twice_is_paste_once() {
    let mut s = ToggleState::new();
    assert_eq!(s.paste("0110"), Ok(()));
    let once = s;
    assert_eq!(s.paste("0110"), Ok(()));
    assert_eq!(s, once);
}

#[test]
fn failed_paste_after_a_good_one_keeps_the_good_one() {
    let mut s = ToggleState::new();
    assert_eq!(s.paste("1011"), Ok(()));
    assert_eq!(s.paste("00"), Err(DecodeError::TooShort));
    assert_eq!(s, state(true, false, true, true));
}
