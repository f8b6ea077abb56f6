use cce_lock::state::{KEY_BACKSPACE, KEY_ESCAPE, KEY_KP_ENTER, KEY_RETURN};
use xkeysym::Keysym;

#[test]
fn keys_have_the_numbers_of_their_keysyms() {
    assert_eq!(KEY_BACKSPACE, Keysym::BackSpace.raw());
    assert_eq!(KEY_RETURN, Keysym::Return.raw());
    assert_eq!(KEY_ESCAPE, Keysym::Escape.raw());
    assert_eq!(KEY_KP_ENTER, Keysym::KP_Enter.raw());
}
