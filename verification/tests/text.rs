use cce_lock::text::{c_string, is_control, push_printable, zero};

#[test]
fn control_characters_are_those_of_the_standard_library() {
    for n in 0..=0x10ffffu32 {
        if let Some(c) = char::from_u32(n) {
            assert_eq!(is_control(c), c.is_control());
        }
    }
}

#[test]
fn only_printable_characters_are_appended() {
    let mut line = "ab".to_string();
    push_printable(&mut line, "c\u{1b}\td\u{7f}é\u{85}…\0");
    assert_eq!(line, "abcdé…");
    push_printable(&mut line, "");
    assert_eq!(line, "abcdé…");
}

#[test]
fn a_nul_empties_a_c_string() {
    assert_eq!(c_string("hunter2"), "hunter2");
    assert_eq!(c_string(""), "");
    assert_eq!(c_string("hun\0ter2"), "");
    assert_eq!(c_string("\0"), "");
}

#[test]
fn a_used_password_is_overwritten() {
    assert_eq!(zero("aé…".to_string()), vec![0u8; 6]);
    assert_eq!(zero(String::new()), Vec::<u8>::new());
}
