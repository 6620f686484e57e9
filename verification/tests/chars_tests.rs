use vni::{clean_char, is_upper_char, remove_tone, to_lower_char, to_upper_char, tone_char};
use vni::{KeyKind, KeyState, PhysicKey, Tone, Vni};

#[test]
fn strip_keeps_shape_marks() {
    assert_eq!(remove_tone('ậ'), 'â');
    assert_eq!(remove_tone('ớ'), 'ơ');
    assert_eq!(remove_tone('Ữ'), 'Ư');
    assert_eq!(remove_tone('a'), 'a');
    assert_eq!(remove_tone('q'), 'q');
}

#[test]
fn clean_strips_everything() {
    assert_eq!(clean_char('ậ'), 'a');
    assert_eq!(clean_char('Ớ'), 'O');
    assert_eq!(clean_char('đ'), 'd');
    assert_eq!(clean_char('Đ'), 'D');
    assert_eq!(clean_char('x'), 'x');
}

#[test]
fn case_helpers() {
    assert!(is_upper_char('Ậ'));
    assert!(!is_upper_char('ậ'));
    assert!(!is_upper_char('1'));
    assert_eq!(to_upper_char('a'), 'A');
    assert_eq!(to_upper_char('Z'), 'Z');
    assert_eq!(to_lower_char('Ă'), 'Ă');
    assert_eq!(to_lower_char('B'), 'b');
}

#[test]
fn tone_tables_exact_values() {
    assert_eq!(tone_char(Tone::Acute, 'ơ'), Some('ớ'));
    assert_eq!(tone_char(Tone::Grave, 'a'), Some('à'));
    assert_eq!(tone_char(Tone::HookAbove, 'Ê'), Some('Ể'));
    assert_eq!(tone_char(Tone::Tilde, 'u'), Some('ũ'));
    assert_eq!(tone_char(Tone::Dot, 'Y'), Some('Ỵ'));
    assert_eq!(tone_char(Tone::Acute, 'q'), None);
    assert_eq!(tone_char(Tone::Dot, 'á'), None);
}

#[test]
fn trigger_on_empty_buffer_is_literal() {
    let mut v = Vni::new();
    let key = PhysicKey { ch: '6', cap: false, state: KeyState::KeyPress, kind: KeyKind::Other };
    let ops = v.handle_key(key);
    assert!(ops.is_empty());
    assert_eq!(v.contents(), &vec!['6']);
}
