use shining_piano::KeyboardRegister;
use shining_piano::notes::{add_white_keys, black_key_above, make_note, note_is_black, on_lower};

#[test]
fn black_keys_of_one_octave() {
    let blacks = [37u8, 39, 42, 44, 46];
    for note in 36u8..48 {
        assert_eq!(note_is_black(note), blacks.contains(&note));
    }
}

#[test]
fn black_key_detection_wraps_every_octave() {
    assert!(note_is_black(1));
    assert!(note_is_black(13));
    assert!(!note_is_black(0));
    assert!(!note_is_black(12));
    assert!(note_is_black(106));
    assert!(!note_is_black(108));
}

#[test]
fn walking_no_white_keys_stays_put() {
    assert_eq!(add_white_keys(36, 0), 36);
    assert_eq!(add_white_keys(60, 0), 60);
}

#[test]
fn walking_white_keys_from_c() {
    assert_eq!(add_white_keys(36, 1), 38);
    assert_eq!(add_white_keys(36, 2), 40);
    assert_eq!(add_white_keys(36, 3), 41);
    assert_eq!(add_white_keys(36, 7), 48);
    assert_eq!(add_white_keys(36, 16), 64);
}

#[test]
fn black_key_above_exists_except_at_gaps() {
    assert_eq!(black_key_above(36), Some(37));
    assert_eq!(black_key_above(38), Some(39));
    assert_eq!(black_key_above(40), None);
    assert_eq!(black_key_above(41), Some(42));
    assert_eq!(black_key_above(47), None);
    assert_eq!(black_key_above(48), Some(49));
}

#[test]
fn make_note_white_and_black() {
    assert_eq!(make_note(36, 0, false), Some(36));
    assert_eq!(make_note(36, 0, true), Some(37));
    assert_eq!(make_note(36, 2, false), Some(40));
    assert_eq!(make_note(36, 2, true), None);
    assert_eq!(make_note(36, 7, false), Some(48));
    assert_eq!(make_note(36, 7, true), Some(49));
    assert_eq!(make_note(36, 16, false), Some(64));
    assert_eq!(make_note(36, 16, true), None);
}

#[test]
fn on_lower_tags_the_register() {
    assert_eq!(on_lower(true, Some(36)), Some((KeyboardRegister::Lower, 36)));
    assert_eq!(on_lower(false, Some(48)), Some((KeyboardRegister::Upper, 48)));
    assert_eq!(on_lower(true, None), None);
    assert_eq!(on_lower(false, None), None);
}
