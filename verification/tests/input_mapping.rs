use shining_piano::input::{Key, note_from_key_code, post_input_events, program_no_from_key_code};
use shining_piano::{KeyboardRegister, Settings, StartProgramEvent};

#[test]
fn lower_row_keys_with_default_settings() {
    let settings = Settings::default();
    assert_eq!(
        note_from_key_code(&Key::KeyZ, &settings),
        Some((KeyboardRegister::Lower, 36))
    );
    assert_eq!(
        note_from_key_code(&Key::KeyS, &settings),
        Some((KeyboardRegister::Lower, 37))
    );
    assert_eq!(
        note_from_key_code(&Key::KeyC, &settings),
        Some((KeyboardRegister::Lower, 40))
    );
    // the raised key over the E–F gap sounds nothing
    assert_eq!(note_from_key_code(&Key::KeyF, &settings), None);
    assert_eq!(
        note_from_key_code(&Key::Comma, &settings),
        Some((KeyboardRegister::Lower, 48))
    );
    assert_eq!(
        note_from_key_code(&Key::Slash, &settings),
        Some((KeyboardRegister::Lower, 52))
    );
    // the raised key over another gap sounds nothing either
    assert_eq!(note_from_key_code(&Key::Quote, &settings), None);
}

#[test]
fn upper_row_keys_with_default_settings() {
    let settings = Settings::default();
    assert_eq!(
        note_from_key_code(&Key::KeyQ, &settings),
        Some((KeyboardRegister::Upper, 48))
    );
    assert_eq!(
        note_from_key_code(&Key::Digit2, &settings),
        Some((KeyboardRegister::Upper, 49))
    );
    assert_eq!(
        note_from_key_code(&Key::KeyY, &settings),
        Some((KeyboardRegister::Upper, 57))
    );
    assert_eq!(
        note_from_key_code(&Key::KeyP, &settings),
        Some((KeyboardRegister::Upper, 64))
    );
    assert_eq!(
        note_from_key_code(&Key::BracketRight, &settings),
        Some((KeyboardRegister::Upper, 64))
    );
    // the raised key over E has no black key to sound
    assert_eq!(note_from_key_code(&Key::Minus, &settings), None);
}

#[test]
fn unbound_keys_sound_nothing() {
    let settings = Settings::default();
    assert_eq!(note_from_key_code(&Key::Escape, &settings), None);
    assert_eq!(note_from_key_code(&Key::F1, &settings), None);
    assert_eq!(note_from_key_code(&Key::Other, &settings), None);
}

#[test]
fn function_keys_select_programs() {
    assert_eq!(program_no_from_key_code(&Key::F1), Some(1));
    assert_eq!(program_no_from_key_code(&Key::F5), Some(5));
    assert_eq!(program_no_from_key_code(&Key::F12), Some(12));
    assert_eq!(program_no_from_key_code(&Key::KeyZ), None);
    assert_eq!(program_no_from_key_code(&Key::Other), None);
}

#[test]
fn one_frame_of_input_becomes_events() {
    let settings = Settings::default();
    let pressed = vec![Key::KeyZ, Key::F2, Key::Escape, Key::KeyF];
    let released = vec![Key::KeyQ];
    let r = post_input_events(&pressed, &released, &settings);

    assert_eq!(r.note_events.len(), 2);
    let on = &r.note_events[0];
    assert_eq!(on.register, KeyboardRegister::Lower);
    assert_eq!(on.message.node_id, shining_piano::NODE_ID_LOWER);
    assert_eq!(on.message.note, 36);
    assert!(on.message.note_on);
    let off = &r.note_events[1];
    assert_eq!(off.register, KeyboardRegister::Upper);
    assert_eq!(off.message.node_id, shining_piano::NODE_ID_UPPER);
    assert_eq!(off.message.note, 48);
    assert!(!off.message.note_on);

    assert_eq!(r.program_events, vec![StartProgramEvent { program_no: 2 }]);
    assert!(r.quit);
}

#[test]
fn a_quiet_frame_produces_nothing() {
    let settings = Settings::default();
    let r = post_input_events(&vec![], &vec![], &settings);
    assert!(r.note_events.is_empty());
    assert!(r.program_events.is_empty());
    assert!(!r.quit);
}

#[test]
fn escape_alone_only_quits() {
    let settings = Settings::default();
    let r = post_input_events(&vec![Key::Escape], &vec![], &settings);
    assert!(r.note_events.is_empty());
    assert!(r.program_events.is_empty());
    assert!(r.quit);
}
