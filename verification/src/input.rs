//! Translation of keyboard input into music: which physical key sounds
//! which note on which register, which keys select a program, and how one
//! frame's worth of presses and releases becomes a batch of events for the
//! audio graph.
use vstd::prelude::*;
use crate::notes::{lemma_white_keys_above_bounds, make_note, on_lower, spec_make_note,
    white_keys_above};
use crate::{KeyEvent, KeyboardRegister, NoteMessage, Settings, StartProgramEvent,
    node_id_for_register, spec_node_id};

verus! {

/// The physical keys the piano listens to. `Other` stands for every key
/// outside the map.
#[derive(Clone, Copy, Debug, PartialEq, Eq, Structural)]
pub enum Key {
    KeyZ,
    KeyS,
    KeyX,
    KeyD,
    KeyC,
    KeyF,
    KeyV,
    KeyG,
    KeyB,
    KeyH,
    KeyN,
    KeyJ,
    KeyM,
    KeyK,
    Comma,
    KeyL,
    Period,
    Semicolon,
    Slash,
    Quote,
    KeyQ,
    Digit2,
    KeyW,
    Digit3,
    KeyE,
    Digit4,
    KeyR,
    Digit5,
    KeyT,
    Digit6,
    KeyY,
    Digit7,
    KeyU,
    Digit8,
    KeyI,
    Digit9,
    KeyO,
    Digit0,
    KeyP,
    Minus,
    BracketLeft,
    Equal,
    BracketRight,
    F1,
    F2,
    F3,
    F4,
    F5,
    F6,
    F7,
    F8,
    F9,
    F10,
    F11,
    F12,
    Escape,
    Other,
}

/// Where a key sits in the note map: its register (`true` for the lower
/// row), how many white keys it lies above the row's base note, and whether
/// it is a raised (black) key. Keys outside the note map have no binding.
pub open spec fn key_binding(key: Key) -> Option<(bool, nat, bool)> {
    match key {
        Key::KeyZ => Some((true, 0nat, false)),
        Key::KeyS => Some((true, 0nat, true)),
        Key::KeyX => Some((true, 1nat, false)),
        Key::KeyD => Some((true, 1nat, true)),
        Key::KeyC => Some((true, 2nat, false)),
        Key::KeyF => Some((true, 2nat, true)),
        Key::KeyV => Some((true, 3nat, false)),
        Key::KeyG => Some((true, 3nat, true)),
        Key::KeyB => Some((true, 4nat, false)),
        Key::KeyH => Some((true, 4nat, true)),
        Key::KeyN => Some((true, 5nat, false)),
        Key::KeyJ => Some((true, 5nat, true)),
        Key::KeyM => Some((true, 6nat, false)),
        Key::KeyK => Some((true, 6nat, true)),
        Key::Comma => Some((true, 7nat, false)),
        Key::KeyL => Some((true, 7nat, true)),
        Key::Period => Some((true, 8nat, false)),
        Key::Semicolon => Some((true, 8nat, true)),
        Key::Slash => Some((true, 9nat, false)),
        Key::Quote => Some((true, 9nat, true)),
        Key::KeyQ => Some((false, 7nat, false)),
        Key::Digit2 => Some((false, 7nat, true)),
        Key::KeyW => Some((false, 8nat, false)),
        Key::Digit3 => Some((false, 8nat, true)),
        Key::KeyE => Some((false, 9nat, false)),
        Key::Digit4 => Some((false, 9nat, true)),
        Key::KeyR => Some((false, 10nat, false)),
        Key::Digit5 => Some((false, 10nat, true)),
        Key::KeyT => Some((false, 11nat, false)),
        Key::Digit6 => Some((false, 11nat, true)),
        Key::KeyY => Some((false, 12nat, false)),
        Key::Digit7 => Some((false, 12nat, true)),
        Key::KeyU => Some((false, 13nat, false)),
        Key::Digit8 => Some((false, 13nat, true)),
        Key::KeyI => Some((false, 14nat, false)),
        Key::Digit9 => Some((false, 14nat, true)),
        Key::KeyO => Some((false, 15nat, false)),
        Key::Digit0 => Some((false, 15nat, true)),
        Key::KeyP => Some((false, 16nat, false)),
        Key::Minus => Some((false, 16nat, true)),
        Key::BracketLeft => Some((false, 16nat, false)),
        Key::Equal => Some((false, 16nat, true)),
        Key::BracketRight => Some((false, 16nat, false)),
        _ => None,
    }
}

/// The note a bound key produces, as a MIDI byte; the walk stays in range
/// whenever the settings are well formed.
pub open spec fn note_u8(z: int, advance: nat, black_key: bool) -> Option<u8> {
    match spec_make_note(z, advance, black_key) {
        Some(n) => Some(n as u8),
        None => None,
    }
}

/// The register and note a key sounds with a lower row based at `z`: the
/// key's binding resolved through the white/black stepping rule. A key
/// without a binding, or a raised key over a semitone gap, sounds nothing.
pub open spec fn spec_note_from_key(key: Key, z: int) -> Option<(KeyboardRegister, u8)> {
    match key_binding(key) {
        Some((lower, advance, black_key)) => match note_u8(z, advance, black_key) {
            Some(n) => Some(
                (
                    if lower {
                        KeyboardRegister::Lower
                    } else {
                        KeyboardRegister::Upper
                    },
                    n,
                ),
            ),
            None => None,
        },
        None => None,
    }
}

/// The register and note sounded by `key`, or nothing for an unbound key or
/// a raised key over a semitone gap.
pub fn note_from_key_code(key: &Key, settings: &Settings) -> (r: Option<(KeyboardRegister, u8)>)
    requires
        settings.wf(),
    ensures
        r == spec_note_from_key(*key, settings.note_on_z as int),
{
    proof {
        assert forall|a: nat| a <= 16 implies white_keys_above(
            settings.note_on_z as int,
            a,
        ) <= u8::MAX by {
            lemma_white_keys_above_bounds(settings.note_on_z as int, a);
        }
    }
    let note_on_z = settings.note_on_z;
    match key {
        Key::KeyZ => on_lower(true, make_note(note_on_z, 0, false)),
        Key::KeyS => on_lower(true, make_note(note_on_z, 0, true)),
        Key::KeyX => on_lower(true, make_note(note_on_z, 1, false)),
        Key::KeyD => on_lower(true, make_note(note_on_z, 1, true)),
        Key::KeyC => on_lower(true, make_note(note_on_z, 2, false)),
        Key::KeyF => on_lower(true, make_note(note_on_z, 2, true)),
        Key::KeyV => on_lower(true, make_note(note_on_z, 3, false)),
        Key::KeyG => on_lower(true, make_note(note_on_z, 3, true)),
        Key::KeyB => on_lower(true, make_note(note_on_z, 4, false)),
        Key::KeyH => on_lower(true, make_note(note_on_z, 4, true)),
        Key::KeyN => on_lower(true, make_note(note_on_z, 5, false)),
        Key::KeyJ => on_lower(true, make_note(note_on_z, 5, true)),
        Key::KeyM => on_lower(true, make_note(note_on_z, 6, false)),
        Key::KeyK => on_lower(true, make_note(note_on_z, 6, true)),
        Key::Comma => on_lower(true, make_note(note_on_z, 7, false)),
        Key::KeyL => on_lower(true, make_note(note_on_z, 7, true)),
        Key::Period => on_lower(true, make_note(note_on_z, 8, false)),
        Key::Semicolon => on_lower(true, make_note(note_on_z, 8, true)),
        Key::Slash => on_lower(true, make_note(note_on_z, 9, false)),
        Key::Quote => on_lower(true, make_note(note_on_z, 9, true)),
        Key::KeyQ => on_lower(false, make_note(note_on_z, 7, false)),
        Key::Digit2 => on_lower(false, make_note(note_on_z, 7, true)),
        Key::KeyW => on_lower(false, make_note(note_on_z, 8, false)),
        Key::Digit3 => on_lower(false, make_note(note_on_z, 8, true)),
        Key::KeyE => on_lower(false, make_note(note_on_z, 9, false)),
        Key::Digit4 => on_lower(false, make_note(note_on_z, 9, true)),
        Key::KeyR => on_lower(false, make_note(note_on_z, 10, false)),
        Key::Digit5 => on_lower(false, make_note(note_on_z, 10, true)),
        Key::KeyT => on_lower(false, make_note(note_on_z, 11, false)),
        Key::Digit6 => on_lower(false, make_note(note_on_z, 11, true)),
        Key::KeyY => on_lower(false, make_note(note_on_z, 12, false)),
        Key::Digit7 => on_lower(false, make_note(note_on_z, 12, true)),
        Key::KeyU => on_lower(false, make_note(note_on_z, 13, false)),
        Key::Digit8 => on_lower(false, make_note(note_on_z, 13, true)),
        Key::KeyI => on_lower(false, make_note(note_on_z, 14, false)),
        Key::Digit9 => on_lower(false, make_note(note_on_z, 14, true)),
        Key::KeyO => on_lower(false, make_note(note_on_z, 15, false)),
        Key::Digit0 => on_lower(false, make_note(note_on_z, 15, true)),
        Key::KeyP => on_lower(false, make_note(note_on_z, 16, false)),
        Key::Minus => on_lower(false, make_note(note_on_z, 16, true)),
        Key::BracketLeft => on_lower(false, make_note(note_on_z, 16, false)),
        Key::Equal => on_lower(false, make_note(note_on_z, 16, true)),
        Key::BracketRight => on_lower(false, make_note(note_on_z, 16, false)),
        _ => None,
    }
}

/// The program a function key selects: F1 through F12 pick programs 1
/// through 12; no other key selects a program.
pub open spec fn spec_program_no_from_key(key: Key) -> Option<usize> {
    match key {
        Key::F1 => Some(1usize),
        Key::F2 => Some(2usize),
        Key::F3 => Some(3usize),
        Key::F4 => Some(4usize),
        Key::F5 => Some(5usize),
        Key::F6 => Some(6usize),
        Key::F7 => Some(7usize),
        Key::F8 => Some(8usize),
        Key::F9 => Some(9usize),
        Key::F10 => Some(10usize),
        Key::F11 => Some(11usize),
        Key::F12 => Some(12usize),
        _ => None,
    }
}

/// The event a single keystroke contributes to the audio graph: its note,
/// addressed to its register's synthesis node, as a note-on or note-off.
/// Keys that sound nothing contribute nothing.
pub open spec fn spec_key_event(key: Key, z: int, note_on: bool) -> Option<KeyEvent> {
    match spec_note_from_key(key, z) {
        Some((register, note)) => Some(
            KeyEvent {
                register,
                message: NoteMessage { node_id: spec_node_id(register), note, note_on },
            },
        ),
        None => None,
    }
}

/// The note events a run of keystrokes contributes, in keystroke order.
pub open spec fn spec_note_events(keys: Seq<Key>, z: int, note_on: bool) -> Seq<KeyEvent>
    decreases keys.len(),
{
    if keys.len() == 0 {
        Seq::empty()
    } else {
        spec_note_events(keys.drop_last(), z, note_on) + (match spec_key_event(
            keys.last(),
            z,
            note_on,
        ) {
            Some(e) => seq![e],
            None => Seq::<KeyEvent>::empty(),
        })
    }
}

/// The program switches a run of keystrokes requests, in keystroke order.
pub open spec fn spec_program_events(keys: Seq<Key>) -> Seq<StartProgramEvent>
    decreases keys.len(),
{
    if keys.len() == 0 {
        Seq::empty()
    } else {
        spec_program_events(keys.drop_last()) + (match spec_program_no_from_key(keys.last()) {
            Some(program_no) => seq![StartProgramEvent { program_no }],
            None => Seq::<StartProgramEvent>::empty(),
        })
    }
}

/// Everything one frame of keyboard input asks of the host: note messages
/// for the audio graph, program switches, and whether to quit.
pub struct InputEvents {
    pub note_events: Vec<KeyEvent>,
    pub program_events: Vec<StartProgramEvent>,
    pub quit: bool,
}

/// Translates one frame of input into events: every key pressed this frame
/// contributes its note-on event and its program switch, every key released
/// contributes its note-off event, and pressing the escape key asks the
/// host to quit.
pub fn post_input_events(pressed: &Vec<Key>, released: &Vec<Key>, settings: &Settings) -> (r:
    InputEvents)
    requires
        settings.wf(),
    ensures
        r.note_events@ == spec_note_events(pressed@, settings.note_on_z as int, true)
            + spec_note_events(released@, settings.note_on_z as int, false),
        r.program_events@ == spec_program_events(pressed@),
        r.quit == pressed@.contains(Key::Escape),
{
    let ghost z: int = settings.note_on_z as int;
    let mut note_events: Vec<KeyEvent> = Vec::new();
    let mut program_events: Vec<StartProgramEvent> = Vec::new();
    let mut quit: bool = false;
    for i in 0..pressed.len()
        invariant
            settings.wf(),
            z == settings.note_on_z as int,
            note_events@ == spec_note_events(pressed@.take(i as int), z, true),
            program_events@ == spec_program_events(pressed@.take(i as int)),
            quit <==> (exists|j: int| 0 <= j < i && pressed@[j] == Key::Escape),
    {
        let key = pressed[i];
        proof {
            assert(pressed@.take(i + 1).drop_last() =~= pressed@.take(i as int));
            assert(pressed@.take(i + 1).last() == pressed@[i as int]);
        }
        if let Some((register, note)) = note_from_key_code(&key, settings) {
            let node_id = node_id_for_register(register);
            note_events.push(
                KeyEvent { register, message: NoteMessage { node_id, note, note_on: true } },
            );
        }
        if let Some(program_no) = program_no_from_key_code(&key) {
            program_events.push(StartProgramEvent { program_no });
        }
        if key == Key::Escape {
            quit = true;
        }
        proof {
            assert(note_events@ =~= spec_note_events(pressed@.take(i + 1), z, true));
            assert(program_events@ =~= spec_program_events(pressed@.take(i + 1)));
        }
    }
    proof {
        assert(pressed@.take(pressed@.len() as int) =~= pressed@);
    }
    let ghost on_events = spec_note_events(pressed@, z, true);
    for i in 0..released.len()
        invariant
            settings.wf(),
            z == settings.note_on_z as int,
            on_events == spec_note_events(pressed@, z, true),
            note_events@ == on_events + spec_note_events(released@.take(i as int), z, false),
    {
        let key = released[i];
        proof {
            assert(released@.take(i + 1).drop_last() =~= released@.take(i as int));
            assert(released@.take(i + 1).last() == released@[i as int]);
        }
        if let Some((register, note)) = note_from_key_code(&key, settings) {
            let node_id = node_id_for_register(register);
            note_events.push(
                KeyEvent { register, message: NoteMessage { node_id, note, note_on: false } },
            );
        }
        proof {
            assert(note_events@ =~= on_events + spec_note_events(released@.take(i + 1), z, false));
        }
    }
    proof {
        assert(released@.take(released@.len() as int) =~= released@);
    }
    InputEvents { note_events, program_events, quit }
}

/// The program a function key selects, or nothing for any other key.
pub fn program_no_from_key_code(key: &Key) -> (r: Option<usize>)
    ensures
        r == spec_program_no_from_key(*key),
{
    match key {
        Key::F1 => Some(1),
        Key::F2 => Some(2),
        Key::F3 => Some(3),
        Key::F4 => Some(4),
        Key::F5 => Some(5),
        Key::F6 => Some(6),
        Key::F7 => Some(7),
        Key::F8 => Some(8),
        Key::F9 => Some(9),
        Key::F10 => Some(10),
        Key::F11 => Some(11),
        Key::F12 => Some(12),
        _ => None,
    }
}

} // verus!
