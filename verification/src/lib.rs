//! Core model of a two-row virtual piano: key-to-note mapping over the
//! twelve-note chromatic cycle, note event construction, program selection,
//! and the bookkeeping that tracks instrument programs as they load.
//!
//! The host engine (rendering, input polling, asset streaming, audio
//! synthesis) stays outside this crate; everything here is plain data and
//! decisions, stated in contracts and verified.
use vstd::prelude::*;

pub mod assets;
pub mod graphics;
pub mod input;
pub mod notes;

verus! {

/// One of the two logical keyboard rows. Each register is routed to its own
/// synthesis node.
#[derive(Clone, Copy, Debug, PartialEq, Eq, Structural)]
pub enum KeyboardRegister {
    Lower,
    Upper,
}

/// Base notes for the two keyboard rows: the leftmost white key of the lower
/// row sounds `note_on_z`, the leftmost white key of the upper row
/// `note_on_q`.
#[derive(Clone, Copy, Debug, PartialEq, Eq, Structural)]
pub struct Settings {
    pub note_on_z: u8,
    pub note_on_q: u8,
}

impl Settings {
    /// Each row must start on a white key, and the highest note any key of a
    /// row can reach must still be a MIDI note. The lower row's key map
    /// ascends up to sixteen white keys plus a raised key (33 semitones at
    /// most); the upper row's drawn keys ascend up to eleven white keys plus
    /// a raised key (23 semitones at most).
    pub open spec fn wf(self) -> bool {
        &&& crate::notes::is_white_key(self.note_on_z as int)
        &&& crate::notes::is_white_key(self.note_on_q as int)
        &&& self.note_on_z + 33 <= u8::MAX
        &&& self.note_on_q + 23 <= u8::MAX
    }

    /// Whether these settings are well formed; lets an unverified caller
    /// test the condition the mapping functions require.
    pub fn is_wf(&self) -> (r: bool)
        ensures
            r == self.wf(),
    {
        !crate::notes::note_is_black(self.note_on_z) && !crate::notes::note_is_black(self.note_on_q)
            && self.note_on_z <= u8::MAX - 33 && self.note_on_q <= u8::MAX - 23
    }
}

impl Default for Settings {
    /// The standard tuning: the lower row starts two octaves below middle C,
    /// the upper row one octave (seven white keys) above the lower.
    fn default() -> (r: Self)
        ensures
            r.note_on_z == 36,
            r.note_on_q == 48,
            r.wf(),
    {
        Settings { note_on_z: 36, note_on_q: 48 }
    }
}

/// A request to switch the audio graph to the numbered program.
#[derive(Clone, Copy, Debug, PartialEq, Eq, Structural)]
pub struct StartProgramEvent {
    pub program_no: usize,
}

/// The synthesis node that sounds the lower keyboard row.
pub const NODE_ID_LOWER: u64 = 0;

/// The synthesis node that sounds the upper keyboard row.
pub const NODE_ID_UPPER: u64 = 1;

/// The synthesis node a register's notes are addressed to.
pub open spec fn spec_node_id(register: KeyboardRegister) -> u64 {
    match register {
        KeyboardRegister::Lower => NODE_ID_LOWER,
        KeyboardRegister::Upper => NODE_ID_UPPER,
    }
}

/// The synthesis node a register's notes are addressed to.
pub fn node_id_for_register(register: KeyboardRegister) -> (r: u64)
    ensures
        r == spec_node_id(register),
{
    match register {
        KeyboardRegister::Lower => NODE_ID_LOWER,
        KeyboardRegister::Upper => NODE_ID_UPPER,
    }
}

/// A note-on or note-off message addressed to one synthesis node: the
/// payload handed to the audio graph for a single keystroke. The host adds
/// the fixed unit velocity when it forwards the message.
#[derive(Clone, Copy, Debug, PartialEq, Eq, Structural)]
pub struct NoteMessage {
    pub node_id: u64,
    pub note: u8,
    pub note_on: bool,
}

/// A keystroke translated to music: which register it came from, and the
/// message to deliver to the audio graph.
#[derive(Clone, Copy, Debug, PartialEq, Eq, Structural)]
pub struct KeyEvent {
    pub register: KeyboardRegister,
    pub message: NoteMessage,
}

} // verus!
