//! Decisions behind the drawn keyboard: which notes the keys of a row
//! sound, which drawn key a note event lands on, and which material a key
//! shows once it is pressed or released. Geometry and rendering stay with
//! the host.
use vstd::prelude::*;
use crate::KeyboardRegister;
use crate::notes::{add_white_keys, black_key_above, has_black_above, is_black_key, is_white_key,
    lemma_white_keys_above_monotonic, note_is_black, white_keys_above};

verus! {

/// The materials a drawn key can show.
#[derive(Clone, Copy, Debug, PartialEq, Eq, Structural)]
pub enum KeyMaterial {
    Plastic,
    Ivory,
    Ebony,
    Illuminated,
}

/// One position of a keyboard row: the white key drawn there and, where the
/// octave has one, the black key drawn above it.
#[derive(Clone, Copy, Debug, PartialEq, Eq, Structural)]
pub struct KeyPair {
    pub white_note: u8,
    pub black_note: Option<u8>,
}

/// The notes drawn at position `i` of a row based at `base`: the white key
/// `i` white-key steps up, and the black key a semitone above it except at
/// the octave's two semitone gaps.
pub open spec fn spec_row_entry(base: int, i: int) -> KeyPair {
    let white = white_keys_above(base, i as nat);
    KeyPair {
        white_note: white as u8,
        black_note: if has_black_above(white) {
            Some((white + 1) as u8)
        } else {
            None
        },
    }
}

/// The notes of a row of `white_count` white keys based at `base_note`,
/// position by position.
pub fn row_layout(base_note: u8, white_count: usize) -> (r: Vec<KeyPair>)
    requires
        is_white_key(base_note as int),
        white_count > 0 ==> white_keys_above(base_note as int, (white_count - 1) as nat)
            <= u8::MAX,
    ensures
        r@.len() == white_count,
        forall|i: int| 0 <= i < white_count ==> r@[i] == spec_row_entry(base_note as int, i),
{
    let mut r: Vec<KeyPair> = Vec::new();
    for i in 0..white_count
        invariant
            is_white_key(base_note as int),
            white_count > 0 ==> white_keys_above(base_note as int, (white_count - 1) as nat)
                <= u8::MAX,
            r@.len() == i,
            forall|j: int| 0 <= j < i ==> r@[j] == spec_row_entry(base_note as int, j),
    {
        proof {
            lemma_white_keys_above_monotonic(base_note as int, i as nat, (white_count - 1) as nat);
        }
        let white_note = add_white_keys(base_note, i);
        let black_note = black_key_above(white_note);
        r.push(KeyPair { white_note, black_note });
    }
    r
}

/// The material a key shows after an event on its note: a pressed key
/// lights up; a released key returns to ebony or ivory according to its
/// colour.
pub fn material_after_event(note: u8, note_on: bool) -> (r: KeyMaterial)
    ensures
        note_on ==> r == KeyMaterial::Illuminated,
        !note_on ==> r == (if is_black_key(note as int) {
            KeyMaterial::Ebony
        } else {
            KeyMaterial::Ivory
        }),
{
    if note_on {
        KeyMaterial::Illuminated
    } else {
        match note_is_black(note) {
            true => KeyMaterial::Ebony,
            false => KeyMaterial::Ivory,
        }
    }
}

/// A drawn key as the highlighting pass sees it: the note it sounds and
/// the register it belongs to.
#[derive(Clone, Copy, Debug, PartialEq, Eq, Structural)]
pub struct KeyWithNote {
    pub note: u8,
    pub register: KeyboardRegister,
}

/// The first drawn key sounding `note` on `register`, if any: the key a
/// note event highlights or restores.
pub fn find_key(keys: &Vec<KeyWithNote>, note: u8, register: KeyboardRegister) -> (r: Option<
    usize,
>)
    ensures
        (match r {
            Some(idx) => {
                &&& idx < keys@.len()
                &&& keys@[idx as int].note == note
                &&& keys@[idx as int].register == register
                &&& forall|j: int|
                    0 <= j < idx ==> !(keys@[j].note == note && keys@[j].register == register)
            },
            None => forall|j: int|
                0 <= j < keys@.len() ==> !(keys@[j].note == note && keys@[j].register
                    == register),
        }),
{
    let mut i: usize = 0;
    while i < keys.len()
        invariant
            i <= keys@.len(),
            forall|j: int|
                0 <= j < i ==> !(keys@[j].note == note && keys@[j].register == register),
        decreases keys@.len() - i,
    {
        if keys[i].note == note && keys[i].register == register {
            return Some(i);
        }
        i = i + 1;
    }
    None
}

} // verus!
