//! Arithmetic of the piano keyboard: which MIDI notes are black keys, and
//! how to walk from a base note across the white keys of the chromatic
//! cycle, optionally picking up the black key above a white one.
use vstd::prelude::*;

verus! {

/// A note is a black key exactly when its pitch class is one of the five
/// raised notes of the twelve-note octave.
pub open spec fn is_black_key(note: int) -> bool {
    note % 12 == 1 || note % 12 == 3 || note % 12 == 6 || note % 12 == 8 || note % 12 == 10
}

/// A note is a white key exactly when it is not a black key.
pub open spec fn is_white_key(note: int) -> bool {
    !is_black_key(note)
}

/// A white key has a black key directly above it unless it sits just below
/// one of the two semitone gaps of the octave (pitch classes 4 and 11).
pub open spec fn has_black_above(note: int) -> bool {
    note % 12 == 0 || note % 12 == 2 || note % 12 == 5 || note % 12 == 7 || note % 12 == 9
}

/// The distance from a white key to the next white key: two semitones when a
/// black key lies between them, otherwise one.
pub open spec fn white_step(note: int) -> int {
    if has_black_above(note) {
        2
    } else {
        1
    }
}

/// The note reached from `note` by ascending `n` white keys.
pub open spec fn white_keys_above(note: int, n: nat) -> int
    decreases n,
{
    if n == 0 {
        note
    } else {
        white_keys_above(note + white_step(note), (n - 1) as nat)
    }
}

/// The note `make_note` produces: the white key `advance` steps above
/// `from_note`, or the black key above it, which does not exist at the two
/// semitone gaps.
pub open spec fn spec_make_note(from_note: int, advance: nat, black_key: bool) -> Option<int> {
    let white = white_keys_above(from_note, advance);
    if black_key {
        if has_black_above(white) {
            Some(white + 1)
        } else {
            None
        }
    } else {
        Some(white)
    }
}

/// Stepping from a white key lands on a white key.
pub proof fn lemma_white_step_preserves_white(note: int)
    requires
        is_white_key(note),
    ensures
        is_white_key(note + white_step(note)),
{
}

/// Ascending `n + 1` white keys is ascending `n` and then stepping once.
pub proof fn lemma_white_keys_above_succ(note: int, n: nat)
    ensures
        white_keys_above(note, n + 1) == white_keys_above(note, n) + white_step(
            white_keys_above(note, n),
        ),
    decreases n,
{
    assert(white_keys_above(note, n + 1) == white_keys_above(
        note + white_step(note),
        n,
    ));
    if n > 0 {
        lemma_white_keys_above_succ(note + white_step(note), (n - 1) as nat);
        assert(white_keys_above(note, n) == white_keys_above(
            note + white_step(note),
            (n - 1) as nat,
        ));
    }
}

/// Walking white keys never descends, and covers at most two semitones per
/// step.
pub proof fn lemma_white_keys_above_bounds(note: int, n: nat)
    ensures
        note + n <= white_keys_above(note, n) <= note + 2 * n,
    decreases n,
{
    if n > 0 {
        lemma_white_keys_above_bounds(note + white_step(note), (n - 1) as nat);
    }
}

/// Ascending more white keys reaches a note at least as high.
pub proof fn lemma_white_keys_above_monotonic(note: int, m: nat, n: nat)
    requires
        m <= n,
    ensures
        white_keys_above(note, m) <= white_keys_above(note, n),
    decreases n - m,
{
    if m < n {
        lemma_white_keys_above_succ(note, m);
        lemma_white_keys_above_monotonic(note, m + 1, n);
    }
}

/// Walking white keys from a white key visits only white keys.
pub proof fn lemma_white_keys_above_white(note: int, n: nat)
    requires
        is_white_key(note),
    ensures
        is_white_key(white_keys_above(note, n)),
    decreases n,
{
    if n > 0 {
        lemma_white_step_preserves_white(note);
        lemma_white_keys_above_white(note + white_step(note), (n - 1) as nat);
    }
}

/// Whether `note` names a black key.
pub fn note_is_black(note: u8) -> (r: bool)
    ensures
        r == is_black_key(note as int),
{
    match note % 12 {
        1 | 3 | 6 | 8 | 10 => true,
        _ => false,
    }
}

/// The white key `number_of_keys` white-key steps above `from_note`.
///
/// The starting note must be a white key, and the walk must stay within the
/// MIDI note range.
pub fn add_white_keys(from_note: u8, number_of_keys: usize) -> (r: u8)
    requires
        is_white_key(from_note as int),
        white_keys_above(from_note as int, number_of_keys as nat) <= u8::MAX,
    ensures
        r == white_keys_above(from_note as int, number_of_keys as nat),
        is_white_key(r as int),
{
    let mut arrived_note: u8 = from_note;
    for i in 0..number_of_keys
        invariant
            arrived_note == white_keys_above(from_note as int, i as nat),
            is_white_key(arrived_note as int),
            white_keys_above(from_note as int, number_of_keys as nat) <= u8::MAX,
    {
        proof {
            lemma_white_keys_above_succ(from_note as int, i as nat);
            lemma_white_keys_above_monotonic(from_note as int, (i + 1) as nat, number_of_keys as nat);
            lemma_white_step_preserves_white(arrived_note as int);
        }
        arrived_note += match arrived_note % 12 {
            0 | 2 | 5 | 7 | 9 => 2,
            _ => 1,
        };
    }
    arrived_note
}

/// The black key directly above the white key `from_note`, where one exists.
pub fn black_key_above(from_note: u8) -> (r: Option<u8>)
    requires
        is_white_key(from_note as int),
    ensures
        has_black_above(from_note as int) ==> r == Some((from_note + 1) as u8),
        !has_black_above(from_note as int) ==> r is None,
        r matches Some(n) ==> is_black_key(n as int),
{
    match from_note % 12 {
        0 | 2 | 5 | 7 | 9 => Some(from_note + 1),
        _ => None,
    }
}

/// The note sounded by the key `white_key_advance` positions along the row
/// that starts at `from_note`: the white key there, or, for a raised key,
/// the black key above it where the octave has one.
pub fn make_note(from_note: u8, white_key_advance: usize, black_key: bool) -> (r: Option<u8>)
    requires
        is_white_key(from_note as int),
        white_keys_above(from_note as int, white_key_advance as nat) <= u8::MAX,
    ensures
        (match r {
            Some(n) => spec_make_note(from_note as int, white_key_advance as nat, black_key)
                == Some(n as int),
            None => spec_make_note(from_note as int, white_key_advance as nat, black_key) is None,
        }),
        !black_key ==> r is Some,
        r matches Some(n) ==> (is_black_key(n as int) <==> black_key),
{
    proof {
        lemma_white_keys_above_white(from_note as int, white_key_advance as nat);
    }
    match black_key {
        false => Some(add_white_keys(from_note, white_key_advance)),
        true => black_key_above(add_white_keys(from_note, white_key_advance)),
    }
}

/// Tags a note with the register its row belongs to: the lower register when
/// `lower` holds, the upper one otherwise.
pub fn on_lower(lower: bool, note: Option<u8>) -> (r: Option<(crate::KeyboardRegister, u8)>)
    ensures
        (match note {
            Some(n) => r == Some(
                (
                    if lower {
                        crate::KeyboardRegister::Lower
                    } else {
                        crate::KeyboardRegister::Upper
                    },
                    n,
                ),
            ),
            None => r is None,
        }),
{
    match note {
        Some(n) => Some(
            (
                match lower {
                    true => crate::KeyboardRegister::Lower,
                    false => crate::KeyboardRegister::Upper,
                },
                n,
            ),
        ),
        None => None,
    }
}

} // verus!
