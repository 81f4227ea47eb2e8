//! The pitch/position mapper: pure functions from an integer diatonic pitch
//! to its letter name, its vertical position on the staff, and the ledger
//! lines a renderer must draw for it.
//!
//! A pitch is a signed diatonic step count from the staff's middle reference
//! line: each unit is half a staff space, so even pitches sit on lines and
//! odd pitches in spaces.

use vstd::prelude::*;

verus! {

/// Vertical position of the staff's middle reference line (pitch 0).
pub const STAFF_Y: i32 = 40;

/// Vertical distance between two adjacent staff lines.
pub const STAFF_SPACE_Y: i32 = 20;

/// Half a staff space: the vertical size of one diatonic step.
pub const HALF_SPACE_Y: i32 = 10;

/// Total width of the drawn staff.
pub const STAFF_WIDTH: i32 = 1200;

/// Left edge of the staff (the staff is centred on x = 0).
pub const STAFF_X: i32 = -600;

/// Horizontal offset of the first note from the staff's left edge.
pub const STAFF_NOTE_X: i32 = 120;

/// Width of the area over which the notes of a sequence are spread:
/// the staff minus the clef margin on the left and a small margin on the
/// right.
pub const NOTE_AREA_WIDTH: i32 = STAFF_WIDTH - STAFF_NOTE_X - 40;

/// The letter of the diatonic cycle at position `i` of the cycle;
/// position 0 is 'C'.
pub open spec fn spec_letter_at(i: int) -> char {
    if i == 0 {
        'C'
    } else if i == 1 {
        'D'
    } else if i == 2 {
        'E'
    } else if i == 3 {
        'F'
    } else if i == 4 {
        'G'
    } else if i == 5 {
        'A'
    } else {
        'B'
    }
}

/// The seven letter names in cycle order.
pub open spec fn pitch_letters() -> Seq<char> {
    seq!['C', 'D', 'E', 'F', 'G', 'A', 'B']
}

/// Letter name of a pitch: the cycle position is the pitch reduced modulo 7,
/// with the remainder always taken non-negative, so negative pitches resolve
/// to the letters below the reference line.
pub open spec fn spec_letter_name(pitch: int) -> char {
    spec_letter_at(pitch % 7)
}

/// Letter name of a pitch.
pub fn pitch_to_char(pitch: i32) -> (c: char)
    ensures
        c == spec_letter_name(pitch as int),
{
    let idx = pitch.checked_rem_euclid(7).unwrap();
    if idx == 0 {
        'C'
    } else if idx == 1 {
        'D'
    } else if idx == 2 {
        'E'
    } else if idx == 3 {
        'F'
    } else if idx == 4 {
        'G'
    } else if idx == 5 {
        'A'
    } else {
        'B'
    }
}

/// Vertical position of a pitch: linear in the pitch, one half staff space
/// per diatonic step, with no discontinuity at the staff's edge.
pub fn pitch_to_y(pitch: i32) -> (y: i32)
    requires
        // the scaled pitch and the final sum must fit in an i32
        -214_748_364 <= pitch <= 214_748_360,
    ensures
        y == STAFF_Y + pitch * HALF_SPACE_Y,
{
    STAFF_Y + pitch * HALF_SPACE_Y
}

/// The ledger lines a note at `pitch` needs, as the pitches (all even) at
/// which a short line is drawn:
/// a single line at 0 for the middle reference line; for a note above the
/// staff the even pitches from 12 up to the note; for a note below it the
/// even pitches from -12 down to the note; none for a note within the staff.
pub open spec fn spec_ledger_lines(pitch: int) -> Seq<int> {
    if pitch == 0 {
        seq![0int]
    } else if pitch >= 12 {
        Seq::new(((pitch - 12) / 2 + 1) as nat, |i: int| 12 + 2 * i)
    } else if pitch <= -12 {
        Seq::new(((-pitch - 12) / 2 + 1) as nat, |i: int| -12 - 2 * i)
    } else {
        Seq::empty()
    }
}

/// Ledger lines for a note at `pitch`, outermost last, as drawn each frame.
pub fn ledger_line_pitches(pitch: i32) -> (lines: Vec<i32>)
    requires
        // stepping two past the pitch must not leave i32
        i32::MIN + 2 <= pitch <= i32::MAX - 2,
    ensures
        lines@.map_values(|x: i32| x as int) == spec_ledger_lines(pitch as int),
{
    let mut lines: Vec<i32> = Vec::new();
    if pitch == 0 {
        lines.push(0);
        proof {
            assert(lines@.map_values(|x: i32| x as int) =~= spec_ledger_lines(pitch as int));
        }
    } else if pitch > 10 {
        let mut p: i32 = 12;
        while p <= pitch
            invariant
                pitch > 10,
                pitch <= i32::MAX - 2,
                12 <= p <= pitch + 2,
                p == 12 + 2 * lines@.len(),
                forall|i: int| 0 <= i < lines@.len() ==> (#[trigger] lines@[i]) as int == 12 + 2
                    * i,
            decreases pitch + 2 - p,
        {
            lines.push(p);
            p = p + 2;
        }
        proof {
            let len = lines@.len() as int;
            if pitch >= 12 {
                vstd::arithmetic::div_mod::lemma_fundamental_div_mod_converse(
                    pitch - 12,
                    2,
                    len - 1,
                    pitch - 12 - 2 * (len - 1),
                );
            }
            assert(lines@.map_values(|x: i32| x as int) =~= spec_ledger_lines(pitch as int));
        }
    } else if pitch < -10 {
        let mut p: i32 = -12;
        while p >= pitch
            invariant
                pitch < -10,
                pitch >= i32::MIN + 2,
                pitch - 2 <= p <= -12,
                p == -12 - 2 * lines@.len(),
                forall|i: int| 0 <= i < lines@.len() ==> (#[trigger] lines@[i]) as int == -12 - 2
                    * i,
            decreases p + 2 - pitch,
        {
            lines.push(p);
            p = p - 2;
        }
        proof {
            let len = lines@.len() as int;
            if pitch <= -12 {
                vstd::arithmetic::div_mod::lemma_fundamental_div_mod_converse(
                    -pitch - 12,
                    2,
                    len - 1,
                    -pitch - 12 - 2 * (len - 1),
                );
            }
            assert(lines@.map_values(|x: i32| x as int) =~= spec_ledger_lines(pitch as int));
        }
    } else {
        proof {
            assert(lines@.map_values(|x: i32| x as int) =~= spec_ledger_lines(pitch as int));
        }
    }
    lines
}

/// Law: the letter name cycles with period 7 and is always one of the seven
/// letters, for negative pitches as well as positive ones.
pub proof fn lemma_letter_name_cycle(pitch: int)
    ensures
        spec_letter_name(pitch + 7) == spec_letter_name(pitch),
        spec_letter_name(pitch - 7) == spec_letter_name(pitch),
        pitch_letters().contains(spec_letter_name(pitch)),
{
    vstd::arithmetic::div_mod::lemma_mod_add_multiples_vanish(pitch, 7);
    vstd::arithmetic::div_mod::lemma_mod_add_multiples_vanish(pitch - 7, 7);
    let r = pitch % 7;
    assert(0 <= r < 7) by {
        vstd::arithmetic::div_mod::lemma_mod_bound(pitch, 7);
    }
    assert(pitch_letters()[r] == spec_letter_at(r));
    assert(pitch_letters().contains(spec_letter_name(pitch)));
}

} // verus!
