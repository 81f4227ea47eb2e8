//! The sequence generator and the trainer's state machine.
//!
//! A round is an ordered list of notes; the player answers them left to
//! right. The state machine holds the live sequence, the cursor of the next
//! note awaiting a key, and the current course; a key press either answers
//! the note under the cursor or, once the round is complete, starts a fresh
//! round of the same course.

use vstd::prelude::*;

use crate::course::TrainCourse;
use crate::course::course_admits;
use crate::course::is_line_pitch;
use crate::course::is_space_pitch;
use crate::course::spec_course_of_label;
use crate::pitch::pitch_to_char;
use crate::pitch::spec_letter_name;
use crate::rng::choose_from;
use crate::rng::fresh_rng;
use crate::rng::rng_range;

verus! {

/// Most notes one sequence may ever hold.
pub const STAFF_MAX_NOTES: usize = 30;

/// Notes in one generated round.
pub const ROUND_NOTES: usize = 16;

/// The key a note carries before the player has answered it.
pub const NO_KEY: char = '\u{0}';

/// One note of the active sequence: its position (also its horizontal
/// placement key), its pitch, and the key the player pressed for it.
#[derive(Clone, Copy)]
pub struct TrainNote {
    pub index: usize,
    pub pitch: i32,
    pub pressed_key: char,
}

impl TrainNote {
    /// Whether the key pressed for this note names its pitch; drives the
    /// green/red feedback once the cursor has passed the note.
    pub fn is_correct(&self) -> (r: bool)
        ensures
            r == (self.pressed_key == spec_letter_name(self.pitch as int)),
    {
        let expected = pitch_to_char(self.pitch);
        expected == self.pressed_key
    }
}

/// The trainer's whole state: the live sequence, the cursor, the course.
pub struct TrainSequence {
    pub notes: Vec<TrainNote>,
    pub next_key: usize,
    pub course: TrainCourse,
}

impl TrainSequence {
    /// Well-formedness: the cursor stays within the sequence, the sequence
    /// within capacity, and the notes are indexed 0, 1, ... in order.
    pub open spec fn wf(self) -> bool {
        &&& self.next_key <= self.notes@.len()
        &&& self.notes@.len() <= STAFF_MAX_NOTES
        &&& forall|i: int|
            0 <= i < self.notes@.len() ==> (#[trigger] self.notes@[i]).index == i
    }
}

/// What a freshly generated round for `course` looks like: cursor at the
/// start, a full round of notes admitted by the course's rule, none answered
/// yet.
pub open spec fn fresh_round(s: TrainSequence, course: TrainCourse) -> bool {
    &&& s.wf()
    &&& s.course == course
    &&& s.next_key == 0
    &&& s.notes@.len() == ROUND_NOTES
    &&& forall|i: int|
        0 <= i < s.notes@.len() ==> course_admits(course, (#[trigger] s.notes@[i]).pitch as int)
    &&& forall|i: int| 0 <= i < s.notes@.len() ==> (#[trigger] s.notes@[i]).pressed_key == NO_KEY
}

/// The pitches of the treble staff's lines, middle line and first ledger
/// line included: the pool the Lines courses sample from.
fn line_pitch_pool() -> (v: Vec<i32>)
    ensures
        v@.len() == 7,
        forall|i: int| 0 <= i < v@.len() ==> is_line_pitch((#[trigger] v@[i]) as int),
{
    let mut v: Vec<i32> = Vec::new();
    v.push(0);
    v.push(2);
    v.push(4);
    v.push(6);
    v.push(8);
    v.push(10);
    v.push(12);
    proof {
        assert(v@ =~= seq![0i32, 2i32, 4i32, 6i32, 8i32, 10i32, 12i32]);
    }
    v
}

/// The pitches of the treble staff's spaces: the pool the Spaces courses
/// sample from.
fn space_pitch_pool() -> (v: Vec<i32>)
    ensures
        v@.len() == 6,
        forall|i: int| 0 <= i < v@.len() ==> is_space_pitch((#[trigger] v@[i]) as int),
{
    let mut v: Vec<i32> = Vec::new();
    v.push(1);
    v.push(3);
    v.push(5);
    v.push(7);
    v.push(9);
    v.push(11);
    proof {
        assert(v@ =~= seq![1i32, 3i32, 5i32, 7i32, 9i32, 11i32]);
    }
    v
}

/// Build the note at `index` of a round: one pitch sampled by the course's
/// rule, no key pressed yet.
fn generate_course_note(
    index: usize,
    course: TrainCourse,
    rng: &mut rand::rngs::ThreadRng,
) -> (note: TrainNote)
    ensures
        note.index == index,
        note.pressed_key == NO_KEY,
        course_admits(course, note.pitch as int),
{
    let pitch: i32 = match course {
        TrainCourse::TrebleLines => {
            let pool = line_pitch_pool();
            choose_from(rng, pool.as_slice())
        },
        TrainCourse::TrebleSpaces => {
            let pool = space_pitch_pool();
            choose_from(rng, pool.as_slice())
        },
        TrainCourse::TrebleAll => rng_range(rng, 0, 13),
        TrainCourse::BassLines => {
            let pool = line_pitch_pool();
            let p = choose_from(rng, pool.as_slice());
            -p
        },
        TrainCourse::BassSpaces => {
            let pool = space_pitch_pool();
            let p = choose_from(rng, pool.as_slice());
            -p
        },
        TrainCourse::BassAll => {
            let p = rng_range(rng, 0, 13);
            -p
        },
        TrainCourse::All => {
            let p = rng_range(rng, -12, 13);
            -p
        },
    };
    TrainNote { index, pitch, pressed_key: NO_KEY }
}

/// Generate a whole round for `course`: `count` notes indexed 0, 1, ... in
/// order, each pitch sampled independently by the course's rule, none
/// answered yet. `count` above the sequence capacity is a defect of the
/// caller's configuration, ruled out here rather than handled at run time.
pub fn generate(course: TrainCourse, count: usize, rng: &mut rand::rngs::ThreadRng) -> (notes:
    Vec<TrainNote>)
    requires
        count <= STAFF_MAX_NOTES,
    ensures
        notes@.len() == count,
        forall|i: int| 0 <= i < count ==> (#[trigger] notes@[i]).index == i,
        forall|i: int| 0 <= i < count ==> course_admits(course, (#[trigger] notes@[i]).pitch as int),
        forall|i: int| 0 <= i < count ==> (#[trigger] notes@[i]).pressed_key == NO_KEY,
{
    let mut notes: Vec<TrainNote> = Vec::new();
    let mut index: usize = 0;
    while index < count
        invariant
            index <= count,
            count <= STAFF_MAX_NOTES,
            notes@.len() == index,
            forall|i: int| 0 <= i < index ==> (#[trigger] notes@[i]).index == i,
            forall|i: int|
                0 <= i < index ==> course_admits(course, (#[trigger] notes@[i]).pitch as int),
            forall|i: int| 0 <= i < index ==> (#[trigger] notes@[i]).pressed_key == NO_KEY,
        decreases count - index,
    {
        let note = generate_course_note(index, course, rng);
        notes.push(note);
        index = index + 1;
    }
    notes
}

impl TrainSequence {
    /// The startup state: an empty sequence, cursor at the start, the
    /// all-pitches course current.
    pub fn new() -> (s: Self)
        ensures
            s.wf(),
            s.notes@.len() == 0,
            s.next_key == 0,
            s.course == TrainCourse::All,
    {
        TrainSequence { notes: Vec::new(), next_key: 0, course: TrainCourse::All }
    }

    /// Replace the sequence with the fixed demo round shown before any
    /// course is chosen: a deterministic rising scale of 25 notes, pitches
    /// -20 up to 4, none answered; the current course stays.
    pub fn gen_demo(&mut self)
        ensures
            final(self).wf(),
            final(self).course == old(self).course,
            final(self).next_key == 0,
            final(self).notes@.len() == 25,
            forall|i: int|
                0 <= i < 25 ==> (#[trigger] final(self).notes@[i]).pitch as int == -20 + i,
            forall|i: int| 0 <= i < 25 ==> (#[trigger] final(self).notes@[i]).index == i,
            forall|i: int| 0 <= i < 25 ==> (#[trigger] final(self).notes@[i]).pressed_key == NO_KEY,
    {
        self.next_key = 0;
        let mut notes: Vec<TrainNote> = Vec::new();
        let mut pitch: i32 = -20;
        while pitch < 5
            invariant
                -20 <= pitch <= 5,
                notes@.len() == pitch + 20,
                forall|i: int|
                    0 <= i < notes@.len() ==> (#[trigger] notes@[i]).pitch as int == -20 + i,
                forall|i: int| 0 <= i < notes@.len() ==> (#[trigger] notes@[i]).index == i,
                forall|i: int| 0 <= i < notes@.len() ==> (#[trigger] notes@[i]).pressed_key
                    == NO_KEY,
            decreases 5 - pitch,
        {
            let index = notes.len();
            notes.push(TrainNote { index, pitch, pressed_key: NO_KEY });
            pitch = pitch + 1;
        }
        self.notes = notes;
    }

    /// Select a course: replace the whole sequence with a fresh round for
    /// it, reset the cursor, and record the course as current. Succeeds from
    /// any prior state.
    pub fn gen_course(&mut self, course: TrainCourse)
        ensures
            fresh_round(*final(self), course),
    {
        self.course = course;
        self.next_key = 0;
        let mut rng = fresh_rng();
        let notes = generate(course, ROUND_NOTES, &mut rng);
        self.notes = notes;
    }

    /// Consume one key press. While the round is underway the key answers
    /// the note under the cursor — it is recorded on that note and the
    /// cursor moves one step right, and only that — so the cursor strictly
    /// increases until the round completes. Once the round is complete, the
    /// press instead starts a fresh round of the same course.
    pub fn submit_key(&mut self, key: char)
        requires
            old(self).wf(),
        ensures
            final(self).wf(),
            final(self).course == old(self).course,
            old(self).next_key < old(self).notes@.len() ==> {
                &&& final(self).next_key == old(self).next_key + 1
                &&& final(self).notes@ == old(self).notes@.update(
                    old(self).next_key as int,
                    (TrainNote {
                        index: old(self).next_key,
                        pitch: old(self).notes@[old(self).next_key as int].pitch,
                        pressed_key: key,
                    }),
                )
            },
            old(self).next_key == old(self).notes@.len() ==> fresh_round(
                *final(self),
                old(self).course,
            ),
    {
        let next = self.next_key;
        if next < self.notes.len() {
            let pitch = self.notes[next].pitch;
            self.notes.set(next, TrainNote { index: next, pitch, pressed_key: key });
            self.next_key = next + 1;
        } else {
            let course = self.course;
            self.gen_course(course);
        }
    }

    /// Handle a course button's label: parse it and select the course it
    /// names; an unrecognized label is reported and leaves the state — the
    /// previous round stays visible — untouched.
    pub fn select_course_label(&mut self, label: &str) -> (ok: bool)
        ensures
            ok == (spec_course_of_label(label@) is Some),
            ok ==> fresh_round(*final(self), spec_course_of_label(label@)->0),
            !ok ==> *final(self) == *old(self),
    {
        match TrainCourse::from_label(label) {
            Some(course) => {
                self.gen_course(course);
                true
            },
            None => false,
        }
    }

    /// How many gaps the note area is split into when the notes are spread
    /// over it: one fewer than the note count, clamped to at least one so a
    /// sequence of one note (or none) never divides by zero.
    pub fn note_space_divisor(&self) -> (d: usize)
        ensures
            d == if self.notes@.len() <= 1 {
                1int
            } else {
                self.notes@.len() - 1
            },
    {
        if self.notes.len() <= 1 {
            1
        } else {
            self.notes.len() - 1
        }
    }
}

} // verus!
