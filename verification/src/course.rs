//! The closed set of training courses and their pitch-sampling rules.
//!
//! A course names the region of the staff to drill: the lines or the spaces
//! of the treble or bass staff, a whole staff, or everything. Each course
//! carries a rule saying which pitches a generated round may contain, and a
//! display label that round-trips through parsing.

use vstd::prelude::*;

verus! {

/// A training mode, chosen by the player; fixed closed set.
#[derive(Clone, Copy, Debug, PartialEq, Eq, Structural)]
pub enum TrainCourse {
    TrebleLines,
    TrebleSpaces,
    TrebleAll,
    BassLines,
    BassSpaces,
    BassAll,
    All,
}

/// A pitch sitting on one of the treble staff's lines, the middle reference
/// line, or the first ledger line above.
pub open spec fn is_line_pitch(p: int) -> bool {
    p == 0 || p == 2 || p == 4 || p == 6 || p == 8 || p == 10 || p == 12
}

/// A pitch sitting in one of the treble staff's spaces, the spaces just
/// around it included.
pub open spec fn is_space_pitch(p: int) -> bool {
    p == 1 || p == 3 || p == 5 || p == 7 || p == 9 || p == 11
}

/// The sampling rule of a course: which pitches a round for it may contain.
/// Bass courses mirror the treble ones below the reference line.
pub open spec fn course_admits(course: TrainCourse, pitch: int) -> bool {
    match course {
        TrainCourse::TrebleLines => is_line_pitch(pitch),
        TrainCourse::TrebleSpaces => is_space_pitch(pitch),
        TrainCourse::TrebleAll => 0 <= pitch < 13,
        TrainCourse::BassLines => is_line_pitch(-pitch),
        TrainCourse::BassSpaces => is_space_pitch(-pitch),
        TrainCourse::BassAll => -12 <= pitch <= 0,
        TrainCourse::All => -12 <= pitch <= 12,
    }
}

/// The display label of each course.
pub open spec fn spec_label(course: TrainCourse) -> Seq<char> {
    match course {
        TrainCourse::TrebleLines => "TrebleLines"@,
        TrainCourse::TrebleSpaces => "TrebleSpaces"@,
        TrainCourse::TrebleAll => "TrebleAll"@,
        TrainCourse::BassLines => "BassLines"@,
        TrainCourse::BassSpaces => "BassSpaces"@,
        TrainCourse::BassAll => "BassAll"@,
        TrainCourse::All => "All"@,
    }
}

/// The course a label names, if any.
pub open spec fn spec_course_of_label(s: Seq<char>) -> Option<TrainCourse> {
    if s == spec_label(TrainCourse::TrebleLines) {
        Some(TrainCourse::TrebleLines)
    } else if s == spec_label(TrainCourse::TrebleSpaces) {
        Some(TrainCourse::TrebleSpaces)
    } else if s == spec_label(TrainCourse::TrebleAll) {
        Some(TrainCourse::TrebleAll)
    } else if s == spec_label(TrainCourse::BassLines) {
        Some(TrainCourse::BassLines)
    } else if s == spec_label(TrainCourse::BassSpaces) {
        Some(TrainCourse::BassSpaces)
    } else if s == spec_label(TrainCourse::BassAll) {
        Some(TrainCourse::BassAll)
    } else if s == spec_label(TrainCourse::All) {
        Some(TrainCourse::All)
    } else {
        None
    }
}

/// The fixed, stable order in which the courses are listed.
pub open spec fn spec_all_courses() -> Seq<TrainCourse> {
    seq![
        TrainCourse::TrebleLines,
        TrainCourse::TrebleSpaces,
        TrainCourse::TrebleAll,
        TrainCourse::BassLines,
        TrainCourse::BassSpaces,
        TrainCourse::BassAll,
        TrainCourse::All,
    ]
}

impl TrainCourse {
    /// Human-readable label of the course, the same one `from_label` parses.
    pub fn label(&self) -> (r: String)
        ensures
            r@ == spec_label(*self),
    {
        match self {
            TrainCourse::TrebleLines => "TrebleLines".to_owned(),
            TrainCourse::TrebleSpaces => "TrebleSpaces".to_owned(),
            TrainCourse::TrebleAll => "TrebleAll".to_owned(),
            TrainCourse::BassLines => "BassLines".to_owned(),
            TrainCourse::BassSpaces => "BassSpaces".to_owned(),
            TrainCourse::BassAll => "BassAll".to_owned(),
            TrainCourse::All => "All".to_owned(),
        }
    }

    /// Parse a display label back into a course; an unrecognized label is a
    /// configuration error reported as `None`.
    pub fn from_label(label: &str) -> (r: Option<TrainCourse>)
        ensures
            r == spec_course_of_label(label@),
    {
        let owned: String = label.to_owned();
        if owned.eq(&"TrebleLines".to_owned()) {
            Some(TrainCourse::TrebleLines)
        } else if owned.eq(&"TrebleSpaces".to_owned()) {
            Some(TrainCourse::TrebleSpaces)
        } else if owned.eq(&"TrebleAll".to_owned()) {
            Some(TrainCourse::TrebleAll)
        } else if owned.eq(&"BassLines".to_owned()) {
            Some(TrainCourse::BassLines)
        } else if owned.eq(&"BassSpaces".to_owned()) {
            Some(TrainCourse::BassSpaces)
        } else if owned.eq(&"BassAll".to_owned()) {
            Some(TrainCourse::BassAll)
        } else if owned.eq(&"All".to_owned()) {
            Some(TrainCourse::All)
        } else {
            None
        }
    }
}

/// All courses in their fixed display order, for listing in a menu.
pub fn all_courses() -> (r: Vec<TrainCourse>)
    ensures
        r@ == spec_all_courses(),
{
    let mut v: Vec<TrainCourse> = Vec::new();
    v.push(TrainCourse::TrebleLines);
    v.push(TrainCourse::TrebleSpaces);
    v.push(TrainCourse::TrebleAll);
    v.push(TrainCourse::BassLines);
    v.push(TrainCourse::BassSpaces);
    v.push(TrainCourse::BassAll);
    v.push(TrainCourse::All);
    proof {
        assert(v@ =~= spec_all_courses());
    }
    v
}

/// Law: a Lines course admits only even pitches and a Spaces course only odd
/// ones, each within twelve steps of the middle line, mirrored below it for
/// the bass courses; and every admitted pitch lies in the course's declared
/// bound.
pub proof fn lemma_course_pitch_bounds(course: TrainCourse, pitch: int)
    requires
        course_admits(course, pitch),
    ensures
        course == TrainCourse::TrebleLines ==> pitch % 2 == 0 && 0 <= pitch <= 12,
        course == TrainCourse::BassLines ==> pitch % 2 == 0 && -12 <= pitch <= 0,
        course == TrainCourse::TrebleSpaces ==> pitch % 2 == 1 && 1 <= pitch <= 11,
        course == TrainCourse::BassSpaces ==> pitch % 2 == 1 && -11 <= pitch <= -1,
        -12 <= pitch <= 12,
{
}

/// Law: parsing a course's own label yields that course back, so labels and
/// courses round-trip.
pub proof fn lemma_label_round_trip(course: TrainCourse)
    ensures
        spec_course_of_label(spec_label(course)) == Some(course),
{
    reveal_strlit("TrebleLines");
    reveal_strlit("TrebleSpaces");
    reveal_strlit("TrebleAll");
    reveal_strlit("BassLines");
    reveal_strlit("BassSpaces");
    reveal_strlit("BassAll");
    reveal_strlit("All");
    // the labels differ pairwise, by length or by their first character
    assert("TrebleLines"@.len() == 11);
    assert("TrebleSpaces"@.len() == 12);
    assert("TrebleAll"@.len() == 9);
    assert("BassLines"@.len() == 9);
    assert("BassSpaces"@.len() == 10);
    assert("BassAll"@.len() == 7);
    assert("All"@.len() == 3);
    assert("TrebleAll"@[0] == 'T');
    assert("BassLines"@[0] == 'B');
}

} // verus!
