use staff_trainer::course::{all_courses, TrainCourse};
use staff_trainer::pitch::{ledger_line_pitches, pitch_to_char, pitch_to_y};
use staff_trainer::trainer::{generate, TrainSequence, NO_KEY};

#[test]
fn letter_name_concrete_values() {
    assert_eq!(pitch_to_char(0), 'C');
    assert_eq!(pitch_to_char(1), 'D');
    assert_eq!(pitch_to_char(4), 'G');
    assert_eq!(pitch_to_char(6), 'B');
    assert_eq!(pitch_to_char(7), 'C');
    assert_eq!(pitch_to_char(12), 'A');
    assert_eq!(pitch_to_char(-1), 'B');
    assert_eq!(pitch_to_char(-7), 'C');
    assert_eq!(pitch_to_char(-20), 'D');
}

#[test]
fn letter_name_is_periodic_and_valid() {
    let letters = ['C', 'D', 'E', 'F', 'G', 'A', 'B'];
    for p in -30..30 {
        let c = pitch_to_char(p);
        assert_eq!(c, pitch_to_char(p + 7));
        assert_eq!(c, pitch_to_char(p - 7));
        assert!(letters.contains(&c));
    }
}

#[test]
fn vertical_offset_is_linear() {
    assert_eq!(pitch_to_y(0), 40);
    assert_eq!(pitch_to_y(2), 60);
    assert_eq!(pitch_to_y(-4), 0);
    assert_eq!(pitch_to_y(11), 150);
}

#[test]
fn ledger_lines_inside_staff_and_middle() {
    assert_eq!(ledger_line_pitches(0), vec![0]);
    assert_eq!(ledger_line_pitches(2), Vec::<i32>::new());
    assert_eq!(ledger_line_pitches(10), Vec::<i32>::new());
    assert_eq!(ledger_line_pitches(-10), Vec::<i32>::new());
    assert_eq!(ledger_line_pitches(11), Vec::<i32>::new());
    assert_eq!(ledger_line_pitches(-11), Vec::<i32>::new());
}

#[test]
fn ledger_lines_outside_staff() {
    assert_eq!(ledger_line_pitches(12), vec![12]);
    assert_eq!(ledger_line_pitches(13), vec![12]);
    assert_eq!(ledger_line_pitches(16), vec![12, 14, 16]);
    assert_eq!(ledger_line_pitches(-12), vec![-12]);
    assert_eq!(ledger_line_pitches(-14), vec![-12, -14]);
    assert_eq!(ledger_line_pitches(-17), vec![-12, -14, -16]);
}

fn pitch_allowed(course: TrainCourse, pitch: i32) -> bool {
    let lines = [0, 2, 4, 6, 8, 10, 12];
    let spaces = [1, 3, 5, 7, 9, 11];
    match course {
        TrainCourse::TrebleLines => lines.contains(&pitch),
        TrainCourse::TrebleSpaces => spaces.contains(&pitch),
        TrainCourse::TrebleAll => (0..13).contains(&pitch),
        TrainCourse::BassLines => lines.contains(&-pitch),
        TrainCourse::BassSpaces => spaces.contains(&-pitch),
        TrainCourse::BassAll => (-12..=0).contains(&pitch),
        TrainCourse::All => (-12..=12).contains(&pitch),
    }
}

#[test]
fn generate_yields_indexed_unanswered_notes_in_bound() {
    let mut rng = rand::thread_rng();
    for course in all_courses() {
        let notes = generate(course, 16, &mut rng);
        assert_eq!(notes.len(), 16);
        for (i, note) in notes.iter().enumerate() {
            assert_eq!(note.index, i);
            assert_eq!(note.pressed_key, NO_KEY);
            assert!(pitch_allowed(course, note.pitch));
        }
    }
}

#[test]
fn lines_courses_give_even_pitches_spaces_odd() {
    let mut rng = rand::thread_rng();
    for _ in 0..20 {
        for note in generate(TrainCourse::TrebleLines, 16, &mut rng) {
            assert!(note.pitch % 2 == 0 && (0..=12).contains(&note.pitch));
        }
        for note in generate(TrainCourse::BassLines, 16, &mut rng) {
            assert!(note.pitch % 2 == 0 && (-12..=0).contains(&note.pitch));
        }
        for note in generate(TrainCourse::TrebleSpaces, 16, &mut rng) {
            assert!(note.pitch.rem_euclid(2) == 1 && (1..=11).contains(&note.pitch));
        }
        for note in generate(TrainCourse::BassSpaces, 16, &mut rng) {
            assert!(note.pitch.rem_euclid(2) == 1 && (-11..=-1).contains(&note.pitch));
        }
    }
}

#[test]
fn treble_lines_round_stays_on_the_lines() {
    let mut seq = TrainSequence::new();
    seq.gen_course(TrainCourse::TrebleLines);
    assert_eq!(seq.notes.len(), 16);
    for note in &seq.notes {
        assert!([0, 2, 4, 6, 8, 10, 12].contains(&note.pitch));
    }
}

#[test]
fn generate_at_capacity_succeeds() {
    let mut rng = rand::thread_rng();
    let notes = generate(TrainCourse::All, 30, &mut rng);
    assert_eq!(notes.len(), 30);
    for (i, note) in notes.iter().enumerate() {
        assert_eq!(note.index, i);
    }
}

#[test]
fn new_sequence_is_empty_with_all_course() {
    let seq = TrainSequence::new();
    assert_eq!(seq.notes.len(), 0);
    assert_eq!(seq.next_key, 0);
    assert_eq!(seq.course, TrainCourse::All);
}

#[test]
fn select_course_resets_cursor_regardless_of_prior_state() {
    let mut seq = TrainSequence::new();
    seq.gen_demo();
    seq.submit_key('C');
    seq.submit_key('D');
    assert_eq!(seq.next_key, 2);
    seq.gen_course(TrainCourse::BassAll);
    assert_eq!(seq.next_key, 0);
    assert_eq!(seq.notes.len(), 16);
    assert_eq!(seq.course, TrainCourse::BassAll);
}

#[test]
fn demo_round_is_the_rising_scale() {
    let mut seq = TrainSequence::new();
    seq.gen_demo();
    assert_eq!(seq.notes.len(), 25);
    assert_eq!(seq.next_key, 0);
    for (i, note) in seq.notes.iter().enumerate() {
        assert_eq!(note.index, i);
        assert_eq!(note.pitch, -20 + i as i32);
        assert_eq!(note.pressed_key, NO_KEY);
    }
}

#[test]
fn first_key_press_on_demo_is_recorded_and_wrong() {
    let mut seq = TrainSequence::new();
    seq.gen_demo();
    seq.submit_key('X');
    assert_eq!(seq.notes[0].pressed_key, 'X');
    assert_eq!(seq.next_key, 1);
    assert_eq!(pitch_to_char(seq.notes[0].pitch), 'D');
    assert!(!seq.notes[0].is_correct());
}

#[test]
fn cursor_counts_up_by_one_until_the_round_completes() {
    let mut seq = TrainSequence::new();
    seq.gen_course(TrainCourse::All);
    let len = seq.notes.len();
    for step in 0..len {
        assert_eq!(seq.next_key, step);
        seq.submit_key('C');
        assert_eq!(seq.next_key, step + 1);
    }
    assert_eq!(seq.next_key, seq.notes.len());
}

#[test]
fn key_press_after_completion_starts_a_fresh_round() {
    let mut seq = TrainSequence::new();
    seq.gen_course(TrainCourse::TrebleSpaces);
    for _ in 0..16 {
        seq.submit_key('A');
    }
    assert_eq!(seq.next_key, 16);
    seq.submit_key('A');
    assert_eq!(seq.next_key, 0);
    assert_eq!(seq.notes.len(), 16);
    assert_eq!(seq.course, TrainCourse::TrebleSpaces);
    for note in &seq.notes {
        assert_eq!(note.pressed_key, NO_KEY);
        assert!([1, 3, 5, 7, 9, 11].contains(&note.pitch));
    }
}

#[test]
fn regenerated_round_has_fresh_content() {
    let mut seq = TrainSequence::new();
    seq.gen_course(TrainCourse::All);
    let old_pitches: Vec<i32> = seq.notes.iter().map(|n| n.pitch).collect();
    for _ in 0..17 {
        seq.submit_key('B');
    }
    let new_pitches: Vec<i32> = seq.notes.iter().map(|n| n.pitch).collect();
    // sixteen independent draws from 25 pitches: a full repeat of the old
    // round is astronomically unlikely
    assert_ne!(old_pitches, new_pitches);
}

#[test]
fn correct_key_gives_green_feedback() {
    let mut seq = TrainSequence::new();
    seq.gen_course(TrainCourse::TrebleLines);
    let expected = pitch_to_char(seq.notes[0].pitch);
    seq.submit_key(expected);
    assert!(seq.notes[0].is_correct());
}

#[test]
fn labels_round_trip_for_every_course() {
    let courses = all_courses();
    assert_eq!(courses.len(), 7);
    let names = [
        "TrebleLines",
        "TrebleSpaces",
        "TrebleAll",
        "BassLines",
        "BassSpaces",
        "BassAll",
        "All",
    ];
    for (course, name) in courses.iter().zip(names.iter()) {
        assert_eq!(course.label(), *name);
        assert_eq!(TrainCourse::from_label(name), Some(*course));
    }
}

#[test]
fn unknown_label_is_rejected_and_leaves_state_alone() {
    assert_eq!(TrainCourse::from_label("NoSuchCourse"), None);
    assert_eq!(TrainCourse::from_label(""), None);
    assert_eq!(TrainCourse::from_label("treblelines"), None);

    let mut seq = TrainSequence::new();
    seq.gen_demo();
    seq.submit_key('C');
    let ok = seq.select_course_label("NoSuchCourse");
    assert!(!ok);
    assert_eq!(seq.next_key, 1);
    assert_eq!(seq.notes.len(), 25);
    assert_eq!(seq.course, TrainCourse::All);
}

#[test]
fn known_label_selects_the_course() {
    let mut seq = TrainSequence::new();
    let ok = seq.select_course_label("BassLines");
    assert!(ok);
    assert_eq!(seq.course, TrainCourse::BassLines);
    assert_eq!(seq.next_key, 0);
    assert_eq!(seq.notes.len(), 16);
}

#[test]
fn note_spacing_divisor_is_clamped() {
    let mut seq = TrainSequence::new();
    assert_eq!(seq.note_space_divisor(), 1);
    seq.gen_demo();
    assert_eq!(seq.note_space_divisor(), 24);
    seq.gen_course(TrainCourse::All);
    assert_eq!(seq.note_space_divisor(), 15);
}
