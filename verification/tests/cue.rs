use mksubrip::subrip::{Subrip, SubripFormat, SubripState};
use mksubrip::time::TimeOfDay;

fn time(millis: u32) -> TimeOfDay {
    TimeOfDay::from_millis(millis).unwrap()
}

#[test]
fn a_new_cue_ends_after_its_duration() {
    let cue = Subrip::new("hello world.", time(10_000), 180_000);
    assert_eq!(cue.get_begin_time(), time(10_000));
    assert_eq!(cue.get_end_time(), time(190_000));
    assert_eq!(cue.get_duration(), 180_000);
    assert_eq!(cue.get_content(), "hello world.");
    assert_eq!(cue.get_content_ref(), "hello world.");
    assert_eq!(cue.get_index(), 0);
    assert_eq!(cue.get_format(), SubripFormat::SRT);
    assert_eq!(cue.state, SubripState { is_loaded: false, is_deleted: false });
}

#[test]
fn a_new_cue_wraps_at_midnight() {
    let cue = Subrip::new("late", time(86_399_000), 5_000);
    assert_eq!(cue.get_end_time(), time(4_000));
    assert_eq!(cue.get_duration(), 4_000 - 86_399_000);
}

#[test]
fn setters_change_one_field() {
    let mut cue = Subrip::new("a", time(1_000), 1_000);
    cue.set_index(7);
    cue.set_format(SubripFormat::SRT);
    cue.set_begin_time(&time(2_500));
    cue.set_end_time(&time(2_000));
    cue.set_content("b");
    assert_eq!(cue.get_index(), 7);
    assert_eq!(cue.get_begin_time(), time(2_500));
    assert_eq!(cue.get_end_time(), time(2_000));
    // Crossed times are kept as they are.
    assert_eq!(cue.get_duration(), -500);
    assert_eq!(cue.get_content(), "b");
}

#[test]
fn deltas_shift_one_end() {
    let mut cue = Subrip::new("a", time(10_000), 5_000);
    cue.add_begin_delta(500);
    assert_eq!((cue.begin_time, cue.end_time), (time(10_500), time(15_000)));
    cue.add_end_delta(-1_500);
    assert_eq!((cue.begin_time, cue.end_time), (time(10_500), time(13_500)));
    cue.add_begin_delta(-10_501);
    assert_eq!(cue.begin_time, time(86_399_999));
}

#[test]
fn flags() {
    let mut cue = Subrip::default();
    assert!(!cue.is_loaded());
    assert!(!cue.is_deleted());
    cue.set_loading(true);
    assert!(cue.is_loaded());
    cue.toggle_loading();
    assert!(!cue.is_loaded());
    cue.toggle_loading();
    assert!(cue.is_loaded());
    cue.delete();
    assert!(cue.is_deleted());
    assert!(cue.is_loaded());
}

#[test]
fn cues_compare_by_all_their_fields() {
    let cue = Subrip::new("a", time(1_000), 1_000);
    let same = cue.clone();
    assert!(cue == same);
    let mut other = cue.clone();
    other.set_content("b");
    assert!(cue != other);
    let mut other = cue.clone();
    other.set_index(1);
    assert!(cue != other);
    let mut other = cue.clone();
    other.add_end_delta(1);
    assert!(cue != other);
    let mut other = cue.clone();
    other.delete();
    assert!(cue != other);
    assert!(SubripFormat::default() == SubripFormat::SRT);
    assert_eq!(SubripState::default(), SubripState { is_loaded: false, is_deleted: false });
}

#[test]
fn times_beyond_the_day_are_told_apart() {
    assert!(time(86_399_999).is_wf());
    assert!(!TimeOfDay { millis: 86_400_000 }.is_wf());
    let mut cue = Subrip::new("a", time(1_000), 1_000);
    assert!(cue.is_wf());
    cue.end_time = TimeOfDay { millis: u32::MAX };
    assert!(!cue.is_wf());
    cue.end_time = time(0);
    cue.begin_time = TimeOfDay { millis: 86_400_000 };
    assert!(!cue.is_wf());
}
