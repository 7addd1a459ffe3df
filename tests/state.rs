use class_assigner::roster::Roster;
use class_assigner::state::{AppState, ClassCount, DEFAULT_CLASSES};

#[test]
fn initial_state() {
    let s = AppState::new(Roster::new());
    assert_eq!(s.count, 0);
    assert_eq!(s.number_of_class.get(), DEFAULT_CLASSES);
    assert_eq!(s.number_of_class.get(), 10);
    assert!(s.opt_score && s.opt_gender);
}

#[test]
fn class_count_from_slider_text() {
    let mut s = AppState::new(Roster::new());
    assert!(s.update_class_count("12"));
    assert_eq!(s.number_of_class.get(), 12);
    assert!(s.update_class_count("+30"));
    assert_eq!(s.number_of_class.get(), 30);
    assert!(s.update_class_count("3"));
    assert_eq!(s.number_of_class.get(), 3);
    assert!(!s.update_class_count("2"));
    assert!(!s.update_class_count("31"));
    assert!(!s.update_class_count("300"));
    assert!(!s.update_class_count("abc"));
    assert!(!s.update_class_count(""));
    assert!(!s.update_class_count(" 12"));
    assert!(!s.update_class_count("-5"));
    assert_eq!(s.number_of_class.get(), 3);
}

#[test]
fn class_count_bounds() {
    assert!(ClassCount::new(2).is_none());
    assert_eq!(ClassCount::new(3).map(|c| c.get()), Some(3));
    assert_eq!(ClassCount::new(30).map(|c| c.get()), Some(30));
    assert!(ClassCount::new(31).is_none());
}

#[test]
fn checkbox_values() {
    let mut s = AppState::new(Roster::new());
    s.update_opt_score("false");
    assert!(!s.opt_score);
    assert!(s.opt_gender);
    s.update_opt_gender("on");
    assert!(!s.opt_gender);
    s.update_opt_score("true");
    assert!(s.opt_score);
}

#[test]
fn counter_increments_and_wraps() {
    let mut s = AppState::new(Roster::new());
    s.increment_count();
    s.increment_count();
    assert_eq!(s.count, 2);
    s.count = i32::MAX;
    s.increment_count();
    assert_eq!(s.count, i32::MIN);
}

#[test]
fn roster_edits_through_state() {
    let mut s = AppState::new(Roster::new());
    assert_eq!(s.roster.add(), Some(0));
    s.roster.update_name(0, "Choi".to_string());
    assert_eq!(s.roster.students()[0].name.as_deref(), Some("Choi"));
}
