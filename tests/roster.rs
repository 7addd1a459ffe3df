use class_assigner::roster::Roster;
use class_assigner::student::{Gender, Score, Student};
use class_assigner::text::{normalize_text, optional_text};
use rand::rngs::StdRng;
use rand::SeedableRng;

fn ids(r: &Roster) -> Vec<u32> {
    r.students().iter().map(|s| s.id).collect()
}

fn find(r: &Roster, id: u32) -> Student {
    r.students().iter().find(|s| s.id == id).cloned().expect("record present")
}

fn score_of(x: f32) -> Score {
    Score::from_bits(x.to_bits())
}

fn seeded(n: usize) -> Roster {
    let draws: Vec<(Gender, Score)> = (0..n)
        .map(|i| (if i % 2 == 0 { Gender::Male } else { Gender::Female }, score_of(50.0 + i as f32)))
        .collect();
    Roster::seed(&draws)
}

#[test]
fn seed_remove_add_scenario() {
    let mut r = seeded(3);
    assert_eq!(ids(&r), vec![0, 1, 2]);
    assert_eq!(r.next_id(), 3);
    r.remove(1);
    assert_eq!(ids(&r), vec![0, 2]);
    let counter = r.next_id();
    let id = r.add();
    assert_eq!(id, Some(counter));
    assert_eq!(ids(&r), vec![0, 2, counter]);
    let added = find(&r, counter);
    assert_eq!(f32::from_bits(added.score.to_bits()), 0.0);
    assert_eq!(added.gender, Gender::Male);
    assert!(added.name.is_none());
    assert!(added.note.is_none());
    assert!(!added.valid);
}

#[test]
fn seed_keeps_draws() {
    let r = seeded(4);
    assert_eq!(r.len(), 4);
    let s = find(&r, 3);
    assert_eq!(s.gender, Gender::Female);
    assert_eq!(f32::from_bits(s.score.to_bits()), 53.0);
    assert!(s.name.is_none());
}

#[test]
fn seed_empty() {
    let r = seeded(0);
    assert_eq!(r.len(), 0);
    assert_eq!(r.next_id(), 0);
}

#[test]
fn seed_random_ids_and_scores() {
    let mut rng = StdRng::seed_from_u64(7);
    let scores: Vec<Score> = (0..101).map(|i| score_of(i as f32)).collect();
    let r = Roster::seed_random(&mut rng, &scores);
    assert_eq!(ids(&r), (0..101).collect::<Vec<u32>>());
    assert_eq!(r.next_id(), 101);
    for s in r.students() {
        assert_eq!(f32::from_bits(s.score.to_bits()), s.id as f32);
        assert!(s.name.is_none() && s.note.is_none());
    }
}

#[test]
fn blank_name_becomes_absent() {
    let mut r = seeded(3);
    r.update_name(0, "Kim".to_string());
    assert_eq!(find(&r, 0).name.as_deref(), Some("Kim"));
    r.update_name(0, "  ".to_string());
    assert!(find(&r, 0).name.is_none());
}

#[test]
fn name_kept_untrimmed() {
    let mut r = seeded(2);
    r.update_name(1, "  Lee ".to_string());
    assert_eq!(find(&r, 1).name.as_deref(), Some("  Lee "));
    r.update_name(1, String::new());
    assert!(find(&r, 1).name.is_none());
}

#[test]
fn note_update_and_clear() {
    let mut r = seeded(2);
    r.update_note(0, "needs seat near front".to_string());
    assert_eq!(find(&r, 0).note.as_deref(), Some("needs seat near front"));
    r.update_note(0, "\t\n ".to_string());
    assert!(find(&r, 0).note.is_none());
}

#[test]
fn update_on_missing_id_changes_nothing() {
    let mut r = seeded(2);
    r.update_name(9, "Ghost".to_string());
    r.update_gender(9, "female");
    r.update_score(9, Some(score_of(12.0)));
    assert_eq!(ids(&r), vec![0, 1]);
    assert!(find(&r, 0).name.is_none() && find(&r, 1).name.is_none());
    assert_eq!(find(&r, 0).gender, Gender::Male);
    assert_eq!(f32::from_bits(find(&r, 0).score.to_bits()), 50.0);
}

#[test]
fn score_update_validity() {
    let mut r = seeded(1);
    let before = find(&r, 0).score;
    let applied = r.update_score(0, "not-a-number".parse::<f32>().ok().map(score_of));
    assert!(!applied);
    assert_eq!(find(&r, 0).score, before);
    let applied = r.update_score(0, "42.5".parse::<f32>().ok().map(score_of));
    assert!(applied);
    assert_eq!(f32::from_bits(find(&r, 0).score.to_bits()), 42.5);
}

#[test]
fn gender_mapping() {
    let mut r = seeded(2);
    r.update_gender(0, "female");
    assert_eq!(find(&r, 0).gender, Gender::Female);
    r.update_gender(0, "male");
    assert_eq!(find(&r, 0).gender, Gender::Male);
    r.update_gender(0, "female");
    r.update_gender(0, "FEMALE");
    assert_eq!(find(&r, 0).gender, Gender::Male);
    r.update_gender(1, "");
    assert_eq!(find(&r, 1).gender, Gender::Male);
}

#[test]
fn gender_tokens() {
    assert_eq!(Gender::from_str("female"), Gender::Female);
    assert_eq!(Gender::from_str("male"), Gender::Male);
    assert_eq!(Gender::from_str(" female"), Gender::Male);
    assert_eq!(Gender::Male.to_value(), "male");
    assert_eq!(Gender::Female.to_value(), "female");
    assert_eq!(Gender::from_str(Gender::Female.to_value()), Gender::Female);
}

#[test]
fn remove_absent_is_noop() {
    let mut r = seeded(3);
    r.remove(5);
    assert_eq!(ids(&r), vec![0, 1, 2]);
    assert_eq!(r.next_id(), 3);
    r.remove(1);
    r.remove(1);
    assert_eq!(ids(&r), vec![0, 2]);
}

#[test]
fn remove_from_empty() {
    let mut r = Roster::new();
    r.remove(0);
    assert_eq!(r.len(), 0);
}

#[test]
fn ids_stay_unique_and_grow() {
    let mut r = seeded(3);
    let mut handed_out: Vec<u32> = Vec::new();
    for step in 0..20u32 {
        if step % 3 == 2 {
            let first = r.students()[0].id;
            r.remove(first);
        } else {
            handed_out.push(r.add().expect("ids left"));
        }
        let mut seen = ids(&r);
        seen.sort();
        seen.dedup();
        assert_eq!(seen.len(), r.len());
    }
    for w in handed_out.windows(2) {
        assert!(w[0] < w[1]);
    }
    assert!(handed_out[0] > 2);
}

#[test]
fn removed_id_not_reused() {
    let mut r = seeded(2);
    let a = r.add().unwrap();
    r.remove(a);
    let b = r.add().unwrap();
    assert!(b > a);
}

#[test]
fn new_roster_starts_at_zero() {
    let mut r = Roster::new();
    assert_eq!(r.add(), Some(0));
    assert_eq!(r.add(), Some(1));
    assert_eq!(ids(&r), vec![0, 1]);
}

#[test]
fn find_index_positions() {
    let mut r = seeded(4);
    r.remove(1);
    assert_eq!(r.find_index(2), Some(1));
    assert_eq!(r.find_index(1), None);
}

#[test]
fn text_normalisation() {
    assert_eq!(normalize_text("   ".to_string()), None);
    assert_eq!(normalize_text(String::new()), None);
    assert_eq!(normalize_text(" a ".to_string()), Some(" a ".to_string()));
    assert_eq!(optional_text("  x".to_string(), "x"), Some("  x".to_string()));
    assert_eq!(optional_text("  ".to_string(), ""), None);
}

#[test]
fn student_constructors() {
    let s = Student::new(7, Some("Park".to_string()), Gender::Female, score_of(88.5));
    assert_eq!(s.id, 7);
    assert_eq!(s.name.as_deref(), Some("Park"));
    assert!(s.note.is_none());
    assert_eq!(f32::from_bits(s.score.to_bits()), 88.5);
    let d = Student::new_dummy(9);
    assert_eq!(d.id, 9);
    assert_eq!(d.gender, Gender::Male);
    assert_eq!(d.score, Score::zero());
    assert!(d.name.is_none() && !d.valid);
}
