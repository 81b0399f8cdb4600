use lian::debounce::{Debouncer, QUIET_MS};

#[test]
fn quiet_interval() {
    assert_eq!(QUIET_MS, 250);
}

#[test]
fn new_debouncer_has_nothing_pending() {
    let mut d = Debouncer::new();
    assert!(!d.pending());
    assert_eq!(d.issued, 0);
    assert!(d.tick(1_000).is_none());
}

#[test]
fn lookup_fires_after_the_quiet_interval() {
    let mut d = Debouncer::new();
    d.note_input("fire".to_string(), 1_000);
    assert!(d.pending());
    assert_eq!(d.deadline, Some(1_250));
    assert!(d.tick(1_100).is_none());
    assert!(d.tick(1_249).is_none());
    let q = d.tick(1_250).unwrap();
    assert_eq!(q.keyword, "fire");
    assert_eq!(q.seq, 1);
    assert!(!d.pending());
    assert!(d.tick(2_000).is_none());
}

#[test]
fn each_keystroke_restarts_the_interval() {
    let mut d = Debouncer::new();
    d.note_input("f".to_string(), 0);
    d.note_input("fi".to_string(), 200);
    assert!(d.tick(300).is_none());
    d.note_input("fir".to_string(), 400);
    assert!(d.tick(600).is_none());
    let q = d.tick(650).unwrap();
    assert_eq!(q.keyword, "fir");
    assert_eq!(q.seq, 1);
}

#[test]
fn blank_input_unschedules_and_outdates() {
    let mut d = Debouncer::new();
    d.note_input("vim".to_string(), 0);
    let q = d.tick(250).unwrap();
    assert!(d.accepts(q.seq));
    d.note_input("vi".to_string(), 300);
    d.note_input("  ".to_string(), 350);
    assert!(!d.pending());
    assert!(d.tick(1_000).is_none());
    assert!(!d.accepts(q.seq));
}

#[test]
fn only_the_latest_sequence_number_is_accepted() {
    let mut d = Debouncer::new();
    let mut seqs = Vec::new();
    let mut now = 0;
    for word in ["a", "ab", "abc", "abcd"] {
        d.note_input(word.to_string(), now);
        now += 250;
        seqs.push(d.tick(now).unwrap().seq);
        now += 10;
    }
    assert_eq!(seqs, vec![1, 2, 3, 4]);
    assert!(d.accepts(4));
    for stale in [0, 1, 2, 3, 5] {
        assert!(!d.accepts(stale));
    }
}

#[test]
fn deadline_saturates_at_the_end_of_the_clock() {
    let mut d = Debouncer::new();
    d.note_input("x".to_string(), u64::MAX - 5);
    assert_eq!(d.deadline, Some(u64::MAX));
}
