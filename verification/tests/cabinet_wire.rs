use exchange_backend::cabinet::Cord;
use exchange_backend::cabinet_wire::{boolean, cords, escape, number, parse_snapshot};

const LINE: &str = "{\"sequence\":42,\"cords\":[[0,13],[3,14]],\"active_action\":-1,\"crank_complete\":true,\"directory_id\":4101,\"speaker_enabled\":false,\"reset\":false}";

#[test]
fn numbers_are_read_after_their_key() {
    assert_eq!(number(LINE, "sequence"), Some(42));
    assert_eq!(number(LINE, "active_action"), Some(-1));
    assert_eq!(number(LINE, "directory_id"), Some(4101));
    assert_eq!(number(LINE, "missing"), None);
    assert_eq!(number("{\"sequence\":7", "sequence"), None);
    assert_eq!(number("{\"sequence\":1-2,", "sequence"), None);
    assert_eq!(number("{\"sequence\":2147483648,", "sequence"), None);
    assert_eq!(number("{\"sequence\":-2147483648,", "sequence"), Some(i32::MIN));
    assert_eq!(number("{\"sequence\":,", "sequence"), None);
}

#[test]
fn flags_are_true_only_when_written_true() {
    assert!(boolean(LINE, "crank_complete"));
    assert!(!boolean(LINE, "speaker_enabled"));
    assert!(!boolean(LINE, "absent"));
    assert!(boolean("\"reset\":trueish", "reset"));
    assert!(!boolean("\"reset\":tru", "reset"));
}

#[test]
fn cords_are_read_pair_by_pair() {
    assert_eq!(cords(LINE), vec![Cord(0, 13), Cord(3, 14)]);
    assert_eq!(cords("\"cords\":[[2,5]]"), vec![Cord(2, 5)]);
    assert_eq!(cords("\"cords\":[[1,x],[4,+6]]"), vec![Cord(4, 6)]);
    assert_eq!(cords("\"cords\":[]"), Vec::<Cord>::new());
    assert_eq!(cords("\"cords\":[[1,2]"), Vec::<Cord>::new());
    assert_eq!(cords("no cords here"), Vec::<Cord>::new());
}

#[test]
fn quotes_and_backslashes_are_escaped() {
    assert_eq!(escape("plain"), "plain");
    assert_eq!(escape("a\"b"), "a\\\"b");
    assert_eq!(escape("c:\\d"), "c:\\\\d");
    assert_eq!(escape("\\\""), "\\\\\\\"");
}

#[test]
fn snapshots_need_a_sequence_number() {
    let snapshot = parse_snapshot(LINE).unwrap();
    assert_eq!(snapshot.sequence, 42);
    assert_eq!(snapshot.cords, vec![Cord(0, 13), Cord(3, 14)]);
    assert_eq!(snapshot.active_action, -1);
    assert!(snapshot.crank_complete);
    assert_eq!(snapshot.directory_id, 4101);
    assert!(!snapshot.speaker_enabled);
    assert!(!snapshot.reset);
    assert!(parse_snapshot("{\"cords\":[]}").is_none());
}

#[test]
fn absent_fields_take_their_defaults() {
    let snapshot = parse_snapshot("{\"sequence\":3,\"reset\":true}").unwrap();
    assert_eq!(snapshot.sequence, 3);
    assert_eq!(snapshot.active_action, -1);
    assert_eq!(snapshot.directory_id, 0);
    assert!(snapshot.cords.is_empty());
    assert!(snapshot.reset);
    assert!(!snapshot.crank_complete);
}
