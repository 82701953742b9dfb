use attestation_agent::eventlog::{has_char, init_entry_text, EventEntry, EventLog, EventRecord};
use attestation_agent::hash::HashAlgorithm;
use sha2::{Digest, Sha256, Sha384};

#[test]
fn canonical_text_joins_fields_with_spaces() {
    let e = EventEntry::new("workload", "start", "v1 with spaces");
    assert_eq!(e.to_string(), "workload start v1 with spaces");
    assert!(e.is_legal());
}

#[test]
fn entry_digest_is_digest_of_text() {
    let e = EventEntry::new("workload", "start", "v1");
    let expected = Sha256::digest(b"workload start v1").to_vec();
    assert_eq!(e.digest_with(HashAlgorithm::Sha256), expected);
    let expected384 = Sha384::digest(b"workload start v1").to_vec();
    assert_eq!(e.digest_with(HashAlgorithm::Sha384), expected384);
}

#[test]
fn distinct_legal_entries_have_distinct_texts_and_digests() {
    let a = EventEntry::new("a", "bc", "d");
    let b = EventEntry::new("ab", "c", "d");
    let c = EventEntry::new("a", "b", "cd");
    assert!(a.is_legal() && b.is_legal() && c.is_legal());
    assert_ne!(a.to_string(), b.to_string());
    assert_ne!(a.to_string(), c.to_string());
    assert_ne!(b.to_string(), c.to_string());
    assert_ne!(a.digest_with(HashAlgorithm::Sha256), b.digest_with(HashAlgorithm::Sha256));
}

#[test]
fn separator_in_inner_field_is_illegal() {
    assert!(!EventEntry::new("a b", "c", "d").is_legal());
    assert!(!EventEntry::new("a", "b c", "d").is_legal());
    assert!(!EventEntry::new("a", "b", "c\nd").is_legal());
    assert!(has_char("x y", ' '));
    assert!(!has_char("xy", ' '));
}

#[test]
fn init_text_for_sha256() {
    let t = init_entry_text(HashAlgorithm::Sha256);
    assert_eq!(t, format!("INIT sha256/{}", "0".repeat(64)));
}

#[test]
fn init_text_for_sha512() {
    let t = init_entry_text(HashAlgorithm::Sha512);
    assert_eq!(t, format!("INIT sha512/{}", "0".repeat(128)));
}

#[test]
fn log_keeps_order_and_replays_per_register() {
    let mut log = EventLog::new();
    assert_eq!(log.len(), 0);
    log.write_log(EventRecord {
        algorithm: HashAlgorithm::Sha256,
        register_index: 17,
        text: "a b c".to_string(),
    });
    log.write_log(EventRecord {
        algorithm: HashAlgorithm::Sha256,
        register_index: 3,
        text: "x y z".to_string(),
    });
    log.write_log(EventRecord {
        algorithm: HashAlgorithm::Sha256,
        register_index: 17,
        text: "d e f".to_string(),
    });
    assert_eq!(log.len(), 3);
    assert_eq!(log.lines(), vec!["a b c", "x y z", "d e f"]);

    let d1 = Sha256::digest(b"a b c").to_vec();
    let d3 = Sha256::digest(b"d e f").to_vec();
    let mut v = vec![0u8; 32];
    v.extend_from_slice(&d1);
    let v = Sha256::digest(&v).to_vec();
    let mut w = v.clone();
    w.extend_from_slice(&d3);
    let expected = Sha256::digest(&w).to_vec();
    assert_eq!(log.replay(HashAlgorithm::Sha256, 17), expected);

    let d2 = Sha256::digest(b"x y z").to_vec();
    let mut u = vec![0u8; 32];
    u.extend_from_slice(&d2);
    assert_eq!(log.replay(HashAlgorithm::Sha256, 3), Sha256::digest(&u).to_vec());
    assert_eq!(log.replay(HashAlgorithm::Sha256, 5), vec![0u8; 32]);
}
