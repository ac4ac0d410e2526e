use mailbox_client::abi::address_from_word;
use mailbox_client::decoder::{decode_dispatch, decode_dispatch_id};
use mailbox_client::indexer::{Indexer, QueryFilter};
use mailbox_client::types::{DecodeError, Dispatch, RawLog};

fn word_of_address(a: [u8; 20]) -> [u8; 32] {
    let mut w = [0u8; 32];
    w[12..].copy_from_slice(&a);
    w
}

fn word_of_u32(v: u32) -> [u8; 32] {
    let mut w = [0u8; 32];
    w[28..].copy_from_slice(&v.to_be_bytes());
    w
}

fn abi_bytes(payload: &[u8]) -> Vec<u8> {
    let mut out = word_of_u32(32).to_vec();
    out.extend_from_slice(&word_of_u32(payload.len() as u32));
    out.extend_from_slice(payload);
    while out.len() % 32 != 0 {
        out.push(0);
    }
    out
}

fn dispatch_log(sender: u8, destination: u32, receiver: u8, payload: &[u8]) -> RawLog {
    RawLog {
        topics: vec![[0xd1; 32], word_of_address([sender; 20]), word_of_u32(destination), word_of_address([receiver; 20])],
        data: abi_bytes(payload),
        removed: None,
    }
}

fn id_log(id: u8) -> RawLog {
    RawLog { topics: vec![[0xd2; 32], [id; 32]], data: vec![], removed: None }
}

fn removed(mut log: RawLog) -> RawLog {
    log.removed = Some(true);
    log
}

fn ids(ms: &[Dispatch]) -> Vec<u8> {
    ms.iter().map(|m| m.id[0]).collect()
}

#[test]
fn decodes_dispatch_fields() {
    let ev = decode_dispatch(&dispatch_log(0xaa, 9, 0xbb, b"hello")).unwrap();
    assert_eq!(ev.sender, [0xaa; 20]);
    assert_eq!(ev.destination, 9);
    assert_eq!(ev.receiver, [0xbb; 20]);
    assert_eq!(ev.message, b"hello".to_vec());
}

#[test]
fn decodes_large_domain_and_empty_message() {
    let ev = decode_dispatch(&dispatch_log(1, 0xfedc_ba98, 2, b"")).unwrap();
    assert_eq!(ev.destination, 0xfedc_ba98);
    assert!(ev.message.is_empty());
}

#[test]
fn sender_topic_keeps_low_twenty_bytes() {
    let mut log = dispatch_log(1, 5, 2, b"x");
    log.topics[1] = [0x77; 32];
    let ev = decode_dispatch(&log).unwrap();
    assert_eq!(ev.sender, [0x77; 20]);
}

#[test]
fn missing_topic_is_a_decode_error() {
    let mut log = dispatch_log(1, 5, 2, b"x");
    log.topics.truncate(3);
    assert_eq!(decode_dispatch(&log).err(), Some(DecodeError::MissingTopic));
    let id = RawLog { topics: vec![[0xd2; 32]], data: vec![], removed: None };
    assert_eq!(decode_dispatch_id(&id).err(), Some(DecodeError::MissingTopic));
}

#[test]
fn malformed_payload_is_a_decode_error() {
    let mut log = dispatch_log(1, 5, 2, b"x");
    log.data = vec![0u8; 10];
    assert_eq!(decode_dispatch(&log).err(), Some(DecodeError::Malformed));
    log.data = vec![];
    assert_eq!(decode_dispatch(&log).err(), Some(DecodeError::Malformed));
    let mut long = abi_bytes(b"abc");
    long[63] = 200;
    log.data = long;
    assert_eq!(decode_dispatch(&log).err(), Some(DecodeError::Malformed));
}

#[test]
fn dispatch_id_is_topic_one_verbatim() {
    assert_eq!(decode_dispatch_id(&id_log(0x42)).unwrap(), [0x42; 32]);
}

#[test]
fn address_from_word_takes_low_bytes() {
    let mut w = [0x11u8; 32];
    w[12..].copy_from_slice(&[0x22; 20]);
    assert_eq!(address_from_word(&w), [0x22; 20]);
}

#[test]
fn correlate_builds_records_from_pairs() {
    let a = vec![dispatch_log(1, 5, 2, b"m0"), dispatch_log(3, 9, 4, b"m1")];
    let b = vec![id_log(10), id_log(11)];
    let out = Indexer::correlate(77, &a, &b).unwrap();
    assert_eq!(out.len(), 2);
    assert_eq!(out[0].id, [10; 32]);
    assert_eq!(out[0].origin, 77);
    assert_eq!(out[0].sender, [1; 20]);
    assert_eq!(out[0].destination, 5);
    assert_eq!(out[0].receiver, [2; 20]);
    assert_eq!(out[0].message, b"m0".to_vec());
    assert_eq!(out[1].id, [11; 32]);
    assert_eq!(out[1].sender, [3; 20]);
    assert_eq!(out[1].message, b"m1".to_vec());
}

#[test]
fn correlate_drops_retracted_pairs_in_order() {
    let a = vec![
        dispatch_log(1, 5, 2, b"m0"),
        removed(dispatch_log(1, 5, 2, b"m1")),
        dispatch_log(1, 5, 2, b"m2"),
        dispatch_log(1, 5, 2, b"m3"),
        dispatch_log(1, 5, 2, b"m4"),
    ];
    let mut b = vec![id_log(0), id_log(1), id_log(2), removed(id_log(3)), id_log(4)];
    b[4].removed = Some(false);
    let out = Indexer::correlate(1, &a, &b).unwrap();
    assert_eq!(ids(&out), vec![0, 2, 4]);
}

#[test]
fn correlate_pairs_by_position_only() {
    let a = vec![dispatch_log(1, 5, 2, b"first"), dispatch_log(3, 9, 4, b"second"), dispatch_log(5, 7, 6, b"third")];
    let b = vec![id_log(30), id_log(20), id_log(10)];
    let out = Indexer::correlate(1, &a, &b).unwrap();
    assert_eq!(ids(&out), vec![30, 20, 10]);
    assert_eq!(out[0].message, b"first".to_vec());
    assert_eq!(out[2].message, b"third".to_vec());
}

#[test]
fn correlate_stops_at_shorter_stream() {
    let a = vec![dispatch_log(1, 5, 2, b"m0"), dispatch_log(1, 5, 2, b"m1")];
    let b = vec![id_log(0)];
    assert_eq!(ids(&Indexer::correlate(1, &a, &b).unwrap()), vec![0]);
    assert!(Indexer::correlate(1, &vec![], &b).unwrap().is_empty());
}

#[test]
fn correlate_aborts_on_decode_failure() {
    let mut bad = dispatch_log(1, 5, 2, b"m1");
    bad.topics.truncate(2);
    let a = vec![dispatch_log(1, 5, 2, b"m0"), bad];
    let b = vec![id_log(0), id_log(1)];
    assert_eq!(Indexer::correlate(1, &a, &b).err(), Some(DecodeError::MissingTopic));
}

#[test]
fn correlate_ignores_undecodable_retracted_pair() {
    let mut bad = removed(dispatch_log(1, 5, 2, b"m1"));
    bad.data = vec![1, 2, 3];
    let a = vec![dispatch_log(1, 5, 2, b"m0"), bad];
    let b = vec![id_log(0), id_log(1)];
    assert_eq!(ids(&Indexer::correlate(1, &a, &b).unwrap()), vec![0]);
}

fn sample() -> Vec<Dispatch> {
    let a = vec![
        dispatch_log(1, 5, 2, b"a"),
        dispatch_log(1, 9, 3, b"b"),
        dispatch_log(4, 9, 2, b"c"),
        dispatch_log(4, 5, 3, b"d"),
    ];
    let b = vec![id_log(0), id_log(1), id_log(2), id_log(3)];
    Indexer::correlate(1, &a, &b).unwrap()
}

fn filter(sender: Option<u8>, receiver: Option<u8>, destination: Option<u32>) -> QueryFilter {
    QueryFilter { sender: sender.map(|s| [s; 20]), receiver: receiver.map(|r| [r; 20]), destination }
}

#[test]
fn select_without_constraint_keeps_everything() {
    let ms = sample();
    assert_eq!(ids(&Indexer::select(&ms, &filter(None, None, None))), vec![0, 1, 2, 3]);
    assert!(Indexer::select(&vec![], &filter(None, None, None)).is_empty());
}

#[test]
fn select_every_combination() {
    let ms = sample();
    let cases: Vec<(Option<u8>, Option<u8>, Option<u32>, Vec<u8>)> = vec![
        (Some(1), None, None, vec![0, 1]),
        (None, Some(3), None, vec![1, 3]),
        (None, None, Some(9), vec![1, 2]),
        (Some(4), Some(2), None, vec![2]),
        (Some(4), None, Some(5), vec![3]),
        (None, Some(2), Some(5), vec![0]),
        (Some(1), Some(3), Some(9), vec![1]),
        (Some(1), Some(3), Some(5), vec![]),
    ];
    for (s, r, d, expected) in cases {
        assert_eq!(ids(&Indexer::select(&ms, &filter(s, r, d))), expected);
    }
}

#[test]
fn select_by_sender_and_destination_scenario() {
    let a = vec![dispatch_log(0x5a, 5, 2, b"to five"), dispatch_log(0x5a, 9, 2, b"to nine")];
    let b = vec![id_log(1), id_log(2)];
    let out = Indexer::events_in_range(1, &a, &b, &filter(Some(0x5a), None, Some(9))).unwrap();
    assert_eq!(out.len(), 1);
    assert_eq!(out[0].destination, 9);
    assert_eq!(out[0].message, b"to nine".to_vec());
    assert_eq!(out[0].id, [2; 32]);
}

#[test]
fn events_in_range_reports_decode_error() {
    let mut bad = dispatch_log(1, 5, 2, b"m");
    bad.data = vec![0xff; 64];
    let out = Indexer::events_in_range(1, &vec![bad], &vec![id_log(0)], &filter(None, None, None));
    assert_eq!(out.err(), Some(DecodeError::Malformed));
}
