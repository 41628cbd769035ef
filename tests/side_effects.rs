use parity_scale_codec::Encode;
use pink::side_effects::{get_side_effects, side_effects_under_topic, EventRecord, LedgerEvent};
use pink_extension::PinkEvent;

const TOPIC: [u8; 32] = [0xaa; 32];
const OTHER_TOPIC: [u8; 32] = [0xbb; 32];

fn acct(b: u8) -> [u8; 32] {
    [b; 32]
}

fn payload(msg: u8) -> Vec<u8> {
    PinkEvent::SidevmMessage(vec![msg]).encode()
}

fn emitted(contract: u8, data: Vec<u8>, topics: Vec<[u8; 32]>) -> EventRecord {
    EventRecord { event: LedgerEvent::ContractEmitted { contract: acct(contract), data }, topics }
}

fn instantiated(deployer: u8, contract: u8) -> EventRecord {
    EventRecord {
        event: LedgerEvent::Instantiated { deployer: acct(deployer), contract: acct(contract) },
        topics: vec![],
    }
}

fn events_of(effects: &[([u8; 32], PinkEvent)]) -> Vec<([u8; 32], Vec<u8>)> {
    effects.iter().map(|(a, e)| (*a, e.encode())).collect()
}

#[test]
fn single_topic_event_kept_two_topic_event_dropped() {
    let log = vec![
        instantiated(1, 2),
        emitted(3, payload(10), vec![TOPIC]),
        emitted(4, payload(11), vec![TOPIC, OTHER_TOPIC]),
    ];
    let r = side_effects_under_topic(&log, &TOPIC);
    assert_eq!(r.instantiated, vec![(acct(1), acct(2))]);
    assert_eq!(events_of(&r.pink_events), vec![(acct(3), payload(10))]);
}

#[test]
fn undecodable_or_mismatched_events_are_skipped() {
    let log = vec![
        emitted(1, vec![0xff], vec![TOPIC]),
        emitted(2, payload(2), vec![OTHER_TOPIC]),
        emitted(3, payload(3), vec![]),
        EventRecord { event: LedgerEvent::Other, topics: vec![TOPIC] },
        emitted(5, payload(5), vec![TOPIC]),
    ];
    let r = side_effects_under_topic(&log, &TOPIC);
    assert_eq!(events_of(&r.pink_events), vec![(acct(5), payload(5))]);
    assert!(r.instantiated.is_empty());
}

#[test]
fn extraction_keeps_log_order() {
    let log = vec![
        emitted(9, payload(1), vec![TOPIC]),
        instantiated(1, 2),
        emitted(8, payload(2), vec![TOPIC]),
        instantiated(3, 4),
        emitted(7, payload(3), vec![TOPIC]),
    ];
    let r = side_effects_under_topic(&log, &TOPIC);
    assert_eq!(
        events_of(&r.pink_events),
        vec![(acct(9), payload(1)), (acct(8), payload(2)), (acct(7), payload(3))]
    );
    assert_eq!(r.instantiated, vec![(acct(1), acct(2)), (acct(3), acct(4))]);
}

#[test]
fn empty_log_gives_nothing() {
    let r = side_effects_under_topic(&vec![], &TOPIC);
    assert!(r.pink_events.is_empty());
    assert!(r.instantiated.is_empty());
}

#[test]
fn reserved_topic_is_recognised() {
    let topic = PinkEvent::event_topic();
    let log = vec![
        emitted(1, payload(1), vec![topic]),
        emitted(2, payload(2), vec![OTHER_TOPIC]),
        instantiated(3, 4),
    ];
    let r = get_side_effects(&log);
    assert_eq!(events_of(&r.pink_events), vec![(acct(1), payload(1))]);
    assert_eq!(r.instantiated, vec![(acct(3), acct(4))]);
}

#[test]
fn reserved_topic_bytes() {
    let mut expected = [0u8; 32];
    expected[0] = 64;
    expected[1..17].copy_from_slice(b"phala.pink.event");
    assert_eq!(PinkEvent::event_topic(), expected);
}
