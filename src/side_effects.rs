use vstd::prelude::*;

use pink_extension::PinkEvent;

verus! {

#[verifier::external_type_specification]
#[verifier::external_body]
pub struct ExPinkEvent(pink_extension::PinkEvent);

/// The domain event that pink_extension's SCALE decoder reads from the
/// start of `data`, if it reads one.
pub uninterp spec fn pink_event_of(data: Seq<u8>) -> Option<PinkEvent>;

/// Relies on `PinkEvent`'s SCALE `Decode`: what it reads depends on the bytes
/// alone.
#[verifier::external_body]
fn decode_pink_event(data: &[u8]) -> (r: Option<PinkEvent>)
    ensures
        r == pink_event_of(data@),
{
    let mut rest = data;
    <PinkEvent as parity_scale_codec::Decode>::decode(&mut rest).ok()
}

/// The topic reserved for domain events: the SCALE encoding of the text
/// `phala.pink.event` (a length byte, then the text), padded with zeros to
/// 32 bytes.
pub open spec fn pink_event_topic_bytes() -> Seq<u8> {
    seq![
        64u8, 112u8, 104u8, 97u8, 108u8, 97u8, 46u8, 112u8, 105u8, 110u8, 107u8, 46u8, 101u8,
        118u8, 101u8, 110u8, 116u8, 0u8, 0u8, 0u8, 0u8, 0u8, 0u8, 0u8, 0u8, 0u8, 0u8, 0u8, 0u8,
        0u8, 0u8, 0u8,
    ]
}

/// Relies on `PinkEvent::event_topic`: the topic under which contracts emit
/// domain events, which pink_extension builds from the text
/// `phala.pink.event`.
#[verifier::external_body]
fn pink_event_topic() -> (r: Topic)
    ensures
        r@ == pink_event_topic_bytes(),
{
    PinkEvent::event_topic()
}

/// An account on the ledger.
pub type AccountId = [u8; 32];

/// A topic under which an event is indexed.
pub type Topic = [u8; 32];

/// What a ledger event says, as far as contract activity goes.
pub enum LedgerEvent {
    /// `deployer` created the contract instance `contract`.
    Instantiated { deployer: AccountId, contract: AccountId },
    /// `contract` emitted `data`.
    ContractEmitted { contract: AccountId, data: Vec<u8> },
    /// Any other event.
    Other,
}

/// An entry of the ledger's event log: the event and its topics.
pub struct EventRecord {
    pub event: LedgerEvent,
    pub topics: Vec<Topic>,
}

/// What a run of contract execution left behind for the outside: the domain
/// events emitted, each with its emitter, and the contracts instantiated,
/// each with its deployer.
pub struct ExecSideEffects {
    pub pink_events: Vec<(AccountId, PinkEvent)>,
    pub instantiated: Vec<(AccountId, AccountId)>,
}

/// Emitted domain events and instantiations, as sequences.
pub type SideEffectsView = (Seq<(AccountId, PinkEvent)>, Seq<(AccountId, AccountId)>);

impl View for ExecSideEffects {
    type V = SideEffectsView;

    open spec fn view(&self) -> SideEffectsView {
        (self.pink_events@, self.instantiated@)
    }
}

/// Whether an entry carries exactly one topic and that topic is `topic`.
pub open spec fn has_sole_topic(rec: EventRecord, topic: Seq<u8>) -> bool {
    rec.topics@.len() == 1 && rec.topics@[0]@ == topic
}

/// What one log entry adds to the side effects gathered so far.
pub open spec fn add_record(acc: SideEffectsView, rec: EventRecord, topic: Seq<u8>) -> SideEffectsView {
    match rec.event {
        LedgerEvent::Instantiated { deployer, contract } => (acc.0, acc.1.push((deployer, contract))),
        LedgerEvent::ContractEmitted { contract, data } => if has_sole_topic(rec, topic)
            && pink_event_of(data@) is Some {
            (acc.0.push((contract, pink_event_of(data@)->Some_0)), acc.1)
        } else {
            acc
        },
        LedgerEvent::Other => acc,
    }
}

/// The side effects of a log, entry by entry in log order, where domain
/// events are those emitted under `topic` alone.
pub open spec fn side_effects_of(records: Seq<EventRecord>, topic: Seq<u8>) -> SideEffectsView
    decreases records.len(),
{
    if records.len() == 0 {
        (Seq::empty(), Seq::empty())
    } else {
        add_record(side_effects_of(records.drop_last(), topic), records.last(), topic)
    }
}

fn same_topic(a: &Topic, b: &Topic) -> (r: bool)
    ensures
        r == (a@ == b@),
{
    let mut i: usize = 0;
    while i < 32
        invariant
            0 <= i <= 32,
            a@.len() == 32,
            b@.len() == 32,
            forall|j: int| 0 <= j < i ==> a@[j] == b@[j],
        decreases 32 - i,
    {
        if a[i] != b[i] {
            return false;
        }
        i = i + 1;
    }
    assert(a@ =~= b@);
    true
}

/// Gathers the side effects of an execution from its event log, in log
/// order. An instantiation is always kept; an emitted payload is kept when
/// its entry carries `pink_event_topic` as its one topic and the payload
/// decodes as a domain event. Other entries are passed over, an undecodable
/// payload included.
pub fn side_effects_under_topic(records: &Vec<EventRecord>, pink_event_topic: &Topic) -> (r:
    ExecSideEffects)
    ensures
        r@ == side_effects_of(records@, pink_event_topic@),
{
    let mut result = ExecSideEffects { pink_events: Vec::new(), instantiated: Vec::new() };
    let mut i: usize = 0;
    assert(records@.take(0) =~= Seq::<EventRecord>::empty());
    while i < records.len()
        invariant
            0 <= i <= records.len(),
            result@ == side_effects_of(records@.take(i as int), pink_event_topic@),
        decreases records.len() - i,
    {
        let record = &records[i];
        assert(records@.take(i + 1).drop_last() =~= records@.take(i as int));
        match &record.event {
            LedgerEvent::Instantiated { deployer, contract } => {
                result.instantiated.push((*deployer, *contract));
            },
            LedgerEvent::ContractEmitted { contract, data } => {
                if record.topics.len() == 1 && same_topic(&record.topics[0], pink_event_topic) {
                    match decode_pink_event(data.as_slice()) {
                        Some(event) => {
                            result.pink_events.push((*contract, event));
                        },
                        None => {},
                    }
                }
            },
            LedgerEvent::Other => {},
        }
        i = i + 1;
    }
    assert(records@.take(records.len() as int) =~= records@);
    result
}

/// Gathers the side effects of an execution from its event log, with domain
/// events recognised by the topic that pink_extension reserves for them.
pub fn get_side_effects(records: &Vec<EventRecord>) -> (r: ExecSideEffects)
    ensures
        r@ == side_effects_of(records@, pink_event_topic_bytes()),
{
    let topic = pink_event_topic();
    side_effects_under_topic(records, &topic)
}

/// Concatenation of two views of side effects, part by part.
pub open spec fn concat_effects(a: SideEffectsView, b: SideEffectsView) -> SideEffectsView {
    (a.0 + b.0, a.1 + b.1)
}

/// Extraction keeps log order: the side effects of a log made of a first
/// part followed by a second are those of the first part followed by those
/// of the second, for the emitted events and for the instantiations alike.
pub proof fn lemma_extraction_keeps_order(
    first: Seq<EventRecord>,
    second: Seq<EventRecord>,
    topic: Seq<u8>,
)
    ensures
        side_effects_of(first + second, topic) == concat_effects(
            side_effects_of(first, topic),
            side_effects_of(second, topic),
        ),
    decreases second.len(),
{
    let a = side_effects_of(first, topic);
    if second.len() == 0 {
        assert(first + second =~= first);
        assert(a.0 + Seq::<(AccountId, PinkEvent)>::empty() =~= a.0);
        assert(a.1 + Seq::<(AccountId, AccountId)>::empty() =~= a.1);
    } else {
        lemma_extraction_keeps_order(first, second.drop_last(), topic);
        assert((first + second).drop_last() =~= first + second.drop_last());
        let b = side_effects_of(second.drop_last(), topic);
        match second.last().event {
            LedgerEvent::Instantiated { deployer, contract } => {
                assert((a.1 + b.1).push((deployer, contract)) =~= a.1 + b.1.push(
                    (deployer, contract),
                ));
            },
            LedgerEvent::ContractEmitted { contract, data } => {
                let e = (contract, pink_event_of(data@)->Some_0);
                assert((a.0 + b.0).push(e) =~= a.0 + b.0.push(e));
            },
            LedgerEvent::Other => {},
        }
    }
}

/// One log entry adds at most one side effect, drawn from that entry alone.
pub proof fn lemma_one_record_one_effect(rec: EventRecord, topic: Seq<u8>)
    ensures
        side_effects_of(seq![rec], topic).0.len() + side_effects_of(seq![rec], topic).1.len()
            <= 1,
{
    let none: SideEffectsView = (Seq::empty(), Seq::empty());
    assert(seq![rec].drop_last() =~= Seq::<EventRecord>::empty());
    assert(side_effects_of(seq![rec].drop_last(), topic) == none);
    assert(side_effects_of(seq![rec], topic) == add_record(none, rec, topic));
}

} // verus!
