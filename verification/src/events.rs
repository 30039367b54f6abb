//! What the escrow publishes: the events each operation emits, the checks
//! on published amounts, and the lookup of events by topic and contract.

use vstd::prelude::*;
use crate::errors::EscrowError;
use crate::token::Holder;
use crate::types::{status_code, AccountId, Contract};

verus! {

/// The name an event is published under.
#[derive(Debug, Clone, Copy, PartialEq, Eq, Structural)]
pub enum TopicName {
    Created,
    Deposit,
    MilestoneApproved,
    MilestoneReleased,
    Refunded,
    Dispute,
    Resolved,
    Cancelled,
    Evidence,
    EvidenceHash,
    ReputationIssued,
    Pause,
    Unpaused,
    Emergency,
    EmergencyResolved,
    ProtocolFee,
    Governance,
    SettlementTokenBound,
    Withdraw,
    FeeLimits,
    ReputationConfig,
    Limits,
    Admin,
}

/// The step of an administrative or governance change an event reports.
#[derive(Debug, Clone, Copy, PartialEq, Eq, Structural)]
pub enum Step {
    Proposed,
    Accepted,
    Cancelled,
    Recovered,
    Requested,
    Approved,
    Rejected,
    Applied,
}

/// One topic of an event: a name, a number (a contract id, a milestone
/// index), or a step.
#[derive(Debug, Clone, Copy, PartialEq, Eq, Structural)]
pub enum Topic {
    Name(TopicName),
    Id(u32),
    Step(Step),
}

/// What an event carries.
#[derive(Debug, Clone, Copy, PartialEq, Eq, Structural)]
pub enum EventData {
    Empty,
    Amount(i128),
    Value(u64),
    Account(AccountId),
    Parties { client: AccountId, freelancer: AccountId },
    Approval { index: u32, approver: AccountId },
    Reputation { freelancer: AccountId, rating: u32 },
    Split { to_client: i128, to_freelancer: i128 },
}

/// A published event: who emitted it, its topics, and its data.
#[derive(Debug)]
pub struct Event {
    pub emitter: Holder,
    pub topics: Vec<Topic>,
    pub data: EventData,
}

/// The mathematical content of an event.
pub ghost struct EventView {
    pub emitter: Holder,
    pub topics: Seq<Topic>,
    pub data: EventData,
}

impl View for Event {
    type V = EventView;

    open spec fn view(&self) -> EventView {
        EventView { emitter: self.emitter, topics: self.topics@, data: self.data }
    }
}

/// An event of the platform as a whole: topics `[name]`.
pub open spec fn platform_event(name: TopicName, data: EventData) -> EventView {
    EventView { emitter: Holder::Escrow, topics: seq![Topic::Name(name)], data }
}

/// An event about one step of a change: topics `[name, step]`.
pub open spec fn step_event(name: TopicName, step: Step, data: EventData) -> EventView {
    EventView { emitter: Holder::Escrow, topics: seq![Topic::Name(name), Topic::Step(step)], data }
}

/// An event about contract `id`: topics `[name, id]`.
pub open spec fn contract_event(name: TopicName, id: u32, data: EventData) -> EventView {
    EventView { emitter: Holder::Escrow, topics: seq![Topic::Name(name), Topic::Id(id)], data }
}

/// An event about milestone `index` of contract `id`: topics
/// `[name, id, index]`.
pub open spec fn milestone_event(name: TopicName, id: u32, index: u32, data: EventData) -> EventView {
    EventView { emitter: Holder::Escrow, topics: seq![Topic::Name(name), Topic::Id(id), Topic::Id(index)], data }
}

/// Builds the event `platform_event(name, data)`.
pub fn new_platform_event(name: TopicName, data: EventData) -> (e: Event)
    ensures
        e@ == platform_event(name, data),
{
    let mut topics: Vec<Topic> = Vec::new();
    topics.push(Topic::Name(name));
    assert(topics@ =~= seq![Topic::Name(name)]);
    Event { emitter: Holder::Escrow, topics, data }
}

/// Builds the event `step_event(name, step, data)`.
pub fn new_step_event(name: TopicName, step: Step, data: EventData) -> (e: Event)
    ensures
        e@ == step_event(name, step, data),
{
    let mut topics: Vec<Topic> = Vec::new();
    topics.push(Topic::Name(name));
    topics.push(Topic::Step(step));
    assert(topics@ =~= seq![Topic::Name(name), Topic::Step(step)]);
    Event { emitter: Holder::Escrow, topics, data }
}

/// Builds the event `contract_event(name, id, data)`.
pub fn new_contract_event(name: TopicName, id: u32, data: EventData) -> (e: Event)
    ensures
        e@ == contract_event(name, id, data),
{
    let mut topics: Vec<Topic> = Vec::new();
    topics.push(Topic::Name(name));
    topics.push(Topic::Id(id));
    assert(topics@ =~= seq![Topic::Name(name), Topic::Id(id)]);
    Event { emitter: Holder::Escrow, topics, data }
}

/// Builds the event `milestone_event(name, id, index, data)`.
pub fn new_milestone_event(name: TopicName, id: u32, index: u32, data: EventData) -> (e: Event)
    ensures
        e@ == milestone_event(name, id, index, data),
{
    let mut topics: Vec<Topic> = Vec::new();
    topics.push(Topic::Name(name));
    topics.push(Topic::Id(id));
    topics.push(Topic::Id(index));
    assert(topics@ =~= seq![Topic::Name(name), Topic::Id(id), Topic::Id(index)]);
    Event { emitter: Holder::Escrow, topics, data }
}

/// Whether `e` was emitted by `emitter` under `topic` about contract
/// `contract_id`: its first topic is the name and its second the id.
pub open spec fn event_matches(e: EventView, emitter: Holder, topic: TopicName, contract_id: u32) -> bool {
    &&& e.emitter == emitter
    &&& e.topics.len() >= 2
    &&& e.topics[0] == Topic::Name(topic)
    &&& e.topics[1] == Topic::Id(contract_id)
}

/// The milestone index an event names in its third topic; 0 when it names
/// none.
pub open spec fn event_index(e: EventView) -> u32 {
    if e.topics.len() >= 3 {
        match e.topics[2] {
            Topic::Id(i) => i,
            _ => 0,
        }
    } else {
        0
    }
}

/// The events of `log` that match, in order, each as its milestone index
/// and its data.
pub open spec fn matching_events(log: Seq<EventView>, emitter: Holder, topic: TopicName, contract_id: u32) -> Seq<(u32, EventData)>
    decreases log.len(),
{
    if log.len() == 0 {
        Seq::empty()
    } else {
        let rest = matching_events(log.drop_last(), emitter, topic, contract_id);
        let e = log.last();
        if event_matches(e, emitter, topic, contract_id) { rest.push((event_index(e), e.data)) } else { rest }
    }
}

/// The views of the events in `log`.
pub open spec fn log_view(log: Seq<Event>) -> Seq<EventView> {
    log.map_values(|e: Event| e@)
}

/// The events of `log` emitted by `emitter` under `topic` about contract
/// `contract_id`, in order, each as its milestone index and its data.
pub fn events_with_topic_and_contract(log: &Vec<Event>, emitter: Holder, topic: TopicName, contract_id: u32) -> (out: Vec<(u32, EventData)>)
    ensures
        out@ == matching_events(log_view(log@), emitter, topic, contract_id),
{
    let mut out: Vec<(u32, EventData)> = Vec::new();
    let mut i: usize = 0;
    while i < log.len()
        invariant
            i <= log@.len(),
            out@ == matching_events(log_view(log@).take(i as int), emitter, topic, contract_id),
        decreases log@.len() - i,
    {
        let e = &log[i];
        proof {
            assert(log_view(log@).take(i + 1).drop_last() =~= log_view(log@).take(i as int));
            assert(log_view(log@).take(i + 1).last() == e@);
        }
        if e.emitter == emitter && e.topics.len() >= 2 {
            let matches = match (e.topics[0], e.topics[1]) {
                (Topic::Name(n), Topic::Id(c)) => n == topic && c == contract_id,
                _ => false,
            };
            if matches {
                let index: u32 = if e.topics.len() >= 3 {
                    match e.topics[2] {
                        Topic::Id(x) => x,
                        _ => 0,
                    }
                } else {
                    0
                };
                out.push((index, e.data));
            }
        }
        i = i + 1;
    }
    assert(log_view(log@).take(log@.len() as int) =~= log_view(log@));
    out
}

/// Whether a set of published amounts is acceptable: none may be negative.
pub open spec fn event_amounts_valid(funded: int, released: int, refunded: int, total_deposited: int) -> bool {
    funded >= 0 && released >= 0 && refunded >= 0 && total_deposited >= 0
}

/// Rejects negative amounts before they are published.
pub fn validate_event_amounts(funded: i128, released: i128, refunded: i128, total_deposited: i128) -> (r: Result<(), EscrowError>)
    ensures
        r is Ok <==> event_amounts_valid(funded as int, released as int, refunded as int, total_deposited as int),
        r is Err ==> r == Err::<(), EscrowError>(EscrowError::AmountMustBePositive),
{
    if funded < 0 || released < 0 || refunded < 0 || total_deposited < 0 {
        Err(EscrowError::AmountMustBePositive)
    } else {
        Ok(())
    }
}

/// The body of the per-contract indexed event: the status code and the four
/// money counters. Contract ids start at 1, so id 0 is rejected.
pub fn contract_indexed_payload(contract_id: u32, contract: &Contract) -> (r: Result<(u32, i128, i128, i128, i128), EscrowError>)
    ensures
        contract_id == 0 ==> r == Err::<(u32, i128, i128, i128, i128), EscrowError>(EscrowError::InvalidContractId),
        contract_id != 0 ==> r == Ok::<(u32, i128, i128, i128, i128), EscrowError>((
            status_code(contract.status),
            contract.funded_amount,
            contract.released_amount,
            contract.refunded_amount,
            contract.total_deposited,
        )),
{
    if contract_id == 0 {
        return Err(EscrowError::InvalidContractId);
    }
    Ok((
        contract.status.code(),
        contract.funded_amount,
        contract.released_amount,
        contract.refunded_amount,
        contract.total_deposited,
    ))
}

} // verus!
