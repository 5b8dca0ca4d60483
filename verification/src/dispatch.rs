//! The handler that each record goes to, by the kind of its payload.

use crate::record::{Payload, TransactionBatch, TransactionRecord};
use vstd::prelude::*;

verus! {

/// The handlers a record can go to: one for each kind of payload, and one for
/// a record that carries none.
#[derive(Clone, Debug, PartialEq, Eq)]
pub enum Handler {
    /// For a user transaction; it is told who sent it.
    UserTransaction { sender: String },
    /// For the genesis transaction.
    GenesisTransaction,
    /// For the metadata of a block.
    BlockMetadata,
    /// For a validator transaction.
    ValidatorTransaction,
    /// For the epilogue of a block.
    BlockEpilogue,
    /// For a state checkpoint.
    StateCheckpoint,
    /// For a record without a payload. Such a record is no error.
    NoData,
}

/// What the sink is told of one record.
#[derive(Clone, Debug, PartialEq, Eq)]
pub struct Observation {
    /// The version of the record.
    pub version: u64,
    /// The block height of the record.
    pub block_height: u64,
    /// The handler the record went to.
    pub handler: Handler,
}

/// A user transaction arrived without its request: the service broke the
/// decoding contract at the record of this version.
#[derive(Clone, Copy, Debug, PartialEq, Eq)]
pub struct DecodeViolation {
    /// The version of the record that broke the contract.
    pub version: u64,
}

/// What dispatching a batch yields: the observations of its records, in
/// order, up to the first record that breaks the decoding contract.
#[derive(Clone, Debug, PartialEq, Eq)]
pub struct Dispatched {
    /// One observation for each record before the first violation.
    pub observations: Vec<Observation>,
    /// The first violation, where there is one.
    pub violation: Option<DecodeViolation>,
}

/// The handler for a payload. There is none for a user transaction that
/// came without its request.
pub open spec fn handler_for(payload: Option<Payload>) -> Option<Handler> {
    match payload {
        None => Some(Handler::NoData),
        Some(Payload::UserTransaction(user)) => match user.request {
            Some(request) => Some(Handler::UserTransaction { sender: request.sender }),
            None => None,
        },
        Some(Payload::GenesisTransaction) => Some(Handler::GenesisTransaction),
        Some(Payload::BlockMetadata) => Some(Handler::BlockMetadata),
        Some(Payload::ValidatorTransaction) => Some(Handler::ValidatorTransaction),
        Some(Payload::BlockEpilogue) => Some(Handler::BlockEpilogue),
        Some(Payload::StateCheckpoint) => Some(Handler::StateCheckpoint),
    }
}

/// What the sink is told of a record, or the violation the record stands for.
pub open spec fn observe(record: TransactionRecord) -> Result<Observation, DecodeViolation> {
    match handler_for(record.payload) {
        Some(handler) => Ok(
            Observation { version: record.version, block_height: record.block_height, handler },
        ),
        None => Err(DecodeViolation { version: record.version }),
    }
}

/// Whether `observation` is what the sink is told of `record`.
pub open spec fn is_observation_of(record: TransactionRecord, observation: Observation) -> bool {
    observe(record) == Ok::<Observation, DecodeViolation>(observation)
}

/// The observations of the records that come before the first violation, in
/// the order of the records; of all of them where there is no violation.
pub open spec fn observed(records: Seq<TransactionRecord>) -> Seq<Observation>
    decreases records.len(),
{
    if records.len() == 0 {
        Seq::empty()
    } else {
        let before = observed(records.drop_last());
        if before.len() < records.len() - 1 {
            before
        } else {
            match observe(records.last()) {
                Ok(observation) => before.push(observation),
                Err(_) => before,
            }
        }
    }
}

/// The first violation among the records, if there is one.
pub open spec fn first_violation(records: Seq<TransactionRecord>) -> Option<DecodeViolation> {
    let reached: int = observed(records).len() as int;
    if reached < records.len() {
        Some(DecodeViolation { version: records[reached].version })
    } else {
        None
    }
}

/// Picks the handler for one record.
pub fn dispatch(record: &TransactionRecord) -> (outcome: Result<Observation, DecodeViolation>)
    ensures
        outcome == observe(*record),
{
    let handler = match &record.payload {
        None => Handler::NoData,
        Some(Payload::UserTransaction(user)) => match &user.request {
            Some(request) => Handler::UserTransaction { sender: request.sender.clone() },
            None => {
                return Err(DecodeViolation { version: record.version });
            },
        },
        Some(Payload::GenesisTransaction) => Handler::GenesisTransaction,
        Some(Payload::BlockMetadata) => Handler::BlockMetadata,
        Some(Payload::ValidatorTransaction) => Handler::ValidatorTransaction,
        Some(Payload::BlockEpilogue) => Handler::BlockEpilogue,
        Some(Payload::StateCheckpoint) => Handler::StateCheckpoint,
    };
    Ok(Observation { version: record.version, block_height: record.block_height, handler })
}

/// Every record goes to exactly the handler of its payload's kind, and a
/// record without a payload to the handler for no data. The one record that
/// goes to none is a user transaction without its request, which is a
/// violation. The observation keeps the record's version and block height.
pub proof fn lemma_dispatch_is_exhaustive(record: TransactionRecord)
    ensures
        observe(record) is Err <==> (record.payload matches Some(Payload::UserTransaction(user))
            && user.request is None),
        observe(record) matches Err(violation) ==> violation.version == record.version,
        observe(record) matches Ok(seen) ==> {
            &&& seen.version == record.version
            &&& seen.block_height == record.block_height
            &&& (seen.handler is NoData <==> record.payload is None)
            &&& (seen.handler is UserTransaction <==> (record.payload matches Some(payload)
                && payload is UserTransaction))
            &&& (record.payload matches Some(Payload::UserTransaction(user)) ==> (
            user.request matches Some(request) ==> seen.handler == (Handler::UserTransaction {
                sender: request.sender,
            })))
            &&& (seen.handler is GenesisTransaction
                <==> record.payload == Some(Payload::GenesisTransaction))
            &&& (seen.handler is BlockMetadata <==> record.payload == Some(Payload::BlockMetadata))
            &&& (seen.handler is ValidatorTransaction
                <==> record.payload == Some(Payload::ValidatorTransaction))
            &&& (seen.handler is BlockEpilogue <==> record.payload == Some(Payload::BlockEpilogue))
            &&& (seen.handler is StateCheckpoint
                <==> record.payload == Some(Payload::StateCheckpoint))
        },
{
}

/// No record is dropped: the observations stand for the records one for one,
/// in order, up to the first violation, and cover the whole batch where there
/// is none.
pub proof fn lemma_observed_covers_prefix(records: Seq<TransactionRecord>)
    ensures
        observed(records).len() <= records.len(),
        forall|i: int|
            0 <= i < observed(records).len() ==> is_observation_of(
                records[i],
                #[trigger] observed(records)[i],
            ),
        observed(records).len() < records.len() ==> observe(
            records[observed(records).len() as int],
        ) is Err,
        first_violation(records) is None <==> observed(records).len() == records.len(),
    decreases records.len(),
{
    if records.len() > 0 {
        let front = records.drop_last();
        lemma_observed_covers_prefix(front);
        assert forall|i: int| 0 <= i < observed(records).len() implies is_observation_of(
            records[i],
            #[trigger] observed(records)[i],
        ) by {
            if i < observed(front).len() {
                assert(front[i] == records[i]);
            }
        }
        if observed(records).len() < records.len() {
            let reached: int = observed(records).len() as int;
            if reached < front.len() {
                assert(front[reached] == records[reached]);
            }
        }
    }
}

/// A batch is observed in full exactly when none of its records is a
/// violation.
pub proof fn lemma_full_batch_has_no_violation(records: Seq<TransactionRecord>)
    ensures
        first_violation(records) is None <==> forall|i: int|
            0 <= i < records.len() ==> #[trigger] observe(records[i]) is Ok,
{
    lemma_observed_covers_prefix(records);
    let seen = observed(records);
    if first_violation(records) is None {
        assert forall|i: int| 0 <= i < records.len() implies #[trigger] observe(
            records[i],
        ) is Ok by {
            assert(is_observation_of(records[i], seen[i]));
        }
    }
}

/// Once a violation is reached, the records that follow add no observation.
pub proof fn lemma_observed_stops_at_violation(records: Seq<TransactionRecord>, reached: int)
    requires
        0 <= reached < records.len(),
        observed(records.take(reached)).len() == reached,
        observe(records[reached]) is Err,
    ensures
        observed(records) == observed(records.take(reached)),
    decreases records.len(),
{
    let front = records.drop_last();
    if reached == records.len() - 1 {
        assert(front == records.take(reached));
    } else {
        assert(front.take(reached) == records.take(reached));
        lemma_observed_stops_at_violation(front, reached);
    }
}

/// Dispatches the records of a batch in order, and stops at the first one that
/// breaks the decoding contract.
pub fn dispatch_batch(batch: &TransactionBatch) -> (dispatched: Dispatched)
    ensures
        dispatched.observations@ == observed(batch@),
        dispatched.violation == first_violation(batch@),
{
    let mut observations: Vec<Observation> = Vec::new();
    let mut index: usize = 0;
    while index < batch.records.len()
        invariant
            index <= batch.records.len(),
            observations@ == observed(batch@.take(index as int)),
            observations@.len() == index,
        decreases batch.records.len() - index,
    {
        proof {
            assert(batch@.take(index as int + 1).drop_last() == batch@.take(index as int));
            assert(batch@.take(index as int + 1).last() == batch@[index as int]);
        }
        match dispatch(&batch.records[index]) {
            Ok(observation) => {
                observations.push(observation);
            },
            Err(violation) => {
                proof {
                    lemma_observed_stops_at_violation(batch@, index as int);
                }
                return Dispatched { observations, violation: Some(violation) };
            },
        }
        index += 1;
    }
    proof {
        assert(batch@.take(index as int) == batch@);
    }
    Dispatched { observations, violation: None }
}

} // verus!
