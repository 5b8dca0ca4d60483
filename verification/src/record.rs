//! The records that the service streams back, as the client reads them.

use vstd::prelude::*;

verus! {

/// A position in the remote transaction log.
pub type ResumePosition = u64;

/// The request that a user transaction was submitted with.
#[derive(Clone, Debug, PartialEq, Eq)]
pub struct UserTransactionRequest {
    /// The account that sent the transaction.
    pub sender: String,
}

/// A transaction submitted by a user. The service is expected to send its
/// request along; a record without one breaks the decoding contract.
#[derive(Clone, Debug, PartialEq, Eq)]
pub struct UserTransaction {
    /// The request, where the service sent it.
    pub request: Option<UserTransactionRequest>,
}

/// The kinds of transaction a record may carry. A record carries at most one.
#[derive(Clone, Debug, PartialEq, Eq)]
pub enum Payload {
    /// A transaction submitted by a user.
    UserTransaction(UserTransaction),
    /// The transaction that set the chain up.
    GenesisTransaction,
    /// The metadata that opens a block.
    BlockMetadata,
    /// A transaction submitted by the validators.
    ValidatorTransaction,
    /// The transaction that closes a block.
    BlockEpilogue,
    /// A checkpoint of the state.
    StateCheckpoint,
}

/// One entry of the log.
#[derive(Clone, Debug, PartialEq, Eq)]
pub struct TransactionRecord {
    /// The position of the record in the log.
    pub version: u64,
    /// The height of the block that holds the record.
    pub block_height: u64,
    /// The transaction, where the record carries one.
    pub payload: Option<Payload>,
}

/// The records of one response, in the order in which they were delivered.
#[derive(Clone, Debug, PartialEq, Eq)]
pub struct TransactionBatch {
    /// The records, first delivered first. There may be none.
    pub records: Vec<TransactionRecord>,
}

impl View for TransactionBatch {
    type V = Seq<TransactionRecord>;

    open spec fn view(&self) -> Seq<TransactionRecord> {
        self.records@
    }
}

/// Whether the versions of a batch never decrease from one record to the next,
/// as the service promises.
pub open spec fn is_ordered(records: Seq<TransactionRecord>) -> bool {
    forall|i: int, j: int|
        0 <= i <= j < records.len() ==> records[i].version <= records[j].version
}

/// Whether `version` is the greatest version among the records.
pub open spec fn is_greatest_version(records: Seq<TransactionRecord>, version: int) -> bool {
    &&& exists|i: int| 0 <= i < records.len() && #[trigger] records[i].version == version
    &&& forall|i: int| 0 <= i < records.len() ==> #[trigger] records[i].version <= version
}

} // verus!
