//! How the resume position moves from one batch to the next.

use crate::record::{
    is_greatest_version, is_ordered, ResumePosition, TransactionBatch, TransactionRecord,
};
use vstd::prelude::*;

verus! {

/// How far the position moves past the last version seen, and past itself
/// when a batch is empty.
pub const POSITION_STEP: u64 = 10;

/// The position to resume from once a batch has been consumed: a fixed step
/// past the current position when the batch is empty, and the same step past
/// the version of the last record otherwise.
pub open spec fn advanced(position: ResumePosition, records: Seq<TransactionRecord>) -> int {
    if records.len() == 0 {
        position + POSITION_STEP
    } else {
        records.last().version + POSITION_STEP
    }
}

/// Computes the position to resume from after `batch`, or `None` when that
/// position is beyond the largest one that can be represented.
pub fn next_position(
    position: ResumePosition,
    batch: &TransactionBatch,
) -> (next: Option<ResumePosition>)
    ensures
        next is Some <==> advanced(position, batch@) <= u64::MAX,
        next matches Some(resumed) ==> resumed == advanced(position, batch@),
{
    let count: usize = batch.records.len();
    if count == 0 {
        position.checked_add(POSITION_STEP)
    } else {
        batch.records[count - 1].version.checked_add(POSITION_STEP)
    }
}

/// After an empty batch the position has grown by exactly the step.
pub proof fn lemma_empty_batch_advances_by_step(position: ResumePosition)
    ensures
        advanced(position, Seq::empty()) == position + 10,
        advanced(position, Seq::empty()) > position,
{
}

/// After a batch whose last record carries its greatest version, the position
/// is the step past the greatest version in the batch.
pub proof fn lemma_advances_past_greatest_version(
    position: ResumePosition,
    records: Seq<TransactionRecord>,
)
    requires
        records.len() > 0,
        forall|i: int|
            0 <= i < records.len() ==> #[trigger] records[i].version <= records.last().version,
    ensures
        is_greatest_version(records, advanced(position, records) - 10),
{
    assert(records[records.len() - 1].version == records.last().version);
}

/// After a batch in which some record carries a greater version than the
/// last one, the position is the step past the last version, which is not the
/// greatest.
pub proof fn lemma_position_follows_last_version(
    position: ResumePosition,
    records: Seq<TransactionRecord>,
    greater: int,
)
    requires
        0 <= greater < records.len(),
        records[greater].version > records.last().version,
    ensures
        advanced(position, records) == records.last().version + 10,
        !is_greatest_version(records, advanced(position, records) - 10),
{
}

/// An ordered batch ends with its greatest version, so the position after it
/// is the step past the greatest version in the batch.
pub proof fn lemma_ordered_batch_advances_past_greatest_version(
    position: ResumePosition,
    records: Seq<TransactionRecord>,
)
    requires
        records.len() > 0,
        is_ordered(records),
    ensures
        is_greatest_version(records, advanced(position, records) - 10),
{
    lemma_advances_past_greatest_version(position, records);
}

} // verus!
