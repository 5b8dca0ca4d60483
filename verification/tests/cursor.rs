use indexer_stream::cursor::{next_position, POSITION_STEP};
use indexer_stream::record::{Payload, TransactionBatch, TransactionRecord};

fn genesis_at(version: u64) -> TransactionRecord {
    TransactionRecord {
        version,
        block_height: version / 2,
        payload: Some(Payload::GenesisTransaction),
    }
}

fn batch_of(versions: &[u64]) -> TransactionBatch {
    TransactionBatch { records: versions.iter().map(|version| genesis_at(*version)).collect() }
}

#[test]
fn step_is_ten() {
    assert_eq!(POSITION_STEP, 10);
}

#[test]
fn ten_records_from_zero_resume_at_nineteen() {
    let versions: Vec<u64> = (0..10).collect();
    assert_eq!(next_position(0, &batch_of(&versions)), Some(19));
}

#[test]
fn empty_batch_at_twenty_resumes_at_thirty() {
    assert_eq!(next_position(20, &batch_of(&[])), Some(30));
}

#[test]
fn empty_batch_advances_by_exactly_the_step() {
    for position in [0u64, 1, 9, 10, 4096, u64::MAX - 10] {
        assert_eq!(next_position(position, &batch_of(&[])), Some(position + 10));
    }
}

#[test]
fn ordered_batch_resumes_past_its_greatest_version() {
    let versions = [100u64, 101, 105, 105, 230];
    let greatest = *versions.iter().max().unwrap();
    assert_eq!(next_position(7, &batch_of(&versions)), Some(greatest + 10));
}

#[test]
fn single_record_resumes_past_it() {
    assert_eq!(next_position(0, &batch_of(&[41])), Some(51));
}

#[test]
fn unordered_batch_resumes_past_its_last_version() {
    assert_eq!(next_position(0, &batch_of(&[5, 3])), Some(13));
}

#[test]
fn position_of_non_empty_batch_ignores_current_position() {
    assert_eq!(next_position(0, &batch_of(&[50])), Some(60));
    assert_eq!(next_position(1000, &batch_of(&[50])), Some(60));
}

#[test]
fn empty_batch_near_the_end_of_the_range_has_no_next_position() {
    assert_eq!(next_position(u64::MAX - 9, &batch_of(&[])), None);
    assert_eq!(next_position(u64::MAX, &batch_of(&[])), None);
    assert_eq!(next_position(u64::MAX - 10, &batch_of(&[])), Some(u64::MAX));
}

#[test]
fn last_version_near_the_end_of_the_range_has_no_next_position() {
    assert_eq!(next_position(0, &batch_of(&[1, u64::MAX - 9])), None);
    assert_eq!(next_position(0, &batch_of(&[1, u64::MAX - 10])), Some(u64::MAX));
}
