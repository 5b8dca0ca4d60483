use indexer_stream::connection::{Compression, MAX_RESPONSE_SIZE};
use indexer_stream::dispatch::{DecodeViolation, Handler, Observation};
use indexer_stream::record::{
    Payload, TransactionBatch, TransactionRecord, UserTransaction, UserTransactionRequest,
};
use indexer_stream::request::InvalidMetadataError;
use indexer_stream::session::{
    Action, Event, LoopError, LoopState, Outcome, Session, StepError,
};

fn session_at(start: u64) -> Session {
    Session::new(start, Some(10), String::new(), String::new())
}

fn streaming_at(start: u64) -> Session {
    let mut session = session_at(start);
    session.step(Event::ConnectionOpened).unwrap();
    session.step(Event::RequestAccepted).unwrap();
    assert_eq!(session.state(), LoopState::Streaming);
    session
}

fn plain(version: u64) -> TransactionRecord {
    TransactionRecord { version, block_height: 1, payload: Some(Payload::BlockMetadata) }
}

fn received(versions: &[u64]) -> Event {
    Event::BatchReceived(TransactionBatch {
        records: versions.iter().map(|version| plain(*version)).collect(),
    })
}

fn requested_position(outcome: &Outcome) -> u64 {
    match &outcome.action {
        Action::SendRequest(request) => request.starting_version(),
        other => panic!("expected a request, got {:?}", other),
    }
}

fn assert_stopped_with(outcome: &Outcome, failure: LoopError) {
    assert!(matches!(outcome.action, Action::Stop));
    assert_eq!(outcome.failure, Some(failure));
}

fn all_events() -> Vec<Event> {
    vec![
        Event::ConnectionOpened,
        Event::ConnectionFailed,
        Event::RequestAccepted,
        Event::RequestFailed,
        received(&[1, 2]),
        received(&[]),
        Event::StreamEnded,
        Event::ReadFailed,
    ]
}

#[test]
fn new_session_is_disconnected_at_its_start() {
    let session = session_at(5);
    assert_eq!(session.state(), LoopState::Disconnected);
    assert_eq!(session.current_position(), 5);
}

#[test]
fn loop_begins_by_connecting() {
    let session = session_at(0);
    match session.begin("http://127.0.0.1:50051/".to_string()) {
        Action::Connect(settings) => {
            assert_eq!(settings.endpoint, "http://127.0.0.1:50051/");
            assert_eq!(settings.accepted, vec![Compression::Gzip, Compression::Zstd]);
            assert_eq!(settings.sent, Compression::Zstd);
            assert_eq!(settings.max_decoding_message_size, MAX_RESPONSE_SIZE);
            assert_eq!(settings.max_encoding_message_size, MAX_RESPONSE_SIZE);
        }
        other => panic!("expected to connect, got {:?}", other),
    }
    assert_eq!(session.state(), LoopState::Disconnected);
}

#[test]
fn session_that_has_connected_does_not_connect_again() {
    let mut connected = session_at(0);
    connected.step(Event::ConnectionOpened).unwrap();
    assert!(matches!(connected.begin("http://127.0.0.1:50051/".to_string()), Action::Stop));

    let streaming = streaming_at(0);
    assert!(matches!(streaming.begin("http://127.0.0.1:50051/".to_string()), Action::Stop));

    let mut ended = session_at(0);
    ended.step(Event::ConnectionFailed).unwrap();
    assert!(matches!(ended.begin("http://127.0.0.1:50051/".to_string()), Action::Stop));
}

#[test]
fn opened_connection_sends_the_first_request() {
    let mut session = Session::new(3, Some(10), "token".to_string(), "name".to_string());
    let outcome = session.step(Event::ConnectionOpened).unwrap();
    assert_eq!(session.state(), LoopState::Connected);
    assert_eq!(outcome.failure, None);
    assert!(outcome.observations.is_empty());
    match outcome.action {
        Action::SendRequest(request) => {
            assert_eq!(request.starting_version(), 3);
            assert_eq!(request.transactions_count(), Some(10));
            let metadata = request.metadata();
            assert_eq!(metadata.get("authorization").unwrap().as_bytes(), b"Bearer token");
            assert_eq!(metadata.get("x-aptos-request-name").unwrap().as_bytes(), b"name");
        }
        other => panic!("expected a request, got {:?}", other),
    }
}

#[test]
fn failed_connection_ends_the_loop() {
    let mut session = session_at(0);
    let outcome = session.step(Event::ConnectionFailed).unwrap();
    assert_stopped_with(&outcome, LoopError::Connection);
    assert_eq!(session.state(), LoopState::Terminated);
    assert_eq!(session.current_position(), 0);
}

#[test]
fn credential_that_cannot_be_encoded_ends_the_loop() {
    let mut session = Session::new(0, Some(10), "a\nb".to_string(), "name".to_string());
    let outcome = session.step(Event::ConnectionOpened).unwrap();
    assert_stopped_with(
        &outcome,
        LoopError::InvalidMetadata(InvalidMetadataError::Authorization),
    );
    assert_eq!(session.state(), LoopState::Terminated);
}

#[test]
fn request_name_that_cannot_be_encoded_ends_the_loop() {
    let mut session = Session::new(0, Some(10), "token".to_string(), "\u{7f}".to_string());
    let outcome = session.step(Event::ConnectionOpened).unwrap();
    assert_stopped_with(&outcome, LoopError::InvalidMetadata(InvalidMetadataError::RequestName));
    assert_eq!(session.state(), LoopState::Terminated);
}

#[test]
fn accepted_request_reads_the_stream() {
    let mut session = session_at(0);
    session.step(Event::ConnectionOpened).unwrap();
    let outcome = session.step(Event::RequestAccepted).unwrap();
    assert!(matches!(outcome.action, Action::ReadNext));
    assert_eq!(outcome.failure, None);
    assert_eq!(session.state(), LoopState::Streaming);
    assert_eq!(session.current_position(), 0);
}

#[test]
fn failed_request_ends_the_loop() {
    let mut session = session_at(0);
    session.step(Event::ConnectionOpened).unwrap();
    let outcome = session.step(Event::RequestFailed).unwrap();
    assert_stopped_with(&outcome, LoopError::Request);
    assert_eq!(session.state(), LoopState::Terminated);
}

#[test]
fn failed_read_ends_the_loop() {
    let mut session = streaming_at(0);
    let outcome = session.step(Event::ReadFailed).unwrap();
    assert_stopped_with(&outcome, LoopError::StreamRead);
    assert_eq!(session.state(), LoopState::Terminated);
}

#[test]
fn end_of_stream_ends_the_loop() {
    let mut session = streaming_at(40);
    let outcome = session.step(Event::StreamEnded).unwrap();
    assert_stopped_with(&outcome, LoopError::EndOfStream);
    assert_eq!(session.state(), LoopState::Terminated);
    assert_eq!(session.current_position(), 40);
}

#[test]
fn ten_records_from_zero_move_the_session_to_nineteen() {
    let mut session = streaming_at(0);
    let versions: Vec<u64> = (0..10).collect();
    let outcome = session.step(received(&versions)).unwrap();
    assert_eq!(session.current_position(), 19);
    assert_eq!(session.state(), LoopState::Connected);
    assert_eq!(requested_position(&outcome), 19);
    assert_eq!(outcome.failure, None);
    assert_eq!(outcome.observations.len(), 10);
    for (index, observation) in outcome.observations.iter().enumerate() {
        assert_eq!(observation.version, index as u64);
        assert_eq!(observation.handler, Handler::BlockMetadata);
    }
}

#[test]
fn empty_batch_at_twenty_moves_the_session_to_thirty() {
    let mut session = streaming_at(20);
    let outcome = session.step(received(&[])).unwrap();
    assert_eq!(session.current_position(), 30);
    assert_eq!(session.state(), LoopState::Connected);
    assert_eq!(requested_position(&outcome), 30);
    assert!(outcome.observations.is_empty());
    assert_eq!(outcome.failure, None);
}

#[test]
fn each_batch_is_followed_by_a_new_request() {
    let mut session = streaming_at(0);
    let first = session.step(received(&[0, 1, 2])).unwrap();
    assert_eq!(requested_position(&first), 12);
    let accepted = session.step(Event::RequestAccepted).unwrap();
    assert!(matches!(accepted.action, Action::ReadNext));
    let second = session.step(received(&[12, 13])).unwrap();
    assert_eq!(requested_position(&second), 23);
    assert_eq!(session.current_position(), 23);
}

#[test]
fn position_never_decreases_while_the_service_answers_the_request() {
    let mut session = streaming_at(0);
    let mut last = session.current_position();
    let batches: Vec<Vec<u64>> =
        vec![vec![0, 1, 2], vec![], vec![22, 23, 30], vec![], vec![], vec![60], vec![70, 71]];
    for versions in batches {
        session.step(received(&versions)).unwrap();
        assert!(session.current_position() >= last);
        last = session.current_position();
        session.step(Event::RequestAccepted).unwrap();
        assert_eq!(session.current_position(), last);
    }
    assert_eq!(last, 81);
}

#[test]
fn batch_far_behind_takes_the_position_back() {
    let mut session = streaming_at(100);
    session.step(received(&[5])).unwrap();
    assert_eq!(session.current_position(), 15);
}

#[test]
fn user_transaction_without_request_ends_the_loop() {
    let mut session = streaming_at(0);
    let batch = TransactionBatch {
        records: vec![
            plain(0),
            TransactionRecord {
                version: 1,
                block_height: 1,
                payload: Some(Payload::UserTransaction(UserTransaction { request: None })),
            },
            plain(2),
        ],
    };
    let outcome = session.step(Event::BatchReceived(batch)).unwrap();
    assert_stopped_with(&outcome, LoopError::Decode(DecodeViolation { version: 1 }));
    assert_eq!(
        outcome.observations,
        vec![Observation { version: 0, block_height: 1, handler: Handler::BlockMetadata }]
    );
    assert_eq!(session.state(), LoopState::Terminated);
    assert_eq!(session.current_position(), 0);
}

#[test]
fn user_transaction_with_request_is_reported_with_its_sender() {
    let mut session = streaming_at(0);
    let batch = TransactionBatch {
        records: vec![TransactionRecord {
            version: 4,
            block_height: 2,
            payload: Some(Payload::UserTransaction(UserTransaction {
                request: Some(UserTransactionRequest { sender: "0xabc".to_string() }),
            })),
        }],
    };
    let outcome = session.step(Event::BatchReceived(batch)).unwrap();
    assert_eq!(
        outcome.observations,
        vec![Observation {
            version: 4,
            block_height: 2,
            handler: Handler::UserTransaction { sender: "0xabc".to_string() },
        }]
    );
    assert_eq!(session.current_position(), 14);
}

#[test]
fn terminated_session_takes_no_event() {
    for event in all_events() {
        let mut session = session_at(9);
        session.step(Event::ConnectionFailed).unwrap();
        assert_eq!(session.step(event).err(), Some(StepError::Unexpected));
        assert_eq!(session.state(), LoopState::Terminated);
        assert_eq!(session.current_position(), 9);
    }
}

#[test]
fn disconnected_session_awaits_only_the_connection() {
    for event in all_events() {
        let awaited = matches!(event, Event::ConnectionOpened | Event::ConnectionFailed);
        let mut session = session_at(9);
        let stepped = session.step(event);
        assert_eq!(stepped.is_ok(), awaited);
        if !awaited {
            assert_eq!(stepped.err(), Some(StepError::Unexpected));
            assert_eq!(session.state(), LoopState::Disconnected);
            assert_eq!(session.current_position(), 9);
        }
    }
}

#[test]
fn connected_session_awaits_only_the_answer_to_its_request() {
    for event in all_events() {
        let awaited = matches!(event, Event::RequestAccepted | Event::RequestFailed);
        let mut session = session_at(9);
        session.step(Event::ConnectionOpened).unwrap();
        let stepped = session.step(event);
        assert_eq!(stepped.is_ok(), awaited);
        if !awaited {
            assert_eq!(stepped.err(), Some(StepError::Unexpected));
            assert_eq!(session.state(), LoopState::Connected);
            assert_eq!(session.current_position(), 9);
        }
    }
}

#[test]
fn streaming_session_awaits_only_what_a_read_can_give() {
    for event in all_events() {
        let awaited =
            matches!(event, Event::BatchReceived(_) | Event::StreamEnded | Event::ReadFailed);
        let mut session = streaming_at(9);
        let stepped = session.step(event);
        assert_eq!(stepped.is_ok(), awaited);
        if !awaited {
            assert_eq!(stepped.err(), Some(StepError::Unexpected));
            assert_eq!(session.state(), LoopState::Streaming);
            assert_eq!(session.current_position(), 9);
        }
    }
}

#[test]
fn batch_that_would_pass_the_largest_position_is_not_taken() {
    let mut session = streaming_at(0);
    let refused = session.step(received(&[u64::MAX - 3])).err();
    assert_eq!(refused, Some(StepError::PositionOverflow));
    assert_eq!(session.state(), LoopState::Streaming);
    assert_eq!(session.current_position(), 0);

    let mut at_the_end = streaming_at(u64::MAX - 2);
    let refused = at_the_end.step(received(&[])).err();
    assert_eq!(refused, Some(StepError::PositionOverflow));
    assert_eq!(at_the_end.state(), LoopState::Streaming);
    assert_eq!(at_the_end.current_position(), u64::MAX - 2);
}

#[test]
fn batch_that_ends_at_the_largest_position_is_taken() {
    let mut session = streaming_at(0);
    let outcome = session.step(received(&[u64::MAX - 10])).unwrap();
    assert_eq!(session.current_position(), u64::MAX);
    assert_eq!(requested_position(&outcome), u64::MAX);
}

#[test]
fn overflow_is_looked_at_before_the_records() {
    let mut session = streaming_at(0);
    let batch = TransactionBatch {
        records: vec![TransactionRecord {
            version: u64::MAX,
            block_height: 0,
            payload: Some(Payload::UserTransaction(UserTransaction { request: None })),
        }],
    };
    let refused = session.step(Event::BatchReceived(batch)).err();
    assert_eq!(refused, Some(StepError::PositionOverflow));
    assert_eq!(session.state(), LoopState::Streaming);
}
