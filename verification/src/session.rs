//! The ingestion loop as a state machine: what the loop does next, given
//! what the transport just reported.
//!
//! The session never touches the network. Its driver performs each action
//! and hands the result back as an event:
//!
//! - while disconnected, the driver opens the connection; once it is open
//!   the session builds the request for its position;
//! - while connected, the driver issues that request;
//! - while streaming, the driver reads one batch. The session dispatches its
//!   records, moves the position past them and builds the next request: each
//!   batch, empty or not, is followed by a request of its own;
//! - any failure ends the loop. Nothing is retried.

use crate::connection::{connection_settings, settings_for, ConnectionSettings};
use crate::cursor::{advanced, next_position, POSITION_STEP};
use crate::dispatch::{
    dispatch_batch, first_violation, lemma_observed_covers_prefix, observed, DecodeViolation,
    Observation,
};
use crate::record::{ResumePosition, TransactionBatch, TransactionRecord};
use crate::request::{
    grpc_request_builder, request_for, BatchRequest, BatchRequestView, InvalidMetadataError,
};
use vstd::prelude::*;

verus! {

/// Where the loop stands.
#[derive(Clone, Copy, Debug, PartialEq, Eq)]
pub enum LoopState {
    /// No connection yet; the driver is to open one.
    Disconnected,
    /// A connection is open and a request is on its way.
    Connected,
    /// The request was accepted; the driver is to read the next batch.
    Streaming,
    /// The loop has ended. Nothing further is sent or read.
    Terminated,
}

/// Why the loop ended.
#[derive(Clone, Copy, Debug, PartialEq, Eq)]
pub enum LoopError {
    /// The endpoint could not be reached, or the handshake failed.
    Connection,
    /// The service answered the streaming call with a failure status.
    Request,
    /// The next batch could not be received or decoded.
    StreamRead,
    /// The stream closed without a further batch.
    EndOfStream,
    /// A header value could not be encoded as request metadata.
    InvalidMetadata(InvalidMetadataError),
    /// A record broke the decoding contract.
    Decode(DecodeViolation),
}

/// Why a session did not take an event. The session is then as it was.
#[derive(Clone, Copy, Debug, PartialEq, Eq)]
pub enum StepError {
    /// The session does not await this event in its state.
    Unexpected,
    /// The batch would move the position beyond the largest one that can be
    /// represented.
    PositionOverflow,
}

/// What the transport reported for the action it was last given.
#[derive(Clone, Debug, PartialEq, Eq)]
pub enum Event {
    /// The connection is open.
    ConnectionOpened,
    /// The connection could not be opened.
    ConnectionFailed,
    /// The service accepted the request and handed out a response to read.
    RequestAccepted,
    /// The service answered the request with a failure status.
    RequestFailed,
    /// The response gave a batch, possibly an empty one.
    BatchReceived(TransactionBatch),
    /// The response closed without a further batch.
    StreamEnded,
    /// The next batch could not be received or decoded.
    ReadFailed,
}

/// What the driver is to do next.
#[derive(Debug)]
pub enum Action {
    /// Open a connection with these settings.
    Connect(ConnectionSettings),
    /// Issue this request on the open connection.
    SendRequest(BatchRequest),
    /// Read the next batch from the response.
    ReadNext,
    /// Leave the loop.
    Stop,
}

/// What an action says, with a request taken by its view.
pub enum ActionView {
    Connect(ConnectionSettings),
    SendRequest(BatchRequestView),
    ReadNext,
    Stop,
}

impl View for Action {
    type V = ActionView;

    open spec fn view(&self) -> ActionView {
        match *self {
            Action::Connect(settings) => ActionView::Connect(settings),
            Action::SendRequest(request) => ActionView::SendRequest(request@),
            Action::ReadNext => ActionView::ReadNext,
            Action::Stop => ActionView::Stop,
        }
    }
}

/// The result of one step: the next action, the failure that ended the loop
/// if one did, and what the sink is told of the records consumed.
#[derive(Debug)]
pub struct Outcome {
    /// What the driver is to do next.
    pub action: Action,
    /// Why the loop ended, where it did.
    pub failure: Option<LoopError>,
    /// What the sink is told, record by record.
    pub observations: Vec<Observation>,
}

/// What an outcome says.
pub struct OutcomeView {
    pub action: ActionView,
    pub failure: Option<LoopError>,
    pub observations: Seq<Observation>,
}

impl View for Outcome {
    type V = OutcomeView;

    open spec fn view(&self) -> OutcomeView {
        OutcomeView {
            action: self.action@,
            failure: self.failure,
            observations: self.observations@,
        }
    }
}

/// The state of one ingestion loop. The connection itself stays with the
/// driver.
#[derive(Debug)]
pub struct Session {
    state: LoopState,
    current_position: ResumePosition,
    transactions_count: Option<u64>,
    auth_token: String,
    request_name: String,
}

/// What a session holds.
pub struct SessionView {
    pub state: LoopState,
    pub current_position: ResumePosition,
    pub transactions_count: Option<u64>,
    pub auth_token: Seq<char>,
    pub request_name: Seq<char>,
}

impl View for Session {
    type V = SessionView;

    closed spec fn view(&self) -> SessionView {
        SessionView {
            state: self.state,
            current_position: self.current_position,
            transactions_count: self.transactions_count,
            auth_token: self.auth_token@,
            request_name: self.request_name@,
        }
    }
}

/// The loop ends with `failure`: nothing further is to be done.
pub open spec fn halted(
    session: SessionView,
    failure: LoopError,
    observations: Seq<Observation>,
) -> (SessionView, OutcomeView) {
    (
        SessionView { state: LoopState::Terminated, ..session },
        OutcomeView { action: ActionView::Stop, failure: Some(failure), observations },
    )
}

/// The request was accepted: the next batch is to be read.
pub open spec fn reading(session: SessionView) -> (SessionView, OutcomeView) {
    (
        SessionView { state: LoopState::Streaming, ..session },
        OutcomeView { action: ActionView::ReadNext, failure: None, observations: Seq::empty() },
    )
}

/// The loop asks for the batch at the session's position. Where the request
/// cannot be built, the loop ends.
pub open spec fn requesting(session: SessionView, observations: Seq<Observation>) -> (
    SessionView,
    OutcomeView,
) {
    match request_for(
        session.current_position,
        session.transactions_count,
        session.auth_token,
        session.request_name,
    ) {
        Ok(request) => (
            SessionView { state: LoopState::Connected, ..session },
            OutcomeView { action: ActionView::SendRequest(request), failure: None, observations },
        ),
        Err(refused) => halted(session, LoopError::InvalidMetadata(refused), observations),
    }
}

/// The loop has read a batch. The batch is not taken where the position
/// past it cannot be represented. A record that breaks the decoding contract
/// ends the loop and leaves the position alone. Otherwise the position
/// advances and the next batch is asked for.
pub open spec fn consumed(session: SessionView, records: Seq<TransactionRecord>) -> Result<
    (SessionView, OutcomeView),
    StepError,
> {
    if advanced(session.current_position, records) > u64::MAX {
        Err(StepError::PositionOverflow)
    } else {
        match first_violation(records) {
            Some(violation) => Ok(
                halted(session, LoopError::Decode(violation), observed(records)),
            ),
            None => Ok(
                requesting(
                    SessionView {
                        current_position: advanced(session.current_position, records) as u64,
                        ..session
                    },
                    observed(records),
                ),
            ),
        }
    }
}

/// The step that an event causes in a session, or why the session does not
/// take the event.
pub open spec fn transition(session: SessionView, event: Event) -> Result<
    (SessionView, OutcomeView),
    StepError,
> {
    match (session.state, event) {
        (LoopState::Disconnected, Event::ConnectionOpened) => Ok(
            requesting(session, Seq::empty()),
        ),
        (LoopState::Disconnected, Event::ConnectionFailed) => Ok(
            halted(session, LoopError::Connection, Seq::empty()),
        ),
        (LoopState::Connected, Event::RequestAccepted) => Ok(reading(session)),
        (LoopState::Connected, Event::RequestFailed) => Ok(
            halted(session, LoopError::Request, Seq::empty()),
        ),
        (LoopState::Streaming, Event::BatchReceived(batch)) => consumed(session, batch@),
        (LoopState::Streaming, Event::StreamEnded) => Ok(
            halted(session, LoopError::EndOfStream, Seq::empty()),
        ),
        (LoopState::Streaming, Event::ReadFailed) => Ok(
            halted(session, LoopError::StreamRead, Seq::empty()),
        ),
        _ => Err(StepError::Unexpected),
    }
}

/// What a step reports: the view of its outcome beside the session it left,
/// or why the event was not taken.
pub open spec fn stepped_view(session: SessionView, stepped: Result<Outcome, StepError>) -> Result<
    (SessionView, OutcomeView),
    StepError,
> {
    match stepped {
        Ok(outcome) => Ok((session, outcome@)),
        Err(refused) => Err(refused),
    }
}

impl Session {
    /// A session that has not connected yet and will stream from
    /// `starting_version`.
    pub fn new(
        starting_version: ResumePosition,
        transactions_count: Option<u64>,
        auth_token: String,
        request_name: String,
    ) -> (session: Session)
        ensures
            session@ == (SessionView {
                state: LoopState::Disconnected,
                current_position: starting_version,
                transactions_count,
                auth_token: auth_token@,
                request_name: request_name@,
            }),
    {
        Session {
            state: LoopState::Disconnected,
            current_position: starting_version,
            transactions_count,
            auth_token,
            request_name,
        }
    }

    /// Where the loop stands.
    pub fn state(&self) -> (state: LoopState)
        ensures
            state == self@.state,
    {
        self.state
    }

    /// The position the next request will stream from.
    pub fn current_position(&self) -> (position: ResumePosition)
        ensures
            position == self@.current_position,
    {
        self.current_position
    }

    /// The first action of a loop: to open the connection to `endpoint`. A
    /// session that has left the disconnected state has nothing to open.
    pub fn begin(&self, endpoint: String) -> (action: Action)
        ensures
            self@.state is Disconnected ==> (action matches Action::Connect(settings)
                && settings_for(endpoint, settings)),
            self@.state !is Disconnected ==> action is Stop,
    {
        match self.state {
            LoopState::Disconnected => Action::Connect(connection_settings(endpoint)),
            _ => Action::Stop,
        }
    }

    /// Ends the loop with `failure`.
    fn halt(&mut self, failure: LoopError, observations: Vec<Observation>) -> (outcome: Outcome)
        ensures
            (final(self)@, outcome@) == halted(old(self)@, failure, observations@),
    {
        self.state = LoopState::Terminated;
        Outcome { action: Action::Stop, failure: Some(failure), observations }
    }

    /// Asks for the batch at the current position.
    fn request(&mut self, observations: Vec<Observation>) -> (outcome: Outcome)
        ensures
            (final(self)@, outcome@) == requesting(old(self)@, observations@),
    {
        let built = grpc_request_builder(
            self.current_position,
            self.transactions_count,
            self.auth_token.clone(),
            self.request_name.clone(),
        );
        match built {
            Ok(request) => {
                self.state = LoopState::Connected;
                Outcome { action: Action::SendRequest(request), failure: None, observations }
            },
            Err(refused) => self.halt(LoopError::InvalidMetadata(refused), observations),
        }
    }

    /// Consumes a batch that was read.
    fn consume(&mut self, batch: &TransactionBatch) -> (stepped: Result<Outcome, StepError>)
        ensures
            stepped_view(final(self)@, stepped) == consumed(old(self)@, batch@),
            stepped is Err ==> final(self)@ == old(self)@,
    {
        let resumed = match next_position(self.current_position, batch) {
            Some(resumed) => resumed,
            None => {
                return Err(StepError::PositionOverflow);
            },
        };
        let dispatched = dispatch_batch(batch);
        match dispatched.violation {
            Some(violation) => Ok(self.halt(LoopError::Decode(violation), dispatched.observations)),
            None => {
                self.current_position = resumed;
                Ok(self.request(dispatched.observations))
            },
        }
    }

    /// Takes what the transport reported and says what to do next.
    ///
    /// An event that the session does not await in its state is refused, and
    /// so is a batch that would move the position beyond the largest one
    /// that can be represented. A session that refuses an event stays as it
    /// was.
    pub fn step(&mut self, event: Event) -> (stepped: Result<Outcome, StepError>)
        ensures
            stepped_view(final(self)@, stepped) == transition(old(self)@, event),
            stepped is Err ==> final(self)@ == old(self)@,
    {
        match (self.state, event) {
            (LoopState::Disconnected, Event::ConnectionOpened) => Ok(self.request(Vec::new())),
            (LoopState::Disconnected, Event::ConnectionFailed) => Ok(
                self.halt(LoopError::Connection, Vec::new()),
            ),
            (LoopState::Connected, Event::RequestAccepted) => {
                self.state = LoopState::Streaming;
                Ok(Outcome { action: Action::ReadNext, failure: None, observations: Vec::new() })
            },
            (LoopState::Connected, Event::RequestFailed) => Ok(
                self.halt(LoopError::Request, Vec::new()),
            ),
            (LoopState::Streaming, Event::BatchReceived(batch)) => self.consume(&batch),
            (LoopState::Streaming, Event::StreamEnded) => Ok(
                self.halt(LoopError::EndOfStream, Vec::new()),
            ),
            (LoopState::Streaming, Event::ReadFailed) => Ok(
                self.halt(LoopError::StreamRead, Vec::new()),
            ),
            _ => Err(StepError::Unexpected),
        }
    }
}

/// Where a session ends up after a sequence of events. An event that the
/// session does not take leaves it as it was.
pub open spec fn run(session: SessionView, events: Seq<Event>) -> SessionView
    decreases events.len(),
{
    if events.len() == 0 {
        session
    } else {
        let before = run(session, events.drop_last());
        match transition(before, events.last()) {
            Ok((after, _)) => after,
            Err(_) => before,
        }
    }
}

/// Whether an event is a batch that takes the session back: one that is
/// consumed whole and whose last version lies more than the step behind the
/// session's position.
pub open spec fn falls_behind(session: SessionView, event: Event) -> bool {
    &&& session.state is Streaming
    &&& event matches Event::BatchReceived(batch)
    &&& batch@.len() > 0
    &&& first_violation(batch@) is None
    &&& batch@.last().version + POSITION_STEP < session.current_position
}

/// A step does not take the position back, unless the batch falls behind.
/// Only a batch moves the position at all.
pub proof fn lemma_step_keeps_position_order(session: SessionView, event: Event)
    requires
        !falls_behind(session, event),
    ensures
        transition(session, event) matches Ok((next, _)) ==> {
            &&& next.current_position >= session.current_position
            &&& event !is BatchReceived ==> next.current_position == session.current_position
        },
{
}

/// A batch that falls behind does take the position back.
pub proof fn lemma_batch_behind_takes_position_back(session: SessionView, event: Event)
    requires
        falls_behind(session, event),
    ensures
        transition(session, event) matches Ok((next, _)) && next.current_position
            < session.current_position,
{
}

/// Over any sequence of events in which no batch falls behind, the position
/// never decreases: it is no smaller after more events than after fewer.
pub proof fn lemma_position_never_decreases(
    session: SessionView,
    events: Seq<Event>,
    earlier: int,
    later: int,
)
    requires
        0 <= earlier <= later <= events.len(),
        forall|k: int|
            0 <= k < events.len() ==> !falls_behind(
                run(session, events.take(k)),
                #[trigger] events[k],
            ),
    ensures
        run(session, events.take(earlier)).current_position <= run(
            session,
            events.take(later),
        ).current_position,
    decreases later - earlier,
{
    if earlier < later {
        lemma_position_never_decreases(session, events, earlier, later - 1);
        let before = run(session, events.take(later - 1));
        assert(events.take(later).drop_last() == events.take(later - 1));
        assert(events.take(later).last() == events[later - 1]);
        lemma_step_keeps_position_order(before, events[later - 1]);
    }
}

/// A batch whose records all lie at or after the position that was asked
/// for moves the position forward, and so does an empty batch.
pub proof fn lemma_answering_batch_moves_forward(session: SessionView, batch: TransactionBatch)
    requires
        session.state is Streaming,
        forall|i: int|
            0 <= i < batch@.len() ==> session.current_position <= #[trigger] batch@[i].version,
    ensures
        transition(session, Event::BatchReceived(batch)) matches Ok((next, outcome)) ==> (
        outcome.failure is None ==> next.current_position > session.current_position),
{
    if batch@.len() > 0 {
        assert(session.current_position <= batch@[batch@.len() - 1].version);
    }
}

/// A batch that is read while streaming is observed record by record. Where
/// no record breaks the decoding contract, all of them are observed and the
/// position becomes the one past the batch. Where one does, the records
/// before it are observed, the loop ends on that violation, and the position
/// stays.
pub proof fn lemma_batch_sets_position(session: SessionView, batch: TransactionBatch)
    requires
        session.state is Streaming,
    ensures
        transition(session, Event::BatchReceived(batch)) is Err <==> advanced(
            session.current_position,
            batch@,
        ) > u64::MAX,
        transition(session, Event::BatchReceived(batch)) matches Err(refused) ==> refused
            == StepError::PositionOverflow,
        transition(session, Event::BatchReceived(batch)) matches Ok((next, outcome)) ==> {
            &&& outcome.observations == observed(batch@)
            &&& first_violation(batch@) is None ==> {
                &&& next.current_position == advanced(session.current_position, batch@)
                &&& outcome.observations.len() == batch@.len()
                &&& outcome.failure matches Some(failure) ==> failure is InvalidMetadata
            }
            &&& first_violation(batch@) matches Some(violation) ==> {
                &&& next.current_position == session.current_position
                &&& outcome.observations.len() < batch@.len()
                &&& outcome.failure == Some(LoopError::Decode(violation))
            }
        },
{
    lemma_observed_covers_prefix(batch@);
}

/// Once the loop has ended, no event moves it: nothing further is sent or
/// read.
pub proof fn lemma_terminated_is_final(session: SessionView, event: Event)
    requires
        session.state is Terminated,
    ensures
        transition(session, event) == Err::<(SessionView, OutcomeView), StepError>(
            StepError::Unexpected,
        ),
{
}

/// After a step, the action tells the state and the state the action: a
/// request is sent exactly when the session is connected, a batch is read
/// exactly when it is streaming, and the loop stops exactly when it has ended,
/// which is exactly when a failure is reported. A request that is sent is the
/// one for the session's position and credentials. A step never asks to
/// connect, and it changes nothing of the session but its state and position.
pub proof fn lemma_action_follows_state(session: SessionView, event: Event)
    ensures
        transition(session, event) matches Ok((next, outcome)) ==> {
            &&& next.state is Connected <==> outcome.action is SendRequest
            &&& next.state is Streaming <==> outcome.action is ReadNext
            &&& next.state is Terminated <==> outcome.action is Stop
            &&& next.state is Terminated <==> outcome.failure is Some
            &&& next.state !is Disconnected
            &&& outcome.action !is Connect
            &&& outcome.action matches ActionView::SendRequest(request) ==> request_for(
                next.current_position,
                next.transactions_count,
                next.auth_token,
                next.request_name,
            ) == Ok::<BatchRequestView, InvalidMetadataError>(request)
            &&& next.transactions_count == session.transactions_count
            &&& next.auth_token == session.auth_token
            &&& next.request_name == session.request_name
        },
{
}

} // verus!
