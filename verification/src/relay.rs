//! The outbound relay: calls are queued by their producers and issued one at
//! a time, in order, by a single worker.
//!
//! The queue is a state machine: `RelayQueue::step` takes an event and says
//! what the relay does about it. Producers and the worker drive it; nothing
//! else touches the pending calls.

use vstd::prelude::*;
use std::collections::VecDeque;
use std::sync::{Arc, Condvar, Mutex, MutexGuard, PoisonError};
use vstd::string::StringExecFns;
use crate::api::{
    is_header_text, post_request_of, PostRequest, PostRequestView, SlackWebApiCall,
    SlackWebApiCallView,
};
use crate::json::{
    bool_member, json_object_of_text, optional_text_member, parse_object, JsonObject, Members,
};

verus! {

/// The envelope of every Web API response.
#[derive(Debug, Clone, PartialEq, Eq)]
pub struct GenericResult {
    pub ok: bool,
    pub error: Option<String>,
}

pub struct GenericResultView {
    pub ok: bool,
    pub error: Option<Seq<char>>,
}

/// What an optional string stands for.
pub open spec fn optional_string_view(text: Option<String>) -> Option<Seq<char>> {
    match text {
        Some(t) => Some(t@),
        None => None,
    }
}

impl View for GenericResult {
    type V = GenericResultView;

    open spec fn view(&self) -> GenericResultView {
        GenericResultView { ok: self.ok, error: optional_string_view(self.error) }
    }
}

/// The envelope an object spells: `ok` must be a boolean; `error` may be
/// absent, `null` or a string.
pub open spec fn envelope_of_members(members: Members) -> Option<GenericResultView> {
    match (bool_member(members, "ok"@), optional_text_member(members, "error"@)) {
        (Some(ok), Some(error)) => Some(GenericResultView { ok, error }),
        _ => None,
    }
}

/// The envelope a response body spells.
pub open spec fn envelope_of_text(body: Seq<char>) -> Option<GenericResultView> {
    match json_object_of_text(body) {
        Some(members) => envelope_of_members(members),
        None => None,
    }
}

/// The view of a decoded envelope.
pub open spec fn envelope_view(envelope: Option<GenericResult>) -> Option<GenericResultView> {
    match envelope {
        Some(e) => Some(e@),
        None => None,
    }
}

impl GenericResult {
    /// Reads an envelope out of a JSON object.
    pub fn from_object(object: &JsonObject) -> (envelope: Option<GenericResult>)
        ensures
            envelope_view(envelope) == envelope_of_members(object@),
    {
        let ok = object.get_bool("ok");
        let error = object.get_optional_text("error");
        match (ok, error) {
            (Some(ok), Ok(error)) => Some(GenericResult { ok, error }),
            _ => None,
        }
    }

    /// Reads an envelope out of a response body.
    pub fn decode(body: &str) -> (envelope: Option<GenericResult>)
        ensures
            envelope_view(envelope) == envelope_of_text(body@),
    {
        match parse_object(body) {
            Some(object) => GenericResult::from_object(&object),
            None => None,
        }
    }
}

/// What came of one outbound call. None of these stops the worker.
#[derive(Debug, Clone, PartialEq, Eq)]
pub enum CallOutcome {
    /// The platform answered `ok: true`.
    Accepted,
    /// The platform answered `ok: false`, with its error string if it gave one.
    ApplicationFailure(Option<String>),
    /// The response body is no envelope.
    DecodeFailure,
    /// No response arrived; the text says what went wrong.
    TransportFailure(String),
}

pub enum CallOutcomeView {
    Accepted,
    ApplicationFailure(Option<Seq<char>>),
    DecodeFailure,
    TransportFailure(Seq<char>),
}

impl View for CallOutcome {
    type V = CallOutcomeView;

    open spec fn view(&self) -> CallOutcomeView {
        match self {
            CallOutcome::Accepted => CallOutcomeView::Accepted,
            CallOutcome::ApplicationFailure(error) => CallOutcomeView::ApplicationFailure(
                optional_string_view(*error),
            ),
            CallOutcome::DecodeFailure => CallOutcomeView::DecodeFailure,
            CallOutcome::TransportFailure(cause) => CallOutcomeView::TransportFailure(cause@),
        }
    }
}

/// What a decoded envelope says of the call.
pub open spec fn outcome_of_envelope(envelope: Option<GenericResultView>) -> CallOutcomeView {
    match envelope {
        Some(e) => if e.ok {
            CallOutcomeView::Accepted
        } else {
            CallOutcomeView::ApplicationFailure(e.error)
        },
        None => CallOutcomeView::DecodeFailure,
    }
}

/// What the round trip of a call says of it.
pub open spec fn outcome_of_response(exchange: Result<Seq<char>, Seq<char>>) -> CallOutcomeView {
    match exchange {
        Ok(body) => outcome_of_envelope(envelope_of_text(body)),
        Err(cause) => CallOutcomeView::TransportFailure(cause),
    }
}

/// The view of a round trip: the body that came back, or what went wrong.
pub open spec fn response_view(exchange: Result<String, String>) -> Result<Seq<char>, Seq<char>> {
    match exchange {
        Ok(body) => Ok(body@),
        Err(cause) => Err(cause@),
    }
}

impl CallOutcome {
    /// What a decoded envelope says of the call.
    pub fn of_envelope(envelope: Option<GenericResult>) -> (outcome: CallOutcome)
        ensures
            outcome@ == outcome_of_envelope(envelope_view(envelope)),
    {
        match envelope {
            Some(e) => if e.ok {
                CallOutcome::Accepted
            } else {
                CallOutcome::ApplicationFailure(e.error)
            },
            None => CallOutcome::DecodeFailure,
        }
    }

    /// Judges the round trip of a call: `exchange` is the body of the
    /// response, or what kept it from arriving.
    pub fn of_response(exchange: Result<String, String>) -> (outcome: CallOutcome)
        ensures
            outcome@ == outcome_of_response(response_view(exchange)),
    {
        match exchange {
            Ok(body) => CallOutcome::of_envelope(GenericResult::decode(body.as_str())),
            Err(cause) => CallOutcome::TransportFailure(cause),
        }
    }
}

/// The one way a send fails: the worker has terminated.
#[derive(Debug, Clone, Copy, PartialEq, Eq)]
pub struct QueueClosed;

/// What happens to the relay.
#[derive(Debug, Clone)]
pub enum RelayEvent {
    /// A producer hands in a call.
    Enqueue(SlackWebApiCall),
    /// The worker asks for work.
    Poll,
    /// A handle was cloned: one more producer.
    HandleCloned,
    /// A handle was dropped: one producer less.
    HandleDropped,
    /// The worker has terminated.
    WorkerGone,
}

pub enum RelayEventView {
    Enqueue(SlackWebApiCallView),
    Poll,
    HandleCloned,
    HandleDropped,
    WorkerGone,
}

impl View for RelayEvent {
    type V = RelayEventView;

    open spec fn view(&self) -> RelayEventView {
        match self {
            RelayEvent::Enqueue(call) => RelayEventView::Enqueue(call@),
            RelayEvent::Poll => RelayEventView::Poll,
            RelayEvent::HandleCloned => RelayEventView::HandleCloned,
            RelayEvent::HandleDropped => RelayEventView::HandleDropped,
            RelayEvent::WorkerGone => RelayEventView::WorkerGone,
        }
    }
}

/// What the relay does about an event.
#[derive(Debug, Clone, PartialEq, Eq)]
pub enum RelayAction {
    /// The call is pending.
    Queued,
    /// The call was refused: the queue is closed.
    Rejected,
    /// The worker issues this call now.
    Issue(SlackWebApiCall),
    /// Nothing is pending; the worker waits.
    Wait,
    /// Nothing is pending and nothing can come; the worker ends.
    Stop,
    /// The number of producers was brought up to date.
    Counted,
    /// The queue is closed from now on.
    Closed,
}

pub enum RelayActionView {
    Queued,
    Rejected,
    Issue(SlackWebApiCallView),
    Wait,
    Stop,
    Counted,
    Closed,
}

impl View for RelayAction {
    type V = RelayActionView;

    open spec fn view(&self) -> RelayActionView {
        match self {
            RelayAction::Queued => RelayActionView::Queued,
            RelayAction::Rejected => RelayActionView::Rejected,
            RelayAction::Issue(call) => RelayActionView::Issue(call@),
            RelayAction::Wait => RelayActionView::Wait,
            RelayAction::Stop => RelayActionView::Stop,
            RelayAction::Counted => RelayActionView::Counted,
            RelayAction::Closed => RelayActionView::Closed,
        }
    }
}

/// The relay's state: the calls that wait, oldest first, how many handles
/// are alive, and whether the queue still takes new calls.
pub struct RelayState {
    pub pending: Seq<SlackWebApiCallView>,
    pub handles: nat,
    pub closed: bool,
}

/// Whether the worker has nothing to do but wait: nothing is pending, a
/// producer is left, and the queue is open.
pub open spec fn is_idle(state: RelayState) -> bool {
    state.pending.len() == 0 && state.handles > 0 && !state.closed
}

/// The relay's transition: the state after `event`, and what is done.
///
/// A call is queued at the back unless the queue is closed. A poll takes the
/// oldest pending call; with none pending the worker waits while a producer
/// is left and the queue is open, and ends otherwise, which closes the queue.
/// The count of handles follows their clones and drops; it stops counting at
/// `u64::MAX`.
pub open spec fn relay_step(state: RelayState, event: RelayEventView) -> (RelayState, RelayActionView) {
    match event {
        RelayEventView::Enqueue(call) => if state.closed {
            (state, RelayActionView::Rejected)
        } else {
            (
                RelayState { pending: state.pending.push(call), handles: state.handles, closed: false },
                RelayActionView::Queued,
            )
        },
        RelayEventView::Poll => if state.pending.len() > 0 {
            (
                RelayState {
                    pending: state.pending.drop_first(),
                    handles: state.handles,
                    closed: state.closed,
                },
                RelayActionView::Issue(state.pending[0]),
            )
        } else if is_idle(state) {
            (state, RelayActionView::Wait)
        } else {
            (
                RelayState { pending: state.pending, handles: state.handles, closed: true },
                RelayActionView::Stop,
            )
        },
        RelayEventView::HandleCloned => (
            RelayState {
                pending: state.pending,
                handles: if state.handles < u64::MAX {
                    state.handles + 1
                } else {
                    state.handles
                },
                closed: state.closed,
            },
            RelayActionView::Counted,
        ),
        RelayEventView::HandleDropped => (
            RelayState {
                pending: state.pending,
                handles: if state.handles > 0 {
                    (state.handles - 1) as nat
                } else {
                    state.handles
                },
                closed: state.closed,
            },
            RelayActionView::Counted,
        ),
        RelayEventView::WorkerGone => (
            RelayState { pending: state.pending, handles: state.handles, closed: true },
            RelayActionView::Closed,
        ),
    }
}

/// The queue of pending calls.
pub struct RelayQueue {
    pending: VecDeque<SlackWebApiCall>,
    handles: u64,
    closed: bool,
}

impl View for RelayQueue {
    type V = RelayState;

    closed spec fn view(&self) -> RelayState {
        RelayState {
            pending: Seq::new(self.pending@.len(), |i: int| self.pending@[i]@),
            handles: self.handles as nat,
            closed: self.closed,
        }
    }
}

impl RelayQueue {
    /// An open queue with nothing pending and one handle.
    pub fn new() -> (queue: RelayQueue)
        ensures
            queue@ == (RelayState { pending: Seq::empty(), handles: 1, closed: false }),
    {
        let queue = RelayQueue { pending: VecDeque::new(), handles: 1, closed: false };
        assert(queue@.pending =~= Seq::empty());
        queue
    }

    /// How many calls are pending.
    pub fn len(&self) -> (n: usize)
        ensures
            n == self@.pending.len(),
    {
        self.pending.len()
    }

    /// How many handles are alive.
    pub fn handles(&self) -> (n: u64)
        ensures
            n == self@.handles,
    {
        self.handles
    }

    /// Whether the queue has stopped taking calls.
    pub fn is_closed(&self) -> (closed: bool)
        ensures
            closed == self@.closed,
    {
        self.closed
    }

    /// Whether the worker has nothing to do but wait.
    pub fn is_idle(&self) -> (idle: bool)
        ensures
            idle == is_idle(self@),
    {
        self.pending.len() == 0 && self.handles > 0 && !self.closed
    }

    /// One producer less: the transition for a dropped handle.
    pub fn release_handle(&mut self)
        ensures
            final(self)@ == relay_step(old(self)@, RelayEventView::HandleDropped).0,
        opens_invariants none
        no_unwind
    {
        if self.handles > 0 {
            self.handles = self.handles - 1;
        }
    }

    /// Closes the queue: the transition for a worker that is gone.
    pub fn close(&mut self)
        ensures
            final(self)@ == relay_step(old(self)@, RelayEventView::WorkerGone).0,
        opens_invariants none
        no_unwind
    {
        self.closed = true;
    }

    /// Takes one event: the queue moves as `relay_step` says, and the action
    /// is the one `relay_step` gives.
    pub fn step(&mut self, event: RelayEvent) -> (action: RelayAction)
        ensures
            (final(self)@, action@) == relay_step(old(self)@, event@),
    {
        match event {
            RelayEvent::Enqueue(call) => {
                if self.closed {
                    RelayAction::Rejected
                } else {
                    self.pending.push_back(call);
                    assert(self@.pending =~= old(self)@.pending.push(call@));
                    RelayAction::Queued
                }
            },
            RelayEvent::Poll => {
                let idle = self.is_idle();
                match self.pending.pop_front() {
                    Some(call) => {
                        assert(self@.pending =~= old(self)@.pending.drop_first());
                        RelayAction::Issue(call)
                    },
                    None => {
                        if idle {
                            RelayAction::Wait
                        } else {
                            self.closed = true;
                            RelayAction::Stop
                        }
                    },
                }
            },
            RelayEvent::HandleCloned => {
                if self.handles < u64::MAX {
                    self.handles = self.handles + 1;
                }
                RelayAction::Counted
            },
            RelayEvent::HandleDropped => {
                self.release_handle();
                RelayAction::Counted
            },
            RelayEvent::WorkerGone => {
                self.close();
                RelayAction::Closed
            },
        }
    }
}

/// What a run of events has done so far.
pub struct RelayRun {
    /// The state after the last event.
    pub state: RelayState,
    /// The calls that were queued, in the order they were handed in.
    pub accepted: Seq<SlackWebApiCallView>,
    /// The calls that were issued, in the order the worker took them.
    pub issued: Seq<SlackWebApiCallView>,
}

/// Runs `events` in order, starting from `start`.
pub open spec fn relay_run(start: RelayState, events: Seq<RelayEventView>) -> RelayRun
    decreases events.len(),
{
    if events.len() == 0 {
        RelayRun { state: start, accepted: Seq::empty(), issued: Seq::empty() }
    } else {
        let before = relay_run(start, events.drop_last());
        let (state, action) = relay_step(before.state, events.last());
        RelayRun {
            state,
            accepted: match (events.last(), action) {
                (RelayEventView::Enqueue(call), RelayActionView::Queued) => before.accepted.push(call),
                _ => before.accepted,
            },
            issued: match action {
                RelayActionView::Issue(call) => before.issued.push(call),
                _ => before.issued,
            },
        }
    }
}

/// The relay is first in, first out, and loses and repeats nothing: after
/// any run of events, in any interleaving of producers and worker, the calls
/// pending at the start followed by the calls queued since are exactly the
/// calls issued followed by the calls still pending.
pub proof fn lemma_relay_is_fifo(start: RelayState, events: Seq<RelayEventView>)
    ensures
        start.pending + relay_run(start, events).accepted == relay_run(start, events).issued
            + relay_run(start, events).state.pending,
    decreases events.len(),
{
    let run = relay_run(start, events);
    if events.len() == 0 {
        assert(start.pending + run.accepted =~= run.issued + run.state.pending);
    } else {
        let before = relay_run(start, events.drop_last());
        lemma_relay_is_fifo(start, events.drop_last());
        let queued = start.pending + before.accepted;
        let waiting = before.state.pending;
        assert(queued == before.issued + waiting);
        match events.last() {
            RelayEventView::Enqueue(call) => {
                if !before.state.closed {
                    assert(start.pending + before.accepted.push(call) =~= queued.push(call));
                    assert(before.issued + waiting.push(call) =~= (before.issued + waiting).push(
                        call,
                    ));
                }
            },
            RelayEventView::Poll => {
                if waiting.len() > 0 {
                    assert(before.issued.push(waiting[0]) + waiting.drop_first() =~= before.issued
                        + waiting);
                }
            },
            _ => {},
        }
    }
}

/// From an empty queue, the calls come out in the order they went in: the
/// worker's n-th request is the n-th call that was queued, so of two calls
/// queued one after the other the first is issued first.
pub proof fn lemma_issue_order_is_queue_order(
    events: Seq<RelayEventView>,
    handles: nat,
    closed: bool,
)
    ensures
        ({
            let run = relay_run(RelayState { pending: Seq::empty(), handles, closed }, events);
            &&& run.issued.len() <= run.accepted.len()
            &&& forall|n: int| 0 <= n < run.issued.len() ==> run.issued[n] == run.accepted[n]
        }),
{
    let start = RelayState { pending: Seq::empty(), handles, closed };
    let run = relay_run(start, events);
    lemma_relay_is_fifo(start, events);
    assert(start.pending + run.accepted =~= run.accepted);
    assert(run.accepted == run.issued + run.state.pending);
    assert forall|n: int| 0 <= n < run.issued.len() implies run.issued[n] == run.accepted[n] by {
        assert((run.issued + run.state.pending)[n] == run.issued[n]);
    }
}

/// Handing in a call never issues it and never waits: on an open queue the
/// call is pending afterwards, behind all that was pending, and nothing has
/// been taken out; on a closed queue it is refused and nothing changes.
pub proof fn lemma_enqueue_only_queues(state: RelayState, call: SlackWebApiCallView)
    ensures
        !state.closed ==> relay_step(state, RelayEventView::Enqueue(call)) == (
            RelayState { pending: state.pending.push(call), handles: state.handles, closed: false },
            RelayActionView::Queued,
        ),
        state.closed ==> relay_step(state, RelayEventView::Enqueue(call)) == (
            state,
            RelayActionView::Rejected,
        ),
{
}

/// Whether `action` can answer `event`.
pub open spec fn answers(event: RelayEventView, action: RelayActionView) -> bool {
    exists|state: RelayState| #[trigger] relay_step(state, event).1 == action
}

/// The result of a send: the call is pending, or the queue is closed.
pub open spec fn send_result_of(action: RelayActionView) -> Result<(), QueueClosed> {
    match action {
        RelayActionView::Queued => Ok(()),
        _ => Err(QueueClosed),
    }
}

impl RelayAction {
    /// The result of the send that this action answers.
    pub fn into_send_result(self) -> (sent: Result<(), QueueClosed>)
        ensures
            sent == send_result_of(self@),
    {
        match self {
            RelayAction::Queued => Ok(()),
            _ => Err(QueueClosed),
        }
    }
}

/// What the worker does next.
#[derive(Debug, Clone, PartialEq, Eq)]
pub enum WorkerStep {
    /// Post this request, then report the response and ask again.
    Post(PostRequest),
    /// This call cannot go on the wire, because the token is no header
    /// text; report it as failed and ask again.
    Unsendable(SlackWebApiCall),
    /// Nothing to do yet; wait for work and ask again.
    Idle,
    /// All producers are gone and nothing is pending; end the loop.
    Stop,
}

pub enum WorkerStepView {
    Post(PostRequestView),
    Unsendable(SlackWebApiCallView),
    Idle,
    Stop,
}

impl View for WorkerStep {
    type V = WorkerStepView;

    open spec fn view(&self) -> WorkerStepView {
        match self {
            WorkerStep::Post(request) => WorkerStepView::Post(request@),
            WorkerStep::Unsendable(call) => WorkerStepView::Unsendable(call@),
            WorkerStep::Idle => WorkerStepView::Idle,
            WorkerStep::Stop => WorkerStepView::Stop,
        }
    }
}

/// The worker's step for the relay's answer: an issued call becomes the POST
/// that delivers it for the holder of `tok`, or is unsendable where `tok` is
/// no header text; a stop ends the loop; on anything else the worker has
/// nothing to do yet.
pub open spec fn worker_step_of(action: RelayActionView, tok: Seq<char>) -> WorkerStepView {
    match action {
        RelayActionView::Issue(call) => if is_header_text(tok) {
            WorkerStepView::Post(post_request_of(call, tok))
        } else {
            WorkerStepView::Unsendable(call)
        },
        RelayActionView::Stop => WorkerStepView::Stop,
        _ => WorkerStepView::Idle,
    }
}

impl WorkerStep {
    /// The worker's step for the relay's answer.
    pub fn of_action(action: RelayAction, tok: &str) -> (step: WorkerStep)
        ensures
            step@ == worker_step_of(action@, tok@),
    {
        match action {
            RelayAction::Issue(call) => match call.try_post_request(tok) {
                Some(request) => WorkerStep::Post(request),
                None => WorkerStep::Unsendable(call),
            },
            RelayAction::Stop => WorkerStep::Stop,
            _ => WorkerStep::Idle,
        }
    }
}

#[verifier::external_type_specification]
#[verifier::external_body]
#[verifier::reject_recursive_types(T)]
pub struct ExMutex<T: ?Sized>(Mutex<T>);

#[verifier::external_type_specification]
#[verifier::external_body]
#[verifier::reject_recursive_types(T)]
pub struct ExMutexGuard<'a, T: ?Sized + 'a>(MutexGuard<'a, T>);

#[verifier::external_type_specification]
#[verifier::external_body]
pub struct ExCondvar(Condvar);

/// Puts a queue behind a lock with `Mutex::new`.
#[verifier::external_body]
fn lock_around(queue: RelayQueue) -> Mutex<RelayQueue> {
    Mutex::new(queue)
}

/// A condition variable, by `Condvar::new`.
#[verifier::external_body]
fn new_signal() -> Condvar {
    Condvar::new()
}

/// Another reference to the same shared relay, by `Arc::clone`.
#[verifier::external_body]
fn share(relay: &Arc<RelayShare>) -> Arc<RelayShare> {
    Arc::clone(relay)
}

/// Takes the lock with `Mutex::lock`. A poisoned lock is taken all the same,
/// with `PoisonError::into_inner`: the queue behind it is whole, since it is
/// only ever changed by the transitions of `RelayQueue`. No caller holds the
/// lock already, so this does not panic.
#[verifier::external_body]
fn lock_queue<'a>(relay: &'a Mutex<RelayQueue>) -> MutexGuard<'a, RelayQueue>
    opens_invariants none
    no_unwind
{
    relay.lock().unwrap_or_else(PoisonError::into_inner)
}

/// Exchanges the queue behind the lock with `held`, by `std::mem::swap`.
/// Nothing is promised of what comes out: other threads have had the queue.
#[verifier::external_body]
fn exchange_queue<'a>(guard: &mut MutexGuard<'a, RelayQueue>, held: &mut RelayQueue)
    opens_invariants none
    no_unwind
{
    std::mem::swap(&mut **guard, held)
}

/// Wakes every thread that waits on `signal`, by `Condvar::notify_all`.
#[verifier::external_body]
fn wake_all(signal: &Condvar)
    opens_invariants none
    no_unwind
{
    signal.notify_all()
}

/// Lets go of the lock and suspends until `signal` is raised, by
/// `Condvar::wait`; the lock is held again on return, poisoned or not.
#[verifier::external_body]
fn wait_on<'a>(signal: &Condvar, guard: MutexGuard<'a, RelayQueue>) -> MutexGuard<'a, RelayQueue> {
    signal.wait(guard).unwrap_or_else(PoisonError::into_inner)
}

/// What producers and worker share: the queue behind its lock, and the
/// signal that says the queue has changed.
pub struct RelayShare {
    queue: Mutex<RelayQueue>,
    signal: Condvar,
}

impl RelayShare {
    /// Runs one event through the shared queue while holding its lock: the
    /// queue is taken out, stepped, and put back before the lock is let go.
    /// Whoever waits is woken unless the event was a poll.
    ///
    /// The action is the one `relay_step` gives for the state the queue was
    /// in. Which state that was depends on the other threads and is not
    /// known here.
    fn step(&self, event: RelayEvent) -> (action: RelayAction)
        ensures
            answers(event@, action@),
    {
        let wake = match &event {
            RelayEvent::Poll => false,
            _ => true,
        };
        let mut guard = lock_queue(&self.queue);
        let mut queue = RelayQueue::new();
        exchange_queue(&mut guard, &mut queue);
        let ghost before = queue@;
        let action = queue.step(event);
        assert(relay_step(before, event@).1 == action@);
        exchange_queue(&mut guard, &mut queue);
        if wake {
            wake_all(&self.signal);
        }
        action
    }

    /// Runs a departure through the shared queue while holding its lock: a
    /// dropped handle, or with `worker` the worker that is gone. The queue is
    /// exchanged with `spare` for the duration, and whoever waits is woken.
    fn depart(&self, spare: &mut RelayQueue, worker: bool)
        opens_invariants none
        no_unwind
    {
        let mut guard = lock_queue(&self.queue);
        exchange_queue(&mut guard, spare);
        if worker {
            spare.close();
        } else {
            spare.release_handle();
        }
        exchange_queue(&mut guard, spare);
        wake_all(&self.signal);
    }

    /// Suspends the caller while the worker has nothing to do but wait, until
    /// the queue changes. Returns at once where there is something to do.
    fn wait_while_idle(&self) {
        let mut guard = lock_queue(&self.queue);
        let mut queue = RelayQueue::new();
        exchange_queue(&mut guard, &mut queue);
        let idle = queue.is_idle();
        exchange_queue(&mut guard, &mut queue);
        if idle {
            let _held = wait_on(&self.signal, guard);
        }
    }
}

/// One producer's end of the relay. Cloning it adds a producer, dropping it
/// takes one away; the queue itself is out of reach.
pub struct RelayHandle {
    shared: Arc<RelayShare>,
    /// Exchanged with the shared queue while this handle is dropped.
    spare: RelayQueue,
}

impl Clone for RelayHandle {
    fn clone(&self) -> (copy: Self) {
        let _ = self.shared.step(RelayEvent::HandleCloned);
        RelayHandle { shared: share(&self.shared), spare: RelayQueue::new() }
    }
}

impl Drop for RelayHandle {
    fn drop(&mut self)
        opens_invariants none
        no_unwind
    {
        self.shared.depart(&mut self.spare, false);
    }
}

/// The handle through which calls are sent. It can be cloned and moved to
/// other producers; all clones feed the same relay.
#[derive(Clone)]
pub struct AsyncSlackApiSender {
    pub tok: String,
    pub relay: RelayHandle,
}

/// The consuming end of a relay: the one worker that issues its calls.
/// Dropping it closes the queue.
pub struct RelayWorker {
    tok: String,
    shared: Arc<RelayShare>,
    /// Exchanged with the shared queue while this worker is dropped.
    spare: RelayQueue,
}

impl Drop for RelayWorker {
    fn drop(&mut self)
        opens_invariants none
        no_unwind
    {
        self.shared.depart(&mut self.spare, true);
    }
}

impl AsyncSlackApiSender {
    /// The token the relay authenticates with.
    pub open spec fn token(&self) -> Seq<char> {
        self.tok@
    }

    /// A fresh relay that authenticates with `tok`: the handle for its
    /// producers, and its one worker.
    pub fn new(tok: String) -> (ends: (AsyncSlackApiSender, RelayWorker))
        ensures
            ends.0.tok@ == tok@,
            ends.1.token() == tok@,
    {
        let shared = Arc::new(RelayShare { queue: lock_around(RelayQueue::new()), signal: new_signal() });
        let worker = RelayWorker { tok: tok.clone(), shared: share(&shared), spare: RelayQueue::new() };
        (AsyncSlackApiSender { tok, relay: RelayHandle { shared, spare: RelayQueue::new() } }, worker)
    }

    /// Hands a call to the relay and returns at once. `Ok` says that the
    /// call is pending, nothing more; `Err` that the worker has terminated.
    pub fn send(&self, callinfo: SlackWebApiCall) -> (sent: Result<(), QueueClosed>)
        ensures
            exists|state: RelayState|
                sent == send_result_of(
                    (#[trigger] relay_step(state, RelayEventView::Enqueue(callinfo@))).1,
                ),
    {
        let action = self.relay.shared.step(RelayEvent::Enqueue(callinfo));
        action.into_send_result()
    }
}

impl RelayWorker {
    /// The token the relay authenticates with.
    pub closed spec fn token(&self) -> Seq<char> {
        self.tok@
    }

    /// Asks the relay what to do next. A request that comes back is the
    /// oldest pending call, as the POST that delivers it.
    pub fn next_step(&self) -> (step: WorkerStep)
        ensures
            exists|state: RelayState|
                step@ == worker_step_of(
                    (#[trigger] relay_step(state, RelayEventView::Poll)).1,
                    self.token(),
                ),
    {
        let action = self.shared.step(RelayEvent::Poll);
        WorkerStep::of_action(action, self.tok.as_str())
    }

    /// Suspends the worker until there may be something to do: a call came
    /// in, a handle was dropped, or the queue was closed. Returns at once
    /// where something is pending already.
    pub fn wait_for_work(&self) {
        self.shared.wait_while_idle();
    }

    /// Tells the relay that the worker is gone: sends fail from now on.
    pub fn close(&self) {
        let _ = self.shared.step(RelayEvent::WorkerGone);
    }
}

} // verus!
