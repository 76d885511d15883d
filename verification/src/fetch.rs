//! The fetch worker: waits for the intent signal and for the link, performs
//! one HTTP GET into a bounded buffer, reports the body as text, and clears
//! the signal before waiting again.
//!
//! A failure at any point ends the fetch under way and nothing more: the
//! worker clears the signal and waits for the next press. A body larger than
//! the buffer is such a failure; it is not cut short.

use vstd::prelude::*;
use vstd::string::StringSliceAdditionalSpecFns;
use vstd::utf8::{decode_utf8, valid_utf8};
use crate::config::{PoolSizes, SocketPools};
use crate::signal::{after_burst, cleared, waited, IntentSignal, SignalModel};
use crate::trace::{lemma_run_concat, lemma_tally_concat, run, tally};

verus! {

/// Which half of a link poll the worker is in.
#[derive(Clone, Copy, Debug, PartialEq, Eq, Structural)]
pub enum LinkWait {
    /// The link status has been asked for.
    Checking,
    /// The link was down; the worker rests before it asks again.
    Pausing,
}

/// Where the worker stands in its cycle.
#[derive(Clone, Copy, Debug, PartialEq, Eq, Structural)]
pub enum FetchState {
    /// Between two fetches. The intent signal has been cleared.
    Idle,
    /// Waiting for the intent signal to hold a value.
    AwaitingSignal,
    /// Polling until the link is up.
    AwaitingLink(LinkWait),
    /// The client state and the request are being set up.
    RequestBuilding,
    /// The request is on its way; the response has not started.
    RequestSent,
    /// The response body is being received into the buffer.
    ReadingBody,
    /// The body was received whole and is valid text, ready to be emitted.
    Reporting,
}

/// What the worker asks of its driver. Each operation is answered by one
/// [`FetchEvent`].
#[derive(Clone, Copy, Debug, PartialEq, Eq, Structural)]
pub enum FetchAction {
    /// Go on at once; answered by `Resumed`.
    Proceed,
    /// Suspend until the producer of the intent signal wakes the worker;
    /// answered by `Resumed`.
    Park,
    /// Ask whether the link is up; answered by `LinkStatus`.
    CheckLink,
    /// Sleep; answered by `PauseElapsed`.
    Pause { millis: u64 },
    /// Set up a fresh client over a pool of `connections` and a GET request
    /// to the target; answered by `RequestReady` or `Failed`.
    OpenRequest { connections: usize },
    /// Send the request and receive the response head; answered by
    /// `ResponseStarted` or `Failed`.
    SendRequest,
    /// Receive more of the body; answered by `BodyChunk`, `BodyEnd` or `Failed`.
    ReadBody,
    /// Emit the text returned by [`FetchWorker::report`]; answered by `Resumed`.
    Emit,
}

/// What the driver tells the worker: the outcome of the operation it was
/// last asked to perform.
#[derive(Debug, PartialEq, Eq)]
pub enum FetchEvent {
    /// The worker runs again: it was woken, or the operation had nothing to
    /// tell.
    Resumed,
    /// The link is up, or not.
    LinkStatus { up: bool },
    /// The pause is over.
    PauseElapsed,
    /// The request is set up.
    RequestReady,
    /// The request was sent and the response has begun.
    ResponseStarted,
    /// The next bytes of the body.
    BodyChunk(Vec<u8>),
    /// The body is complete.
    BodyEnd,
    /// The operation failed: refused, timed out, or malformed.
    Failed,
}

/// The worker as its contracts see it.
pub ghost struct FetchModel {
    /// Where the worker stands.
    pub state: FetchState,
    /// The bytes received so far for the current response.
    pub body: Seq<u8>,
    /// How many bytes the buffer takes.
    pub capacity: usize,
    /// Pause between two link polls, in milliseconds.
    pub poll_millis: u64,
    /// The socket capacities the worker was built with.
    pub pools: PoolSizes,
}

/// The worker's transition, beside an intent signal that is `cell`.
///
/// The worker leaves `AwaitingSignal` only when the signal holds a value;
/// which value it is does not matter. An outcome that does not answer the
/// operation in flight, like a failure, ends the fetch: the worker goes to
/// `Idle`. So does a body that outgrows the buffer or is not valid UTF-8.
pub open spec fn fetch_next(m: FetchModel, cell: SignalModel, event: FetchEvent) -> FetchModel {
    match (m.state, event) {
        (FetchState::Idle, FetchEvent::Resumed) => FetchModel {
            state: FetchState::AwaitingSignal,
            ..m
        },
        (FetchState::AwaitingSignal, FetchEvent::Resumed) => FetchModel {
            state: if cell.held is Some {
                FetchState::AwaitingLink(LinkWait::Checking)
            } else {
                FetchState::AwaitingSignal
            },
            ..m
        },
        (FetchState::AwaitingLink(LinkWait::Checking), FetchEvent::LinkStatus { up }) => FetchModel {
            state: if up {
                FetchState::RequestBuilding
            } else {
                FetchState::AwaitingLink(LinkWait::Pausing)
            },
            ..m
        },
        (FetchState::AwaitingLink(LinkWait::Pausing), FetchEvent::PauseElapsed) => FetchModel {
            state: FetchState::AwaitingLink(LinkWait::Checking),
            ..m
        },
        (FetchState::RequestBuilding, FetchEvent::RequestReady) => FetchModel {
            state: FetchState::RequestSent,
            ..m
        },
        (FetchState::RequestSent, FetchEvent::ResponseStarted) => FetchModel {
            state: FetchState::ReadingBody,
            body: Seq::empty(),
            ..m
        },
        (FetchState::ReadingBody, FetchEvent::BodyChunk(bytes)) => {
            if m.body.len() + bytes@.len() <= m.capacity {
                FetchModel { body: m.body + bytes@, ..m }
            } else {
                FetchModel { state: FetchState::Idle, ..m }
            }
        },
        (FetchState::ReadingBody, FetchEvent::BodyEnd) => FetchModel {
            state: if valid_utf8(m.body) {
                FetchState::Reporting
            } else {
                FetchState::Idle
            },
            ..m
        },
        _ => FetchModel { state: FetchState::Idle, ..m },
    }
}

/// What a transition into `after` does to the intent signal: on entering
/// `Idle` the worker clears it, on entering `AwaitingSignal` it asks it for
/// a value, and otherwise it leaves it alone.
pub open spec fn fetch_cell(after: FetchState, cell: SignalModel) -> SignalModel {
    match after {
        FetchState::Idle => cleared(cell),
        FetchState::AwaitingSignal => waited(cell),
        _ => cell,
    }
}

/// The operation the worker asks for on entering the state of `m`, when the
/// intent signal is `cell` afterwards. It parks only on a signal that holds
/// nothing.
pub open spec fn fetch_action(m: FetchModel, cell: SignalModel) -> FetchAction {
    match m.state {
        FetchState::Idle => FetchAction::Proceed,
        FetchState::AwaitingSignal => if cell.held is Some {
            FetchAction::Proceed
        } else {
            FetchAction::Park
        },
        FetchState::AwaitingLink(LinkWait::Checking) => FetchAction::CheckLink,
        FetchState::AwaitingLink(LinkWait::Pausing) => FetchAction::Pause { millis: m.poll_millis },
        FetchState::RequestBuilding => FetchAction::OpenRequest { connections: m.pools.client },
        FetchState::RequestSent => FetchAction::SendRequest,
        FetchState::ReadingBody => FetchAction::ReadBody,
        FetchState::Reporting => FetchAction::Emit,
    }
}

/// Whether the worker is suspended while the operation is performed, so
/// that other tasks run.
pub open spec fn fetch_suspends(action: FetchAction) -> bool {
    !(action is Proceed || action is CheckLink || action is Emit)
}

/// Whether `event` is an outcome that `action` can have.
pub open spec fn fetch_answers(action: FetchAction, event: FetchEvent) -> bool {
    match action {
        FetchAction::Proceed => event is Resumed,
        FetchAction::Park => event is Resumed,
        FetchAction::CheckLink => event is LinkStatus,
        FetchAction::Pause { millis } => event is PauseElapsed,
        FetchAction::OpenRequest { connections } => event is RequestReady || event is Failed,
        FetchAction::SendRequest => event is ResponseStarted || event is Failed,
        FetchAction::ReadBody => event is BodyChunk || event is BodyEnd || event is Failed,
        FetchAction::Emit => event is Resumed,
    }
}

/// `core::str::from_utf8`: the bytes are accepted exactly when they are
/// well-formed UTF-8, and the string returned is made of those same bytes.
#[verifier::external_body]
fn utf8_text(bytes: &[u8]) -> (text: Option<&str>)
    ensures
        text is Some <==> valid_utf8(bytes@),
        text matches Some(s) ==> s.spec_bytes() == bytes@,
{
    match core::str::from_utf8(bytes) {
        Ok(s) => Some(s),
        Err(_) => None,
    }
}

/// The fetch worker. It owns the buffer that receives response bodies.
#[derive(Debug)]
pub struct FetchWorker {
    state: FetchState,
    body: Vec<u8>,
    capacity: usize,
    poll_millis: u64,
    pools: SocketPools,
}

impl View for FetchWorker {
    type V = FetchModel;

    closed spec fn view(&self) -> FetchModel {
        FetchModel {
            state: self.state,
            body: self.body@,
            capacity: self.capacity,
            poll_millis: self.poll_millis,
            pools: self.pools@,
        }
    }
}

impl FetchWorker {
    #[verifier::type_invariant]
    spec fn inv(&self) -> bool {
        &&& self.body@.len() <= self.capacity
        &&& self.state is Reporting ==> valid_utf8(self.body@)
    }

    /// A worker between fetches, with an empty buffer of `capacity` bytes.
    pub fn new(pools: SocketPools, capacity: usize, poll_millis: u64) -> (w: FetchWorker)
        ensures
            w@ == (FetchModel {
                state: FetchState::Idle,
                body: Seq::empty(),
                capacity,
                poll_millis,
                pools: pools@,
            }),
    {
        FetchWorker { state: FetchState::Idle, body: Vec::new(), capacity, poll_millis, pools }
    }

    /// Takes the outcome of the operation in flight, does to the intent
    /// signal what the new state calls for, and answers with the next
    /// operation. The first call is made with `Resumed`.
    pub fn step(&mut self, event: FetchEvent, signal: &mut IntentSignal) -> (action: FetchAction)
        ensures
            final(self)@ == fetch_next(old(self)@, old(signal)@, event),
            final(signal)@ == fetch_cell(final(self)@.state, old(signal)@),
            action == fetch_action(final(self)@, final(signal)@),
    {
        proof {
            use_type_invariant(&*self);
        }
        let next = match event {
            FetchEvent::Resumed => match self.state {
                FetchState::Idle => FetchState::AwaitingSignal,
                FetchState::AwaitingSignal => if signal.is_signalled() {
                    FetchState::AwaitingLink(LinkWait::Checking)
                } else {
                    FetchState::AwaitingSignal
                },
                _ => FetchState::Idle,
            },
            FetchEvent::LinkStatus { up } => match self.state {
                FetchState::AwaitingLink(LinkWait::Checking) => if up {
                    FetchState::RequestBuilding
                } else {
                    FetchState::AwaitingLink(LinkWait::Pausing)
                },
                _ => FetchState::Idle,
            },
            FetchEvent::PauseElapsed => match self.state {
                FetchState::AwaitingLink(LinkWait::Pausing) => FetchState::AwaitingLink(
                    LinkWait::Checking,
                ),
                _ => FetchState::Idle,
            },
            FetchEvent::RequestReady => match self.state {
                FetchState::RequestBuilding => FetchState::RequestSent,
                _ => FetchState::Idle,
            },
            FetchEvent::ResponseStarted => match self.state {
                FetchState::RequestSent => {
                    self.body = Vec::new();
                    FetchState::ReadingBody
                },
                _ => FetchState::Idle,
            },
            FetchEvent::BodyChunk(bytes) => match self.state {
                FetchState::ReadingBody => if bytes.len() <= self.capacity - self.body.len() {
                    let mut body: Vec<u8> = Vec::new();
                    core::mem::swap(&mut self.body, &mut body);
                    body.extend_from_slice(bytes.as_slice());
                    self.body = body;
                    FetchState::ReadingBody
                } else {
                    FetchState::Idle
                },
                _ => FetchState::Idle,
            },
            FetchEvent::BodyEnd => match self.state {
                FetchState::ReadingBody => if utf8_text(self.body.as_slice()).is_some() {
                    FetchState::Reporting
                } else {
                    FetchState::Idle
                },
                _ => FetchState::Idle,
            },
            FetchEvent::Failed => FetchState::Idle,
        };
        self.state = next;
        assert(self@.body =~= fetch_next(old(self)@, old(signal)@, event).body);
        match next {
            FetchState::Idle => {
                signal.reset();
                FetchAction::Proceed
            },
            FetchState::AwaitingSignal => match signal.poll_wait() {
                Some(_) => FetchAction::Proceed,
                None => FetchAction::Park,
            },
            FetchState::AwaitingLink(LinkWait::Checking) => FetchAction::CheckLink,
            FetchState::AwaitingLink(LinkWait::Pausing) => FetchAction::Pause {
                millis: self.poll_millis,
            },
            FetchState::RequestBuilding => FetchAction::OpenRequest {
                connections: self.pools.client(),
            },
            FetchState::RequestSent => FetchAction::SendRequest,
            FetchState::ReadingBody => FetchAction::ReadBody,
            FetchState::Reporting => FetchAction::Emit,
        }
    }

    /// Where the worker stands.
    pub fn state(&self) -> (s: FetchState)
        ensures
            s == self@.state,
    {
        self.state
    }

    /// The bytes in the buffer; never more than its capacity.
    pub fn body(&self) -> (b: &[u8])
        ensures
            b@ == self@.body,
            b@.len() <= self@.capacity,
    {
        proof {
            use_type_invariant(self);
        }
        self.body.as_slice()
    }

    /// How many bytes the buffer takes.
    pub fn capacity(&self) -> (n: usize)
        ensures
            n == self@.capacity,
    {
        self.capacity
    }

    /// The text to emit: the whole body, decoded, while the worker is
    /// reporting, and nothing in any other state.
    pub fn report(&self) -> (text: Option<String>)
        ensures
            text is Some <==> self@.state is Reporting,
            text matches Some(t) ==> t@ == decode_utf8(self@.body),
    {
        proof {
            use_type_invariant(self);
        }
        match self.state {
            FetchState::Reporting => match utf8_text(self.body.as_slice()) {
                Some(s) => {
                    proof {
                        vstd::utf8::encode_utf8_decode_utf8(s@);
                    }
                    Some(s.to_owned())
                },
                None => None,
            },
            _ => None,
        }
    }
}

/// The worker together with the intent signal it consumes.
pub ghost struct FetchSystem {
    pub worker: FetchModel,
    pub cell: SignalModel,
}

/// One step of the worker, as [`FetchWorker::step`] performs it.
pub open spec fn fetch_turn(sys: FetchSystem, event: FetchEvent) -> FetchSystem {
    let after = fetch_next(sys.worker, sys.cell, event);
    FetchSystem { worker: after, cell: fetch_cell(after.state, sys.cell) }
}

/// Where the worker and the signal are after `events`, when nobody else
/// touches the signal meanwhile.
pub open spec fn fetch_run(start: FetchSystem, events: Seq<FetchEvent>) -> FetchSystem {
    run(|s: FetchSystem, e: FetchEvent| fetch_turn(s, e), start, events)
}

/// How many requests the worker asks to open on its way from `start`
/// through `events`.
pub open spec fn requests_opened(start: FetchSystem, events: Seq<FetchEvent>) -> nat {
    tally(
        |s: FetchSystem, e: FetchEvent| fetch_turn(s, e),
        |s: FetchSystem| fetch_action(s.worker, s.cell) is OpenRequest,
        start,
        events,
    )
}

/// How many pauses the worker asks for on its way from `start` through
/// `events`.
pub open spec fn pauses_taken(start: FetchSystem, events: Seq<FetchEvent>) -> nat {
    tally(
        |s: FetchSystem, e: FetchEvent| fetch_turn(s, e),
        |s: FetchSystem| fetch_action(s.worker, s.cell) is Pause,
        start,
        events,
    )
}

/// The worker does not hog the processor: of any four operations in a row,
/// one suspends it.
pub proof fn lemma_worker_suspends(
    sys: FetchSystem,
    first: FetchEvent,
    second: FetchEvent,
    third: FetchEvent,
)
    requires
        fetch_answers(fetch_action(sys.worker, sys.cell), first),
        fetch_answers(
            fetch_action(fetch_turn(sys, first).worker, fetch_turn(sys, first).cell),
            second,
        ),
        fetch_answers(
            fetch_action(
                fetch_turn(fetch_turn(sys, first), second).worker,
                fetch_turn(fetch_turn(sys, first), second).cell,
            ),
            third,
        ),
    ensures
        ({
            let one = fetch_turn(sys, first);
            let two = fetch_turn(one, second);
            let three = fetch_turn(two, third);
            ||| fetch_suspends(fetch_action(sys.worker, sys.cell))
            ||| fetch_suspends(fetch_action(one.worker, one.cell))
            ||| fetch_suspends(fetch_action(two.worker, two.cell))
            ||| fetch_suspends(fetch_action(three.worker, three.cell))
        }),
{
}

/// Whatever the worker is told, the body it holds never outgrows the buffer.
pub proof fn lemma_body_stays_in_buffer(m: FetchModel, cell: SignalModel, event: FetchEvent)
    requires
        m.body.len() <= m.capacity,
    ensures
        fetch_next(m, cell, event).body.len() <= fetch_next(m, cell, event).capacity,
        fetch_next(m, cell, event).capacity == m.capacity,
{
}

/// A body that fills the buffer to the last byte is taken whole; one byte
/// more and the fetch is over.
pub proof fn lemma_buffer_limit(m: FetchModel, cell: SignalModel, bytes: Vec<u8>)
    requires
        m.state is ReadingBody,
    ensures
        m.body.len() + bytes@.len() <= m.capacity ==> fetch_next(
            m,
            cell,
            FetchEvent::BodyChunk(bytes),
        ) == (FetchModel { body: m.body + bytes@, ..m }),
        m.body.len() + bytes@.len() > m.capacity ==> fetch_next(
            m,
            cell,
            FetchEvent::BodyChunk(bytes),
        ) == (FetchModel { state: FetchState::Idle, ..m }),
{
}

/// How the rounds of the worker hang together. A round that ends, however it
/// ends, leaves the signal empty. A failure ends the round from every state.
/// The worker starts to wait only from `Idle`, does not stop waiting while
/// the signal is empty, and opens a request only on finding the link up.
pub proof fn lemma_rounds(sys: FetchSystem, event: FetchEvent)
    ensures
        fetch_turn(sys, event).worker.state is Idle ==> fetch_turn(sys, event).cell.held is None,
        event is Failed ==> fetch_turn(sys, event).worker.state is Idle,
        fetch_turn(sys, event).worker.state is AwaitingSignal ==> (sys.worker.state is Idle
            || sys.worker.state is AwaitingSignal),
        sys.worker.state is AwaitingSignal && sys.cell.held is None ==> (fetch_turn(
            sys,
            event,
        ).worker.state is AwaitingSignal || fetch_turn(sys, event).worker.state is Idle),
        fetch_turn(sys, event).worker.state is RequestBuilding ==> (sys.worker.state
            == FetchState::AwaitingLink(LinkWait::Checking) && event == FetchEvent::LinkStatus {
            up: true,
        }),
{
}

/// Signals do not queue up fetches. Take a worker that waits for the signal,
/// and let any number of signals be raised before it runs. Then, whatever the
/// worker is told afterwards, it opens at most one request as long as nobody
/// raises the signal again; and once that round is over the signal is empty,
/// so that the worker waits.
pub proof fn lemma_one_fetch_per_burst(
    worker: FetchModel,
    cell: SignalModel,
    values: Seq<bool>,
    events: Seq<FetchEvent>,
)
    requires
        worker.state is AwaitingSignal,
    ensures
        ({
            let start = FetchSystem { worker, cell: after_burst(cell, values) };
            let end = fetch_run(start, events);
            let opened = requests_opened(start, events);
            &&& opened <= 1
            &&& opened == 0 ==> (end.worker.state is AwaitingSignal || end.worker.state
                is AwaitingLink || end.worker.state is Idle)
            &&& opened == 1 ==> !(end.worker.state is AwaitingLink)
            &&& (end.worker.state is Idle || (opened == 1 && end.worker.state is AwaitingSignal))
                ==> end.cell.held is None
        }),
    decreases events.len(),
{
    let start = FetchSystem { worker, cell: after_burst(cell, values) };
    if events.len() > 0 {
        lemma_one_fetch_per_burst(worker, cell, values, events.drop_last());
        let before = fetch_run(start, events.drop_last());
        assert(fetch_run(start, events) == fetch_turn(before, events.last()));
    } else {
        assert(fetch_run(start, events) == start);
    }
}

/// What the worker is told while the link is down for `polls` looks in a
/// row: each time that the link is down, and then that the pause is over.
pub open spec fn link_down(polls: nat) -> Seq<FetchEvent>
    decreases polls,
{
    if polls == 0 {
        Seq::empty()
    } else {
        link_down((polls - 1) as nat) + seq![
            FetchEvent::LinkStatus { up: false },
            FetchEvent::PauseElapsed,
        ]
    }
}

/// While the link stays down the worker keeps looking, with one pause after
/// each look, and opens nothing.
pub proof fn lemma_link_down(start: FetchSystem, polls: nat)
    requires
        start.worker.state == FetchState::AwaitingLink(LinkWait::Checking),
    ensures
        fetch_run(start, link_down(polls)) == start,
        requests_opened(start, link_down(polls)) == 0,
        pauses_taken(start, link_down(polls)) == polls,
    decreases polls,
{
    let next = |s: FetchSystem, e: FetchEvent| fetch_turn(s, e);
    let opened = |s: FetchSystem| fetch_action(s.worker, s.cell) is OpenRequest;
    let paused = |s: FetchSystem| fetch_action(s.worker, s.cell) is Pause;
    if polls > 0 {
        let before = link_down((polls - 1) as nat);
        let lead2 = seq![FetchEvent::LinkStatus { up: false }, FetchEvent::PauseElapsed];
        let lead1 = lead2.drop_last();
        let lead0 = lead1.drop_last();
        lemma_link_down(start, (polls - 1) as nat);
        lemma_run_concat(next, start, before, lead2);
        lemma_tally_concat(next, opened, start, before, lead2);
        lemma_tally_concat(next, paused, start, before, lead2);
        assert(lead0.len() == 0);
        assert(run(next, start, lead0) == start);
        assert(tally(next, opened, start, lead0) == 0);
        assert(tally(next, paused, start, lead0) == 0);
        assert(run(next, start, lead1) == FetchSystem {
            worker: FetchModel { state: FetchState::AwaitingLink(LinkWait::Pausing), ..start.worker },
            cell: start.cell,
        });
        assert(tally(next, opened, start, lead1) == 0);
        assert(tally(next, paused, start, lead1) == 1);
        assert(run(next, start, lead2) == start);
    } else {
        assert(run(next, start, link_down(polls)) == start);
    }
}

/// A worker that waits on a raised signal opens exactly one request, and
/// only when the link is up: however long the link was down before, it has
/// paused once for every look that found it down and has opened nothing
/// until then. The signal keeps its value for the time being.
pub proof fn lemma_one_request_once_link_is_up(start: FetchSystem, polls: nat)
    requires
        start.worker.state is AwaitingSignal,
        start.cell.held is Some,
    ensures
        ({
            let events = seq![FetchEvent::Resumed] + link_down(polls)
                + seq![FetchEvent::LinkStatus { up: true }];
            &&& fetch_run(start, events) == FetchSystem {
                worker: FetchModel { state: FetchState::RequestBuilding, ..start.worker },
                cell: start.cell,
            }
            &&& requests_opened(start, events) == 1
            &&& pauses_taken(start, events) == polls
        }),
{
    let next = |s: FetchSystem, e: FetchEvent| fetch_turn(s, e);
    let opened = |s: FetchSystem| fetch_action(s.worker, s.cell) is OpenRequest;
    let paused = |s: FetchSystem| fetch_action(s.worker, s.cell) is Pause;
    let first = seq![FetchEvent::Resumed];
    let downs = link_down(polls);
    let last = seq![FetchEvent::LinkStatus { up: true }];
    let looking = FetchSystem {
        worker: FetchModel { state: FetchState::AwaitingLink(LinkWait::Checking), ..start.worker },
        cell: start.cell,
    };
    assert(first.drop_last().len() == 0);
    assert(run(next, start, first.drop_last()) == start);
    assert(tally(next, opened, start, first.drop_last()) == 0);
    assert(tally(next, paused, start, first.drop_last()) == 0);
    assert(run(next, start, first) == looking);
    lemma_link_down(looking, polls);
    lemma_run_concat(next, start, first, downs);
    lemma_tally_concat(next, opened, start, first, downs);
    lemma_tally_concat(next, paused, start, first, downs);
    lemma_run_concat(next, start, first + downs, last);
    lemma_tally_concat(next, opened, start, first + downs, last);
    lemma_tally_concat(next, paused, start, first + downs, last);
    assert(last.drop_last().len() == 0);
    assert(run(next, looking, last.drop_last()) == looking);
    assert(tally(next, opened, looking, last.drop_last()) == 0);
    assert(tally(next, paused, looking, last.drop_last()) == 0);
    assert(run(next, looking, last) == FetchSystem {
        worker: FetchModel { state: FetchState::RequestBuilding, ..start.worker },
        cell: start.cell,
    });
}

/// A fetch that fails, at whatever point, leaves the worker parked on an
/// empty signal, ready for the next press.
pub proof fn lemma_failure_leads_back_to_waiting(start: FetchSystem)
    ensures
        ({
            let end = fetch_run(start, seq![FetchEvent::Failed, FetchEvent::Resumed]);
            &&& end.worker == FetchModel { state: FetchState::AwaitingSignal, ..start.worker }
            &&& end.cell == SignalModel { held: None, parked: true }
            &&& fetch_action(end.worker, end.cell) is Park
        }),
{
    let next = |s: FetchSystem, e: FetchEvent| fetch_turn(s, e);
    let lead2 = seq![FetchEvent::Failed, FetchEvent::Resumed];
    let lead1 = lead2.drop_last();
    let lead0 = lead1.drop_last();
    assert(lead0.len() == 0);
    assert(run(next, start, lead0) == start);
    assert(run(next, start, lead1) == fetch_turn(start, FetchEvent::Failed));
    assert(run(next, start, lead2) == fetch_turn(run(next, start, lead1), FetchEvent::Resumed));
}

} // verus!
