//! The link manager: keeps the radio associated with the configured access
//! point, and tries again after every failure.

use vstd::prelude::*;
use crate::trace::{lemma_run_concat, lemma_tally_concat, run, tally};
use crate::config::{LinkConfig, LinkIdentity};

verus! {

/// What the manager is busy with while the radio is being brought up.
#[derive(Clone, Copy, Debug, PartialEq, Eq, Structural)]
pub enum StartStep {
    /// The radio has been asked whether it is started.
    Probing,
    /// The client configuration is being applied.
    Configuring,
    /// The radio is starting.
    Powering,
    /// An association attempt failed; the manager rests before it looks at
    /// the radio again.
    BackingOff,
}

/// The state of the link as the manager knows it. There is no final state.
#[derive(Clone, Copy, Debug, PartialEq, Eq, Structural)]
pub enum LinkState {
    /// Nothing has been done yet.
    Idle,
    /// The radio is being brought up, or looked at again after a failure.
    Starting(StartStep),
    /// The radio is started and not yet associating.
    Started,
    /// An association attempt is in flight.
    Associating,
    /// The last association attempt succeeded. The manager then goes round
    /// again: an attempt on a link that is still up stays pending, and one
    /// that fails tells that the link was lost.
    Associated,
}

/// What the manager asks of its driver. Each operation is answered by one
/// [`LinkEvent`].
#[derive(Clone, Copy, Debug, PartialEq, Eq, Structural)]
pub enum LinkAction {
    /// Go on at once; answered by `Resumed`.
    Proceed,
    /// Ask the radio whether it is started; answered by `Status`.
    QueryStarted,
    /// Apply the client configuration held by the manager; answered by
    /// `Configured`.
    Configure,
    /// Start the radio; answered by `RadioStarted`.
    StartRadio,
    /// Try to associate; answered by `AssociationSucceeded` or
    /// `AssociationFailed`.
    Associate,
    /// Sleep; answered by `BackoffElapsed`.
    Backoff { millis: u64 },
}

/// What the driver tells the manager: the outcome of the operation it was
/// last asked to perform.
#[derive(Clone, Copy, Debug, PartialEq, Eq, Structural)]
pub enum LinkEvent {
    /// The manager runs again after yielding.
    Resumed,
    /// The radio is started, or not.
    Status { started: bool },
    /// The configuration was applied; `accepted` is false when the radio
    /// reported an error.
    Configured { accepted: bool },
    /// The radio is started.
    RadioStarted,
    /// The association attempt succeeded.
    AssociationSucceeded,
    /// The association attempt failed.
    AssociationFailed,
    /// The pause after a failure is over.
    BackoffElapsed,
}

/// The manager's transition.
///
/// A radio that is already started is not configured again. An error in
/// applying the configuration does not stop the manager: it goes on to start
/// the radio. A failed attempt leads to a pause and then back to the look at
/// the radio, however many attempts have failed before. An outcome that does
/// not answer the operation in flight leads back to that look as well.
pub open spec fn link_next(state: LinkState, event: LinkEvent) -> LinkState {
    match (state, event) {
        (LinkState::Idle, LinkEvent::Resumed) => LinkState::Starting(StartStep::Probing),
        (LinkState::Starting(StartStep::Probing), LinkEvent::Status { started }) => if started {
            LinkState::Started
        } else {
            LinkState::Starting(StartStep::Configuring)
        },
        (LinkState::Starting(StartStep::Configuring), LinkEvent::Configured { accepted }) => {
            LinkState::Starting(StartStep::Powering)
        },
        (LinkState::Starting(StartStep::Powering), LinkEvent::RadioStarted) => LinkState::Started,
        (LinkState::Starting(StartStep::BackingOff), LinkEvent::BackoffElapsed) => {
            LinkState::Starting(StartStep::Probing)
        },
        (LinkState::Started, LinkEvent::Resumed) => LinkState::Associating,
        (LinkState::Associating, LinkEvent::AssociationSucceeded) => LinkState::Associated,
        (LinkState::Associating, LinkEvent::AssociationFailed) => LinkState::Starting(
            StartStep::BackingOff,
        ),
        _ => LinkState::Starting(StartStep::Probing),
    }
}

/// The operation that goes with each state: the manager asks for it on
/// entering the state.
pub open spec fn link_action(state: LinkState, backoff_millis: u64) -> LinkAction {
    match state {
        LinkState::Idle => LinkAction::Proceed,
        LinkState::Starting(StartStep::Probing) => LinkAction::QueryStarted,
        LinkState::Starting(StartStep::Configuring) => LinkAction::Configure,
        LinkState::Starting(StartStep::Powering) => LinkAction::StartRadio,
        LinkState::Starting(StartStep::BackingOff) => LinkAction::Backoff {
            millis: backoff_millis,
        },
        LinkState::Started => LinkAction::Proceed,
        LinkState::Associating => LinkAction::Associate,
        LinkState::Associated => LinkAction::Proceed,
    }
}

/// Whether the manager is suspended while the operation is performed, so
/// that other tasks run.
pub open spec fn link_suspends(action: LinkAction) -> bool {
    action is StartRadio || action is Associate || action is Backoff
}

/// Whether `event` is an outcome that `action` can have.
pub open spec fn link_answers(action: LinkAction, event: LinkEvent) -> bool {
    match action {
        LinkAction::Proceed => event is Resumed,
        LinkAction::QueryStarted => event is Status,
        LinkAction::Configure => event is Configured,
        LinkAction::StartRadio => event is RadioStarted,
        LinkAction::Associate => event is AssociationSucceeded || event is AssociationFailed,
        LinkAction::Backoff { millis } => event is BackoffElapsed,
    }
}

/// The manager as its contracts see it.
pub ghost struct LinkModel {
    pub state: LinkState,
    /// The identity the radio is configured with.
    pub identity: LinkIdentity,
    /// Pause after a failed attempt, in milliseconds.
    pub backoff_millis: u64,
}

/// The link manager. It owns the identity of the network to join.
#[derive(Debug)]
pub struct LinkManager {
    state: LinkState,
    config: LinkConfig,
    backoff_millis: u64,
}

impl View for LinkManager {
    type V = LinkModel;

    closed spec fn view(&self) -> LinkModel {
        LinkModel {
            state: self.state,
            identity: self.config@,
            backoff_millis: self.backoff_millis,
        }
    }
}

impl LinkManager {
    /// A manager that has done nothing yet.
    pub fn new(config: LinkConfig, backoff_millis: u64) -> (m: LinkManager)
        ensures
            m@ == (LinkModel { state: LinkState::Idle, identity: config@, backoff_millis }),
    {
        LinkManager { state: LinkState::Idle, config, backoff_millis }
    }

    /// Takes the outcome of the operation in flight and answers with the
    /// next operation. The first call is made with `Resumed`.
    pub fn step(&mut self, event: LinkEvent) -> (action: LinkAction)
        ensures
            final(self)@ == (LinkModel {
                state: link_next(old(self)@.state, event),
                ..old(self)@
            }),
            action == link_action(final(self)@.state, final(self)@.backoff_millis),
    {
        let next = match self.state {
            LinkState::Idle => match event {
                LinkEvent::Resumed => LinkState::Starting(StartStep::Probing),
                _ => LinkState::Starting(StartStep::Probing),
            },
            LinkState::Starting(StartStep::Probing) => match event {
                LinkEvent::Status { started: true } => LinkState::Started,
                LinkEvent::Status { started: false } => LinkState::Starting(StartStep::Configuring),
                _ => LinkState::Starting(StartStep::Probing),
            },
            LinkState::Starting(StartStep::Configuring) => match event {
                LinkEvent::Configured { accepted: _ } => LinkState::Starting(StartStep::Powering),
                _ => LinkState::Starting(StartStep::Probing),
            },
            LinkState::Starting(StartStep::Powering) => match event {
                LinkEvent::RadioStarted => LinkState::Started,
                _ => LinkState::Starting(StartStep::Probing),
            },
            LinkState::Starting(StartStep::BackingOff) => LinkState::Starting(StartStep::Probing),
            LinkState::Started => match event {
                LinkEvent::Resumed => LinkState::Associating,
                _ => LinkState::Starting(StartStep::Probing),
            },
            LinkState::Associating => match event {
                LinkEvent::AssociationSucceeded => LinkState::Associated,
                LinkEvent::AssociationFailed => LinkState::Starting(StartStep::BackingOff),
                _ => LinkState::Starting(StartStep::Probing),
            },
            LinkState::Associated => LinkState::Starting(StartStep::Probing),
        };
        self.state = next;
        self.action()
    }

    /// The operation that goes with the current state.
    pub fn action(&self) -> (action: LinkAction)
        ensures
            action == link_action(self@.state, self@.backoff_millis),
    {
        match self.state {
            LinkState::Idle => LinkAction::Proceed,
            LinkState::Starting(StartStep::Probing) => LinkAction::QueryStarted,
            LinkState::Starting(StartStep::Configuring) => LinkAction::Configure,
            LinkState::Starting(StartStep::Powering) => LinkAction::StartRadio,
            LinkState::Starting(StartStep::BackingOff) => LinkAction::Backoff {
                millis: self.backoff_millis,
            },
            LinkState::Started => LinkAction::Proceed,
            LinkState::Associating => LinkAction::Associate,
            LinkState::Associated => LinkAction::Proceed,
        }
    }

    /// The state of the link.
    pub fn state(&self) -> (s: LinkState)
        ensures
            s == self@.state,
    {
        self.state
    }

    /// The identity to configure the radio with.
    pub fn config(&self) -> (c: &LinkConfig)
        ensures
            c@ == self@.identity,
    {
        &self.config
    }
}

/// The state the manager reaches from `start` after `events`.
pub open spec fn link_run(start: LinkState, events: Seq<LinkEvent>) -> LinkState {
    run(|s: LinkState, e: LinkEvent| link_next(s, e), start, events)
}

/// How many association attempts the manager asks for on its way from
/// `start` through `events`.
pub open spec fn attempts_made(start: LinkState, events: Seq<LinkEvent>) -> nat {
    tally(
        |s: LinkState, e: LinkEvent| link_next(s, e),
        |s: LinkState| link_action(s, 0) is Associate,
        start,
        events,
    )
}

/// How many pauses the manager asks for on its way from `start` through
/// `events`.
pub open spec fn backoffs_taken(start: LinkState, events: Seq<LinkEvent>) -> nat {
    tally(
        |s: LinkState, e: LinkEvent| link_next(s, e),
        |s: LinkState| link_action(s, 0) is Backoff,
        start,
        events,
    )
}

/// What a manager that has done nothing yet is told until its first attempt
/// is in flight, when the radio was not started: it is resumed, finds the
/// radio not started, applies the configuration (accepted or not), starts
/// the radio and is resumed again.
pub open spec fn bring_up(accepted: bool) -> Seq<LinkEvent> {
    seq![
        LinkEvent::Resumed,
        LinkEvent::Status { started: false },
        LinkEvent::Configured { accepted },
        LinkEvent::RadioStarted,
        LinkEvent::Resumed,
    ]
}

/// What the manager is told from the failure of one attempt until the next
/// attempt is in flight: the failure, the end of the pause, a radio that is
/// still started, and the resumption.
pub open spec fn failed_attempt() -> Seq<LinkEvent> {
    seq![
        LinkEvent::AssociationFailed,
        LinkEvent::BackoffElapsed,
        LinkEvent::Status { started: true },
        LinkEvent::Resumed,
    ]
}

/// `n` failed attempts in a row.
pub open spec fn failed_attempts(n: nat) -> Seq<LinkEvent>
    decreases n,
{
    if n == 0 {
        Seq::empty()
    } else {
        failed_attempts((n - 1) as nat) + failed_attempt()
    }
}

/// Bringing the radio up ends with the first attempt in flight, whether or
/// not the radio accepted the configuration.
pub proof fn lemma_bring_up(accepted: bool)
    ensures
        link_run(LinkState::Idle, bring_up(accepted)) == LinkState::Associating,
        attempts_made(LinkState::Idle, bring_up(accepted)) == 1,
        backoffs_taken(LinkState::Idle, bring_up(accepted)) == 0,
{
    let next = |s: LinkState, e: LinkEvent| link_next(s, e);
    let tried = |s: LinkState| link_action(s, 0) is Associate;
    let paused = |s: LinkState| link_action(s, 0) is Backoff;
    let start = LinkState::Idle;
    let lead5 = bring_up(accepted);
    let lead4 = lead5.drop_last();
    let lead3 = lead4.drop_last();
    let lead2 = lead3.drop_last();
    let lead1 = lead2.drop_last();
    let lead0 = lead1.drop_last();
    assert(lead0.len() == 0);
    assert(run(next, start, lead0) == start);
    assert(tally(next, tried, start, lead0) == 0);
    assert(tally(next, paused, start, lead0) == 0);
    assert(run(next, start, lead1) == LinkState::Starting(StartStep::Probing));
    assert(run(next, start, lead2) == LinkState::Starting(StartStep::Configuring));
    assert(run(next, start, lead3) == LinkState::Starting(StartStep::Powering));
    assert(run(next, start, lead4) == LinkState::Started);
    assert(run(next, start, lead5) == LinkState::Associating);
    assert(tally(next, tried, start, lead1) == 0);
    assert(tally(next, tried, start, lead2) == 0);
    assert(tally(next, tried, start, lead3) == 0);
    assert(tally(next, tried, start, lead4) == 0);
    assert(tally(next, paused, start, lead1) == 0);
    assert(tally(next, paused, start, lead2) == 0);
    assert(tally(next, paused, start, lead3) == 0);
    assert(tally(next, paused, start, lead4) == 0);
}

/// A failed attempt is followed by exactly one pause and exactly one new
/// attempt.
pub proof fn lemma_failed_attempt()
    ensures
        link_run(LinkState::Associating, failed_attempt()) == LinkState::Associating,
        attempts_made(LinkState::Associating, failed_attempt()) == 1,
        backoffs_taken(LinkState::Associating, failed_attempt()) == 1,
{
    let next = |s: LinkState, e: LinkEvent| link_next(s, e);
    let tried = |s: LinkState| link_action(s, 0) is Associate;
    let paused = |s: LinkState| link_action(s, 0) is Backoff;
    let start = LinkState::Associating;
    let lead4 = failed_attempt();
    let lead3 = lead4.drop_last();
    let lead2 = lead3.drop_last();
    let lead1 = lead2.drop_last();
    let lead0 = lead1.drop_last();
    assert(lead0.len() == 0);
    assert(run(next, start, lead0) == start);
    assert(tally(next, tried, start, lead0) == 0);
    assert(tally(next, paused, start, lead0) == 0);
    assert(run(next, start, lead1) == LinkState::Starting(StartStep::BackingOff));
    assert(run(next, start, lead2) == LinkState::Starting(StartStep::Probing));
    assert(run(next, start, lead3) == LinkState::Started);
    assert(run(next, start, lead4) == LinkState::Associating);
    assert(tally(next, tried, start, lead1) == 0);
    assert(tally(next, tried, start, lead2) == 0);
    assert(tally(next, tried, start, lead3) == 0);
    assert(tally(next, paused, start, lead1) == 1);
    assert(tally(next, paused, start, lead2) == 1);
    assert(tally(next, paused, start, lead3) == 1);
}

/// However many attempts fail in a row, the manager pauses once after each
/// and has the next attempt in flight afterwards.
pub proof fn lemma_failed_attempts(n: nat)
    ensures
        link_run(LinkState::Associating, failed_attempts(n)) == LinkState::Associating,
        attempts_made(LinkState::Associating, failed_attempts(n)) == n,
        backoffs_taken(LinkState::Associating, failed_attempts(n)) == n,
    decreases n,
{
    if n > 0 {
        let next = |s: LinkState, e: LinkEvent| link_next(s, e);
        let tried = |s: LinkState| link_action(s, 0) is Associate;
        let paused = |s: LinkState| link_action(s, 0) is Backoff;
        let start = LinkState::Associating;
        let before = failed_attempts((n - 1) as nat);
        lemma_failed_attempts((n - 1) as nat);
        lemma_failed_attempt();
        lemma_run_concat(next, start, before, failed_attempt());
        lemma_tally_concat(next, tried, start, before, failed_attempt());
        lemma_tally_concat(next, paused, start, before, failed_attempt());
    }
}

/// The manager never gives up: after `n` failed attempts, for any `n`, a
/// successful one leaves the link associated. By then the manager has asked
/// for `n + 1` attempts and `n` pauses.
pub proof fn lemma_retries_until_associated(n: nat, accepted: bool)
    ensures
        ({
            let events = bring_up(accepted) + failed_attempts(n)
                + seq![LinkEvent::AssociationSucceeded];
            &&& link_run(LinkState::Idle, events) == LinkState::Associated
            &&& attempts_made(LinkState::Idle, events) == n + 1
            &&& backoffs_taken(LinkState::Idle, events) == n
        }),
{
    let next = |s: LinkState, e: LinkEvent| link_next(s, e);
    let tried = |s: LinkState| link_action(s, 0) is Associate;
    let paused = |s: LinkState| link_action(s, 0) is Backoff;
    let start = LinkState::Idle;
    let up = bring_up(accepted);
    let fails = failed_attempts(n);
    let last = seq![LinkEvent::AssociationSucceeded];
    lemma_bring_up(accepted);
    lemma_failed_attempts(n);
    lemma_run_concat(next, start, up, fails);
    lemma_tally_concat(next, tried, start, up, fails);
    lemma_tally_concat(next, paused, start, up, fails);
    lemma_run_concat(next, start, up + fails, last);
    lemma_tally_concat(next, tried, start, up + fails, last);
    lemma_tally_concat(next, paused, start, up + fails, last);
    assert(last.drop_last().len() == 0);
    assert(run(next, LinkState::Associating, last.drop_last()) == LinkState::Associating);
    assert(tally(next, tried, LinkState::Associating, last.drop_last()) == 0);
    assert(tally(next, paused, LinkState::Associating, last.drop_last()) == 0);
    assert(run(next, LinkState::Associating, last) == LinkState::Associated);
    assert(tally(next, tried, LinkState::Associating, last) == 0);
    assert(tally(next, paused, LinkState::Associating, last) == 0);
}

/// The manager does not hog the processor: of any four operations in a row,
/// one suspends it.
pub proof fn lemma_manager_suspends(
    state: LinkState,
    first: LinkEvent,
    second: LinkEvent,
    third: LinkEvent,
)
    requires
        link_answers(link_action(state, 0), first),
        link_answers(link_action(link_next(state, first), 0), second),
        link_answers(link_action(link_next(link_next(state, first), second), 0), third),
    ensures
        ({
            let one = link_next(state, first);
            let two = link_next(one, second);
            let three = link_next(two, third);
            ||| link_suspends(link_action(state, 0))
            ||| link_suspends(link_action(one, 0))
            ||| link_suspends(link_action(two, 0))
            ||| link_suspends(link_action(three, 0))
        }),
{
}

/// The outcome that lets the manager get on: the radio answers as `started`
/// and `accepted` say, and everything else succeeds.
pub open spec fn cooperative(action: LinkAction, started: bool, accepted: bool) -> LinkEvent {
    match action {
        LinkAction::Proceed => LinkEvent::Resumed,
        LinkAction::QueryStarted => LinkEvent::Status { started },
        LinkAction::Configure => LinkEvent::Configured { accepted },
        LinkAction::StartRadio => LinkEvent::RadioStarted,
        LinkAction::Associate => LinkEvent::AssociationSucceeded,
        LinkAction::Backoff { millis } => LinkEvent::BackoffElapsed,
    }
}

/// Where the manager is after at most `steps` operations that all end as
/// [`cooperative`] says, stopping once the link is associated.
pub open spec fn settle(state: LinkState, started: bool, accepted: bool, steps: nat) -> LinkState
    decreases steps,
{
    if steps == 0 || state is Associated {
        state
    } else {
        settle(
            link_next(state, cooperative(link_action(state, 0), started, accepted)),
            started,
            accepted,
            (steps - 1) as nat,
        )
    }
}

/// No state is a dead end: wherever the manager stands, and whatever led it
/// there, six operations that succeed are enough to associate.
pub proof fn lemma_association_within_reach(state: LinkState, started: bool, accepted: bool)
    ensures
        settle(state, started, accepted, 6) is Associated,
{
    reveal_with_fuel(settle, 7);
}

} // verus!
