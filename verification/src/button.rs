//! The button monitor: turns falling edges on the input pin into intent
//! signals, after a debounce.

use vstd::prelude::*;
use crate::signal::{signalled, IntentSignal, SignalModel};
use crate::trace::{lemma_run_concat, lemma_tally_concat, run, tally};

verus! {

/// Where the monitor stands.
#[derive(Clone, Copy, Debug, PartialEq, Eq, Structural)]
pub enum DebounceState {
    /// Parked until the pin falls.
    WaitingForEdge,
    /// The pin fell; the debounce window is running.
    Debouncing,
    /// The pin was still low when the window closed: a press. The intent
    /// signal has been raised.
    Confirmed,
    /// The pin was high again when the window closed: no press.
    Bounced,
}

/// What the monitor asks of its driver. Each operation is answered by one
/// [`ButtonEvent`].
#[derive(Clone, Copy, Debug, PartialEq, Eq, Structural)]
pub enum ButtonAction {
    /// Wait for a falling edge on the pin; answered by `FallingEdge`.
    AwaitEdge,
    /// Sleep for the debounce window, then sample the pin; answered by
    /// `WindowElapsed`.
    Debounce { millis: u64 },
    /// Wake the task that is parked on the intent signal; answered by
    /// `Resumed`.
    Wake,
    /// Go on at once; answered by `Resumed`.
    Proceed,
}

/// What the driver tells the monitor: the outcome of the operation it was
/// last asked to perform.
#[derive(Clone, Copy, Debug, PartialEq, Eq, Structural)]
pub enum ButtonEvent {
    /// The operation is done and has nothing to tell.
    Resumed,
    /// The pin fell.
    FallingEdge,
    /// The debounce window closed, and the pin was low, or not.
    WindowElapsed { pin_low: bool },
}

/// The monitor's transition. A press is confirmed only by a pin that is low
/// when the window closes. Whatever else happens, the monitor goes back to
/// waiting for an edge.
pub open spec fn button_next(state: DebounceState, event: ButtonEvent) -> DebounceState {
    match (state, event) {
        (DebounceState::WaitingForEdge, ButtonEvent::FallingEdge) => DebounceState::Debouncing,
        (DebounceState::Debouncing, ButtonEvent::WindowElapsed { pin_low }) => if pin_low {
            DebounceState::Confirmed
        } else {
            DebounceState::Bounced
        },
        _ => DebounceState::WaitingForEdge,
    }
}

/// What a transition into `after` does to the intent signal: a confirmed
/// press raises it, and nothing else touches it.
pub open spec fn button_cell(after: DebounceState, cell: SignalModel) -> SignalModel {
    if after is Confirmed {
        signalled(cell, true)
    } else {
        cell
    }
}

/// The operation the monitor asks for on entering `after`, when the intent
/// signal was `cell` before. The consumer is woken only by a press that
/// finds it parked.
pub open spec fn button_action(
    after: DebounceState,
    debounce_millis: u64,
    cell: SignalModel,
) -> ButtonAction {
    match after {
        DebounceState::WaitingForEdge => ButtonAction::AwaitEdge,
        DebounceState::Debouncing => ButtonAction::Debounce { millis: debounce_millis },
        DebounceState::Confirmed => if cell.parked {
            ButtonAction::Wake
        } else {
            ButtonAction::Proceed
        },
        DebounceState::Bounced => ButtonAction::Proceed,
    }
}

/// Whether the monitor is suspended while the operation is performed, so
/// that other tasks run.
pub open spec fn button_suspends(action: ButtonAction) -> bool {
    action is AwaitEdge || action is Debounce
}

/// Whether `event` is an outcome that `action` can have.
pub open spec fn button_answers(action: ButtonAction, event: ButtonEvent) -> bool {
    match action {
        ButtonAction::AwaitEdge => event is FallingEdge,
        ButtonAction::Debounce { millis } => event is WindowElapsed,
        ButtonAction::Wake => event is Resumed,
        ButtonAction::Proceed => event is Resumed,
    }
}

/// The monitor as its contracts see it.
pub ghost struct ButtonModel {
    pub state: DebounceState,
    /// Length of the debounce window, in milliseconds.
    pub debounce_millis: u64,
}

/// The button monitor.
#[derive(Debug)]
pub struct ButtonMonitor {
    state: DebounceState,
    debounce_millis: u64,
}

impl View for ButtonMonitor {
    type V = ButtonModel;

    closed spec fn view(&self) -> ButtonModel {
        ButtonModel { state: self.state, debounce_millis: self.debounce_millis }
    }
}

impl ButtonMonitor {
    /// A monitor that waits for an edge.
    pub fn new(debounce_millis: u64) -> (m: ButtonMonitor)
        ensures
            m@ == (ButtonModel { state: DebounceState::WaitingForEdge, debounce_millis }),
    {
        ButtonMonitor { state: DebounceState::WaitingForEdge, debounce_millis }
    }

    /// Takes the outcome of the operation in flight, raises the intent
    /// signal if that outcome confirms a press, and answers with the next
    /// operation. The first call is made with `Resumed`.
    pub fn step(&mut self, event: ButtonEvent, signal: &mut IntentSignal) -> (action: ButtonAction)
        ensures
            final(self)@ == (ButtonModel {
                state: button_next(old(self)@.state, event),
                ..old(self)@
            }),
            final(signal)@ == button_cell(final(self)@.state, old(signal)@),
            action == button_action(
                final(self)@.state,
                final(self)@.debounce_millis,
                old(signal)@,
            ),
    {
        let next = match event {
            ButtonEvent::FallingEdge => match self.state {
                DebounceState::WaitingForEdge => DebounceState::Debouncing,
                _ => DebounceState::WaitingForEdge,
            },
            ButtonEvent::WindowElapsed { pin_low } => match self.state {
                DebounceState::Debouncing => if pin_low {
                    DebounceState::Confirmed
                } else {
                    DebounceState::Bounced
                },
                _ => DebounceState::WaitingForEdge,
            },
            ButtonEvent::Resumed => DebounceState::WaitingForEdge,
        };
        self.state = next;
        match next {
            DebounceState::WaitingForEdge => ButtonAction::AwaitEdge,
            DebounceState::Debouncing => ButtonAction::Debounce { millis: self.debounce_millis },
            DebounceState::Confirmed => if signal.signal(true) {
                ButtonAction::Wake
            } else {
                ButtonAction::Proceed
            },
            DebounceState::Bounced => ButtonAction::Proceed,
        }
    }

    /// Where the monitor stands.
    pub fn state(&self) -> (s: DebounceState)
        ensures
            s == self@.state,
    {
        self.state
    }

    /// Length of the debounce window, in milliseconds.
    pub fn debounce_millis(&self) -> (millis: u64)
        ensures
            millis == self@.debounce_millis,
    {
        self.debounce_millis
    }
}

/// The monitor together with the intent signal it raises, and the operation
/// it asked for last.
pub ghost struct ButtonSystem {
    pub monitor: ButtonModel,
    pub cell: SignalModel,
    pub action: ButtonAction,
}

/// One step of the monitor, as [`ButtonMonitor::step`] performs it.
pub open spec fn button_turn(sys: ButtonSystem, event: ButtonEvent) -> ButtonSystem {
    let after = button_next(sys.monitor.state, event);
    ButtonSystem {
        monitor: ButtonModel { state: after, ..sys.monitor },
        cell: button_cell(after, sys.cell),
        action: button_action(after, sys.monitor.debounce_millis, sys.cell),
    }
}

/// A monitor that waits for an edge, beside a signal that is `cell`.
pub open spec fn button_start(debounce_millis: u64, cell: SignalModel) -> ButtonSystem {
    ButtonSystem {
        monitor: ButtonModel { state: DebounceState::WaitingForEdge, debounce_millis },
        cell,
        action: ButtonAction::AwaitEdge,
    }
}

/// Where the monitor and the signal are after `events`.
pub open spec fn button_run(start: ButtonSystem, events: Seq<ButtonEvent>) -> ButtonSystem {
    run(|s: ButtonSystem, e: ButtonEvent| button_turn(s, e), start, events)
}

/// How often the monitor raises the intent signal on its way from `start`
/// through `events`.
pub open spec fn signals_raised(start: ButtonSystem, events: Seq<ButtonEvent>) -> nat {
    tally(
        |s: ButtonSystem, e: ButtonEvent| button_turn(s, e),
        |s: ButtonSystem| s.monitor.state is Confirmed,
        start,
        events,
    )
}

/// How often the monitor asks for the consumer to be woken on its way from
/// `start` through `events`.
pub open spec fn wakes_asked(start: ButtonSystem, events: Seq<ButtonEvent>) -> nat {
    tally(
        |s: ButtonSystem, e: ButtonEvent| button_turn(s, e),
        |s: ButtonSystem| s.action is Wake,
        start,
        events,
    )
}

/// The monitor does not hog the processor: of any two operations in a row,
/// one suspends it.
pub proof fn lemma_monitor_suspends(sys: ButtonSystem, event: ButtonEvent)
    requires
        button_answers(sys.action, event),
    ensures
        button_suspends(sys.action) || button_suspends(button_turn(sys, event).action),
{
}

/// What the monitor is told in the course of one press: the pin falls, the
/// window closes with the pin low or not, and the monitor is resumed.
pub open spec fn press(pin_low: bool) -> Seq<ButtonEvent> {
    seq![ButtonEvent::FallingEdge, ButtonEvent::WindowElapsed { pin_low }, ButtonEvent::Resumed]
}

/// One press after the other; `levels` tells for each whether the pin was
/// low when its window closed.
pub open spec fn presses(levels: Seq<bool>) -> Seq<ButtonEvent>
    decreases levels.len(),
{
    if levels.len() == 0 {
        Seq::empty()
    } else {
        presses(levels.drop_last()) + press(levels.last())
    }
}

/// How many of `levels` are low.
pub open spec fn held(levels: Seq<bool>) -> nat
    decreases levels.len(),
{
    if levels.len() == 0 {
        0
    } else if levels.last() {
        held(levels.drop_last()) + 1
    } else {
        held(levels.drop_last())
    }
}

/// A press whose pin is low when the window closes raises the signal exactly
/// once, and wakes the consumer if it was parked; one whose pin is high
/// again raises none and leaves the signal as it was. Either way the monitor
/// is back at waiting for an edge.
pub proof fn lemma_press(debounce_millis: u64, cell: SignalModel, pin_low: bool)
    ensures
        button_run(button_start(debounce_millis, cell), press(pin_low)) == button_start(
            debounce_millis,
            if pin_low {
                signalled(cell, true)
            } else {
                cell
            },
        ),
        signals_raised(button_start(debounce_millis, cell), press(pin_low)) == if pin_low {
            1nat
        } else {
            0nat
        },
        wakes_asked(button_start(debounce_millis, cell), press(pin_low)) == if pin_low && cell.parked {
            1nat
        } else {
            0nat
        },
{
    let next = |s: ButtonSystem, e: ButtonEvent| button_turn(s, e);
    let raised = |s: ButtonSystem| s.monitor.state is Confirmed;
    let woken = |s: ButtonSystem| s.action is Wake;
    let start = button_start(debounce_millis, cell);
    let lead3 = press(pin_low);
    let lead2 = lead3.drop_last();
    let lead1 = lead2.drop_last();
    let lead0 = lead1.drop_last();
    assert(lead0.len() == 0);
    assert(run(next, start, lead0) == start);
    assert(tally(next, raised, start, lead0) == 0);
    assert(tally(next, woken, start, lead0) == 0);
    assert(run(next, start, lead1) == ButtonSystem {
        monitor: ButtonModel { state: DebounceState::Debouncing, debounce_millis },
        cell,
        action: ButtonAction::Debounce { millis: debounce_millis },
    });
    assert(tally(next, raised, start, lead1) == 0);
    assert(tally(next, woken, start, lead1) == 0);
    assert(run(next, start, lead2) == button_turn(run(next, start, lead1), lead2.last()));
    assert(tally(next, raised, start, lead2) == if pin_low {
        1nat
    } else {
        0nat
    });
    assert(tally(next, woken, start, lead2) == if pin_low && cell.parked {
        1nat
    } else {
        0nat
    });
    assert(run(next, start, lead3) == button_turn(run(next, start, lead2), lead3.last()));
}

/// Over any series of presses the signal is raised once for each press that
/// was held through its window, and never for one that was not. If any was
/// held the signal ends up raised, and a consumer that was parked has been
/// woken exactly once; if none was, the signal is untouched.
pub proof fn lemma_one_signal_per_held_press(
    debounce_millis: u64,
    cell: SignalModel,
    levels: Seq<bool>,
)
    ensures
        button_run(button_start(debounce_millis, cell), presses(levels)) == button_start(
            debounce_millis,
            if held(levels) > 0 {
                signalled(cell, true)
            } else {
                cell
            },
        ),
        signals_raised(button_start(debounce_millis, cell), presses(levels)) == held(levels),
        wakes_asked(button_start(debounce_millis, cell), presses(levels)) == if held(levels) > 0 && cell.parked {
            1nat
        } else {
            0nat
        },
    decreases levels.len(),
{
    let next = |s: ButtonSystem, e: ButtonEvent| button_turn(s, e);
    let raised = |s: ButtonSystem| s.monitor.state is Confirmed;
    let woken = |s: ButtonSystem| s.action is Wake;
    let start = button_start(debounce_millis, cell);
    if levels.len() > 0 {
        let earlier = levels.drop_last();
        let between = if held(earlier) > 0 {
            signalled(cell, true)
        } else {
            cell
        };
        lemma_one_signal_per_held_press(debounce_millis, cell, earlier);
        lemma_press(debounce_millis, between, levels.last());
        lemma_run_concat(next, start, presses(earlier), press(levels.last()));
        lemma_tally_concat(next, raised, start, presses(earlier), press(levels.last()));
        lemma_tally_concat(next, woken, start, presses(earlier), press(levels.last()));
    } else {
        assert(run(next, start, presses(levels)) == start);
    }
}

} // verus!
