//! The heartbeat: a reminder to press the button, repeated forever.

use vstd::prelude::*;

verus! {

/// What the heartbeat asks of its driver.
#[derive(Clone, Copy, Debug, PartialEq, Eq, Structural)]
pub enum HeartbeatAction {
    /// Emit the reminder.
    Remind,
    /// Sleep.
    Rest { millis: u64 },
}

/// The heartbeat as its contracts see it.
pub ghost struct HeartbeatModel {
    /// Whether the next operation is the reminder.
    pub reminder_due: bool,
    /// Pause after each reminder, in milliseconds.
    pub period_millis: u64,
}

/// The operation that the heartbeat asks for next.
pub open spec fn heartbeat_action(m: HeartbeatModel) -> HeartbeatAction {
    if m.reminder_due {
        HeartbeatAction::Remind
    } else {
        HeartbeatAction::Rest { millis: m.period_millis }
    }
}

/// The heartbeat after the operation that was due.
pub open spec fn heartbeat_next(m: HeartbeatModel) -> HeartbeatModel {
    HeartbeatModel { reminder_due: !m.reminder_due, ..m }
}

/// Whether the heartbeat is suspended while the operation is performed, so
/// that other tasks run.
pub open spec fn heartbeat_suspends(action: HeartbeatAction) -> bool {
    action is Rest
}

/// The heartbeat does not hog the processor: every reminder is followed by
/// a rest of the full period, and every rest by a reminder.
pub proof fn lemma_heartbeat_alternates(m: HeartbeatModel)
    ensures
        heartbeat_action(m) is Remind ==> heartbeat_action(heartbeat_next(m))
            == (HeartbeatAction::Rest { millis: m.period_millis }),
        heartbeat_action(m) is Rest ==> heartbeat_action(heartbeat_next(m)) is Remind,
        heartbeat_suspends(heartbeat_action(m)) || heartbeat_suspends(
            heartbeat_action(heartbeat_next(m)),
        ),
        heartbeat_next(heartbeat_next(m)) == m,
{
}

/// The heartbeat. It starts with a reminder and then alternates rests and
/// reminders.
#[derive(Debug)]
pub struct Heartbeat {
    reminder_due: bool,
    period_millis: u64,
}

impl View for Heartbeat {
    type V = HeartbeatModel;

    closed spec fn view(&self) -> HeartbeatModel {
        HeartbeatModel { reminder_due: self.reminder_due, period_millis: self.period_millis }
    }
}

impl Heartbeat {
    /// A heartbeat whose first operation is the reminder.
    pub fn new(period_millis: u64) -> (h: Heartbeat)
        ensures
            h@ == (HeartbeatModel { reminder_due: true, period_millis }),
    {
        Heartbeat { reminder_due: true, period_millis }
    }

    /// The next operation: the one that is due, after which the other one
    /// is due.
    pub fn step(&mut self) -> (action: HeartbeatAction)
        ensures
            action == heartbeat_action(old(self)@),
            final(self)@ == heartbeat_next(old(self)@),
    {
        let action = if self.reminder_due {
            HeartbeatAction::Remind
        } else {
            HeartbeatAction::Rest { millis: self.period_millis }
        };
        self.reminder_due = !self.reminder_due;
        action
    }
}

} // verus!
