//! The intent signal: a single-slot cell through which the button monitor
//! tells the fetch worker that a fetch is wanted.

use vstd::prelude::*;

verus! {

/// The cell as its contracts see it.
pub ghost struct SignalModel {
    /// The value that was signalled and not yet cleared, if any.
    pub held: Option<bool>,
    /// Whether the consumer found the cell empty and is parked on it.
    pub parked: bool,
}

/// The cell after `value` was signalled: it holds `value`, whatever it held
/// before, and nobody is parked any more.
pub open spec fn signalled(cell: SignalModel, value: bool) -> SignalModel {
    SignalModel { held: Some(value), parked: false }
}

/// The cell after the consumer asked for a value: the value stays, and the
/// consumer is parked exactly if there was none.
pub open spec fn waited(cell: SignalModel) -> SignalModel {
    SignalModel { held: cell.held, parked: cell.held is None }
}

/// The cell after it was cleared.
pub open spec fn cleared(cell: SignalModel) -> SignalModel {
    SignalModel { held: None, parked: cell.parked }
}

/// A cell that holds at most one value, for one producer and one consumer.
/// A new value replaces one that was not yet consumed; nothing is queued.
/// The cell never allocates.
#[derive(Debug)]
pub struct IntentSignal {
    held: Option<bool>,
    parked: bool,
}

impl View for IntentSignal {
    type V = SignalModel;

    closed spec fn view(&self) -> SignalModel {
        SignalModel { held: self.held, parked: self.parked }
    }
}

impl IntentSignal {
    /// An empty cell with nobody parked on it.
    pub fn new() -> (s: IntentSignal)
        ensures
            s@ == (SignalModel { held: None, parked: false }),
    {
        IntentSignal { held: None, parked: false }
    }

    /// Stores `value` in place of whatever the cell held. The result tells
    /// whether the consumer was parked and is to be woken now.
    pub fn signal(&mut self, value: bool) -> (wake: bool)
        ensures
            final(self)@ == signalled(old(self)@, value),
            wake == old(self)@.parked,
    {
        let wake = self.parked;
        self.held = Some(value);
        self.parked = false;
        wake
    }

    /// The consumer's side of waiting: hands out the value if there is one,
    /// and leaves it in the cell until [`IntentSignal::reset`]. With no
    /// value there the consumer is recorded as parked; it asks again when it
    /// is woken.
    pub fn poll_wait(&mut self) -> (value: Option<bool>)
        ensures
            value == old(self)@.held,
            final(self)@ == waited(old(self)@),
    {
        self.parked = self.held.is_none();
        self.held
    }

    /// Whether the cell holds a value.
    pub fn is_signalled(&self) -> (b: bool)
        ensures
            b == self@.held is Some,
    {
        self.held.is_some()
    }

    /// Empties the cell. On an empty cell this changes nothing.
    pub fn reset(&mut self)
        ensures
            final(self)@ == cleared(old(self)@),
            old(self)@.held is None ==> final(self)@ == old(self)@,
    {
        self.held = None;
    }
}

/// The cell after each of `values` was signalled in turn.
pub open spec fn after_burst(cell: SignalModel, values: Seq<bool>) -> SignalModel
    decreases values.len(),
{
    if values.len() == 0 {
        cell
    } else {
        signalled(after_burst(cell, values.drop_last()), values.last())
    }
}

/// How many of the signals of a burst tell the producer to wake the consumer.
pub open spec fn wakes_in_burst(cell: SignalModel, values: Seq<bool>) -> nat
    decreases values.len(),
{
    if values.len() == 0 {
        0
    } else {
        let before = wakes_in_burst(cell, values.drop_last());
        if after_burst(cell, values.drop_last()).parked {
            before + 1
        } else {
            before
        }
    }
}

/// Signals do not queue. However many are raised before the consumer runs,
/// the cell holds one value, the last; a parked consumer is woken once, by
/// the first of them; and one reset leaves the cell empty.
pub proof fn lemma_burst_leaves_one_value(cell: SignalModel, values: Seq<bool>)
    requires
        values.len() > 0,
    ensures
        after_burst(cell, values).held == Some(values.last()),
        !after_burst(cell, values).parked,
        wakes_in_burst(cell, values) == if cell.parked {
            1nat
        } else {
            0nat
        },
        cleared(after_burst(cell, values)).held is None,
    decreases values.len(),
{
    if values.len() > 1 {
        lemma_burst_leaves_one_value(cell, values.drop_last());
    } else {
        assert(values.drop_last().len() == 0);
        assert(after_burst(cell, values.drop_last()) == cell);
        assert(wakes_in_burst(cell, values.drop_last()) == 0);
    }
}

/// Clearing is idempotent: a second reset changes nothing, and neither does
/// a reset of a cell that was empty to begin with.
pub proof fn lemma_reset_is_idempotent(cell: SignalModel)
    ensures
        cleared(cleared(cell)) == cleared(cell),
        cell.held is None ==> cleared(cell) == cell,
{
}

} // verus!
