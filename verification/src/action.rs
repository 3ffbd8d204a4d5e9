//! The hardware actions a driver operation is made of, and the sequence that hands them out one
//! at a time to the executor that owns the hardware.
use vstd::prelude::*;

verus! {

/// One step of work on the panel's hardware.
#[derive(Debug, PartialEq, Eq)]
pub enum Action {
    /// Drive the data/command pin low: what follows on the bus is a command.
    DcLow,
    /// Drive the data/command pin high: what follows on the bus is data.
    DcHigh,
    /// Drive the reset pin low.
    ResetLow,
    /// Drive the reset pin high.
    ResetHigh,
    /// Wait the given number of milliseconds.
    DelayMs(u32),
    /// Wait until the busy pin goes high, that is until the panel is ready.
    WaitForBusyHigh,
    /// Write these bytes on the SPI bus.
    SpiWrite(Vec<u8>),
}

/// What an action is, with its bytes as a sequence.
pub enum ActionView {
    DcLow,
    DcHigh,
    ResetLow,
    ResetHigh,
    DelayMs(u32),
    WaitForBusyHigh,
    SpiWrite(Seq<u8>),
}

impl View for Action {
    type V = ActionView;

    open spec fn view(&self) -> ActionView {
        match self {
            Action::DcLow => ActionView::DcLow,
            Action::DcHigh => ActionView::DcHigh,
            Action::ResetLow => ActionView::ResetLow,
            Action::ResetHigh => ActionView::ResetHigh,
            Action::DelayMs(ms) => ActionView::DelayMs(*ms),
            Action::WaitForBusyHigh => ActionView::WaitForBusyHigh,
            Action::SpiWrite(bytes) => ActionView::SpiWrite(bytes@),
        }
    }
}

/// The views of a list of actions, in order.
pub open spec fn actions_view(actions: Seq<Action>) -> Seq<ActionView> {
    actions.map_values(|a: Action| a@)
}

/// A copy of the bytes of `data`.
pub fn copy_bytes(data: &[u8]) -> (v: Vec<u8>)
    ensures
        v@ == data@,
{
    let mut v: Vec<u8> = Vec::new();
    let mut i: usize = 0;
    while i < data.len()
        invariant
            i <= data@.len(),
            v@ == data@.subrange(0, i as int),
        decreases data@.len() - i,
    {
        v.push(data[i]);
        i = i + 1;
        assert(v@ =~= data@.subrange(0, i as int));
    }
    assert(v@ =~= data@);
    v
}

/// Appends the actions of `more` to `plan`.
pub fn append_actions(plan: &mut Vec<Action>, more: Vec<Action>)
    ensures
        actions_view(final(plan)@) == actions_view(old(plan)@) + actions_view(more@),
{
    let ghost added = more@;
    let mut more = more;
    plan.append(&mut more);
    assert(actions_view(plan@) =~= actions_view(old(plan)@) + actions_view(added));
}

/// What the executor is to do next.
pub enum Step<E> {
    /// Carry out this action, then hand its outcome to the rest of the sequence.
    Perform(Action, Sequence),
    /// The operation is over, with this result.
    Finished(Result<(), E>),
}

/// The actions of an operation that are still to be carried out.
///
/// The operation stops at the first action that fails, with that action's error.
pub struct Sequence {
    pending: Vec<Action>,
}

impl Sequence {
    /// The actions still to be carried out, in order.
    pub closed spec fn remaining(&self) -> Seq<ActionView> {
        actions_view(self.pending@)
    }

    /// A sequence that will carry out the actions of `plan` in order.
    pub fn new(plan: Vec<Action>) -> (s: Sequence)
        ensures
            s.remaining() == actions_view(plan@),
    {
        Sequence { pending: plan }
    }

    /// Takes the outcome of the action carried out last (`Ok(())` before the first one) and
    /// says what comes next: after a failure the operation is over with that failure; after a
    /// success the next action is handed out, or, when none is left, the operation is over
    /// without error.
    pub fn next<E>(self, outcome: Result<(), E>) -> (step: Step<E>)
        ensures
            match outcome {
                Err(e) => step == Step::<E>::Finished(Err(e)),
                Ok(_) => if self.remaining().len() == 0 {
                    step == Step::<E>::Finished(Ok(()))
                } else {
                    &&& step is Perform
                    &&& step->Perform_0@ == self.remaining()[0]
                    &&& step->Perform_1.remaining() == self.remaining().drop_first()
                },
            },
    {
        match outcome {
            Err(e) => Step::Finished(Err(e)),
            Ok(()) => {
                let mut pending = self.pending;
                if pending.len() == 0 {
                    Step::Finished(Ok(()))
                } else {
                    let action = pending.remove(0);
                    let rest = Sequence { pending };
                    assert(rest.remaining() =~= self.remaining().drop_first());
                    Step::Perform(action, rest)
                }
            },
        }
    }
}

} // verus!
