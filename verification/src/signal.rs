//! The signals that the bridge handles and what a process does with them.

use vstd::prelude::*;

verus! {

/// A signal that asks the process to stop what it is doing.
#[derive(Clone, Copy, Debug, PartialEq, Eq, Structural)]
pub enum Signal {
    /// The interactive interrupt (Ctrl-C).
    Interrupt,
    /// The request to terminate.
    Terminate,
    /// The hangup of the controlling terminal.
    Hangup,
}

/// What a process does when a signal arrives.
#[derive(Clone, Copy, Debug, PartialEq, Eq, Structural)]
pub enum Disposition {
    /// The action that the system takes by default.
    Default,
    /// The signal is ignored.
    Ignore,
    /// The function at this address is called.
    Handler(usize),
}

impl Disposition {
    /// Whether no one has changed what the system does by default.
    pub fn is_default(&self) -> (b: bool)
        ensures
            b == (*self == Disposition::Default),
    {
        match self {
            Disposition::Default => true,
            _ => false,
        }
    }
}

/// The signals that an installation arms, in the order in which it arms
/// them: the interrupt always, termination and hangup on request.
pub open spec fn targets(termination: bool) -> Seq<Signal> {
    if termination {
        seq![Signal::Interrupt, Signal::Terminate, Signal::Hangup]
    } else {
        seq![Signal::Interrupt]
    }
}

/// The signals that an installation arms, in order.
pub fn target_signals(termination: bool) -> (signals: Vec<Signal>)
    ensures
        signals@ == targets(termination),
{
    let mut signals: Vec<Signal> = Vec::new();
    signals.push(Signal::Interrupt);
    if termination {
        signals.push(Signal::Terminate);
        signals.push(Signal::Hangup);
    }
    assert(signals@ =~= targets(termination));
    signals
}

} // verus!
