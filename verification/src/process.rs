//! What the calls of an installation do to the process that makes them.
//!
//! The process is modelled by what the installer touches: the dispositions
//! of the three signals and the pipe that the handler writes to. A run in
//! which each [`Action`] was performed as [`performs`] describes it is
//! called faithful.

use vstd::prelude::*;
use crate::install::{Action, InstallState, Reply};
use crate::pipe::PipeState;
use crate::signal::{Disposition, Signal};

verus! {

/// The part of a process that an installation can change.
pub struct Process {
    pub interrupt: Disposition,
    pub terminate: Disposition,
    pub hangup: Disposition,
    /// The pipe that handler and waiter use, while the process holds one.
    pub pipe: Option<PipeState>,
    /// Pipes that are still open although the process has lost hold of
    /// them.
    pub stray_pipes: nat,
}

impl Process {
    /// What the process does on `signal`.
    pub open spec fn disposition(self, signal: Signal) -> Disposition {
        match signal {
            Signal::Interrupt => self.interrupt,
            Signal::Terminate => self.terminate,
            Signal::Hangup => self.hangup,
        }
    }

    /// This process with another disposition of `signal`.
    pub open spec fn with_disposition(self, signal: Signal, disposition: Disposition) -> Process {
        match signal {
            Signal::Interrupt => Process { interrupt: disposition, ..self },
            Signal::Terminate => Process { terminate: disposition, ..self },
            Signal::Hangup => Process { hangup: disposition, ..self },
        }
    }

    /// Whether both processes treat every signal alike.
    pub open spec fn same_dispositions(self, other: Process) -> bool {
        &&& self.interrupt == other.interrupt
        &&& self.terminate == other.terminate
        &&& self.hangup == other.hangup
    }

    /// The number of pipes that the process has open.
    pub open spec fn open_pipes(self) -> nat {
        if self.pipe is Some {
            self.stray_pipes + 1
        } else {
            self.stray_pipes
        }
    }
}

/// Whether the system, asked to perform `action` for a process in the state
/// `before`, can answer `reply` and leave the process in the state `after`.
/// `notifier` is the disposition that calls the handler of the bridge.
///
/// A call that fails changes nothing. A created pipe takes the place of the
/// one held before, which stays open. A flag can be put only on a pipe that
/// is held. Arming a signal reports the disposition that it replaces. The
/// pipe is released by its closing whatever the closing reports.
pub open spec fn performs(
    before: Process,
    action: Action,
    notifier: Disposition,
    reply: Reply,
    after: Process,
) -> bool {
    match action {
        Action::Pipe(op) => match reply {
            Reply::Done => if op.creates() {
                after == Process {
                    pipe: op.effect(before.pipe),
                    stray_pipes: before.open_pipes(),
                    ..before
                }
            } else {
                before.pipe is Some && after == Process { pipe: op.effect(before.pipe), ..before }
            },
            Reply::Failed(_) => after == before,
            Reply::Previous(_) => false,
        },
        Action::Install { signal, .. } => match reply {
            Reply::Previous(previous) => {
                &&& previous == before.disposition(signal)
                &&& after == before.with_disposition(signal, notifier)
            },
            Reply::Failed(_) => after == before,
            Reply::Done => false,
        },
        Action::Restore { signal, previous } => {
            &&& reply is Done
            &&& after == before.with_disposition(signal, previous)
        },
        Action::ClosePipe => {
            &&& reply is Done || reply is Failed
            &&& after == Process { pipe: None, ..before }
        },
        Action::Finish(_) => false,
    }
}

/// One exchange between installer and system: the answer to the pending
/// call, and the process as the call left it.
pub struct Event {
    pub reply: Reply,
    pub after: Process,
}

/// The state of an installation that began in `start` and has taken the
/// answers of `events`.
pub open spec fn state_after(start: InstallState, events: Seq<Event>) -> InstallState
    decreases events.len(),
{
    if events.len() == 0 {
        start
    } else {
        state_after(start, events.drop_last()).step(events.last().reply)
    }
}

/// The process as `events` left it.
pub open spec fn process_after(origin: Process, events: Seq<Event>) -> Process {
    if events.len() == 0 {
        origin
    } else {
        events.last().after
    }
}

/// Whether `events` is a run in which every pending call was performed on
/// the process, beginning with the installer in `start` and the process in
/// `origin`.
pub open spec fn faithful(
    start: InstallState,
    origin: Process,
    notifier: Disposition,
    events: Seq<Event>,
) -> bool
    decreases events.len(),
{
    events.len() > 0 ==> {
        let earlier = events.drop_last();
        &&& faithful(start, origin, notifier, earlier)
        &&& performs(
            process_after(origin, earlier),
            state_after(start, earlier).pending(),
            notifier,
            events.last().reply,
            events.last().after,
        )
    }
}

} // verus!
