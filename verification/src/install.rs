//! The installation of the signal handler, as a sequence of decisions.
//!
//! An installation creates the pipe, makes its write end non-blocking and
//! then arms each target signal. Whenever a call fails, or a signal turns out
//! to be handled by someone else already, everything done so far is undone,
//! latest first, and the installation ends with the error.
//!
//! The installer makes no system call itself. It names the next one as an
//! [`Action`]; the caller performs it and hands the answer back as a
//! [`Reply`].

use vstd::prelude::*;
use crate::error::Error;
use crate::pipe::{pipe2, pipe_plan, End, PipeFlags, PipeOp};
use crate::signal::{target_signals, targets, Disposition, Signal};

verus! {

/// What the platform and the build offer to an installation.
#[derive(Clone, Copy, Debug, PartialEq, Eq, Structural)]
pub struct Platform {
    /// Termination and hangup are armed as well as the interrupt.
    pub termination: bool,
    /// A pipe can be created together with its flags in one call.
    pub atomic_pipe: bool,
    /// Handlers can ask that interrupted system calls be restarted.
    pub restart: bool,
}

/// A system call, or the end of the installation, that the caller is asked
/// to carry out.
#[derive(Clone, Copy, Debug, PartialEq, Eq)]
pub enum Action {
    /// Make this call on the pipe.
    Pipe(PipeOp),
    /// Make the notifier the handler of `signal`, with the restart flag if
    /// `restart` is set, and report the disposition that it replaces.
    Install { signal: Signal, restart: bool },
    /// Give `signal` back the disposition that it had when it was armed.
    Restore { signal: Signal, previous: Disposition },
    /// Close the write end, then the read end, and forget the pipe.
    ClosePipe,
    /// Nothing is left to do: return this result.
    Finish(Result<(), Error>),
}

/// What the system answered to the call that was asked for.
#[derive(Clone, Copy, Debug, PartialEq, Eq, Structural)]
pub enum Reply {
    /// The call succeeded.
    Done,
    /// The handler was installed, and this is the disposition it replaced.
    Previous(Disposition),
    /// The call failed with this error.
    Failed(Error),
}

/// Where an installation stands.
#[derive(Clone, Copy, Debug, PartialEq, Eq)]
pub enum Phase {
    /// It works through its plan.
    Advancing,
    /// It undoes what it has done, to end with this error.
    Unwinding(Error),
    /// It has ended with this result.
    Finished(Result<(), Error>),
}

/// The flags that the pipe is created with.
pub open spec fn creation_flags() -> PipeFlags {
    PipeFlags { cloexec: true, nonblock: false }
}

/// The calls that set the pipe up: its creation as close-on-exec, then the
/// write end made non-blocking so that the handler never blocks.
pub open spec fn setup_ops(platform: Platform) -> Seq<PipeOp> {
    pipe_plan(creation_flags(), platform.atomic_pipe).push(PipeOp::SetNonBlocking(End::Write))
}

/// The calls that set the pipe up, as the installer asks for them.
pub open spec fn setup_plan(platform: Platform) -> Seq<Action> {
    setup_ops(platform).map_values(|op: PipeOp| Action::Pipe(op))
}

/// The calls that arm the target signals, in their fixed order.
pub open spec fn arming_plan(platform: Platform) -> Seq<Action> {
    targets(platform.termination).map_values(
        |signal: Signal| Action::Install { signal, restart: platform.restart },
    )
}

/// Every call of an installation on which nothing goes wrong, in order.
pub open spec fn install_plan(platform: Platform) -> Seq<Action> {
    setup_plan(platform) + arming_plan(platform)
}

/// The state of an installation.
pub struct InstallState {
    /// Whether handlers that are already installed may be replaced.
    pub overwrite: bool,
    pub platform: Platform,
    /// How many calls of the plan have succeeded.
    pub cursor: nat,
    pub phase: Phase,
    /// What undoes each thing done so far, in the order in which it was
    /// done: the closing of the pipe, then a restoration for each signal
    /// whose disposition was changed.
    pub undo: Seq<Action>,
}

impl InstallState {
    /// The state in which an installation begins.
    pub open spec fn start(overwrite: bool, platform: Platform) -> InstallState {
        InstallState { overwrite, platform, cursor: 0, phase: Phase::Advancing, undo: seq![] }
    }

    /// The number of target signals whose disposition was changed by the
    /// time `cursor` calls of the plan have succeeded.
    pub open spec fn armed(self) -> nat {
        let setup = setup_plan(self.platform).len();
        if self.cursor <= setup {
            0
        } else {
            (self.cursor - setup) as nat
        }
    }

    /// Whether `undo` closes the pipe and restores the first `count` target
    /// signals, in the order in which they are armed.
    pub open spec fn undoes(self, count: nat) -> bool {
        &&& self.undo.len() == 1 + count
        &&& count <= targets(self.platform.termination).len()
        &&& self.undo[0] == Action::ClosePipe
        &&& forall|i: int|
            0 <= i < count ==> {
                &&& (#[trigger] self.undo[1 + i]) is Restore
                &&& self.undo[1 + i]->Restore_signal == targets(self.platform.termination)[i]
            }
    }

    /// The states that an installation can be in.
    pub open spec fn wf(self) -> bool {
        match self.phase {
            Phase::Advancing => {
                &&& self.cursor < install_plan(self.platform).len()
                &&& if self.cursor == 0 {
                    self.undo.len() == 0
                } else {
                    self.undoes(self.armed())
                }
            },
            Phase::Unwinding(_) => {
                &&& 1 <= self.cursor <= install_plan(self.platform).len()
                &&& self.undo.len() >= 1
                &&& self.undoes((self.undo.len() - 1) as nat)
            },
            Phase::Finished(_) => self.undo.len() == 0,
        }
    }

    /// The call that the caller has to make now.
    pub open spec fn pending(self) -> Action {
        match self.phase {
            Phase::Advancing => install_plan(self.platform)[self.cursor as int],
            Phase::Unwinding(_) => self.undo.last(),
            Phase::Finished(result) => Action::Finish(result),
        }
    }

    /// The result of the installation, once it has ended.
    pub open spec fn outcome(self) -> Option<Result<(), Error>> {
        match self.phase {
            Phase::Finished(result) => Some(result),
            _ => None,
        }
    }

    /// Whether `reply` is an answer to the pending call. A pipe call and the
    /// closing succeed or fail; arming a signal yields the previous
    /// disposition or fails; a restoration is expected to succeed. Once the
    /// installation has ended there is nothing to answer.
    pub open spec fn accepts(self, reply: Reply) -> bool {
        match self.pending() {
            Action::Pipe(_) => reply is Done || reply is Failed,
            Action::Install { .. } => reply is Previous || reply is Failed,
            Action::Restore { .. } => reply is Done,
            Action::ClosePipe => reply is Done || reply is Failed,
            Action::Finish(_) => false,
        }
    }

    /// Whether arming a signal that had the disposition `previous` runs into
    /// someone else's handling of it.
    pub open spec fn conflicts(self, previous: Disposition) -> bool {
        !self.overwrite && previous != Disposition::Default
    }

    /// This state with one more thing to undo.
    pub open spec fn acquired(self, undo: Action) -> InstallState {
        InstallState { undo: self.undo.push(undo), ..self }
    }

    /// The state after the pending call of the plan has succeeded: the next
    /// call of the plan is due, or the installation has succeeded and what
    /// it kept for undoing is dropped.
    pub open spec fn advanced(self) -> InstallState {
        if self.cursor + 1 < install_plan(self.platform).len() {
            InstallState { cursor: self.cursor + 1, ..self }
        } else {
            InstallState {
                cursor: self.cursor + 1,
                phase: Phase::Finished(Ok(())),
                undo: seq![],
                ..self
            }
        }
    }

    /// The state in which the installation is on its way to end with
    /// `error`: the latest thing done is undone next, and when nothing is
    /// left to undo the installation has ended.
    pub open spec fn failing(self, error: Error) -> InstallState {
        if self.undo.len() > 0 {
            InstallState { phase: Phase::Unwinding(error), ..self }
        } else {
            InstallState { phase: Phase::Finished(Err(error)), ..self }
        }
    }

    /// The state after the pending call was answered with `reply`. A
    /// created pipe and a changed disposition are noted for undoing before
    /// anything else is decided. An answer that the pending call cannot have
    /// leaves the state as it is.
    pub open spec fn step(self, reply: Reply) -> InstallState {
        if !self.accepts(reply) {
            self
        } else {
            match self.phase {
                Phase::Advancing => match (self.pending(), reply) {
                    (_, Reply::Failed(error)) => self.failing(error),
                    (Action::Pipe(op), _) => if op.creates() {
                        self.acquired(Action::ClosePipe).advanced()
                    } else {
                        self.advanced()
                    },
                    (Action::Install { signal, .. }, Reply::Previous(previous)) => {
                        let changed = self.acquired(Action::Restore { signal, previous });
                        if self.conflicts(previous) {
                            changed.failing(Error::exist_spec())
                        } else {
                            changed.advanced()
                        }
                    },
                    _ => self,
                },
                Phase::Unwinding(error) => InstallState {
                    undo: self.undo.drop_last(),
                    ..self
                }.failing(error),
                Phase::Finished(_) => self,
            }
        }
    }

    /// An upper bound on the number of calls that are still to be made.
    pub open spec fn budget(self) -> nat {
        match self.phase {
            Phase::Advancing => (2 * (install_plan(self.platform).len() - self.cursor)
                + self.undo.len() + 1) as nat,
            Phase::Unwinding(_) => self.undo.len(),
            Phase::Finished(_) => 0,
        }
    }
}

/// The plan of an installation, written out.
pub proof fn lemma_install_plan(platform: Platform)
    ensures
        setup_plan(platform).len() == setup_ops(platform).len(),
        forall|i: int|
            0 <= i < setup_ops(platform).len() ==> #[trigger] setup_plan(platform)[i]
                == Action::Pipe(setup_ops(platform)[i]),
        setup_plan(platform) == if platform.atomic_pipe {
            seq![
                Action::Pipe(PipeOp::CreateWith(creation_flags())),
                Action::Pipe(PipeOp::SetNonBlocking(End::Write)),
            ]
        } else {
            seq![
                Action::Pipe(PipeOp::Create),
                Action::Pipe(PipeOp::SetCloseOnExec(End::Read)),
                Action::Pipe(PipeOp::SetCloseOnExec(End::Write)),
                Action::Pipe(PipeOp::SetNonBlocking(End::Write)),
            ]
        },
        arming_plan(platform) == if platform.termination {
            seq![
                Action::Install { signal: Signal::Interrupt, restart: platform.restart },
                Action::Install { signal: Signal::Terminate, restart: platform.restart },
                Action::Install { signal: Signal::Hangup, restart: platform.restart },
            ]
        } else {
            seq![Action::Install { signal: Signal::Interrupt, restart: platform.restart }]
        },
        install_plan(platform).len() == setup_plan(platform).len() + arming_plan(platform).len(),
        forall|i: int|
            0 <= i < setup_plan(platform).len() ==> #[trigger] install_plan(platform)[i]
                == setup_plan(platform)[i],
        forall|i: int|
            0 <= i < arming_plan(platform).len() ==> #[trigger] install_plan(platform)[
                setup_plan(platform).len() + i
            ] == arming_plan(platform)[i],
{
    let ops = setup_ops(platform);
    assert(setup_plan(platform).len() == ops.len());
    assert(forall|i: int| 0 <= i < ops.len() ==> setup_plan(platform)[i] == Action::Pipe(ops[i]));
    if platform.atomic_pipe {
        assert(setup_plan(platform) =~= seq![
            Action::Pipe(PipeOp::CreateWith(creation_flags())),
            Action::Pipe(PipeOp::SetNonBlocking(End::Write)),
        ]);
    } else {
        assert(setup_plan(platform) =~= seq![
            Action::Pipe(PipeOp::Create),
            Action::Pipe(PipeOp::SetCloseOnExec(End::Read)),
            Action::Pipe(PipeOp::SetCloseOnExec(End::Write)),
            Action::Pipe(PipeOp::SetNonBlocking(End::Write)),
        ]);
    }
    let signals = targets(platform.termination);
    let arming = arming_plan(platform);
    assert(arming.len() == signals.len());
    assert(forall|i: int|
        0 <= i < signals.len() ==> arming[i] == Action::Install {
            signal: signals[i],
            restart: platform.restart,
        });
    if platform.termination {
        assert(arming =~= seq![
            Action::Install { signal: Signal::Interrupt, restart: platform.restart },
            Action::Install { signal: Signal::Terminate, restart: platform.restart },
            Action::Install { signal: Signal::Hangup, restart: platform.restart },
        ]);
    } else {
        assert(arming =~= seq![
            Action::Install { signal: Signal::Interrupt, restart: platform.restart },
        ]);
    }
}

/// An installation in progress.
pub struct Installer {
    overwrite: bool,
    platform: Platform,
    plan: Vec<Action>,
    cursor: usize,
    phase: Phase,
    undo: Vec<Action>,
}

impl View for Installer {
    type V = InstallState;

    closed spec fn view(&self) -> InstallState {
        InstallState {
            overwrite: self.overwrite,
            platform: self.platform,
            cursor: self.cursor as nat,
            phase: self.phase,
            undo: self.undo@,
        }
    }
}

/// Begins an installation. With `overwrite` it replaces whatever handles the
/// target signals; without, it gives up when one of them is not at its
/// default disposition. The first call to make, and each one after it, is
/// [`Installer::pending`]; the answer goes to [`Installer::step`].
pub fn init_os_handler(overwrite: bool, platform: Platform) -> (installer: Installer)
    ensures
        installer@ == InstallState::start(overwrite, platform),
        installer@.wf(),
{
    let ops = pipe2(PipeFlags { cloexec: true, nonblock: false }, platform.atomic_pipe);
    let signals = target_signals(platform.termination);
    let mut plan: Vec<Action> = Vec::new();
    let mut i: usize = 0;
    while i < ops.len()
        invariant
            i <= ops.len(),
            plan@.len() == i,
            forall|k: int| 0 <= k < i ==> plan@[k] == Action::Pipe(ops@[k]),
        decreases ops.len() - i,
    {
        plan.push(Action::Pipe(ops[i]));
        i += 1;
    }
    plan.push(Action::Pipe(PipeOp::SetNonBlocking(End::Write)));
    assert(plan@ =~= setup_plan(platform));
    let mut j: usize = 0;
    while j < signals.len()
        invariant
            j <= signals.len(),
            signals@ == targets(platform.termination),
            plan@.len() == setup_plan(platform).len() + j,
            forall|k: int|
                0 <= k < setup_plan(platform).len() ==> plan@[k] == setup_plan(platform)[k],
            forall|k: int|
                0 <= k < j ==> plan@[setup_plan(platform).len() + k] == (Action::Install {
                    signal: signals@[k],
                    restart: platform.restart,
                }),
        decreases signals.len() - j,
    {
        plan.push(Action::Install { signal: signals[j], restart: platform.restart });
        j += 1;
    }
    assert(plan@ =~= install_plan(platform));
    proof {
        lemma_install_plan(platform);
    }
    Installer {
        overwrite,
        platform,
        plan,
        cursor: 0,
        phase: Phase::Advancing,
        undo: Vec::new(),
    }
}

impl Installer {
    #[verifier::type_invariant]
    spec fn inv(self) -> bool {
        &&& self.plan@ == install_plan(self.platform)
        &&& self@.wf()
    }

    /// The call that the caller has to make now.
    pub fn pending(&self) -> (action: Action)
        ensures
            action == self@.pending(),
    {
        proof {
            use_type_invariant(self);
        }
        match self.phase {
            Phase::Advancing => self.plan[self.cursor],
            Phase::Unwinding(_) => self.undo[self.undo.len() - 1],
            Phase::Finished(result) => Action::Finish(result),
        }
    }

    /// The result of the installation, once it has ended.
    pub fn outcome(&self) -> (result: Option<Result<(), Error>>)
        ensures
            result == self@.outcome(),
    {
        match self.phase {
            Phase::Finished(result) => Some(result),
            _ => None,
        }
    }

    /// Whether `reply` is an answer to the pending call.
    pub fn accepts(&self, reply: &Reply) -> (b: bool)
        ensures
            b == self@.accepts(*reply),
    {
        match self.pending() {
            Action::Pipe(_) => match reply {
                Reply::Previous(_) => false,
                _ => true,
            },
            Action::Install { .. } => match reply {
                Reply::Done => false,
                _ => true,
            },
            Action::Restore { .. } => match reply {
                Reply::Done => true,
                _ => false,
            },
            Action::ClosePipe => match reply {
                Reply::Previous(_) => false,
                _ => true,
            },
            Action::Finish(_) => false,
        }
    }

    /// Takes the answer to the pending call and decides what comes next.
    /// Returns the installation in its new state and the call that is now
    /// pending. An answer that the pending call cannot have changes nothing:
    /// the same call stays pending.
    pub fn step(self, reply: Reply) -> (next: (Installer, Action))
        ensures
            next.0@ == self@.step(reply),
            next.0@.wf(),
            next.1 == self@.step(reply).pending(),
    {
        proof {
            use_type_invariant(&self);
            lemma_install_plan(self.platform);
        }
        if !self.accepts(&reply) {
            let action = self.pending();
            return (self, action);
        }
        let pending = self.pending();
        let Installer { overwrite, platform, plan, cursor, phase, mut undo } = self;
        let mut failure: Option<Error> = None;
        match phase {
            Phase::Advancing => match reply {
                Reply::Failed(error) => {
                    failure = Some(error);
                },
                Reply::Done => {
                    if let Action::Pipe(op) = pending {
                        if op.is_creation() {
                            undo.push(Action::ClosePipe);
                        }
                    }
                },
                Reply::Previous(previous) => {
                    if let Action::Install { signal, .. } = pending {
                        undo.push(Action::Restore { signal, previous });
                        if !overwrite && !previous.is_default() {
                            failure = Some(Error::exist());
                        }
                    }
                },
            },
            Phase::Unwinding(error) => {
                undo.pop();
                failure = Some(error);
            },
            Phase::Finished(_) => {},
        }
        let next = match failure {
            Some(error) => {
                let phase = if undo.len() > 0 {
                    Phase::Unwinding(error)
                } else {
                    Phase::Finished(Err(error))
                };
                Installer { overwrite, platform, plan, cursor, phase, undo }
            },
            None => {
                if cursor + 1 < plan.len() {
                    Installer { overwrite, platform, plan, cursor: cursor + 1, phase, undo }
                } else {
                    Installer {
                        overwrite,
                        platform,
                        plan,
                        cursor: cursor + 1,
                        phase: Phase::Finished(Ok(())),
                        undo: Vec::new(),
                    }
                }
            },
        };
        let action = next.pending();
        (next, action)
    }
}

} // verus!
