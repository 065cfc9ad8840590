//! The pipe between the signal handler and the waiting thread: how it is
//! created, and with which flags on its two ends.

use vstd::prelude::*;

verus! {

/// One of the two ends of a pipe.
#[derive(Clone, Copy, Debug, PartialEq, Eq, Structural)]
pub enum End {
    /// The end that the waiter reads from.
    Read,
    /// The end that the handler writes to.
    Write,
}

/// The flags that a pipe can be asked to carry on both of its ends.
#[derive(Clone, Copy, Debug, PartialEq, Eq, Structural)]
pub struct PipeFlags {
    /// The descriptor is closed when the process executes another program.
    pub cloexec: bool,
    /// Reads and writes return at once instead of blocking.
    pub nonblock: bool,
}

/// One system call in the making of a pipe.
#[derive(Clone, Copy, Debug, PartialEq, Eq, Structural)]
pub enum PipeOp {
    /// Create the pipe and put the flags on both ends in one atomic call.
    CreateWith(PipeFlags),
    /// Create the pipe without flags.
    Create,
    /// Mark one end close-on-exec.
    SetCloseOnExec(End),
    /// Make one end non-blocking.
    SetNonBlocking(End),
}

/// A pipe as the process holds it: the flags on its two ends.
pub struct PipeState {
    pub read: PipeFlags,
    pub write: PipeFlags,
}

impl PipeState {
    /// The flags on one end.
    pub open spec fn flags(self, end: End) -> PipeFlags {
        match end {
            End::Read => self.read,
            End::Write => self.write,
        }
    }

    /// This pipe with other flags on one end.
    pub open spec fn with_flags(self, end: End, flags: PipeFlags) -> PipeState {
        match end {
            End::Read => PipeState { read: flags, ..self },
            End::Write => PipeState { write: flags, ..self },
        }
    }
}

impl PipeOp {
    /// Whether the call brings a new pipe into being.
    pub open spec fn creates(self) -> bool {
        self is Create || self is CreateWith
    }

    /// Whether the call brings a new pipe into being.
    pub fn is_creation(&self) -> (b: bool)
        ensures
            b == self.creates(),
    {
        match self {
            PipeOp::Create => true,
            PipeOp::CreateWith(_) => true,
            _ => false,
        }
    }

    /// The pipe that the process holds once the call has succeeded, where
    /// it held `pipe` before. A creation replaces whatever was held; a flag
    /// can only be put on a pipe that is there.
    pub open spec fn effect(self, pipe: Option<PipeState>) -> Option<PipeState> {
        match self {
            PipeOp::CreateWith(flags) => Some(PipeState { read: flags, write: flags }),
            PipeOp::Create => {
                let bare = PipeFlags { cloexec: false, nonblock: false };
                Some(PipeState { read: bare, write: bare })
            },
            PipeOp::SetCloseOnExec(end) => match pipe {
                Some(p) => Some(p.with_flags(end, PipeFlags { cloexec: true, ..p.flags(end) })),
                None => None,
            },
            PipeOp::SetNonBlocking(end) => match pipe {
                Some(p) => Some(p.with_flags(end, PipeFlags { nonblock: true, ..p.flags(end) })),
                None => None,
            },
        }
    }
}

/// The calls that make a pipe with `flags` on both ends, in order. Where
/// the platform can create and flag a pipe atomically that is the only
/// call. Elsewhere the pipe is created bare and each requested flag is then
/// put on the read end and on the write end.
pub open spec fn pipe_plan(flags: PipeFlags, atomic: bool) -> Seq<PipeOp> {
    if atomic {
        seq![PipeOp::CreateWith(flags)]
    } else {
        seq![PipeOp::Create] + (if flags.cloexec {
            seq![PipeOp::SetCloseOnExec(End::Read), PipeOp::SetCloseOnExec(End::Write)]
        } else {
            seq![]
        }) + (if flags.nonblock {
            seq![PipeOp::SetNonBlocking(End::Read), PipeOp::SetNonBlocking(End::Write)]
        } else {
            seq![]
        })
    }
}

/// The pipe held after every call of `ops` has succeeded in turn.
pub open spec fn effect_of(ops: Seq<PipeOp>, pipe: Option<PipeState>) -> Option<PipeState>
    decreases ops.len(),
{
    if ops.len() == 0 {
        pipe
    } else {
        ops.last().effect(effect_of(ops.drop_last(), pipe))
    }
}

/// Plans the creation of a pipe with `flags` on both ends. The caller makes
/// the calls in order and stops at the first that fails; the pipe is usable
/// once the last has succeeded.
pub fn pipe2(flags: PipeFlags, atomic: bool) -> (ops: Vec<PipeOp>)
    ensures
        ops@ == pipe_plan(flags, atomic),
{
    let mut ops: Vec<PipeOp> = Vec::new();
    if atomic {
        ops.push(PipeOp::CreateWith(flags));
    } else {
        ops.push(PipeOp::Create);
        if flags.cloexec {
            ops.push(PipeOp::SetCloseOnExec(End::Read));
            ops.push(PipeOp::SetCloseOnExec(End::Write));
        }
        if flags.nonblock {
            ops.push(PipeOp::SetNonBlocking(End::Read));
            ops.push(PipeOp::SetNonBlocking(End::Write));
        }
    }
    assert(ops@ =~= pipe_plan(flags, atomic));
    ops
}

/// A plan begins with the creation and creates nothing after it.
pub proof fn lemma_pipe_plan_shape(flags: PipeFlags, atomic: bool)
    ensures
        1 <= pipe_plan(flags, atomic).len() <= 5,
        pipe_plan(flags, atomic)[0].creates(),
        forall|i: int|
            1 <= i < pipe_plan(flags, atomic).len() ==> !(#[trigger] pipe_plan(
                flags,
                atomic,
            )[i]).creates(),
{
}

/// Once every call of a plan has succeeded, the process holds a pipe that
/// carries exactly the requested flags on both ends, whatever it held
/// before.
pub proof fn law_pipe_plan_yields_flags(flags: PipeFlags, atomic: bool, before: Option<PipeState>)
    ensures
        effect_of(pipe_plan(flags, atomic), before) == Some(
            PipeState { read: flags, write: flags },
        ),
{
    let plan = pipe_plan(flags, atomic);
    lemma_effect_of_unrolled(plan, before);
}

/// `effect_of` on a plan of at most five calls, written out.
proof fn lemma_effect_of_unrolled(ops: Seq<PipeOp>, pipe: Option<PipeState>)
    requires
        ops.len() <= 5,
    ensures
        ops.len() == 0 ==> effect_of(ops, pipe) == pipe,
        ops.len() == 1 ==> effect_of(ops, pipe) == ops[0].effect(pipe),
        ops.len() == 2 ==> effect_of(ops, pipe) == ops[1].effect(ops[0].effect(pipe)),
        ops.len() == 3 ==> effect_of(ops, pipe) == ops[2].effect(
            ops[1].effect(ops[0].effect(pipe)),
        ),
        ops.len() == 4 ==> effect_of(ops, pipe) == ops[3].effect(
            ops[2].effect(ops[1].effect(ops[0].effect(pipe))),
        ),
        ops.len() == 5 ==> effect_of(ops, pipe) == ops[4].effect(
            ops[3].effect(ops[2].effect(ops[1].effect(ops[0].effect(pipe)))),
        ),
    decreases ops.len(),
{
    if ops.len() > 0 {
        lemma_effect_of_unrolled(ops.drop_last(), pipe);
    }
}

} // verus!
