use ctrlc::pipe::{pipe2, End, PipeFlags, PipeOp};

const NONE: PipeFlags = PipeFlags { cloexec: false, nonblock: false };
const CLOEXEC: PipeFlags = PipeFlags { cloexec: true, nonblock: false };
const NONBLOCK: PipeFlags = PipeFlags { cloexec: false, nonblock: true };
const BOTH: PipeFlags = PipeFlags { cloexec: true, nonblock: true };

/// Makes the calls of a plan on a real pipe, stopping at the first failure.
fn carry_out(
    ops: &[PipeOp],
) -> Result<(rustix::fd::OwnedFd, rustix::fd::OwnedFd), rustix::io::Errno> {
    let mut pipe = None;
    for op in ops {
        match *op {
            PipeOp::CreateWith(flags) => {
                let mut with = rustix::pipe::PipeFlags::empty();
                if flags.cloexec {
                    with |= rustix::pipe::PipeFlags::CLOEXEC;
                }
                if flags.nonblock {
                    with |= rustix::pipe::PipeFlags::NONBLOCK;
                }
                pipe = Some(rustix::pipe::pipe_with(with)?);
            }
            PipeOp::Create => pipe = Some(rustix::pipe::pipe()?),
            PipeOp::SetCloseOnExec(end) => {
                let (read_end, write_end) = pipe.as_ref().ok_or(rustix::io::Errno::BADF)?;
                let fd = match end {
                    End::Read => read_end,
                    End::Write => write_end,
                };
                rustix::io::fcntl_setfd(fd, rustix::io::FdFlags::CLOEXEC)?;
            }
            PipeOp::SetNonBlocking(end) => {
                let (read_end, write_end) = pipe.as_ref().ok_or(rustix::io::Errno::BADF)?;
                let fd = match end {
                    End::Read => read_end,
                    End::Write => write_end,
                };
                rustix::fs::fcntl_setfl(fd, rustix::fs::OFlags::NONBLOCK)?;
            }
        }
    }
    pipe.ok_or(rustix::io::Errno::BADF)
}

/// The flags that an open descriptor carries.
fn flags_of(fd: &rustix::fd::OwnedFd) -> PipeFlags {
    PipeFlags {
        cloexec: rustix::io::fcntl_getfd(fd).unwrap().contains(rustix::io::FdFlags::CLOEXEC),
        nonblock: rustix::fs::fcntl_getfl(fd).unwrap().contains(rustix::fs::OFlags::NONBLOCK),
    }
}

#[test]
fn atomic_plan_is_one_call_with_the_flags() {
    assert_eq!(pipe2(CLOEXEC, true), vec![PipeOp::CreateWith(CLOEXEC)]);
    assert_eq!(pipe2(BOTH, true), vec![PipeOp::CreateWith(BOTH)]);
    assert_eq!(pipe2(NONBLOCK, true), vec![PipeOp::CreateWith(NONBLOCK)]);
    assert_eq!(pipe2(NONE, true), vec![PipeOp::CreateWith(NONE)]);
}

#[test]
fn fallback_plan_without_flags_only_creates() {
    assert_eq!(pipe2(NONE, false), vec![PipeOp::Create]);
}

#[test]
fn fallback_plan_puts_close_on_exec_on_both_ends() {
    assert_eq!(
        pipe2(CLOEXEC, false),
        vec![
            PipeOp::Create,
            PipeOp::SetCloseOnExec(End::Read),
            PipeOp::SetCloseOnExec(End::Write),
        ]
    );
}

#[test]
fn fallback_plan_puts_non_blocking_on_both_ends() {
    assert_eq!(
        pipe2(NONBLOCK, false),
        vec![
            PipeOp::Create,
            PipeOp::SetNonBlocking(End::Read),
            PipeOp::SetNonBlocking(End::Write),
        ]
    );
}

#[test]
fn fallback_plan_sets_close_on_exec_before_non_blocking() {
    assert_eq!(
        pipe2(BOTH, false),
        vec![
            PipeOp::Create,
            PipeOp::SetCloseOnExec(End::Read),
            PipeOp::SetCloseOnExec(End::Write),
            PipeOp::SetNonBlocking(End::Read),
            PipeOp::SetNonBlocking(End::Write),
        ]
    );
}

#[test]
fn only_creations_create() {
    assert!(PipeOp::Create.is_creation());
    assert!(PipeOp::CreateWith(BOTH).is_creation());
    assert!(!PipeOp::SetCloseOnExec(End::Read).is_creation());
    assert!(!PipeOp::SetNonBlocking(End::Write).is_creation());
}

#[test]
fn every_plan_yields_a_real_pipe_with_the_flags_on_both_ends() {
    for flags in [NONE, CLOEXEC, NONBLOCK, BOTH] {
        for atomic in [true, false] {
            let (read_end, write_end) = carry_out(&pipe2(flags, atomic)).unwrap();
            assert_eq!(flags_of(&read_end), flags);
            assert_eq!(flags_of(&write_end), flags);
        }
    }
}

#[test]
fn a_flag_without_a_pipe_fails() {
    assert_eq!(
        carry_out(&[PipeOp::SetCloseOnExec(End::Read)]).err(),
        Some(rustix::io::Errno::BADF)
    );
}
