use ctrlc::error::{Error, WaitError};
use ctrlc::wait::{block_ctrl_c, Wait};

fn errno(error: rustix::io::Errno) -> Error {
    Error::from_raw_os_error(error.raw_os_error())
}

/// Reads one byte as the waiter's caller does.
fn read_one<Fd: rustix::fd::AsFd>(fd: Fd) -> Result<usize, Error> {
    let mut buf = [0u8];
    rustix::io::read(fd, &mut buf[..]).map_err(errno)
}

/// Writes one byte as the handler does, and lets a failure go.
fn notify<Fd: rustix::fd::AsFd>(fd: Fd) {
    let _ = rustix::io::write(fd, &[0u8]);
}

/// Waits as the caller of the library does: reads until told to stop.
fn wait<Fd: rustix::fd::AsFd>(fd: Fd) -> Result<(), WaitError> {
    loop {
        match block_ctrl_c(read_one(&fd)) {
            Wait::Retry => {}
            Wait::Return(result) => return result,
        }
    }
}

#[test]
fn one_byte_is_a_notification() {
    assert_eq!(block_ctrl_c(Ok(1)), Wait::Return(Ok(())));
}

#[test]
fn no_byte_is_an_unexpected_end_of_stream() {
    assert_eq!(block_ctrl_c(Ok(0)), Wait::Return(Err(WaitError::UnexpectedEof)));
}

#[test]
fn any_other_count_is_an_unexpected_end_of_stream() {
    assert_eq!(block_ctrl_c(Ok(2)), Wait::Return(Err(WaitError::UnexpectedEof)));
    assert_eq!(block_ctrl_c(Ok(usize::MAX)), Wait::Return(Err(WaitError::UnexpectedEof)));
}

#[test]
fn interruption_is_retried_and_is_no_error() {
    assert_eq!(block_ctrl_c(Err(errno(rustix::io::Errno::INTR))), Wait::Retry);
    assert_eq!(block_ctrl_c(Err(Error::intr())), Wait::Retry);
}

#[test]
fn other_errors_end_the_wait() {
    let again = errno(rustix::io::Errno::AGAIN);
    assert_eq!(block_ctrl_c(Err(again)), Wait::Return(Err(WaitError::System(again))));
    let badf = errno(rustix::io::Errno::BADF);
    assert_eq!(block_ctrl_c(Err(badf)), Wait::Return(Err(WaitError::System(badf))));
    let exist = Error::exist();
    assert_eq!(block_ctrl_c(Err(exist)), Wait::Return(Err(WaitError::System(exist))));
}

#[test]
fn interrupted_reads_cost_no_notification() {
    // Two interruptions, then the byte: the wait returns once, with success.
    let reads = [Err(Error::intr()), Err(Error::intr()), Ok(1)];
    let mut decisions = Vec::new();
    for read in reads {
        decisions.push(block_ctrl_c(read));
    }
    assert_eq!(decisions, vec![Wait::Retry, Wait::Retry, Wait::Return(Ok(()))]);
}

#[test]
fn one_notification_wakes_one_wait_on_a_real_pipe() {
    let (read_end, write_end) = rustix::pipe::pipe_with(rustix::pipe::PipeFlags::CLOEXEC).unwrap();
    notify(&write_end);
    assert_eq!(wait(&read_end), Ok(()));
    // Nothing is pending now: a read that cannot block says so.
    rustix::fs::fcntl_setfl(&read_end, rustix::fs::OFlags::NONBLOCK).unwrap();
    let again = errno(rustix::io::Errno::AGAIN);
    assert_eq!(wait(&read_end), Err(WaitError::System(again)));
}

#[test]
fn each_wait_takes_one_byte_from_a_real_pipe() {
    let (read_end, write_end) = rustix::pipe::pipe_with(rustix::pipe::PipeFlags::CLOEXEC).unwrap();
    rustix::fs::fcntl_setfl(&write_end, rustix::fs::OFlags::NONBLOCK).unwrap();
    for _ in 0..3 {
        notify(&write_end);
    }
    assert_eq!(wait(&read_end), Ok(()));
    assert_eq!(wait(&read_end), Ok(()));
    assert_eq!(wait(&read_end), Ok(()));
    rustix::fs::fcntl_setfl(&read_end, rustix::fs::OFlags::NONBLOCK).unwrap();
    assert_eq!(
        wait(&read_end),
        Err(WaitError::System(errno(rustix::io::Errno::AGAIN)))
    );
}

#[test]
fn a_full_pipe_drops_notifications_but_not_all_of_them() {
    let (read_end, write_end) = rustix::pipe::pipe_with(rustix::pipe::PipeFlags::CLOEXEC).unwrap();
    rustix::fs::fcntl_setfl(&write_end, rustix::fs::OFlags::NONBLOCK).unwrap();
    // Far more notifications than any pipe holds: the writes that find the
    // pipe full fail at once and are dropped.
    let sent: usize = 300_000;
    for _ in 0..sent {
        notify(&write_end);
    }
    assert_eq!(wait(&read_end), Ok(()));
    rustix::fs::fcntl_setfl(&read_end, rustix::fs::OFlags::NONBLOCK).unwrap();
    let mut received: usize = 1;
    while wait(&read_end) == Ok(()) {
        received += 1;
    }
    assert!(received >= 1);
    assert!(received < sent);
}

#[test]
fn a_closed_write_end_is_an_unexpected_end_of_stream() {
    let (read_end, write_end) = rustix::pipe::pipe_with(rustix::pipe::PipeFlags::CLOEXEC).unwrap();
    drop(write_end);
    assert_eq!(wait(&read_end), Err(WaitError::UnexpectedEof));
}

#[test]
fn pending_bytes_are_delivered_before_the_end_of_stream() {
    let (read_end, write_end) = rustix::pipe::pipe_with(rustix::pipe::PipeFlags::CLOEXEC).unwrap();
    notify(&write_end);
    drop(write_end);
    assert_eq!(wait(&read_end), Ok(()));
    assert_eq!(wait(&read_end), Err(WaitError::UnexpectedEof));
}
