//! The waiting side of the bridge: what a read of one byte from the pipe
//! means to the thread that waits for a signal.
//!
//! The waiter makes no system call itself. The caller reads one byte from
//! the read end of the pipe and hands the result to [`block_ctrl_c`], again
//! and again while the answer is [`Wait::Retry`].

use vstd::prelude::*;
use crate::error::{Error, WaitError};

verus! {

/// What a waiting thread does after a read.
#[derive(Clone, Copy, Debug, PartialEq, Eq)]
pub enum Wait {
    /// Read again: nothing has been learned.
    Retry,
    /// Stop waiting, with this result.
    Return(Result<(), WaitError>),
}

/// What a read that returned `read`, a number of bytes or an error, means
/// to the waiter. One byte is a notification. No byte is the end of the
/// stream, which must not happen while the write end is open. An
/// interruption says nothing about the awaited signal, so the read is made
/// again. Any other error ends the wait.
pub open spec fn wait_decision(read: Result<usize, Error>) -> Wait {
    match read {
        Ok(count) => if count == 1 {
            Wait::Return(Ok(()))
        } else {
            Wait::Return(Err(WaitError::UnexpectedEof))
        },
        Err(error) => if error.is_interrupted_spec() {
            Wait::Retry
        } else {
            Wait::Return(Err(WaitError::System(error)))
        },
    }
}

/// Decides what the waiter does after a read of one byte from the read end
/// of the pipe returned `read`.
pub fn block_ctrl_c(read: Result<usize, Error>) -> (next: Wait)
    ensures
        next == wait_decision(read),
        next is Retry <==> read == Err::<usize, Error>(Error::intr_spec()),
        next == Wait::Return(Ok(())) <==> read == Ok::<usize, Error>(1),
{
    match read {
        Ok(count) => {
            if count == 1 {
                Wait::Return(Ok(()))
            } else {
                Wait::Return(Err(WaitError::UnexpectedEof))
            }
        },
        Err(error) => {
            if error.is_interrupted() {
                Wait::Retry
            } else {
                Wait::Return(Err(WaitError::System(error)))
            }
        },
    }
}

/// The pipe as handler and waiter see it: the number of bytes that wait to
/// be read, and the number that the pipe can hold.
pub struct Channel {
    pub pending: nat,
    pub capacity: nat,
}

impl Channel {
    /// The pipe after the handler has run once. The handler writes one byte
    /// without blocking; when the pipe is full the write fails, and the
    /// handler lets it go.
    pub open spec fn notified(self) -> Channel {
        if self.pending < self.capacity {
            Channel { pending: self.pending + 1, ..self }
        } else {
            self
        }
    }

    /// The pipe after the handler has run `count` times with no read in
    /// between.
    pub open spec fn notified_times(self, count: nat) -> Channel
        decreases count,
    {
        if count == 0 {
            self
        } else {
            self.notified_times((count - 1) as nat).notified()
        }
    }
}

/// Whether a read of one byte from the pipe `before` can return `read` and
/// leave the pipe as `after`, while the write end is open. A byte can be
/// read only when one is pending, and the read takes it; a read that fails
/// takes nothing.
pub open spec fn reads(before: Channel, read: Result<usize, Error>, after: Channel) -> bool {
    match read {
        Ok(count) => {
            &&& count == 1
            &&& before.pending >= 1
            &&& after == Channel { pending: (before.pending - 1) as nat, ..before }
        },
        Err(_) => after == before,
    }
}

/// One read of a waiting thread: what the read returned, and the pipe as
/// the read left it.
pub struct Attempt {
    pub read: Result<usize, Error>,
    pub after: Channel,
}

/// The pipe as `attempts` left it.
pub open spec fn channel_after(before: Channel, attempts: Seq<Attempt>) -> Channel {
    if attempts.len() == 0 {
        before
    } else {
        attempts.last().after
    }
}

/// Whether `attempts` are the reads of one wait on the pipe `before`, from
/// its first read to the one that ended it: each read is made on the pipe
/// as the one before it left it, and every read but the last is retried.
pub open spec fn waits(before: Channel, attempts: Seq<Attempt>) -> bool
    decreases attempts.len(),
{
    &&& attempts.len() >= 1
    &&& reads(
        channel_after(before, attempts.drop_last()),
        attempts.last().read,
        attempts.last().after,
    )
    &&& if attempts.len() == 1 {
        true
    } else {
        &&& waits(before, attempts.drop_last())
        &&& wait_decision(attempts[attempts.len() - 2].read) is Retry
    }
}

/// What the wait returns whose last read is the last of `attempts`, if that
/// read ends it.
pub open spec fn wait_result(attempts: Seq<Attempt>) -> Option<Result<(), WaitError>> {
    if attempts.len() == 0 {
        None
    } else {
        match wait_decision(attempts.last().read) {
            Wait::Retry => None,
            Wait::Return(result) => Some(result),
        }
    }
}

/// A read that is interrupted is no error to the waiter and costs no
/// notification: the waiter reads again, and the pipe holds what it held.
pub proof fn law_interruption_resumes(before: Channel, after: Channel)
    requires
        reads(before, Err(Error::intr_spec()), after),
    ensures
        wait_decision(Err(Error::intr_spec())) == Wait::Retry,
        after == before,
{
}

/// The reads of a wait that are retried take nothing from the pipe.
proof fn lemma_retries_take_nothing(before: Channel, attempts: Seq<Attempt>)
    requires
        waits(before, attempts),
    ensures
        channel_after(before, attempts.drop_last()) == before,
    decreases attempts.len(),
{
    if attempts.len() > 1 {
        let earlier = attempts.drop_last();
        assert(waits(before, earlier));
        lemma_retries_take_nothing(before, earlier);
        assert(earlier.last() == attempts[attempts.len() - 2]);
        assert(reads(
            channel_after(before, earlier.drop_last()),
            earlier.last().read,
            earlier.last().after,
        ));
    }
}

/// A wait that succeeds takes exactly one byte from the pipe, however
/// often it was interrupted; a wait that fails takes none.
pub proof fn law_wait_takes_one_byte(before: Channel, attempts: Seq<Attempt>)
    requires
        waits(before, attempts),
        wait_result(attempts) is Some,
    ensures
        wait_result(attempts) == Some(Ok::<(), WaitError>(())) ==> before.pending >= 1
            && channel_after(before, attempts) == (Channel {
            pending: (before.pending - 1) as nat,
            ..before
        }),
        wait_result(attempts) matches Some(Err(_)) ==> channel_after(before, attempts) == before,
{
    lemma_retries_take_nothing(before, attempts);
}

/// A pending byte is enough for a wait to return: on a pipe that holds
/// one, the read that takes it ends the wait with success.
pub proof fn law_pending_byte_ends_a_wait(before: Channel)
    requires
        before.pending >= 1,
    ensures
        ({
            let taken = Attempt {
                read: Ok(1),
                after: Channel { pending: (before.pending - 1) as nat, ..before },
            };
            &&& waits(before, seq![taken])
            &&& wait_result(seq![taken]) == Some(Ok::<(), WaitError>(()))
        }),
{
    let taken = Attempt {
        read: Ok(1),
        after: Channel { pending: (before.pending - 1) as nat, ..before },
    };
    assert(seq![taken].drop_last() =~= Seq::<Attempt>::empty());
}

/// No wait succeeds on an empty pipe: it can only go on waiting, or fail.
pub proof fn law_empty_pipe_blocks(before: Channel, attempts: Seq<Attempt>)
    requires
        before.pending == 0,
        waits(before, attempts),
    ensures
        wait_result(attempts) != Some(Ok::<(), WaitError>(())),
{
    lemma_retries_take_nothing(before, attempts);
}

/// The handler never loses every notification and never invents one: after
/// it has run `count` times on a pipe with room for a byte, at least one
/// byte is pending if it ran at all, and at most `count` more than before.
pub proof fn law_notifications_coalesce(before: Channel, count: nat)
    requires
        before.pending <= before.capacity,
        before.capacity >= 1,
    ensures
        before.notified_times(count).capacity == before.capacity,
        before.notified_times(count).pending <= before.capacity,
        before.notified_times(count).pending <= before.pending + count,
        before.notified_times(count).pending >= before.pending,
        count >= 1 ==> before.notified_times(count).pending >= 1,
    decreases count,
{
    if count > 0 {
        law_notifications_coalesce(before, (count - 1) as nat);
    }
}

/// One signal, one wait: after the handler has run once on an empty pipe,
/// a wait that returns takes the one byte, and the pipe is empty again.
pub proof fn law_one_signal_one_wait(before: Channel, attempts: Seq<Attempt>)
    requires
        before.pending == 0,
        before.capacity >= 1,
        waits(before.notified(), attempts),
        wait_result(attempts) == Some(Ok::<(), WaitError>(())),
    ensures
        channel_after(before.notified(), attempts).pending == 0,
{
    law_wait_takes_one_byte(before.notified(), attempts);
}

} // verus!
