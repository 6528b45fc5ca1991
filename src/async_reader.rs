//! Adapting a blocking reader to asynchronous polling.
use vstd::prelude::*;

verus! {

/// A blocking reader served through asynchronous polling.
pub struct AsyncReader<R>(pub R);

/// What one blocking read returned.
pub enum ReadOutcome<E> {
    /// This many bytes were read into the buffer.
    Read(usize),
    /// The reader has nothing yet and would have to block.
    WouldBlock,
    /// Any other error.
    Failed(E),
}

/// The answer to one poll.
pub enum PollStep<E> {
    /// Ready: the buffer's filled part grows by this many bytes.
    Advance(usize),
    /// Not ready yet.
    Pending,
    /// Ready with the error.
    Fail(E),
}

impl<R> AsyncReader<R> {
    /// Wrap `reader`.
    pub fn from(reader: R) -> (r: Self)
        ensures
            r.0 == reader,
    {
        AsyncReader(reader)
    }

    /// The answer to a poll, given what the blocking read returned: the
    /// bytes read count as filled, "would block" waits, other errors end
    /// the poll with the error.
    pub fn poll_read_step<E>(outcome: ReadOutcome<E>) -> (r: PollStep<E>)
        ensures
            r == match outcome {
                ReadOutcome::Read(c) => PollStep::<E>::Advance(c),
                ReadOutcome::WouldBlock => PollStep::<E>::Pending,
                ReadOutcome::Failed(e) => PollStep::<E>::Fail(e),
            },
    {
        match outcome {
            ReadOutcome::Read(c) => PollStep::Advance(c),
            ReadOutcome::WouldBlock => PollStep::Pending,
            ReadOutcome::Failed(e) => PollStep::Fail(e),
        }
    }
}

} // verus!
