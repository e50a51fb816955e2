//! Chunked file sending, one step at a time.
use crate::messages::Chunk;
use vstd::prelude::*;

verus! {

/// Largest number of bytes read from the file in one step.
pub const CHUNK_SIZE: usize = 32768;

/// Pause between two steps of a transfer, in microseconds.
pub const SEND_DELAY_MICROS: u64 = 100;

/// What one step of an action came to.
#[derive(Debug, Clone, Copy, PartialEq, Eq, Structural)]
pub enum Processing {
    /// The action is done and can be dropped.
    Completed,
    /// Run the action again after this many microseconds.
    Partial(u64),
}

/// How far a transfer has come.
#[derive(Debug, Clone, Copy, PartialEq, Eq, Structural)]
pub enum ProgressState {
    /// Nothing sent yet, of this many bytes.
    Started(u64),
    /// Of the first count of bytes, the second have been sent.
    Working(u64, u64),
    /// Every byte was sent.
    Completed,
}

/// What reading the next piece of the file gave.
#[derive(Debug, Clone, PartialEq, Eq)]
pub enum ReadOutcome {
    /// These bytes; none means the end of the file.
    Data(Vec<u8>),
    /// The read failed, for this reason.
    Failed(String),
}

/// A file being sent to every peer, chunk by chunk.
pub struct SendFile {
    pub file_name: String,
    pub file_size: u64,
    pub sent: u64,
    pub progress: ProgressState,
    /// Where the progress stands in the chat log, once it is there.
    pub progress_id: Option<usize>,
}

/// `a + b`, or the largest `u64` where that does not fit.
pub open spec fn saturating_sum(a: u64, b: int) -> u64 {
    if a + b <= u64::MAX {
        (a + b) as u64
    } else {
        u64::MAX
    }
}

impl SendFile {
    /// A transfer of the named file, of the given size, with nothing sent.
    pub fn new(file_name: String, file_size: u64) -> (r: SendFile)
        ensures
            r.file_name == file_name,
            r.file_size == file_size,
            r.sent == 0,
            r.progress == ProgressState::Started(file_size),
            r.progress_id is None,
    {
        SendFile {
            file_name,
            file_size,
            sent: 0,
            progress: ProgressState::Started(file_size),
            progress_id: None,
        }
    }

    /// One step: turns what the read gave into the chunk to send, and says
    /// whether the transfer goes on. Bytes move the progress forward; an
    /// empty read ends the transfer with `End`; a failed read ends it with
    /// `Error` and leaves the progress as it was.
    pub fn process(&mut self, read: ReadOutcome) -> (r: (Chunk, Processing))
        requires
            read matches ReadOutcome::Data(bytes) ==> bytes@.len() <= CHUNK_SIZE,
        ensures
            final(self).file_name == old(self).file_name,
            final(self).file_size == old(self).file_size,
            final(self).progress_id == old(self).progress_id,
            final(self).sent >= old(self).sent,
            r.1 == Processing::Completed <==> (r.0 is End || r.0 is Error),
            (r.0 is Data && old(self).sent < u64::MAX) ==> final(self).sent > old(self).sent,
            match read {
                ReadOutcome::Data(bytes) => if bytes@.len() > 0 {
                    &&& r.0 == Chunk::Data(bytes)
                    &&& r.1 == Processing::Partial(SEND_DELAY_MICROS)
                    &&& final(self).sent == saturating_sum(old(self).sent, bytes@.len() as int)
                    &&& final(self).progress == ProgressState::Working(
                        old(self).file_size,
                        final(self).sent,
                    )
                } else {
                    &&& r.0 == Chunk::End
                    &&& r.1 == Processing::Completed
                    &&& final(self).sent == old(self).sent
                    &&& final(self).progress == ProgressState::Completed
                },
                ReadOutcome::Failed(_) => {
                    &&& r.0 == Chunk::Error
                    &&& r.1 == Processing::Completed
                    &&& final(self).sent == old(self).sent
                    &&& final(self).progress == old(self).progress
                },
            },
    {
        match read {
            ReadOutcome::Data(bytes) => {
                if bytes.len() > 0 {
                    let n = bytes.len() as u64;
                    self.sent = if self.sent <= u64::MAX - n {
                        self.sent + n
                    } else {
                        u64::MAX
                    };
                    self.progress = ProgressState::Working(self.file_size, self.sent);
                    (Chunk::Data(bytes), Processing::Partial(SEND_DELAY_MICROS))
                } else {
                    self.progress = ProgressState::Completed;
                    (Chunk::End, Processing::Completed)
                }
            },
            ReadOutcome::Failed(_) => (Chunk::Error, Processing::Completed),
        }
    }
}

} // verus!
