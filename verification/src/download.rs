//! The verified half of the download engine. The transport is an
//! external capability that streams bytes; what belongs to this engine
//! is the discipline around the stream: bytes go to a temporary file
//! beside the destination, never to the destination itself; only a
//! complete transfer is committed; and progress reporting never moves
//! backwards.

use vstd::prelude::*;

verus! {

/// The temporary file a transfer streams into: derived from the final
/// destination but never equal to it, so an interrupted stream can leave
/// nothing at the destination path.
pub fn partial_path(dest: &String) -> (t: String)
    ensures
        t@ == dest@ + ".part"@,
        t@ != dest@,
{
    let mut p = dest.clone();
    p.append(".part");
    proof {
        reveal_strlit(".part");
        assert(p@.len() == dest@.len() + 5);
    }
    p
}

/// What to do with a finished transfer.
#[derive(Clone, Copy, PartialEq, Eq, Structural, Debug)]
pub enum TransferVerdict {
    /// Rename the temporary file onto the destination.
    Commit,
    /// An advertised content length did not match what arrived: delete
    /// the temporary file and fail.
    SizeMismatch,
    /// The transfer was interrupted or cancelled: delete the temporary
    /// file and fail; nothing may remain at the destination path.
    Aborted,
}

/// Judges a finished transfer: commit exactly when it ran to completion
/// and the advertised size, if any, matches the bytes received.
pub fn judge_transfer(advertised: Option<u64>, received: u64, interrupted: bool) -> (v:
    TransferVerdict)
    ensures
        interrupted ==> v == TransferVerdict::Aborted,
        !interrupted && (advertised matches Some(n) && n != received) ==> v
            == TransferVerdict::SizeMismatch,
        !interrupted && (advertised matches Some(n) ==> advertised == Some(received)) ==> v
            == TransferVerdict::Commit,
{
    if interrupted {
        TransferVerdict::Aborted
    } else {
        match advertised {
            Some(n) => if n == received {
                TransferVerdict::Commit
            } else {
                TransferVerdict::SizeMismatch
            },
            None => TransferVerdict::Commit,
        }
    }
}

/// Turns raw byte-count reports into what a progress sink may see:
/// monotonically non-decreasing counts. Raw reports may arrive late or
/// out of order and may be dropped, but the visible count never goes
/// backwards.
pub struct ProgressTracker {
    /// The highest byte count reported so far.
    pub received: u64,
    /// The advertised total, if the transport announced one.
    pub total: Option<u64>,
}

impl ProgressTracker {
    /// A fresh tracker: nothing received yet.
    pub fn new(total: Option<u64>) -> (t: ProgressTracker)
        ensures
            t.received == 0,
            t.total == total,
    {
        ProgressTracker { received: 0, total }
    }

    /// Accepts one raw report and returns the count a sink should show:
    /// the count never decreases, whatever is reported.
    pub fn report(&mut self, bytes: u64) -> (shown: u64)
        ensures
            final(self).total == old(self).total,
            final(self).received == if bytes > old(self).received {
                bytes
            } else {
                old(self).received
            },
            shown == final(self).received,
            final(self).received >= old(self).received,
    {
        if bytes > self.received {
            self.received = bytes;
        }
        self.received
    }
}

} // verus!
