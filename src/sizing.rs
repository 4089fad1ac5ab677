//! Buffer, chunk and progress-threshold sizing for one file transfer.
use vstd::prelude::*;

verus! {

pub const KIB: u64 = 1024;

pub const MIB: u64 = 1024 * 1024;

/// Progress updates aimed at for one file, whatever its size.
pub const TARGET_UPDATES: u64 = 128;

/// Smallest chunk handed to the in-kernel zero-copy path.
pub const MIN_ZERO_COPY_CHUNK: u64 = 4 * 1024 * 1024;

/// Buffer size for the buffered copy, by file-size tier.
pub open spec fn spec_buffer_size(file_size: u64) -> int {
    if file_size < MIB {
        64 * KIB
    } else if file_size < 8 * MIB {
        256 * KIB
    } else if file_size < 64 * MIB {
        512 * KIB
    } else if file_size < 512 * MIB {
        MIB as int
    } else {
        2 * MIB
    }
}

/// Unreported bytes after which a buffered copy reports progress.
pub open spec fn spec_progress_threshold(file_size: u64) -> int {
    let b = spec_buffer_size(file_size);
    if file_size > TARGET_UPDATES * b {
        file_size as int / TARGET_UPDATES as int
    } else {
        b
    }
}

/// Chunk size of the zero-copy path: large enough to amortise each call, and
/// scaled so that a file takes about `TARGET_UPDATES` calls.
pub open spec fn spec_zero_copy_chunk(file_size: u64) -> int {
    let scaled = file_size as int / TARGET_UPDATES as int;
    if scaled > MIN_ZERO_COPY_CHUNK {
        scaled as int
    } else {
        MIN_ZERO_COPY_CHUNK as int
    }
}

pub fn buffer_size(file_size: u64) -> (r: usize)
    ensures
        r == spec_buffer_size(file_size),
        64 * KIB <= r <= 2 * MIB,
{
    if file_size < MIB {
        (64 * KIB) as usize
    } else if file_size < 8 * MIB {
        (256 * KIB) as usize
    } else if file_size < 64 * MIB {
        (512 * KIB) as usize
    } else if file_size < 512 * MIB {
        MIB as usize
    } else {
        (2 * MIB) as usize
    }
}

pub fn progress_threshold(file_size: u64) -> (r: u64)
    ensures
        r == spec_progress_threshold(file_size),
        r >= 64 * KIB,
{
    let b = buffer_size(file_size) as u64;
    if file_size > TARGET_UPDATES * b {
        file_size / TARGET_UPDATES
    } else {
        b
    }
}

pub fn zero_copy_chunk(file_size: u64) -> (r: u64)
    ensures
        r == spec_zero_copy_chunk(file_size),
        r >= MIN_ZERO_COPY_CHUNK,
{
    let scaled = file_size / TARGET_UPDATES;
    if scaled > MIN_ZERO_COPY_CHUNK {
        scaled
    } else {
        MIN_ZERO_COPY_CHUNK
    }
}

/// Bytes to ask for in the next zero-copy call: a full chunk, or what is left
/// of the file; 0 once `copied` has reached `file_size`.
pub fn next_chunk(chunk: u64, file_size: u64, copied: u64) -> (r: u64)
    ensures
        copied >= file_size ==> r == 0,
        copied < file_size ==> r == if chunk < file_size - copied {
            chunk
        } else {
            (file_size - copied) as u64
        },
{
    if copied >= file_size {
        0
    } else if chunk < file_size - copied {
        chunk
    } else {
        file_size - copied
    }
}

/// Bytes read by a buffered copy but not yet reported to the progress sink.
/// Reports go out once the unreported amount reaches the file's threshold.
pub struct ProgressAccumulator {
    pending: u64,
    threshold: u64,
}

impl ProgressAccumulator {
    pub closed spec fn pending(&self) -> u64 {
        self.pending
    }

    pub closed spec fn threshold(&self) -> u64 {
        self.threshold
    }

    pub open spec fn wf(&self) -> bool {
        self.pending() < self.threshold()
    }

    /// An accumulator for a file of `file_size` bytes.
    pub fn new(file_size: u64) -> (r: ProgressAccumulator)
        ensures
            r.wf(),
            r.pending() == 0,
            r.threshold() == spec_progress_threshold(file_size),
    {
        ProgressAccumulator { pending: 0, threshold: progress_threshold(file_size) }
    }

    /// Records `bytes` more bytes written; returns the amount to report now
    /// (0 when the threshold is not reached yet).
    pub fn record(&mut self, bytes: u64) -> (r: u64)
        requires
            old(self).wf(),
            bytes <= u64::MAX - old(self).threshold(),
        ensures
            final(self).wf(),
            final(self).threshold() == old(self).threshold(),
            old(self).pending() + bytes >= old(self).threshold() ==> r == old(self).pending() + bytes
                && final(self).pending() == 0,
            old(self).pending() + bytes < old(self).threshold() ==> r == 0 && final(self).pending()
                == old(self).pending() + bytes,
            r + final(self).pending() == old(self).pending() + bytes,
    {
        let sum = self.pending + bytes;
        if sum >= self.threshold {
            self.pending = 0;
            sum
        } else {
            self.pending = sum;
            0
        }
    }

    /// Hands out what is still unreported, at the end of the file.
    pub fn flush(&mut self) -> (r: u64)
        requires
            old(self).wf(),
        ensures
            final(self).wf(),
            r == old(self).pending(),
            final(self).pending() == 0,
            final(self).threshold() == old(self).threshold(),
    {
        let r = self.pending;
        self.pending = 0;
        r
    }
}

} // verus!
