use vstd::prelude::*;

verus! {

/// Period of the health heartbeat, in milliseconds.
pub const HEARTBEAT_PERIOD_MS: u64 = 60_000;

/// Capacity of the queue that carries sample batches from the capture
/// callback to the monitor loop.
pub const QUEUE_DEPTH: usize = 32;

/// Bytes in one megabyte (binary).
pub const MEGABYTE: u64 = 1_048_576;

/// The memory size of `pages` pages of `page_size` bytes, in whole
/// megabytes, saturating at `u64::MAX`.
pub fn memory_megabytes(pages: u64, page_size: u64) -> (r: u64)
    ensures
        r as int == if pages * page_size / (MEGABYTE as int) > u64::MAX {
            u64::MAX as int
        } else {
            pages * page_size / (MEGABYTE as int)
        },
{
    proof {
        assert(pages * page_size <= u64::MAX * u64::MAX) by (nonlinear_arith)
            requires
                pages <= u64::MAX,
                page_size <= u64::MAX,
        ;
    }
    let bytes: u128 = (pages as u128) * (page_size as u128);
    let mb: u128 = bytes / (MEGABYTE as u128);
    if mb > u64::MAX as u128 {
        u64::MAX
    } else {
        mb as u64
    }
}

} // verus!
