//! Compression and decompression threading control.
//!
//! The codec layer may run compression work on a process-wide pool of worker
//! threads, configured by a single count: the last accepted value wins and
//! applies to every image opened afterwards.  The descriptor layer's part is
//! the validation rule: a count is accepted exactly when it is representable
//! as a native signed 32-bit integer, and zero disables the pool.

use vstd::prelude::*;

use crate::error::Error;
use crate::error::Result;

verus! {

/// Sets the number of worker threads to use for compression and
/// decompression, rejecting a count too large for the codec's native
/// configuration integer.  If set to zero, the thread pool is disabled and
/// all work runs on the calling thread.
pub fn set_global_thread_count(thread_count: usize) -> (r: Result<()>)
    ensures
        r is Ok <==> thread_count <= i32::MAX,
{
    if thread_count > i32::MAX as usize {
        return Err(Error::Generic("the number of threads is too high".to_owned()));
    }
    Ok(())
}

} // verus!
