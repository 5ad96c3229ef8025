//! Decisions taken by the pipe readers and writers.
use vstd::prelude::*;
use crate::error::Error;

verus! {

/// Whether a read may go ahead: a blocking reader always reads; a
/// non-blocking one only when the pipe holds bytes.
pub open spec fn may_read(blocking: bool, available: u32) -> bool {
    blocking || available > 0
}

/// Decides whether a read goes ahead, from the reader's own blocking flag and
/// the number of bytes that a peek found in the pipe. A non-blocking reader
/// facing an empty pipe gets `WouldBlock`; the pipe itself is left untouched,
/// so duplicated readers of the same pipe keep their own mode.
pub fn read_gate(blocking: bool, available: u32) -> (r: Result<(), Error>)
    ensures
        r is Ok <==> may_read(blocking, available),
        r is Err ==> r == Err::<(), Error>(Error::WouldBlock),
{
    if !blocking && available == 0 {
        Err(Error::WouldBlock)
    } else {
        Ok(())
    }
}

/// Whether a reader in the given mode peeks at the pipe before reading.
pub fn needs_peek(blocking: bool) -> (r: bool)
    ensures
        r == !blocking,
{
    !blocking
}

/// Refusal of reads is decided per reader: a blocking reader is never
/// refused, and while the pipe holds bytes no reader is refused, whatever
/// mode any reader of the same pipe was put in.
pub proof fn read_mode_is_per_reader(own_blocking: bool, available: u32)
    ensures
        may_read(true, available),
        available > 0 ==> may_read(own_blocking, available),
        !may_read(own_blocking, available) <==> (!own_blocking && available == 0),
{
}

} // verus!
