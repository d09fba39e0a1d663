//! The echo service: the bytes read from the service socket go back unchanged.
use vstd::prelude::*;
use vstd::slice::slice_subrange;

verus! {

/// Size of the receive buffer of the echo service, in bytes.
pub const ECHO_BUF_LEN: usize = 256;

/// The bytes to write back after a read that put `rx_bytes` bytes at the
/// start of `buf`: exactly those bytes, or `None` when nothing was read.
pub fn echo_payload<'a>(buf: &'a [u8], rx_bytes: u16) -> (r: Option<&'a [u8]>)
    requires
        rx_bytes <= buf@.len(),
    ensures
        r is None <==> rx_bytes == 0,
        r matches Some(out) ==> out@ == buf@.subrange(0, rx_bytes as int),
{
    if rx_bytes == 0 {
        None
    } else {
        Some(slice_subrange(buf, 0, rx_bytes as usize))
    }
}

} // verus!
