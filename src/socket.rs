//! Hardware socket numbering and the per-socket interrupt bits.
use vstd::prelude::*;

verus! {

/// Number of hardware sockets on the chip.
pub const SOCKET_COUNT: u8 = 8;

/// Socket driven by the DHCP client.
pub const DHCP_SN: u8 = 0;

/// Socket that carries the echo service.
pub const SERVICE_SN: u8 = 1;

/// TCP port on which the echo service listens.
pub const SERVICE_PORT: u16 = 10767;

/// The bit of socket `sn` in the chip's socket interrupt registers (SIR, SIMR).
pub open spec fn socket_mask(sn: u8) -> u8 {
    1u8 << sn
}

/// Relies on `w5500_ll::Sn::try_from(u8)` (socket numbers 0 to 7) and
/// `Sn::bitmask`, which is `1 << sn`.
#[verifier::external_body]
fn sn_bitmask(sn: u8) -> (r: u8)
    requires
        sn < SOCKET_COUNT,
    ensures
        r == socket_mask(sn),
{
    w5500_dhcp::ll::Sn::try_from(sn).unwrap().bitmask()
}

/// The interrupt bit of socket `sn`.
pub fn socket_bitmask(sn: u8) -> (r: u8)
    requires
        sn < SOCKET_COUNT,
    ensures
        r == socket_mask(sn),
{
    sn_bitmask(sn)
}

/// Whether the interrupt status `sir` has the bit of socket `sn` set.
pub open spec fn socket_hit(sir: u8, sn: u8) -> bool {
    sir & socket_mask(sn) != 0
}

/// A zero status has no socket bit set.
pub proof fn lemma_zero_status_hits_nothing(sn: u8)
    ensures
        !socket_hit(0, sn),
{
    let m = socket_mask(sn);
    assert(0u8 & m == 0) by (bit_vector);
}

/// Whether `sir` flags socket `sn`.
pub fn status_hits(sir: u8, sn: u8) -> (r: bool)
    requires
        sn < SOCKET_COUNT,
    ensures
        r == socket_hit(sir, sn),
{
    sir & socket_bitmask(sn) != 0
}

/// The socket interrupt mask `simr` with the interrupts of socket `sn` enabled
/// as well.
pub fn enable_socket_interrupt(simr: u8, sn: u8) -> (r: u8)
    requires
        sn < SOCKET_COUNT,
    ensures
        r == simr | socket_mask(sn),
{
    simr | socket_bitmask(sn)
}

} // verus!
