//! Decisions taken while the chip is brought up: polling for the Ethernet
//! link, and the seed of the DHCP client.
use vstd::prelude::*;

verus! {

/// Pause between two reads of the PHY configuration, in milliseconds.
pub const LINK_UP_POLL_PERIOD_MILLIS: u32 = 100;

/// Failed link polls after which the chip is reset.
pub const LINK_UP_POLL_ATTEMPTS: u32 = 50;

/// Time the reset line is held low, in milliseconds.
pub const RESET_LOW_MILLIS: u32 = 1;

/// Time given to the chip after it leaves reset, in milliseconds.
pub const RESET_SETTLE_MILLIS: u32 = 3;

/// Pause between link-up and the first DHCP request, in milliseconds.
pub const DHCP_START_DELAY_MILLIS: u32 = 500;

/// What to do after one read of the PHY link status.
#[derive(PartialEq, Eq, Structural, Clone, Copy, Debug)]
pub enum LinkPoll {
    /// The link is up: bring-up goes on.
    Up,
    /// Wait one poll period, then poll again with this many failed attempts.
    Wait { attempts: u32 },
    /// Give up on this round after waiting this long: pulse the reset line
    /// and configure the chip anew.
    Reset { waited_ms: u32 },
}

/// The decision after a poll that found the link `link_up`, with `attempts`
/// failed polls so far in this round.
pub open spec fn link_poll(attempts: u32, link_up: bool) -> LinkPoll {
    if link_up {
        LinkPoll::Up
    } else if attempts >= LINK_UP_POLL_ATTEMPTS {
        LinkPoll::Reset { waited_ms: (attempts * LINK_UP_POLL_PERIOD_MILLIS) as u32 }
    } else {
        LinkPoll::Wait { attempts: (attempts + 1) as u32 }
    }
}

/// Decides what follows one read of the link status.
pub fn link_poll_step(attempts: u32, link_up: bool) -> (r: LinkPoll)
    requires
        attempts <= LINK_UP_POLL_ATTEMPTS,
    ensures
        r == link_poll(attempts, link_up),
        r matches LinkPoll::Wait { attempts: a } ==> a <= LINK_UP_POLL_ATTEMPTS,
{
    if link_up {
        LinkPoll::Up
    } else if attempts >= LINK_UP_POLL_ATTEMPTS {
        LinkPoll::Reset { waited_ms: attempts * LINK_UP_POLL_PERIOD_MILLIS }
    } else {
        LinkPoll::Wait { attempts: attempts + 1 }
    }
}

/// The outcome of a polling round that starts with no failed attempt and in
/// which the link is first seen up at poll `up_at`, or never (`None`).
pub open spec fn poll_round(attempts: u32, up_at: Option<nat>) -> LinkPoll
    decreases LINK_UP_POLL_ATTEMPTS - attempts,
{
    let up = up_at matches Some(k) && k <= attempts;
    if up || attempts >= LINK_UP_POLL_ATTEMPTS {
        link_poll(attempts, up)
    } else {
        poll_round((attempts + 1) as u32, up_at)
    }
}

/// A polling round always ends: in `Up` when the link comes up within the
/// allowed attempts, and otherwise in a reset after the full wait.
pub proof fn lemma_poll_round_bounded(attempts: u32, up_at: Option<nat>)
    requires
        attempts <= LINK_UP_POLL_ATTEMPTS,
    ensures
        (up_at matches Some(k) && k <= LINK_UP_POLL_ATTEMPTS) ==> poll_round(attempts, up_at)
            == LinkPoll::Up,
        !(up_at matches Some(k) && k <= LINK_UP_POLL_ATTEMPTS) ==> poll_round(attempts, up_at)
            == (LinkPoll::Reset {
            waited_ms: (LINK_UP_POLL_ATTEMPTS * LINK_UP_POLL_PERIOD_MILLIS) as u32,
        }),
    decreases LINK_UP_POLL_ATTEMPTS - attempts,
{
    let up = up_at matches Some(k) && k <= attempts;
    if !(up || attempts >= LINK_UP_POLL_ATTEMPTS) {
        lemma_poll_round_bounded((attempts + 1) as u32, up_at);
    }
}

/// The 64-bit DHCP seed made of two 32-bit timer reads, `hi` in the upper half.
pub fn dhcp_seed(hi: u32, lo: u32) -> (r: u64)
    ensures
        r == hi as u64 * 0x1_0000_0000 + lo as u64,
{
    let h: u64 = hi as u64;
    let l: u64 = lo as u64;
    assert((h << 32u64) | l == h * 0x1_0000_0000 + l) by (bit_vector)
        requires
            h < 0x1_0000_0000,
            l < 0x1_0000_0000,
    ;
    (h << 32u64) | l
}

} // verus!
