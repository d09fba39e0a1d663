//! Shared scheduling state and the decisions of the interrupt handler, the
//! timeout tracker and the lease renewal task.
use vstd::prelude::*;
use crate::socket::{DHCP_SN, SERVICE_SN, socket_hit, status_hits, lemma_zero_status_hits_nothing};
use crate::spawn::{SpawnFlag, SpawnOutcome, outcome_of};

verus! {

/// Retry interval, in seconds, after the lease negotiator reports an error.
pub const RETRY_SECS: u32 = 5;

/// The state that the activities share, each part behind its own lock in the
/// firmware: the pending flags of lease renewal and of the echo service, and
/// the deadline of the next lease renewal, in monotonic seconds.
#[derive(PartialEq, Eq, Structural, Clone, Copy, Debug)]
pub struct Scheduler {
    pub renewal: SpawnFlag,
    pub echo: SpawnFlag,
    pub deadline: Option<u32>,
}

/// What the interrupt handler does for one interrupt-status read.
#[derive(PartialEq, Eq, Structural, Clone, Copy, Debug)]
pub struct IrqDispatch {
    /// Whether the line-level interrupt is cleared.
    pub clear_line: bool,
    /// The lease renewal spawn request, if one was made.
    pub renewal: Option<SpawnOutcome>,
    /// The echo service spawn request, if one was made.
    pub echo: Option<SpawnOutcome>,
}

/// What one tick of the timeout tracker requested.
#[derive(PartialEq, Eq, Structural, Clone, Copy, Debug)]
pub struct TickDispatch {
    /// The lease renewal spawn request, if the deadline had passed.
    pub renewal: Option<SpawnOutcome>,
    /// The echo service spawn request, made on every tick.
    pub echo: SpawnOutcome,
}

/// A spawn request, made when `asked`, against a flag that is `pending`.
pub open spec fn request_if(asked: bool, pending: bool) -> Option<SpawnOutcome> {
    if asked {
        Some(outcome_of(pending))
    } else {
        None
    }
}

/// The state after the interrupt handler read the status `sir`.
pub open spec fn irq_next(s: Scheduler, sir: u8) -> Scheduler {
    if sir == 0 {
        s
    } else {
        Scheduler {
            renewal: SpawnFlag { pending: s.renewal.pending || socket_hit(sir, DHCP_SN) },
            echo: SpawnFlag { pending: s.echo.pending || socket_hit(sir, SERVICE_SN) },
            deadline: s.deadline,
        }
    }
}

/// What the interrupt handler does on the status `sir`: a zero status is
/// spurious and leads to nothing; otherwise the line is cleared and each
/// socket whose bit is set gets its activity requested.
pub open spec fn irq_dispatch(s: Scheduler, sir: u8) -> IrqDispatch {
    IrqDispatch {
        clear_line: sir != 0,
        renewal: request_if(sir != 0 && socket_hit(sir, DHCP_SN), s.renewal.pending),
        echo: request_if(sir != 0 && socket_hit(sir, SERVICE_SN), s.echo.pending),
    }
}

/// Whether a tracker tick at `now` finds the renewal deadline passed.
pub open spec fn tick_fires(s: Scheduler, now: u32) -> bool {
    match s.deadline {
        Some(d) => now >= d,
        None => false,
    }
}

/// The state after a tracker tick at `now`.
pub open spec fn tick_next(s: Scheduler, now: u32) -> Scheduler {
    Scheduler {
        renewal: SpawnFlag { pending: s.renewal.pending || tick_fires(s, now) },
        echo: SpawnFlag { pending: true },
        deadline: if tick_fires(s, now) { None } else { s.deadline },
    }
}

/// What a tracker tick at `now` requests.
pub open spec fn tick_dispatch(s: Scheduler, now: u32) -> TickDispatch {
    TickDispatch {
        renewal: request_if(tick_fires(s, now), s.renewal.pending),
        echo: outcome_of(s.echo.pending),
    }
}

/// Seconds until the next renewal: what the negotiator asked for, or the
/// fixed retry interval when it reported an error (`None`).
pub open spec fn retry_interval(negotiated: Option<u32>) -> u32 {
    match negotiated {
        Some(secs) => secs,
        None => RETRY_SECS,
    }
}

/// Whether the next deadline after a negotiation at `now` fits in a `u32`.
pub open spec fn deadline_fits(now: u32, negotiated: Option<u32>) -> bool {
    now + retry_interval(negotiated) <= u32::MAX
}

/// The next renewal deadline after a negotiation at `now`, or `None` when it
/// does not fit in a `u32`.
pub fn next_deadline(now: u32, negotiated: Option<u32>) -> (r: Option<u32>)
    ensures
        deadline_fits(now, negotiated) ==> r == Some((now + retry_interval(negotiated)) as u32),
        !deadline_fits(now, negotiated) ==> r is None,
{
    let interval = match negotiated {
        Some(secs) => secs,
        None => RETRY_SECS,
    };
    now.checked_add(interval)
}

/// The state after the renewal task recorded a negotiation at `now`.
pub open spec fn renewal_next(s: Scheduler, now: u32, negotiated: Option<u32>) -> Scheduler {
    Scheduler { deadline: Some((now + retry_interval(negotiated)) as u32), ..s }
}

impl Scheduler {
    /// The state at start-up: nothing pending, no deadline.
    pub fn new() -> (r: Scheduler)
        ensures
            !r.renewal.pending,
            !r.echo.pending,
            r.deadline is None,
    {
        Scheduler { renewal: SpawnFlag::new(), echo: SpawnFlag::new(), deadline: None }
    }

    /// Requests a lease renewal, as at start-up.
    pub fn request_renewal(&mut self) -> (r: SpawnOutcome)
        ensures
            r == outcome_of(old(self).renewal.pending),
            *final(self) == (Scheduler { renewal: SpawnFlag { pending: true }, ..*old(self) }),
    {
        self.renewal.request()
    }

    /// Decides what the interrupt handler does with the status `sir` that it
    /// read, and records the spawn requests that it makes.
    pub fn on_interrupt(&mut self, sir: u8) -> (r: IrqDispatch)
        ensures
            r == irq_dispatch(*old(self), sir),
            *final(self) == irq_next(*old(self), sir),
    {
        if sir == 0 {
            return IrqDispatch { clear_line: false, renewal: None, echo: None };
        }
        let renewal = if status_hits(sir, DHCP_SN) {
            Some(self.renewal.request())
        } else {
            None
        };
        let echo = if status_hits(sir, SERVICE_SN) {
            Some(self.echo.request())
        } else {
            None
        };
        IrqDispatch { clear_line: true, renewal, echo }
    }

    /// One tick of the timeout tracker at `now`: when the renewal deadline has
    /// passed, requests a renewal and clears the deadline, whether or not the
    /// request was queued; then requests the echo service.
    pub fn on_tick(&mut self, now: u32) -> (r: TickDispatch)
        ensures
            r == tick_dispatch(*old(self), now),
            *final(self) == tick_next(*old(self), now),
    {
        let mut renewal: Option<SpawnOutcome> = None;
        if let Some(then) = self.deadline {
            if now >= then {
                renewal = Some(self.renewal.request());
                self.deadline = None;
            }
        }
        let echo = self.echo.request();
        TickDispatch { renewal, echo }
    }

    /// The queued lease renewal begins to run; the result says whether one was pending.
    pub fn begin_renewal(&mut self) -> (r: bool)
        ensures
            r == old(self).renewal.pending,
            *final(self) == (Scheduler { renewal: SpawnFlag { pending: false }, ..*old(self) }),
    {
        self.renewal.begin()
    }

    /// The queued echo service begins to run; the result says whether one was pending.
    pub fn begin_echo(&mut self) -> (r: bool)
        ensures
            r == old(self).echo.pending,
            *final(self) == (Scheduler { echo: SpawnFlag { pending: false }, ..*old(self) }),
    {
        self.echo.begin()
    }

    /// Records a lease negotiation made at `now`: `negotiated` is the delay
    /// that the negotiator asked for, or `None` when it reported an error. The
    /// deadline becomes `now` plus the retry interval, which is returned.
    pub fn finish_renewal(&mut self, now: u32, negotiated: Option<u32>) -> (r: u32)
        requires
            deadline_fits(now, negotiated),
        ensures
            r == retry_interval(negotiated),
            *final(self) == renewal_next(*old(self), now, negotiated),
    {
        let interval = match negotiated {
            Some(secs) => secs,
            None => RETRY_SECS,
        };
        self.deadline = Some(now + interval);
        interval
    }
}

/// An event that reaches the shared scheduling state without starting an activity.
pub enum Event {
    /// The interrupt handler read this interrupt status.
    Interrupt(u8),
    /// The timeout tracker ticked at this many monotonic seconds.
    Tick(u32),
}

/// The state after one event.
pub open spec fn event_next(s: Scheduler, e: Event) -> Scheduler {
    match e {
        Event::Interrupt(sir) => irq_next(s, sir),
        Event::Tick(now) => tick_next(s, now),
    }
}

/// The outcome of the spawn request that one event makes of lease renewal
/// (`renewal`) or of the echo service (`!renewal`), if it makes one.
pub open spec fn event_request(s: Scheduler, e: Event, renewal: bool) -> Option<SpawnOutcome> {
    match e {
        Event::Interrupt(sir) => if renewal {
            irq_dispatch(s, sir).renewal
        } else {
            irq_dispatch(s, sir).echo
        },
        Event::Tick(now) => if renewal {
            tick_dispatch(s, now).renewal
        } else {
            Some(tick_dispatch(s, now).echo)
        },
    }
}

/// Whether the chosen activity's flag is set in `s`.
pub open spec fn flag_of(s: Scheduler, renewal: bool) -> bool {
    if renewal {
        s.renewal.pending
    } else {
        s.echo.pending
    }
}

/// The state after a run of events.
pub open spec fn run_events(s: Scheduler, events: Seq<Event>) -> Scheduler
    decreases events.len(),
{
    if events.len() == 0 {
        s
    } else {
        run_events(event_next(s, events[0]), events.drop_first())
    }
}

/// How many instances of the chosen activity a run of events queues.
pub open spec fn queued_count(s: Scheduler, events: Seq<Event>, renewal: bool) -> nat
    decreases events.len(),
{
    if events.len() == 0 {
        0
    } else {
        (if event_request(s, events[0], renewal) == Some(SpawnOutcome::Queued) {
            1nat
        } else {
            0nat
        }) + queued_count(event_next(s, events[0]), events.drop_first(), renewal)
    }
}

/// While no instance starts, interrupts and tracker ticks queue at most one
/// instance of lease renewal and at most one of the echo service, and none of
/// an activity that is already pending: every further request is rejected.
pub proof fn lemma_at_most_one_pending(s: Scheduler, events: Seq<Event>, renewal: bool)
    ensures
        queued_count(s, events, renewal) <= 1,
        flag_of(s, renewal) ==> queued_count(s, events, renewal) == 0,
    decreases events.len(),
{
    if events.len() > 0 {
        let n = event_next(s, events[0]);
        lemma_at_most_one_pending(n, events.drop_first(), renewal);
    }
}

/// The state after interrupt-status reads, one after another.
pub open spec fn run_interrupts(s: Scheduler, reads: Seq<u8>) -> Scheduler
    decreases reads.len(),
{
    if reads.len() == 0 {
        s
    } else {
        run_interrupts(irq_next(s, reads[0]), reads.drop_first())
    }
}

/// A zero interrupt status never leads to a spawn: however many zero reads
/// come, none requests lease renewal or the echo service, none clears the
/// line, and the shared state stays as it was.
pub proof fn lemma_zero_status_never_spawns(s: Scheduler, reads: Seq<u8>)
    requires
        forall|i: int| 0 <= i < reads.len() ==> reads[i] == 0,
    ensures
        run_interrupts(s, reads) == s,
        forall|i: int|
            0 <= i < reads.len() ==> (#[trigger] irq_dispatch(s, reads[i])) == (IrqDispatch {
                clear_line: false,
                renewal: None,
                echo: None,
            }),
    decreases reads.len(),
{
    lemma_zero_status_hits_nothing(DHCP_SN);
    lemma_zero_status_hits_nothing(SERVICE_SN);
    if reads.len() > 0 {
        lemma_zero_status_never_spawns(s, reads.drop_first());
    }
}

/// The state after tracker ticks at the given times, one after another.
pub open spec fn run_ticks(s: Scheduler, ticks: Seq<u32>) -> Scheduler
    decreases ticks.len(),
{
    if ticks.len() == 0 {
        s
    } else {
        run_ticks(tick_next(s, ticks[0]), ticks.drop_first())
    }
}

/// How many of the tracker ticks at the given times request a lease renewal.
pub open spec fn renewal_requests(s: Scheduler, ticks: Seq<u32>) -> nat
    decreases ticks.len(),
{
    if ticks.len() == 0 {
        0
    } else {
        (if tick_fires(s, ticks[0]) { 1nat } else { 0nat }) + renewal_requests(
            tick_next(s, ticks[0]),
            ticks.drop_first(),
        )
    }
}

/// Whether some tick in `ticks` comes at or after `d`.
pub open spec fn some_tick_reaches(ticks: Seq<u32>, d: u32) -> bool {
    exists|i: int| 0 <= i < ticks.len() && ticks[i] >= d
}

/// Without a deadline, ticks request no renewal and set no deadline.
pub proof fn lemma_no_deadline_no_request(s: Scheduler, ticks: Seq<u32>)
    requires
        s.deadline is None,
    ensures
        renewal_requests(s, ticks) == 0,
        run_ticks(s, ticks).deadline is None,
    decreases ticks.len(),
{
    if ticks.len() > 0 {
        lemma_no_deadline_no_request(tick_next(s, ticks[0]), ticks.drop_first());
    }
}

/// A renewal deadline is acted on once: over tracker ticks that follow one
/// another, a renewal is requested exactly once if some tick comes at or after
/// the deadline, and then the deadline is cleared; otherwise no renewal is
/// requested and the deadline stays.
pub proof fn lemma_deadline_fires_once(s: Scheduler, ticks: Seq<u32>)
    requires
        s.deadline is Some,
    ensures
        renewal_requests(s, ticks) <= 1,
        renewal_requests(s, ticks) == 1 <==> some_tick_reaches(ticks, s.deadline->0),
        some_tick_reaches(ticks, s.deadline->0) ==> run_ticks(s, ticks).deadline is None,
        !some_tick_reaches(ticks, s.deadline->0) ==> run_ticks(s, ticks).deadline == s.deadline,
    decreases ticks.len(),
{
    let d = s.deadline->0;
    if ticks.len() > 0 {
        let n = tick_next(s, ticks[0]);
        let rest = ticks.drop_first();
        if ticks[0] >= d {
            lemma_no_deadline_no_request(n, rest);
            assert(some_tick_reaches(ticks, d));
        } else {
            lemma_deadline_fires_once(n, rest);
            if some_tick_reaches(rest, d) {
                let i = choose|i: int| 0 <= i < rest.len() && rest[i] >= d;
                assert(ticks[i + 1] >= d);
            }
            if some_tick_reaches(ticks, d) {
                let i = choose|i: int| 0 <= i < ticks.len() && ticks[i] >= d;
                assert(rest[i - 1] >= d);
            }
        }
    }
}

/// The state after renewal runs at the given times with a negotiator that
/// reported an error each time.
pub open spec fn run_failed_renewals(s: Scheduler, nows: Seq<u32>) -> Scheduler
    decreases nows.len(),
{
    if nows.len() == 0 {
        s
    } else {
        run_failed_renewals(renewal_next(s, nows[0], None), nows.drop_first())
    }
}

/// With a negotiator that always fails, each renewal schedules the next one
/// the fixed retry interval after it ran, and the echo service's state is
/// never touched.
pub proof fn lemma_failed_renewals_retry(s: Scheduler, nows: Seq<u32>)
    requires
        nows.len() > 0,
        forall|i: int| 0 <= i < nows.len() ==> nows[i] + RETRY_SECS <= u32::MAX,
    ensures
        run_failed_renewals(s, nows).deadline == Some((nows.last() + RETRY_SECS) as u32),
        run_failed_renewals(s, nows).echo == s.echo,
        run_failed_renewals(s, nows).renewal == s.renewal,
    decreases nows.len(),
{
    let rest = nows.drop_first();
    if rest.len() > 0 {
        assert forall|i: int| 0 <= i < rest.len() implies rest[i] + RETRY_SECS <= u32::MAX by {
            assert(rest[i] == nows[i + 1]);
        }
        lemma_failed_renewals_retry(renewal_next(s, nows[0], None), rest);
        assert(rest.last() == nows.last());
    } else {
        assert(nows.last() == nows[0]);
        assert(run_failed_renewals(renewal_next(s, nows[0], None), rest) == renewal_next(
            s,
            nows[0],
            None,
        ));
    }
}

} // verus!
