use pinode::scheduler::{next_deadline, IrqDispatch, Scheduler, TickDispatch, RETRY_SECS};
use pinode::socket::{DHCP_SN, SERVICE_SN};
use pinode::spawn::{SpawnFlag, SpawnOutcome};

fn status_of(sn: u8) -> u8 {
    1u8 << sn
}

#[test]
fn zero_status_never_spawns() {
    let mut s = Scheduler::new();
    for _ in 0..10 {
        let d = s.on_interrupt(0);
        assert_eq!(d, IrqDispatch { clear_line: false, renewal: None, echo: None });
    }
    assert_eq!(s, Scheduler::new());
}

#[test]
fn dhcp_bit_requests_renewal_only() {
    let mut s = Scheduler::new();
    let d = s.on_interrupt(status_of(DHCP_SN));
    assert_eq!(d, IrqDispatch { clear_line: true, renewal: Some(SpawnOutcome::Queued), echo: None });
    assert!(s.renewal.pending);
    assert!(!s.echo.pending);
}

#[test]
fn service_bit_requests_echo_only() {
    let mut s = Scheduler::new();
    let d = s.on_interrupt(status_of(SERVICE_SN));
    assert_eq!(d, IrqDispatch { clear_line: true, renewal: None, echo: Some(SpawnOutcome::Queued) });
    assert!(!s.renewal.pending);
    assert!(s.echo.pending);
}

#[test]
fn both_bits_request_both() {
    let mut s = Scheduler::new();
    let d = s.on_interrupt(0b11);
    assert_eq!(
        d,
        IrqDispatch {
            clear_line: true,
            renewal: Some(SpawnOutcome::Queued),
            echo: Some(SpawnOutcome::Queued),
        }
    );
}

#[test]
fn other_socket_bits_clear_line_without_spawn() {
    let mut s = Scheduler::new();
    let d = s.on_interrupt(0b1000_0100);
    assert_eq!(d, IrqDispatch { clear_line: true, renewal: None, echo: None });
    assert_eq!(s, Scheduler::new());
}

#[test]
fn spawn_flag_rejects_second_request() {
    let mut f = SpawnFlag::new();
    assert_eq!(f.request(), SpawnOutcome::Queued);
    for _ in 0..5 {
        assert_eq!(f.request(), SpawnOutcome::AlreadyPending);
    }
    assert!(f.begin());
    assert!(!f.begin());
    assert_eq!(f.request(), SpawnOutcome::Queued);
}

#[test]
fn at_most_one_pending_per_activity() {
    let mut s = Scheduler::new();
    let mut renewal_queued = 0;
    let mut echo_queued = 0;
    for sir in [0b01u8, 0b11, 0b10, 0b11] {
        let d = s.on_interrupt(sir);
        if d.renewal == Some(SpawnOutcome::Queued) {
            renewal_queued += 1;
        }
        if d.echo == Some(SpawnOutcome::Queued) {
            echo_queued += 1;
        }
    }
    for now in 0..3u32 {
        let d = s.on_tick(now);
        if d.echo == SpawnOutcome::Queued {
            echo_queued += 1;
        }
    }
    assert_eq!(renewal_queued, 1);
    assert_eq!(echo_queued, 1);
}

#[test]
fn tracker_and_renewal_timeline() {
    let mut s = Scheduler::new();
    let d = s.on_tick(0);
    assert_eq!(d, TickDispatch { renewal: None, echo: SpawnOutcome::Queued });
    assert!(s.begin_echo());

    assert_eq!(s.request_renewal(), SpawnOutcome::Queued);
    assert!(s.begin_renewal());
    let interval = s.finish_renewal(0, Some(600));
    assert_eq!(interval, 600);
    assert_eq!(s.deadline, Some(600));

    for now in 1..600u32 {
        let d = s.on_tick(now);
        assert_eq!(d.renewal, None);
        assert_eq!(s.deadline, Some(600));
        s.begin_echo();
    }

    let d = s.on_tick(600);
    assert_eq!(d.renewal, Some(SpawnOutcome::Queued));
    assert_eq!(s.deadline, None);

    for now in 601..700u32 {
        let d = s.on_tick(now);
        assert_eq!(d.renewal, None);
    }
}

#[test]
fn overdue_deadline_fires_once_even_when_spawn_rejected() {
    let mut s = Scheduler::new();
    s.finish_renewal(10, Some(20));
    assert_eq!(s.request_renewal(), SpawnOutcome::Queued);
    let d = s.on_tick(45);
    assert_eq!(d.renewal, Some(SpawnOutcome::AlreadyPending));
    assert_eq!(s.deadline, None);
    let d = s.on_tick(46);
    assert_eq!(d.renewal, None);
}

#[test]
fn failed_negotiation_retries_every_five_seconds() {
    let mut s = Scheduler::new();
    let mut now = 3u32;
    for _ in 0..20 {
        let echo_before = s.echo;
        let interval = s.finish_renewal(now, None);
        assert_eq!(interval, RETRY_SECS);
        assert_eq!(interval, 5);
        assert_eq!(s.deadline, Some(now + 5));
        assert_eq!(s.echo, echo_before);
        for t in now..now + 5 {
            assert_eq!(s.on_tick(t).renewal, None);
            s.begin_echo();
        }
        now += 5;
        assert_eq!(s.on_tick(now).renewal, Some(SpawnOutcome::Queued));
        assert!(s.begin_renewal());
    }
}

#[test]
fn two_interrupts_before_run_start_one_instance() {
    let mut s = Scheduler::new();
    let first = s.on_interrupt(status_of(SERVICE_SN));
    let second = s.on_interrupt(status_of(SERVICE_SN));
    assert_eq!(first.echo, Some(SpawnOutcome::Queued));
    assert_eq!(second.echo, Some(SpawnOutcome::AlreadyPending));
    let mut runs = 0;
    while s.begin_echo() {
        runs += 1;
    }
    assert_eq!(runs, 1);
}

#[test]
fn renewal_overwrites_stale_deadline() {
    let mut s = Scheduler::new();
    s.finish_renewal(100, Some(30));
    assert_eq!(s.deadline, Some(130));
    s.finish_renewal(110, Some(7));
    assert_eq!(s.deadline, Some(117));
}

#[test]
fn next_deadline_bounds() {
    assert_eq!(next_deadline(0, Some(600)), Some(600));
    assert_eq!(next_deadline(10, None), Some(15));
    assert_eq!(next_deadline(u32::MAX - 5, None), Some(u32::MAX));
    assert_eq!(next_deadline(u32::MAX - 4, None), None);
    assert_eq!(next_deadline(1, Some(u32::MAX)), None);
}
