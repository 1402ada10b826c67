//! Tests against live OS signal state. Each test works on its own
//! thread's signal mask and raises thread-directed signals, so the
//! tests do not disturb one another.

use nix::sys::signal::raise;
use nix::sys::signal::SaFlags;
use nix::sys::signal::SigAction;
use nix::sys::signal::SigHandler;
use nix::sys::signal::SigSet;
use nix::sys::signal::Signal;

use signal::sig::Sig;
use signal::trap::Trap;

fn sig(n: i32) -> Sig {
    Sig::from_number(n).unwrap()
}

#[test]
fn trap_blocks_and_release_restores_prior_mask() {
    let before = SigSet::thread_get_mask().unwrap();
    let usr1_blocked_before = before.contains(Signal::SIGUSR1);
    let term_blocked_before = before.contains(Signal::SIGTERM);

    let mut trap = Trap::trap(&[sig(10), sig(15)]).unwrap(); // SIGUSR1, SIGTERM
    let during = SigSet::thread_get_mask().unwrap();
    assert!(during.contains(Signal::SIGUSR1));
    assert!(during.contains(Signal::SIGTERM));

    trap.restore_mask().unwrap();
    let after = SigSet::thread_get_mask().unwrap();
    assert_eq!(after.contains(Signal::SIGUSR1), usr1_blocked_before);
    assert_eq!(after.contains(Signal::SIGTERM), term_blocked_before);
}

#[test]
fn arming_records_dispositions_in_trap_order() {
    let mut trap = Trap::trap(&[sig(10), sig(12)]).unwrap();
    assert_eq!(trap.next_to_install().unwrap().number(), 10);
    let noop = SigAction::new(SigHandler::SigIgn, SaFlags::empty(), SigSet::empty());
    trap.record_install(noop);
    assert_eq!(trap.next_to_install().unwrap().number(), 12);
    trap.record_install(noop);
    assert!(trap.next_to_install().is_none());
    let order: Vec<i32> = trap.dispositions().iter().map(|d| d.sig.number()).collect();
    assert_eq!(order, vec![10, 12]);
    trap.restore_mask().unwrap();
}

#[test]
fn raised_signal_round_trips_through_next() {
    let mut trap = Trap::trap(&[sig(10)]).unwrap(); // SIGUSR1
    raise(Signal::SIGUSR1).unwrap();
    let got = trap.next().unwrap();
    assert_eq!(got.number(), 10);
    trap.restore_mask().unwrap();
}

#[test]
fn iteration_yields_once_per_raise() {
    let mut trap = Trap::trap(&[sig(12)]).unwrap(); // SIGUSR2
    raise(Signal::SIGUSR2).unwrap();
    assert_eq!(trap.next().unwrap().number(), 12);
    raise(Signal::SIGUSR2).unwrap();
    assert_eq!(trap.next().unwrap().number(), 12);
    trap.restore_mask().unwrap();
}

#[test]
fn next_returns_a_signal_from_the_trapped_set() {
    let mut trap = Trap::trap(&[sig(10), sig(12)]).unwrap();
    raise(Signal::SIGUSR2).unwrap();
    let got = trap.next().unwrap();
    assert_eq!(got.number(), 12);
    trap.restore_mask().unwrap();
}
