use signal::exec_handler::check_nul_free;
use signal::exec_handler::exec_decision;
use signal::exec_handler::set_command_line;
use signal::exec_handler::set_handler;
use signal::exec_handler::ExecDecision;
use signal::os::OsError;
use signal::sig::Sig;
use signal::sigset::SignalSet;
use signal::trap::Trap;
use signal::trap::WaitOutcome;
use signal::trap::WaitStep;

fn sig(n: i32) -> Sig {
    Sig::from_number(n).unwrap()
}

#[test]
fn sig_from_number_range() {
    assert!(Sig::from_number(0).is_none());
    assert!(Sig::from_number(-3).is_none());
    assert!(Sig::from_number(32).is_none());
    assert_eq!(Sig::from_number(1).unwrap().number(), 1);
    assert_eq!(Sig::from_number(31).unwrap().number(), 31);
    assert_eq!(Sig::from_number(10).unwrap().number(), 10);
}

#[test]
fn signal_set_add_remove_contains() {
    let mut set = SignalSet::empty();
    assert!(!set.contains(sig(10)));
    set.add(sig(10));
    assert!(set.contains(sig(10)));
    assert!(!set.contains(sig(12)));
    assert!(set.contains_number(10));
    assert!(!set.contains_number(0));
    assert!(!set.contains_number(32));
    set.remove(sig(10));
    assert!(!set.contains(sig(10)));
}

#[test]
fn signal_set_members_sorted() {
    let mut set = SignalSet::empty();
    set.add(sig(15));
    set.add(sig(3));
    set.add(sig(9));
    let members: Vec<i32> = set.members().iter().map(|s| s.number()).collect();
    assert_eq!(members, vec![3, 9, 15]);
}

#[test]
fn signal_set_from_slice() {
    let set = SignalSet::from_slice(&[sig(10), sig(17)]);
    assert!(set.contains_number(10));
    assert!(set.contains_number(17));
    assert!(!set.contains_number(9));
    let empty = SignalSet::from_slice(&[]);
    assert_eq!(empty.members().len(), 0);
}

#[test]
fn remaining_time_is_exact() {
    let t = Trap::trap(&[]).unwrap();
    let w = t.wait(5_000_000_000);
    let r = w.timeout_args(1_000_000_000);
    assert_eq!((r.secs, r.nanos), (4, 0));
    let r = w.timeout_args(3_500_000_001);
    assert_eq!((r.secs, r.nanos), (1, 499_999_999));
    let r = w.timeout_args(4_999_999_999);
    assert_eq!((r.secs, r.nanos), (0, 1));
}

#[test]
fn past_deadline_leaves_no_time() {
    let t = Trap::trap(&[]).unwrap();
    let w = t.wait(1_000);
    assert_eq!(w.timeout_args(1_000), w.timeout_args(50_000));
    let r = w.timeout_args(2_000);
    assert_eq!((r.secs, r.nanos), (0, 0));
    // and an empty-handed attempt at that point ends the wait at once
    assert_eq!(w.step(WaitOutcome::Failed(OsError::WouldBlock)), WaitStep::TimedOut);
}

#[test]
fn wait_step_classification() {
    let t = Trap::trap(&[sig(10)]).unwrap();
    let w = t.wait(1_000_000);
    match w.step(WaitOutcome::Delivered(10)) {
        WaitStep::Yield(g) => assert_eq!(g.number(), 10),
        other => panic!("expected a yield, got {:?}", other),
    }
    assert_eq!(w.step(WaitOutcome::Delivered(12)), WaitStep::Fatal);
    assert_eq!(w.step(WaitOutcome::Delivered(0)), WaitStep::Fatal);
    assert_eq!(w.step(WaitOutcome::Failed(OsError::WouldBlock)), WaitStep::TimedOut);
    assert_eq!(w.step(WaitOutcome::Failed(OsError::Interrupted)), WaitStep::RetryWait);
    assert_eq!(w.step(WaitOutcome::Failed(OsError::Code(22))), WaitStep::Fatal);
}

#[test]
fn check_nul_free_finds_nul() {
    assert!(check_nul_free(b"abc"));
    assert!(check_nul_free(b""));
    assert!(!check_nul_free(b"a\0c"));
    assert!(!check_nul_free(b"\0"));
}

#[test]
fn command_line_is_captured_verbatim() {
    let config = set_command_line(
        b"/bin/echo".to_vec(),
        vec![b"echo".to_vec(), b"hi".to_vec()],
        vec![],
    );
    assert_eq!(config.program().as_slice(), b"/bin/echo");
    assert_eq!(config.args().len(), 2);
    assert_eq!(config.args()[0].as_slice(), b"echo");
    assert_eq!(config.args()[1].as_slice(), b"hi");
    assert!(config.env_entries().is_empty());
    assert!(config.owner_pid() >= 1);
}

#[test]
fn environment_entries_join_key_and_value() {
    let config = set_command_line(
        b"/bin/true".to_vec(),
        vec![b"true".to_vec()],
        vec![
            (b"HOME".to_vec(), b"/root".to_vec()),
            (b"EMPTY".to_vec(), b"".to_vec()),
        ],
    );
    assert_eq!(config.env_entries().len(), 2);
    assert_eq!(config.env_entries()[0].as_slice(), b"HOME=/root");
    assert_eq!(config.env_entries()[1].as_slice(), b"EMPTY=");
}

#[test]
fn second_configuration_supersedes_first() {
    let first = set_command_line(b"/bin/a".to_vec(), vec![b"a".to_vec()], vec![]);
    let second = set_command_line(
        b"/bin/b".to_vec(),
        vec![b"b".to_vec(), b"x".to_vec()],
        vec![(b"K".to_vec(), b"v".to_vec())],
    );
    // the later configuration reflects only its own inputs
    assert_eq!(second.program().as_slice(), b"/bin/b");
    assert_eq!(second.args().len(), 2);
    assert_eq!(second.env_entries()[0].as_slice(), b"K=v");
    // and building it left the first untouched
    assert_eq!(first.program().as_slice(), b"/bin/a");
    assert_eq!(first.args().len(), 1);
    assert!(first.env_entries().is_empty());
}

#[test]
fn exec_decision_detects_fork() {
    let config = set_command_line(b"/bin/true".to_vec(), vec![b"true".to_vec()], vec![]);
    let owner = config.owner_pid();
    assert_eq!(exec_decision(&config, owner), ExecDecision::Exec);
    assert_eq!(exec_decision(&config, owner + 1), ExecDecision::ForkMismatch);
    assert_eq!(exec_decision(&config, owner + 40_000), ExecDecision::ForkMismatch);
}

#[test]
fn install_plan_with_race_avoidance_blocks_whole_set() {
    let signals = [sig(10), sig(12)];
    let plan = set_handler(&signals, true);
    let installs: Vec<i32> = plan.installs().iter().map(|s| s.number()).collect();
    assert_eq!(installs, vec![10, 12]);
    let block = plan.block_set().expect("race avoidance must block");
    assert!(block.contains_number(10));
    assert!(block.contains_number(12));
    assert!(!block.contains_number(15));
    // unblock happens only after every install succeeded
    assert_eq!(plan.unblock_set(true), Some(block));
    assert_eq!(plan.unblock_set(false), None);
}

#[test]
fn install_plan_without_race_avoidance_blocks_nothing() {
    let signals = [sig(10), sig(12)];
    let plan = set_handler(&signals, false);
    assert_eq!(plan.installs().len(), 2);
    assert!(plan.block_set().is_none());
    assert!(plan.unblock_set(true).is_none());
}
