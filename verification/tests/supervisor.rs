use lian::catalog::Operation;
use lian::supervisor::{
    should_remove_lock, CancelLadder, LadderAction, LadderPhase, Signal, Supervisor,
    INTERRUPT_GRACE_MS, KILL_SETTLE_MS, PID_WAIT_MS, POLL_INTERVAL_MS, TERMINATE_GRACE_MS,
};

fn run_ladder(start: u64, lifetime: u64, pid_known: bool) -> Vec<(Signal, u64)> {
    let mut ladder = CancelLadder::new();
    let mut sent = Vec::new();
    if let LadderAction::Send(s) = ladder.begin(start, pid_known) {
        sent.push((s, start));
    }
    let mut now = start;
    for _ in 0..200 {
        now += POLL_INTERVAL_MS;
        let alive = now < start + lifetime;
        match ladder.poll(now, pid_known, alive) {
            LadderAction::Send(s) => sent.push((s, now)),
            LadderAction::Reap | LadderAction::GiveUp => break,
            LadderAction::Wait => {}
        }
    }
    sent
}

fn rank(s: Signal) -> u8 {
    match s {
        Signal::Interrupt => 1,
        Signal::Terminate => 2,
        Signal::Kill => 3,
    }
}

#[test]
fn grace_periods() {
    assert_eq!(PID_WAIT_MS, 500);
    assert_eq!(INTERRUPT_GRACE_MS, 5000);
    assert_eq!(TERMINATE_GRACE_MS, 1000);
    assert_eq!(KILL_SETTLE_MS, 200);
    assert_eq!(POLL_INTERVAL_MS, 100);
}

#[test]
fn prompt_exit_gets_the_interrupt_only() {
    let sent = run_ladder(1_000, 300, true);
    assert_eq!(sent, vec![(Signal::Interrupt, 1_000)]);
}

#[test]
fn stubborn_child_gets_the_whole_ladder() {
    let sent = run_ladder(0, 1_000_000, true);
    assert_eq!(
        sent,
        vec![(Signal::Interrupt, 0), (Signal::Terminate, 5_000), (Signal::Kill, 6_000)]
    );
}

#[test]
fn child_that_dies_after_terminate_is_not_killed() {
    let sent = run_ladder(0, 5_500, true);
    assert_eq!(sent, vec![(Signal::Interrupt, 0), (Signal::Terminate, 5_000)]);
}

#[test]
fn escalation_is_ordered_for_every_lifetime() {
    let mut lifetime = 0;
    while lifetime <= 8_000 {
        let sent = run_ladder(10, lifetime, true);
        assert!(!sent.is_empty());
        assert_eq!(sent[0].0, Signal::Interrupt);
        for pair in sent.windows(2) {
            assert!(rank(pair[1].0) > rank(pair[0].0));
            assert!(pair[1].1 - pair[0].1 >= TERMINATE_GRACE_MS);
        }
        assert!(sent.iter().filter(|e| e.0 == Signal::Kill).count() <= 1);
        lifetime += 50;
    }
}

#[test]
fn unknown_process_group_gives_up_after_the_wait() {
    let mut ladder = CancelLadder::new();
    assert_eq!(ladder.begin(100, false), LadderAction::Wait);
    assert_eq!(ladder.phase, LadderPhase::AwaitingPid { deadline: 600 });
    assert!(ladder.in_flight());
    assert_eq!(ladder.poll(200, false, true), LadderAction::Wait);
    assert_eq!(ladder.poll(599, false, true), LadderAction::Wait);
    assert_eq!(ladder.poll(600, false, true), LadderAction::GiveUp);
    assert_eq!(ladder.phase, LadderPhase::Done);
    assert!(!ladder.in_flight());
}

#[test]
fn late_process_group_is_interrupted_when_known() {
    let mut ladder = CancelLadder::new();
    assert_eq!(ladder.begin(100, false), LadderAction::Wait);
    assert_eq!(ladder.poll(300, true, true), LadderAction::Send(Signal::Interrupt));
    assert_eq!(ladder.phase, LadderPhase::Interrupted { since: 300 });
}

#[test]
fn second_begin_changes_nothing() {
    let mut ladder = CancelLadder::new();
    assert_eq!(ladder.begin(0, true), LadderAction::Send(Signal::Interrupt));
    assert_eq!(ladder.begin(50, true), LadderAction::Wait);
    assert_eq!(ladder.phase, LadderPhase::Interrupted { since: 0 });
}

#[test]
fn idle_ladder_waits() {
    let mut ladder = CancelLadder::new();
    assert!(!ladder.in_flight());
    assert_eq!(ladder.poll(10, true, true), LadderAction::Wait);
    assert_eq!(ladder.phase, LadderPhase::Idle);
}

#[test]
fn kill_settles_before_the_reap() {
    let mut ladder = CancelLadder { phase: LadderPhase::Killed { since: 1_000 } };
    assert_eq!(ladder.poll(1_100, true, true), LadderAction::Wait);
    assert_eq!(ladder.poll(1_200, true, true), LadderAction::Reap);
    assert_eq!(ladder.phase, LadderPhase::Done);
}

#[test]
fn begin_near_the_end_of_the_clock_saturates() {
    let mut ladder = CancelLadder::new();
    ladder.begin(u64::MAX - 10, false);
    assert_eq!(ladder.phase, LadderPhase::AwaitingPid { deadline: u64::MAX });
}

#[test]
fn lock_is_removed_only_when_left_behind() {
    assert!(should_remove_lock(true, false));
    assert!(!should_remove_lock(true, true));
    assert!(!should_remove_lock(false, false));
    assert!(!should_remove_lock(false, true));
}

#[test]
fn second_spawn_is_refused_while_one_runs() {
    let mut s = Supervisor::new();
    assert!(s.request_spawn(Operation::Update));
    s.record_pgid(4242);
    let before = s;
    assert!(!s.request_spawn(Operation::Install));
    assert!(!s.request_spawn(Operation::Remove));
    assert_eq!(s.active, before.active);
    assert_eq!(s.active.unwrap().operation, Operation::Update);
    assert_eq!(s.active.unwrap().pgid, 4242);
    let out = s.finish("out".to_string(), String::new(), true).unwrap();
    assert!(out.success);
    assert!(s.active.is_none());
    assert!(s.request_spawn(Operation::Install));
    assert_eq!(s.active.unwrap().operation, Operation::Install);
    assert_eq!(s.active.unwrap().pgid, 0);
}

#[test]
fn failed_spawn_releases_the_handle() {
    let mut s = Supervisor::new();
    assert!(s.request_spawn(Operation::Custom));
    s.spawn_failed();
    assert!(s.active.is_none());
    assert!(s.request_spawn(Operation::Update));
}

#[test]
fn finish_without_a_child_reports_nothing() {
    let mut s = Supervisor::new();
    assert!(s.finish("x".to_string(), "y".to_string(), true).is_none());
}

#[test]
fn finished_run_reports_its_output() {
    let mut s = Supervisor::new();
    s.request_spawn(Operation::Update);
    let out = s.finish("line1\nline2\nline3\n".to_string(), "warn\n".to_string(), true).unwrap();
    assert!(out.success);
    assert_eq!(out.stdout, "line1\nline2\nline3\n");
    assert_eq!(out.stderr, "warn\n");
    let mut s = Supervisor::new();
    s.request_spawn(Operation::Update);
    let out = s.finish(String::new(), "error: failed\n".to_string(), false).unwrap();
    assert!(!out.success);
    assert_eq!(out.stderr, "error: failed\n");
}

#[test]
fn cancelled_run_interrupts_first_and_reports_the_notice() {
    let mut s = Supervisor::new();
    assert!(s.request_spawn(Operation::Update));
    s.record_pgid(777);
    assert!(!s.should_cancel());
    assert_eq!(s.cancel(40), LadderAction::Send(Signal::Interrupt));
    assert!(s.should_cancel());
    assert_eq!(s.cancel(45), LadderAction::Wait);
    assert_eq!(s.poll(140, true), LadderAction::Wait);
    assert_eq!(s.poll(240, false), LadderAction::Reap);
    let out = s.finish("partial\n".to_string(), "noise".to_string(), true).unwrap();
    assert!(!out.success);
    assert_eq!(out.stderr, "更新已取消");
    assert_eq!(out.stdout, "partial\n");
    assert!(s.active.is_none());
}

#[test]
fn cancel_notices_name_the_operation() {
    assert_eq!(Operation::Update.cancel_message(), "更新已取消");
    assert_eq!(Operation::Install.cancel_message(), "安装已取消");
    assert_eq!(Operation::Remove.cancel_message(), "卸载已取消");
    assert_eq!(Operation::Custom.cancel_message(), "命令已取消");
}

#[test]
fn cancel_without_a_child_does_nothing() {
    let mut s = Supervisor::new();
    assert_eq!(s.cancel(5), LadderAction::Wait);
    assert_eq!(s.poll(105, true), LadderAction::Wait);
    assert!(!s.should_cancel());
    assert_eq!(s.ladder.phase, LadderPhase::Idle);
}

#[test]
fn cancel_before_the_group_is_known_waits_for_it() {
    let mut s = Supervisor::new();
    s.request_spawn(Operation::Install);
    assert_eq!(s.cancel(0), LadderAction::Wait);
    assert!(s.should_cancel());
    s.record_pgid(9);
    assert_eq!(s.poll(100, true), LadderAction::Send(Signal::Interrupt));
}

#[test]
fn reset_clears_the_flag_and_the_group() {
    let mut s = Supervisor::new();
    s.request_spawn(Operation::Remove);
    s.record_pgid(12);
    s.cancel(0);
    s.reset_cancel();
    assert!(!s.should_cancel());
    assert_eq!(s.active.unwrap().pgid, 0);
    assert_eq!(s.ladder.phase, LadderPhase::Idle);
}
