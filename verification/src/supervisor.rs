//! The decisions of the process supervisor: at most one child at a time, an
//! escalating ladder of signals to cancel it, and what a run finally
//! reports. Starting processes, sending signals and sleeping are the
//! caller's part; this module says what to do next.

use crate::catalog::{cancel_notice, Operation};
use crate::types::UpdateOutput;
use vstd::prelude::*;

verus! {

/// How long a cancellation waits for the process-group id of a child that
/// is just starting, in milliseconds.
pub const PID_WAIT_MS: u64 = 500;

/// How long the child has to react to the interrupt.
pub const INTERRUPT_GRACE_MS: u64 = 5000;

/// How long the child has to react to the termination signal.
pub const TERMINATE_GRACE_MS: u64 = 1000;

/// How long the kill is given to take effect before the child is reaped.
pub const KILL_SETTLE_MS: u64 = 200;

/// The interval at which the ladder wants to be polled.
pub const POLL_INTERVAL_MS: u64 = 100;

/// A signal to the whole process group of the child.
#[derive(Debug, Clone, Copy, PartialEq, Eq, Structural)]
pub enum Signal {
    /// The cooperative one: the child may clean up and release its lock.
    Interrupt,
    /// The forceful one.
    Terminate,
    /// The unconditional one.
    Kill,
}

pub open spec fn strength(s: Signal) -> int {
    match s {
        Signal::Interrupt => 1,
        Signal::Terminate => 2,
        Signal::Kill => 3,
    }
}

/// Where a cancellation stands.
#[derive(Debug, Clone, Copy, PartialEq, Eq, Structural)]
pub enum LadderPhase {
    /// No cancellation was asked for.
    Idle,
    /// Asked for, but the process-group id is not known yet.
    AwaitingPid { deadline: u64 },
    /// The interrupt was sent at `since`.
    Interrupted { since: u64 },
    /// The termination signal was sent at `since`.
    Terminated { since: u64 },
    /// The kill was sent at `since`.
    Killed { since: u64 },
    /// Nothing is left to do.
    Done,
}

/// What the caller is to do now.
#[derive(Debug, Clone, Copy, PartialEq, Eq, Structural)]
pub enum LadderAction {
    /// Nothing; poll again after the poll interval.
    Wait,
    /// Send this signal to the process group.
    Send(Signal),
    /// The group is gone or the ladder is exhausted: reap the child and
    /// look after the lock it may have left.
    Reap,
    /// The process-group id never came: this attempt does nothing.
    GiveUp,
}

/// What the caller saw when it polled.
pub struct Observation {
    /// Milliseconds on a monotonic clock.
    pub now: u64,
    /// Whether the process-group id is known by now.
    pub pid_known: bool,
    /// Whether the process group still exists.
    pub alive: bool,
}

/// A signal and when it was sent.
pub struct Emission {
    pub signal: Signal,
    pub at: u64,
}

pub open spec fn plus(now: u64, span: u64) -> u64 {
    if now + span > u64::MAX {
        u64::MAX
    } else {
        (now + span) as u64
    }
}

/// Whether at least `span` milliseconds lie between `since` and `now`.
pub open spec fn elapsed(since: u64, now: u64, span: u64) -> bool {
    now >= since && now - since >= span
}

/// The ladder after a cancellation was asked for at `now`. Only an idle
/// ladder reacts: a second request while one is in flight changes nothing.
pub open spec fn begin_spec(phase: LadderPhase, now: u64, pid_known: bool) -> (
    LadderPhase,
    LadderAction,
) {
    match phase {
        LadderPhase::Idle => if pid_known {
            (LadderPhase::Interrupted { since: now }, LadderAction::Send(Signal::Interrupt))
        } else {
            (LadderPhase::AwaitingPid { deadline: plus(now, PID_WAIT_MS) }, LadderAction::Wait)
        },
        _ => (phase, LadderAction::Wait),
    }
}

/// The ladder after one poll.
pub open spec fn poll_spec(phase: LadderPhase, o: Observation) -> (LadderPhase, LadderAction) {
    match phase {
        LadderPhase::Idle => (phase, LadderAction::Wait),
        LadderPhase::Done => (phase, LadderAction::Wait),
        LadderPhase::AwaitingPid { deadline } => if o.pid_known {
            (LadderPhase::Interrupted { since: o.now }, LadderAction::Send(Signal::Interrupt))
        } else if o.now >= deadline {
            (LadderPhase::Done, LadderAction::GiveUp)
        } else {
            (phase, LadderAction::Wait)
        },
        LadderPhase::Interrupted { since } => if !o.alive {
            (LadderPhase::Done, LadderAction::Reap)
        } else if elapsed(since, o.now, INTERRUPT_GRACE_MS) {
            (LadderPhase::Terminated { since: o.now }, LadderAction::Send(Signal::Terminate))
        } else {
            (phase, LadderAction::Wait)
        },
        LadderPhase::Terminated { since } => if !elapsed(since, o.now, TERMINATE_GRACE_MS) {
            (phase, LadderAction::Wait)
        } else if o.alive {
            (LadderPhase::Killed { since: o.now }, LadderAction::Send(Signal::Kill))
        } else {
            (LadderPhase::Done, LadderAction::Reap)
        },
        LadderPhase::Killed { since } => if !o.alive || elapsed(since, o.now, KILL_SETTLE_MS) {
            (LadderPhase::Done, LadderAction::Reap)
        } else {
            (phase, LadderAction::Wait)
        },
    }
}

/// The phase after a series of polls.
pub open spec fn phase_after(phase: LadderPhase, obs: Seq<Observation>) -> LadderPhase
    decreases obs.len(),
{
    if obs.len() == 0 {
        phase
    } else {
        poll_spec(phase_after(phase, obs.drop_last()), obs.last()).0
    }
}

pub open spec fn with_action(log: Seq<Emission>, action: LadderAction, at: u64) -> Seq<Emission> {
    match action {
        LadderAction::Send(signal) => log.push(Emission { signal, at }),
        _ => log,
    }
}

/// The signals sent during a series of polls, after those in `log`.
pub open spec fn signals_during(phase: LadderPhase, obs: Seq<Observation>, log: Seq<Emission>) -> Seq<
    Emission,
>
    decreases obs.len(),
{
    if obs.len() == 0 {
        log
    } else {
        with_action(
            signals_during(phase, obs.drop_last(), log),
            poll_spec(phase_after(phase, obs.drop_last()), obs.last()).1,
            obs.last().now,
        )
    }
}

/// All signals of one cancellation: asked for at `now` and then polled with
/// what `obs` records.
pub open spec fn signals_sent(now: u64, pid_known: bool, obs: Seq<Observation>) -> Seq<Emission> {
    let (phase, action) = begin_spec(LadderPhase::Idle, now, pid_known);
    signals_during(phase, obs, with_action(Seq::empty(), action, now))
}

/// The order the ladder keeps: the interrupt comes first; every later signal
/// is stronger than the one before it and comes no sooner than the shorter
/// grace period after it; the kill is sent at most once.
pub open spec fn well_ordered(log: Seq<Emission>) -> bool {
    &&& log.len() > 0 ==> log[0].signal == Signal::Interrupt
    &&& forall|i: int| 0 < i < log.len() ==> #[trigger] escalates(log, i)
    &&& forall|i: int, j: int| 0 <= i < j < log.len() ==> !#[trigger] both_kill(log, i, j)
}

/// Signal `i` is stronger than the one before it and was sent at least the
/// shorter grace period later.
pub open spec fn escalates(log: Seq<Emission>, i: int) -> bool {
    strength(log[i].signal) > strength(log[i - 1].signal) && log[i].at - log[i - 1].at
        >= TERMINATE_GRACE_MS
}

pub open spec fn both_kill(log: Seq<Emission>, i: int, j: int) -> bool {
    log[i].signal == Signal::Kill && log[j].signal == Signal::Kill
}

/// How the phase and the signals sent so far belong together.
pub open spec fn consistent(phase: LadderPhase, log: Seq<Emission>) -> bool {
    &&& log.len() <= 3
    &&& log.len() >= 1 ==> log[0].signal == Signal::Interrupt
    &&& log.len() >= 2 ==> log[1].signal == Signal::Terminate && log[1].at - log[0].at
        >= INTERRUPT_GRACE_MS
    &&& log.len() >= 3 ==> log[2].signal == Signal::Kill && log[2].at - log[1].at
        >= TERMINATE_GRACE_MS
    &&& match phase {
        LadderPhase::Idle => log.len() == 0,
        LadderPhase::AwaitingPid { .. } => log.len() == 0,
        LadderPhase::Interrupted { since } => log.len() == 1 && log[0].at == since,
        LadderPhase::Terminated { since } => log.len() == 2 && log[1].at == since,
        LadderPhase::Killed { since } => log.len() == 3,
        LadderPhase::Done => true,
    }
}

proof fn lemma_consistent_step(phase: LadderPhase, o: Observation, log: Seq<Emission>)
    requires
        consistent(phase, log),
    ensures
        consistent(poll_spec(phase, o).0, with_action(log, poll_spec(phase, o).1, o.now)),
{
}

proof fn lemma_consistent_polls(phase: LadderPhase, obs: Seq<Observation>, log: Seq<Emission>)
    requires
        consistent(phase, log),
    ensures
        consistent(phase_after(phase, obs), signals_during(phase, obs, log)),
    decreases obs.len(),
{
    if obs.len() > 0 {
        lemma_consistent_polls(phase, obs.drop_last(), log);
        lemma_consistent_step(
            phase_after(phase, obs.drop_last()),
            obs.last(),
            signals_during(phase, obs.drop_last(), log),
        );
    }
}

proof fn lemma_consistent_ordered(phase: LadderPhase, log: Seq<Emission>)
    requires
        consistent(phase, log),
    ensures
        well_ordered(log),
{
    assert forall|i: int| 0 < i < log.len() implies #[trigger] escalates(log, i) by {
        assert(i == 1 || i == 2);
    }
    assert forall|i: int, j: int| 0 <= i < j < log.len() implies !#[trigger] both_kill(
        log,
        i,
        j,
    ) by {
        assert(i == 0 || i == 1);
    }
}

/// Whatever the child does and whenever the ladder is polled, the signals of
/// one cancellation keep the ladder's order.
pub proof fn lemma_escalation_order(now: u64, pid_known: bool, obs: Seq<Observation>)
    ensures
        well_ordered(signals_sent(now, pid_known, obs)),
{
    let (phase, action) = begin_spec(LadderPhase::Idle, now, pid_known);
    let log = with_action(Seq::<Emission>::empty(), action, now);
    assert(consistent(phase, log));
    lemma_consistent_polls(phase, obs, log);
    lemma_consistent_ordered(phase_after(phase, obs), signals_sent(now, pid_known, obs));
}

/// A child that is gone at the first poll after the interrupt gets no
/// further signal.
pub proof fn lemma_prompt_exit_needs_no_kill(now: u64, o: Observation)
    requires
        !o.alive,
    ensures
        signals_sent(now, true, seq![o]) == seq![
            Emission { signal: Signal::Interrupt, at: now },
        ],
        phase_after(begin_spec(LadderPhase::Idle, now, true).0, seq![o]) == LadderPhase::Done,
{
    let phase = begin_spec(LadderPhase::Idle, now, true).0;
    let obs = seq![o];
    assert(obs.drop_last() =~= Seq::<Observation>::empty());
    assert(phase_after(phase, obs.drop_last()) == phase);
    let log = with_action(Seq::<Emission>::empty(), LadderAction::Send(Signal::Interrupt), now);
    assert(signals_during(phase, obs.drop_last(), log) == log);
    assert(log =~= seq![Emission { signal: Signal::Interrupt, at: now }]);
}

/// The escalation ladder of one cancellation.
#[derive(Debug, Clone, Copy)]
pub struct CancelLadder {
    pub phase: LadderPhase,
}

fn add_ms(now: u64, span: u64) -> (r: u64)
    ensures
        r == plus(now, span),
{
    if span > u64::MAX - now {
        u64::MAX
    } else {
        now + span
    }
}

fn has_elapsed(since: u64, now: u64, span: u64) -> (r: bool)
    ensures
        r == elapsed(since, now, span),
{
    now >= since && now - since >= span
}

impl CancelLadder {
    pub fn new() -> (l: CancelLadder)
        ensures
            l.phase == LadderPhase::Idle,
    {
        CancelLadder { phase: LadderPhase::Idle }
    }

    /// Asks for the cancellation at time `now`.
    pub fn begin(&mut self, now: u64, pid_known: bool) -> (action: LadderAction)
        ensures
            (final(self).phase, action) == begin_spec(old(self).phase, now, pid_known),
    {
        match self.phase {
            LadderPhase::Idle => {
                if pid_known {
                    self.phase = LadderPhase::Interrupted { since: now };
                    LadderAction::Send(Signal::Interrupt)
                } else {
                    self.phase = LadderPhase::AwaitingPid { deadline: add_ms(now, PID_WAIT_MS) };
                    LadderAction::Wait
                }
            },
            _ => LadderAction::Wait,
        }
    }

    /// Tells the ladder what was seen at time `now` and asks what to do.
    pub fn poll(&mut self, now: u64, pid_known: bool, alive: bool) -> (action: LadderAction)
        ensures
            (final(self).phase, action) == poll_spec(
                old(self).phase,
                Observation { now, pid_known, alive },
            ),
    {
        match self.phase {
            LadderPhase::Idle => LadderAction::Wait,
            LadderPhase::Done => LadderAction::Wait,
            LadderPhase::AwaitingPid { deadline } => {
                if pid_known {
                    self.phase = LadderPhase::Interrupted { since: now };
                    LadderAction::Send(Signal::Interrupt)
                } else if now >= deadline {
                    self.phase = LadderPhase::Done;
                    LadderAction::GiveUp
                } else {
                    LadderAction::Wait
                }
            },
            LadderPhase::Interrupted { since } => {
                if !alive {
                    self.phase = LadderPhase::Done;
                    LadderAction::Reap
                } else if has_elapsed(since, now, INTERRUPT_GRACE_MS) {
                    self.phase = LadderPhase::Terminated { since: now };
                    LadderAction::Send(Signal::Terminate)
                } else {
                    LadderAction::Wait
                }
            },
            LadderPhase::Terminated { since } => {
                if !has_elapsed(since, now, TERMINATE_GRACE_MS) {
                    LadderAction::Wait
                } else if alive {
                    self.phase = LadderPhase::Killed { since: now };
                    LadderAction::Send(Signal::Kill)
                } else {
                    self.phase = LadderPhase::Done;
                    LadderAction::Reap
                }
            },
            LadderPhase::Killed { since } => {
                if !alive || has_elapsed(since, now, KILL_SETTLE_MS) {
                    self.phase = LadderPhase::Done;
                    LadderAction::Reap
                } else {
                    LadderAction::Wait
                }
            },
        }
    }

    /// Whether a cancellation is under way.
    pub fn in_flight(&self) -> (r: bool)
        ensures
            r == (self.phase != LadderPhase::Idle && self.phase != LadderPhase::Done),
    {
        match self.phase {
            LadderPhase::Idle => false,
            LadderPhase::Done => false,
            _ => true,
        }
    }
}

/// Whether the lock file a killed child may have left is to be removed:
/// only when it exists and no other instance of the tool is running, whose
/// lock it would be.
pub fn should_remove_lock(lock_exists: bool, other_instance_running: bool) -> (r: bool)
    ensures
        r == (lock_exists && !other_instance_running),
{
    lock_exists && !other_instance_running
}

// ---------------------------------------------------------------------------
// The single outstanding handle
// ---------------------------------------------------------------------------

/// The one running child.
#[derive(Debug, Clone, Copy, PartialEq, Eq, Structural)]
pub struct ChildHandle {
    /// The process-group id, 0 while it is not known yet.
    pub pgid: u32,
    /// The operation the child serves.
    pub operation: Operation,
    /// Whether its cancellation was asked for.
    pub cancelled: bool,
}

/// The supervisor's state: the child, if one runs, and its ladder.
#[derive(Debug, Clone, Copy)]
pub struct Supervisor {
    pub active: Option<ChildHandle>,
    pub ladder: CancelLadder,
}

/// The supervisor after a spawn request, and whether the request was
/// accepted: it is refused, and changes nothing, while a child is active.
pub open spec fn spawn_spec(s: Supervisor, op: Operation) -> (Supervisor, bool) {
    if s.active is Some {
        (s, false)
    } else {
        (
            Supervisor {
                active: Some(ChildHandle { pgid: 0, operation: op, cancelled: false }),
                ladder: CancelLadder { phase: LadderPhase::Idle },
            },
            true,
        )
    }
}

/// The supervisor after a series of spawn requests.
pub open spec fn after_spawns(s: Supervisor, ops: Seq<Operation>) -> Supervisor
    decreases ops.len(),
{
    if ops.len() == 0 {
        s
    } else {
        spawn_spec(after_spawns(s, ops.drop_last()), ops.last()).0
    }
}

/// While a child is active every spawn request is refused and leaves the
/// supervisor as it was, however many are made.
pub proof fn lemma_single_handle(s: Supervisor, ops: Seq<Operation>)
    requires
        s.active is Some,
    ensures
        after_spawns(s, ops) == s,
        forall|i: int|
            0 <= i < ops.len() ==> !(#[trigger] spawn_spec(after_spawns(s, ops.take(i)), ops[i])).1,
    decreases ops.len(),
{
    if ops.len() > 0 {
        lemma_single_handle(s, ops.drop_last());
        assert forall|i: int| 0 <= i < ops.len() implies !(#[trigger] spawn_spec(
            after_spawns(s, ops.take(i)),
            ops[i],
        )).1 by {
            lemma_single_handle(s, ops.take(i));
        }
    }
}

/// Of any series of spawn requests to an idle supervisor only the first is
/// accepted; its handle is the one that stays.
pub proof fn lemma_first_spawn_wins(s: Supervisor, ops: Seq<Operation>)
    requires
        s.active is None,
        ops.len() > 0,
    ensures
        after_spawns(s, ops) == spawn_spec(s, ops[0]).0,
    decreases ops.len(),
{
    if ops.len() == 1 {
        assert(ops.drop_last() =~= Seq::<Operation>::empty());
        assert(after_spawns(s, ops.drop_last()) == s);
    } else {
        lemma_first_spawn_wins(s, ops.drop_last());
    }
}

/// What a run reports when it ends: the captured output and the exit
/// status, or, for a cancelled run, failure with the cancellation notice
/// in place of the error output.
pub open spec fn result_spec(
    h: ChildHandle,
    stdout: Seq<char>,
    stderr: Seq<char>,
    exit_success: bool,
) -> (Seq<char>, Seq<char>, bool) {
    if h.cancelled {
        (stdout, cancel_notice(h.operation), false)
    } else {
        (stdout, stderr, exit_success)
    }
}

impl Supervisor {
    pub fn new() -> (s: Supervisor)
        ensures
            s.active is None,
            s.ladder.phase == LadderPhase::Idle,
    {
        Supervisor { active: None, ladder: CancelLadder::new() }
    }

    /// Asks to start a child for `op`. Refused while another is active.
    pub fn request_spawn(&mut self, op: Operation) -> (accepted: bool)
        ensures
            (*final(self), accepted) == spawn_spec(*old(self), op),
    {
        match self.active {
            Some(_) => false,
            None => {
                self.active = Some(ChildHandle { pgid: 0, operation: op, cancelled: false });
                self.ladder = CancelLadder::new();
                true
            },
        }
    }

    /// Notes the process-group id of the child that was started.
    pub fn record_pgid(&mut self, pgid: u32)
        ensures
            final(self).ladder == old(self).ladder,
            match old(self).active {
                Some(h) => final(self).active == Some(ChildHandle { pgid, ..h }),
                None => final(self).active is None,
            },
    {
        match self.active {
            Some(h) => {
                self.active = Some(
                    ChildHandle { pgid, operation: h.operation, cancelled: h.cancelled },
                );
            },
            None => {},
        }
    }

    /// Gives up a spawn that failed: the handle is dropped unused.
    pub fn spawn_failed(&mut self)
        ensures
            final(self).active is None,
            final(self).ladder == old(self).ladder,
    {
        self.active = None;
    }

    /// Whether the readers of the child's streams are to stop.
    pub fn should_cancel(&self) -> (r: bool)
        ensures
            r == (self.active matches Some(h) && h.cancelled),
    {
        match self.active {
            Some(h) => h.cancelled,
            None => false,
        }
    }

    /// Clears the cancellation flag and forgets the process-group id, as is
    /// done before a new command starts.
    pub fn reset_cancel(&mut self)
        ensures
            final(self).ladder.phase == LadderPhase::Idle,
            match old(self).active {
                Some(h) => final(self).active == Some(
                    ChildHandle { pgid: 0, cancelled: false, ..h },
                ),
                None => final(self).active is None,
            },
    {
        self.ladder = CancelLadder::new();
        match self.active {
            Some(h) => {
                self.active = Some(
                    ChildHandle { pgid: 0, operation: h.operation, cancelled: false },
                );
            },
            None => {},
        }
    }

    /// Asks to cancel the running child at time `now`. The first request
    /// sets the flag and starts the ladder; a request without a child, or
    /// after the first, does nothing.
    pub fn cancel(&mut self, now: u64) -> (action: LadderAction)
        ensures
            match old(self).active {
                Some(h) => if h.cancelled {
                    *final(self) == *old(self) && action == LadderAction::Wait
                } else {
                    &&& final(self).active == Some(ChildHandle { cancelled: true, ..h })
                    &&& (final(self).ladder.phase, action) == begin_spec(
                        old(self).ladder.phase,
                        now,
                        h.pgid != 0,
                    )
                },
                None => *final(self) == *old(self) && action == LadderAction::Wait,
            },
    {
        match self.active {
            Some(h) => {
                if h.cancelled {
                    LadderAction::Wait
                } else {
                    self.active = Some(
                        ChildHandle { pgid: h.pgid, operation: h.operation, cancelled: true },
                    );
                    self.ladder.begin(now, h.pgid != 0)
                }
            },
            None => LadderAction::Wait,
        }
    }

    /// Polls the ladder of the running child.
    pub fn poll(&mut self, now: u64, alive: bool) -> (action: LadderAction)
        ensures
            final(self).active == old(self).active,
            match old(self).active {
                Some(h) => (final(self).ladder.phase, action) == poll_spec(
                    old(self).ladder.phase,
                    Observation { now, pid_known: h.pgid != 0, alive },
                ),
                None => final(self).ladder == old(self).ladder && action == LadderAction::Wait,
            },
    {
        match self.active {
            Some(h) => self.ladder.poll(now, h.pgid != 0, alive),
            None => LadderAction::Wait,
        }
    }

    /// Ends the run of the child: drops the handle and says what the run
    /// reports. Nothing without a child.
    pub fn finish(&mut self, stdout: String, stderr: String, exit_success: bool) -> (r: Option<
        UpdateOutput,
    >)
        ensures
            final(self).active is None,
            final(self).ladder == old(self).ladder,
            match old(self).active {
                Some(h) => r matches Some(out) && (out.stdout@, out.stderr@, out.success)
                    == result_spec(h, stdout@, stderr@, exit_success),
                None => r is None,
            },
    {
        match self.active {
            Some(h) => {
                self.active = None;
                if h.cancelled {
                    Some(
                        UpdateOutput {
                            stdout,
                            stderr: h.operation.cancel_message(),
                            success: false,
                        },
                    )
                } else {
                    Some(UpdateOutput { stdout, stderr, success: exit_success })
                }
            },
            None => None,
        }
    }
}

} // verus!
