//! The SSH connection lifecycle of a remote workspace: deploy the remote
//! helper on the first attempt, connect, serve until the connection closes,
//! and retry with exponential backoff. Running the steps (processes, pipes,
//! timers) is the caller's part; this module decides what comes next.
use vstd::prelude::*;
use vstd::arithmetic::power2::{pow2, lemma2_to64};
use std::time::Duration;
use crate::ssh::SshEvent;
use crate::workspace::ConnectionState;

verus! {

/// Maximum reconnection backoff delay, in seconds.
pub const MAX_BACKOFF_SECS: u64 = 30;

/// The backoff before the retry that follows attempt `attempt`:
/// 2^min(attempt, 5) seconds, capped at `MAX_BACKOFF_SECS`
/// (1, 2, 4, 8, 16, then 30 seconds).
pub open spec fn backoff_spec(attempt: nat) -> nat {
    let exp: nat = if attempt < 5 { attempt } else { 5 };
    if pow2(exp) < MAX_BACKOFF_SECS { pow2(exp) } else { MAX_BACKOFF_SECS as nat }
}

/// The backoff after attempt `attempt`, in whole seconds.
pub fn backoff_secs(attempt: u32) -> (secs: u64)
    ensures
        secs == backoff_spec(attempt as nat),
{
    let exp: u64 = if attempt < 5 { attempt as u64 } else { 5 };
    proof {
        lemma2_to64();
        vstd::bits::lemma_u64_shl_is_mul(1, exp);
    }
    let secs: u64 = 1u64 << exp;
    if secs < MAX_BACKOFF_SECS { secs } else { MAX_BACKOFF_SECS }
}

/// The `Duration` that `std::time::Duration::from_secs(secs)` returns.
pub uninterp spec fn duration_from_secs(secs: u64) -> Duration;

/// Calls `std::time::Duration::from_secs`, which makes a duration of `secs`
/// whole seconds. The contract only names the result: that it holds `secs`
/// seconds is not stated, as nothing here reads a `Duration`.
#[verifier::external_body]
fn secs_to_duration(secs: u64) -> (d: Duration)
    ensures
        d == duration_from_secs(secs),
{
    Duration::from_secs(secs)
}

/// The backoff after attempt `attempt`, as a `Duration` of
/// `backoff_spec(attempt)` whole seconds.
pub fn backoff_duration(attempt: u32) -> (d: Duration)
    ensures
        d == duration_from_secs(backoff_spec(attempt as nat) as u64),
{
    let secs = backoff_secs(attempt);
    secs_to_duration(secs)
}

/// What the connection task does next.
#[derive(Debug, Clone, Copy, PartialEq, Eq, Structural)]
pub enum SshStep {
    /// Copy the remote helper to the host.
    Deploy,
    /// Start `ssh` running the remote helper in stdio mode.
    Connect,
    /// Talk to the remote helper until the connection closes.
    Serve,
    /// Sleep this many seconds, then report `SshOutcome::Waited`.
    Wait { secs: u64 },
}

/// What came of the step the task was told to take.
#[derive(Debug, Clone, Copy, PartialEq, Eq, Structural)]
pub enum SshOutcome {
    Deployed,
    DeployFailed,
    Connected,
    ConnectFailed,
    /// The SSH process of a served connection exited.
    Closed,
    /// The backoff sleep is over.
    Waited,
}

/// The lifecycle of one workspace's SSH connection: the number of the
/// current attempt, 0 for the first one and after each successful connect.
#[derive(Debug, Clone, Copy)]
pub struct SshLifecycle {
    pub workspace_id: u64,
    pub attempt: u32,
}

/// The event reporting that workspace `id` is now in `state`.
pub open spec fn state_event(id: u64, state: ConnectionState) -> SshEvent {
    SshEvent::StateChanged { workspace_id: id, state }
}

/// The first step of attempt `attempt`: deploy on the very first attempt,
/// otherwise connect straight away.
pub open spec fn attempt_step(attempt: u32) -> SshStep {
    if attempt == 0 { SshStep::Deploy } else { SshStep::Connect }
}

/// The lifecycle's transition: from attempt `attempt`, after `outcome`, the
/// new attempt number, the event to report (if any) and the next step.
pub open spec fn ssh_transition(id: u64, attempt: u32, outcome: SshOutcome) -> (u32, Option<SshEvent>, SshStep) {
    let wait = SshStep::Wait { secs: backoff_spec(attempt as nat) as u64 };
    match outcome {
        SshOutcome::Deployed => (attempt, None, SshStep::Connect),
        SshOutcome::DeployFailed => (attempt, Some(state_event(id, ConnectionState::Disconnected)), wait),
        SshOutcome::Connected => (0, Some(state_event(id, ConnectionState::Connected)), SshStep::Serve),
        SshOutcome::ConnectFailed => (attempt, Some(state_event(id, ConnectionState::Disconnected)), wait),
        SshOutcome::Closed => (attempt, Some(state_event(id, ConnectionState::Disconnected)), wait),
        SshOutcome::Waited => {
            let next = (attempt + 1) as u32;
            (next, Some(state_event(id, ConnectionState::Reconnecting(next))), attempt_step(next))
        },
    }
}

impl SshLifecycle {
    /// The lifecycle of workspace `workspace_id`, before its first attempt.
    pub fn new(workspace_id: u64) -> (l: Self)
        ensures
            l.workspace_id == workspace_id,
            l.attempt == 0,
    {
        SshLifecycle { workspace_id, attempt: 0 }
    }

    /// Starts the current attempt: reports `Reconnecting(attempt)` and says
    /// whether to deploy first (only on attempt 0) or to connect.
    pub fn begin_attempt(&self) -> (r: (SshEvent, SshStep))
        ensures
            r.0 == state_event(self.workspace_id, ConnectionState::Reconnecting(self.attempt)),
            r.1 == attempt_step(self.attempt),
    {
        let event = SshEvent::StateChanged {
            workspace_id: self.workspace_id,
            state: ConnectionState::Reconnecting(self.attempt),
        };
        if self.attempt == 0 {
            (event, SshStep::Deploy)
        } else {
            (event, SshStep::Connect)
        }
    }

    /// Takes the outcome of the last step: updates the attempt number and
    /// returns the event to report and the next step.
    pub fn advance(&mut self, outcome: SshOutcome) -> (r: (Option<SshEvent>, SshStep))
        requires
            outcome == SshOutcome::Waited ==> old(self).attempt < u32::MAX,
        ensures
            final(self).workspace_id == old(self).workspace_id,
            (final(self).attempt, r.0, r.1) == ssh_transition(old(self).workspace_id, old(self).attempt, outcome),
    {
        let id = self.workspace_id;
        match outcome {
            SshOutcome::Deployed => (None, SshStep::Connect),
            SshOutcome::Connected => {
                self.attempt = 0;
                (Some(SshEvent::StateChanged { workspace_id: id, state: ConnectionState::Connected }), SshStep::Serve)
            },
            SshOutcome::DeployFailed | SshOutcome::ConnectFailed | SshOutcome::Closed => {
                let secs = backoff_secs(self.attempt);
                (
                    Some(SshEvent::StateChanged { workspace_id: id, state: ConnectionState::Disconnected }),
                    SshStep::Wait { secs },
                )
            },
            SshOutcome::Waited => {
                self.attempt = self.attempt + 1;
                let (event, step) = self.begin_attempt();
                (Some(event), step)
            },
        }
    }
}

/// The backoff is never shorter than a second nor longer than the cap.
pub proof fn law_backoff_bounded(attempt: nat)
    ensures
        1 <= backoff_spec(attempt) <= MAX_BACKOFF_SECS,
{
    lemma2_to64();
    vstd::arithmetic::power2::lemma_pow2_pos(if attempt < 5 { attempt } else { 5 });
}

/// Later attempts never wait less than earlier ones.
pub proof fn law_backoff_monotone(a: nat, b: nat)
    requires
        a <= b,
    ensures
        backoff_spec(a) <= backoff_spec(b),
{
    lemma2_to64();
    let ea: nat = if a < 5 { a } else { 5 };
    let eb: nat = if b < 5 { b } else { 5 };
    if ea < eb {
        vstd::arithmetic::power2::lemma_pow2_strictly_increases(ea, eb);
    }
}

/// A successful connection resets the backoff: whatever the attempt was,
/// when a served connection closes the task waits one second.
pub proof fn law_backoff_resets_after_connect(id: u64, attempt: u32)
    ensures
        ({
            let (a1, _e1, _s1) = ssh_transition(id, attempt, SshOutcome::Connected);
            let (a2, e2, s2) = ssh_transition(id, a1, SshOutcome::Closed);
            &&& a2 == 0
            &&& e2 == Some(state_event(id, ConnectionState::Disconnected))
            &&& s2 == SshStep::Wait { secs: 1 }
        }),
{
    lemma2_to64();
}

/// The helper is deployed only at the start of a fresh series of attempts:
/// retrying after a backoff never deploys again.
pub proof fn law_retry_connects_without_deploy(id: u64, attempt: u32)
    requires
        attempt < u32::MAX,
    ensures
        ssh_transition(id, attempt, SshOutcome::Waited).2 == SshStep::Connect,
{
}


/// Whether `outcome` is a possible result of taking `step`.
pub open spec fn answers(step: SshStep, outcome: SshOutcome) -> bool {
    match step {
        SshStep::Deploy => outcome == SshOutcome::Deployed || outcome == SshOutcome::DeployFailed,
        SshStep::Connect => outcome == SshOutcome::Connected || outcome == SshOutcome::ConnectFailed,
        SshStep::Serve => outcome == SshOutcome::Closed,
        SshStep::Wait { .. } => outcome == SshOutcome::Waited,
    }
}

/// The run of workspace `id`'s lifecycle from its start through the
/// outcomes `outcomes`: one entry per step taken, each the attempt number,
/// the event reported (if any) and the step to take next. The first entry is
/// the start of attempt 0; each later one is what `advance` gives for the
/// next outcome.
pub open spec fn ssh_trace(id: u64, outcomes: Seq<SshOutcome>) -> Seq<(u32, Option<SshEvent>, SshStep)>
    decreases outcomes.len(),
{
    if outcomes.len() == 0 {
        seq![(0u32, Some(state_event(id, ConnectionState::Reconnecting(0))), attempt_step(0))]
    } else {
        let t = ssh_trace(id, outcomes.drop_last());
        t.push(ssh_transition(id, t.last().0, outcomes.last()))
    }
}

/// Whether each of `outcomes` is a possible result of the step the run had
/// reached, and no retry is asked for once the attempt counter is full.
pub open spec fn feasible(id: u64, outcomes: Seq<SshOutcome>) -> bool
    decreases outcomes.len(),
{
    outcomes.len() == 0 || {
        let prev = ssh_trace(id, outcomes.drop_last()).last();
        &&& feasible(id, outcomes.drop_last())
        &&& answers(prev.2, outcomes.last())
        &&& (outcomes.last() == SshOutcome::Waited ==> prev.0 < u32::MAX)
    }
}

/// The number of `Disconnected` events in the run `t` since its last
/// `Connected` event (or since its start).
pub open spec fn failures_since_connect(t: Seq<(u32, Option<SshEvent>, SshStep)>) -> nat
    decreases t.len(),
{
    if t.len() == 0 {
        0
    } else {
        let before = failures_since_connect(t.drop_last());
        match t.last().1 {
            Some(SshEvent::StateChanged { state: ConnectionState::Connected, .. }) => 0,
            Some(SshEvent::StateChanged { state: ConnectionState::Disconnected, .. }) => before + 1,
            _ => before,
        }
    }
}

/// The last event reported in the run `t`.
pub open spec fn last_event(t: Seq<(u32, Option<SshEvent>, SshStep)>) -> Option<SshEvent>
    decreases t.len(),
{
    if t.len() == 0 {
        None
    } else {
        match t.last().1 {
            Some(e) => Some(e),
            None => last_event(t.drop_last()),
        }
    }
}

/// What holds at the end of a run: the step to take next matches the
/// attempt number, the failures since the last connect and the last event.
spec fn run_state_ok(id: u64, t: Seq<(u32, Option<SshEvent>, SshStep)>) -> bool {
    let a = t.last().0;
    let d = failures_since_connect(t);
    let le = last_event(t);
    match t.last().2 {
        SshStep::Deploy => a == 0 && d == 0 && t.len() == 1 && le == Some(
            state_event(id, ConnectionState::Reconnecting(0)),
        ),
        SshStep::Connect => a == d && le == Some(state_event(id, ConnectionState::Reconnecting(a))),
        SshStep::Serve => a == 0 && d == 0 && le == Some(state_event(id, ConnectionState::Connected)),
        SshStep::Wait { secs } => d == a + 1 && secs == backoff_spec(a as nat) as u64 && le == Some(
            state_event(id, ConnectionState::Disconnected),
        ),
    }
}

/// Whether the event `e` (if any) names workspace `id`.
pub open spec fn names_workspace(id: u64, e: Option<SshEvent>) -> bool {
    match e {
        Some(SshEvent::StateChanged { workspace_id, .. }) => workspace_id == id,
        None => true,
    }
}

/// Whether entry `j` of the run `t`, when it reports `Reconnecting(k)`,
/// counts the disconnects since the last connect in `k` and comes right
/// after a wait of the backoff of attempt `k - 1`.
pub open spec fn reconnect_counts_failures(t: Seq<(u32, Option<SshEvent>, SshStep)>, j: int) -> bool {
    match t[j].1 {
        Some(SshEvent::StateChanged { state: ConnectionState::Reconnecting(k), .. }) => {
            &&& k == failures_since_connect(t.take(j))
            &&& t[j - 1].2 == (SshStep::Wait { secs: backoff_spec((k - 1) as nat) as u64 })
        },
        _ => true,
    }
}

/// Whether `e` reports a (re)connection attempt.
pub open spec fn is_reconnecting(e: Option<SshEvent>) -> bool {
    match e {
        Some(SshEvent::StateChanged { state: ConnectionState::Reconnecting(_), .. }) => true,
        _ => false,
    }
}

/// Whether entry `j` of the run `t`, when it reports `Connected`, comes
/// with a `Reconnecting` as the last event before it.
pub open spec fn connect_follows_attempt(t: Seq<(u32, Option<SshEvent>, SshStep)>, j: int) -> bool {
    match t[j].1 {
        Some(SshEvent::StateChanged { state: ConnectionState::Connected, .. }) => is_reconnecting(
            last_event(t.take(j)),
        ),
        _ => true,
    }
}

/// The event sequence of every run of the lifecycle of workspace `id`:
/// every event names `id`; the first is `Reconnecting(0)` with a deploy as
/// the first step; each later `Reconnecting(k)` counts the disconnects since
/// the last connect and comes right after a wait of the backoff of attempt
/// `k - 1`; `Connected` is only reported when the last event was a
/// `Reconnecting`; and the helper is deployed only at the very start.
pub proof fn law_ssh_event_sequence(id: u64, outcomes: Seq<SshOutcome>)
    requires
        feasible(id, outcomes),
    ensures
        ssh_trace(id, outcomes).len() == outcomes.len() + 1,
        ssh_trace(id, outcomes)[0] == (0u32, Some(state_event(id, ConnectionState::Reconnecting(0))), SshStep::Deploy),
        forall|j: int|
            0 <= j < ssh_trace(id, outcomes).len() ==> names_workspace(id, (#[trigger] ssh_trace(id, outcomes)[j]).1),
        forall|j: int|
            0 < j < ssh_trace(id, outcomes).len() ==> #[trigger] reconnect_counts_failures(ssh_trace(id, outcomes), j),
        forall|j: int|
            0 <= j < ssh_trace(id, outcomes).len() ==> #[trigger] connect_follows_attempt(ssh_trace(id, outcomes), j),
        forall|j: int|
            0 <= j < ssh_trace(id, outcomes).len() && (#[trigger] ssh_trace(id, outcomes)[j]).2
                == SshStep::Deploy ==> j == 0,
{
    lemma_run(id, outcomes);
}

proof fn lemma_run(id: u64, outcomes: Seq<SshOutcome>)
    requires
        feasible(id, outcomes),
    ensures
        run_state_ok(id, ssh_trace(id, outcomes)),
        ssh_trace(id, outcomes).len() == outcomes.len() + 1,
        ssh_trace(id, outcomes)[0] == (0u32, Some(state_event(id, ConnectionState::Reconnecting(0))), SshStep::Deploy),
        forall|j: int|
            0 <= j < ssh_trace(id, outcomes).len() ==> names_workspace(id, (#[trigger] ssh_trace(id, outcomes)[j]).1),
        forall|j: int|
            0 < j < ssh_trace(id, outcomes).len() ==> #[trigger] reconnect_counts_failures(ssh_trace(id, outcomes), j),
        forall|j: int|
            0 <= j < ssh_trace(id, outcomes).len() ==> #[trigger] connect_follows_attempt(ssh_trace(id, outcomes), j),
        forall|j: int|
            0 <= j < ssh_trace(id, outcomes).len() && (#[trigger] ssh_trace(id, outcomes)[j]).2
                == SshStep::Deploy ==> j == 0,
    decreases outcomes.len(),
{
    let t = ssh_trace(id, outcomes);
    if outcomes.len() == 0 {
        assert(t.drop_last().len() == 0);
        assert(failures_since_connect(t.drop_last()) == 0);
        assert(last_event(t.drop_last()) == None::<SshEvent>);
        assert(t.take(0) =~= Seq::<(u32, Option<SshEvent>, SshStep)>::empty());
        assert(connect_follows_attempt(t, 0));
    } else {
        let prev_outs = outcomes.drop_last();
        lemma_run(id, prev_outs);
        let tp = ssh_trace(id, prev_outs);
        let n = tp.len() as int;
        assert(t == tp.push(ssh_transition(id, tp.last().0, outcomes.last())));
        assert(t.drop_last() =~= tp);
        assert(t.take(n) =~= tp);
        assert forall|j: int| 0 <= j < n implies #[trigger] t.take(j) == tp.take(j) && t[j] == tp[j] by {
            assert(t.take(j) =~= tp.take(j));
        }
        lemma2_to64();
        let a = tp.last().0;
        let o = outcomes.last();
        if o == SshOutcome::Waited {
            law_backoff_bounded(a as nat);
        }
        assert(run_state_ok(id, t));
        assert forall|j: int| 0 < j < t.len() implies #[trigger] reconnect_counts_failures(t, j) by {
            if j < n {
                assert(t[j] == tp[j]);
                assert(t.take(j) == tp.take(j));
                assert(t[j - 1] == tp[j - 1]);
                assert(reconnect_counts_failures(tp, j));
            }
        }
        assert forall|j: int| 0 <= j < t.len() implies #[trigger] connect_follows_attempt(t, j) by {
            if j < n {
                assert(t[j] == tp[j]);
                assert(t.take(j) == tp.take(j));
                assert(connect_follows_attempt(tp, j));
            }
        }
        assert forall|j: int| 0 <= j < t.len() && (#[trigger] t[j]).2 == SshStep::Deploy implies j == 0 by {
            if j < n {
                assert(t[j] == tp[j]);
            }
        }
        assert forall|j: int| 0 <= j < t.len() implies names_workspace(id, (#[trigger] t[j]).1) by {
            if j < n {
                assert(t[j] == tp[j]);
            }
        }
    }
}

} // verus!
