//! State and decisions of the fixed-rate presentation loop and of the exit
//! watchdog.
//!
//! The loop itself performs device writes and sleeps; everything it decides
//! — which frame to show, what to do on a failed write, when to stop — is
//! computed here, from plain values handed in by the driver.

use vstd::prelude::*;

verus! {

/// Milliseconds between frames: a fixed 30 Hz cadence.
pub const FRAME_PERIOD_MILLIS: u64 = 1000 / 30;

/// Seconds the watchdog waits after spotting a watched process before it
/// requests termination.
pub const WATCHDOG_GRACE_SECS: u64 = 6;

/// The frame index that follows `i` in a cycle of `n` frames.
pub open spec fn spec_advance(i: int, n: int) -> int {
    (i + 1) % n
}

/// The frame index reached after `k` advances from index 0 in a cycle of `n`
/// frames.
pub open spec fn frame_index_after(k: nat, n: int) -> int
    decreases k,
{
    if k == 0 {
        0
    } else {
        spec_advance(frame_index_after((k - 1) as nat, n), n)
    }
}

/// Cycling law: the loop shows frame `k % n` at the `k`-th iteration — the
/// index runs `0, 1, ..., n - 1, 0, 1, ...` forever, never skipping and never
/// repeating out of order, for every frame count `n >= 1`.
pub proof fn lemma_cycling(k: nat, n: int)
    requires
        n >= 1,
    ensures
        frame_index_after(k, n) == (k as int) % n,
    decreases k,
{
    if k == 0 {
        vstd::arithmetic::div_mod::lemma_small_mod(0, n as nat);
    } else {
        lemma_cycling((k - 1) as nat, n);
        vstd::arithmetic::div_mod::lemma_add_mod_noop_right(1, k - 1, n);
    }
}

/// Phases of the presentation loop.
#[derive(Debug, Clone, Copy, PartialEq, Eq, Structural)]
pub enum LoopPhase {
    /// Showing frames at cadence.
    Running,
    /// Termination was requested; the loop is on its way out.
    Terminating,
    /// The loop has exited.
    Stopped,
}

/// What the loop driver must do after one iteration's bookkeeping.
#[derive(Debug, Clone, PartialEq, Eq)]
pub enum LoopAction {
    /// Sleep until the recorded wake time, then run the next iteration.
    ContinueAtCadence,
    /// Exit the whole process with code 1.
    ExitProcess,
    /// Hand the process over to the fallback program at this path.
    ExecFallback(String),
    /// Leave the loop: termination was requested.
    Stop,
}

/// What to do when a frame write fails.  Selected by deployment
/// configuration; no retry of the failed write is ever attempted.
#[derive(Debug, Clone, PartialEq, Eq)]
pub enum FailurePolicy {
    /// Exit the process.
    Abort,
    /// Replace the process with the program at this path.
    Exec(String),
}

/// Mutable state owned by the presentation loop.
#[derive(Debug, Clone, Copy, PartialEq, Eq, Structural)]
pub struct LoopState {
    /// Index of the frame the next iteration writes; cycles below
    /// `frame_count`.
    pub frame_index: usize,
    /// Total frames in the archive; at least 1.
    pub frame_count: usize,
    /// Where the loop stands.
    pub phase: LoopPhase,
}

impl LoopState {
    /// Validity: at least one frame, and the index stays inside the cycle.
    pub open spec fn wf(self) -> bool {
        &&& self.frame_count >= 1
        &&& self.frame_index < self.frame_count
    }

    /// The initial state: frame 0, running.
    pub fn new(frame_count: usize) -> (s: LoopState)
        requires
            frame_count >= 1,
        ensures
            s.wf(),
            s.frame_index == 0,
            s.frame_count == frame_count,
            s.phase == LoopPhase::Running,
    {
        LoopState { frame_index: 0, frame_count, phase: LoopPhase::Running }
    }

    /// Moves to the next frame of the cycle: `(frame_index + 1) % frame_count`.
    pub fn advance(&mut self)
        requires
            old(self).wf(),
        ensures
            final(self).wf(),
            final(self).frame_count == old(self).frame_count,
            final(self).phase == old(self).phase,
            final(self).frame_index == spec_advance(
                old(self).frame_index as int,
                old(self).frame_count as int,
            ),
    {
        if self.frame_index + 1 == self.frame_count {
            proof {
                vstd::arithmetic::div_mod::lemma_mod_self_0(self.frame_count as int);
            }
            self.frame_index = 0;
        } else {
            proof {
                vstd::arithmetic::div_mod::lemma_small_mod(
                    (self.frame_index + 1) as nat,
                    self.frame_count as nat,
                );
            }
            self.frame_index = self.frame_index + 1;
        }
    }

    /// One iteration's bookkeeping, run right after the frame write: applies
    /// the failure policy when the write failed; otherwise advances the frame
    /// index and, when termination was requested, leaves the loop.
    pub fn step(
        &mut self,
        write_ok: bool,
        terminate_requested: bool,
        policy: &FailurePolicy,
    ) -> (action: LoopAction)
        requires
            old(self).wf(),
            old(self).phase == LoopPhase::Running,
        ensures
            final(self).wf(),
            final(self).frame_count == old(self).frame_count,
            !write_ok ==> {
                &&& final(self).phase == LoopPhase::Stopped
                &&& final(self).frame_index == old(self).frame_index
                &&& match policy {
                    FailurePolicy::Abort => action == LoopAction::ExitProcess,
                    FailurePolicy::Exec(path) => action matches LoopAction::ExecFallback(p)
                        && p@ == path@,
                }
            },
            write_ok ==> final(self).frame_index == spec_advance(
                old(self).frame_index as int,
                old(self).frame_count as int,
            ),
            write_ok && terminate_requested ==> final(self).phase == LoopPhase::Terminating
                && action == LoopAction::Stop,
            write_ok && !terminate_requested ==> final(self).phase == LoopPhase::Running && action
                == LoopAction::ContinueAtCadence,
    {
        if !write_ok {
            self.phase = LoopPhase::Stopped;
            return match policy {
                FailurePolicy::Abort => LoopAction::ExitProcess,
                FailurePolicy::Exec(path) => LoopAction::ExecFallback(path.clone()),
            };
        }
        self.advance();
        if terminate_requested {
            self.phase = LoopPhase::Terminating;
            LoopAction::Stop
        } else {
            LoopAction::ContinueAtCadence
        }
    }

    /// The terminal transition, taken once the loop has been left.
    pub fn stop(&mut self)
        requires
            old(self).phase == LoopPhase::Terminating,
        ensures
            final(self).phase == LoopPhase::Stopped,
            final(self).frame_index == old(self).frame_index,
            final(self).frame_count == old(self).frame_count,
    {
        self.phase = LoopPhase::Stopped;
    }
}

/// The wake time recorded at the start of an iteration: one frame period
/// after `now_millis`, clamped at the top of the clock's range.
pub fn next_wake(now_millis: u64) -> (r: u64)
    ensures
        now_millis + FRAME_PERIOD_MILLIS <= u64::MAX ==> r == now_millis + FRAME_PERIOD_MILLIS,
        now_millis + FRAME_PERIOD_MILLIS > u64::MAX ==> r == u64::MAX,
{
    if now_millis > u64::MAX - FRAME_PERIOD_MILLIS {
        u64::MAX
    } else {
        now_millis + FRAME_PERIOD_MILLIS
    }
}

/// How long to sleep before the recorded wake time: zero when the deadline
/// has already passed — the loop then proceeds immediately, with no catch-up
/// and no error.
pub fn remaining_delay(now_millis: u64, deadline_millis: u64) -> (r: u64)
    ensures
        now_millis < deadline_millis ==> r == deadline_millis - now_millis,
        now_millis >= deadline_millis ==> r == 0,
{
    if now_millis < deadline_millis {
        deadline_millis - now_millis
    } else {
        0
    }
}

/// Whether `name` is one of the watched process names.
fn name_is_watched(name: &String, watched: &Vec<String>) -> (r: bool)
    ensures
        r == exists|j: int| 0 <= j < watched@.len() && (#[trigger] watched@[j])@ == name@,
{
    let mut j: usize = 0;
    while j < watched.len()
        invariant
            j <= watched@.len(),
            forall|k: int| 0 <= k < j ==> (#[trigger] watched@[k])@ != name@,
        decreases watched@.len() - j,
    {
        if *name == watched[j] {
            return true;
        }
        j += 1;
    }
    false
}

/// The watchdog's decision: fire exactly when some running process bears one
/// of the watched names.  After a fixed grace period the watchdog then
/// requests process-wide termination.
pub fn watchdog_should_fire(process_names: &Vec<String>, watched: &Vec<String>) -> (r: bool)
    ensures
        r == exists|i: int, j: int|
            0 <= i < process_names@.len() && 0 <= j < watched@.len() && (#[trigger] process_names@[
                i
            ])@ == (#[trigger] watched@[j])@,
{
    let mut i: usize = 0;
    while i < process_names.len()
        invariant
            i <= process_names@.len(),
            forall|k: int, j: int|
                0 <= k < i && 0 <= j < watched@.len() ==> (#[trigger] process_names@[k])@ != (
                #[trigger] watched@[j])@,
        decreases process_names@.len() - i,
    {
        if name_is_watched(&process_names[i], watched) {
            return true;
        }
        i += 1;
    }
    false
}

/// The process names the original deployment watches for.
pub fn default_watched_names() -> (r: Vec<String>)
    ensures
        r@.len() == 2,
        r@[0]@ == "bootanimation"@,
        r@[1]@ == "gearinit"@,
{
    let mut v: Vec<String> = Vec::new();
    v.push("bootanimation".to_owned());
    v.push("gearinit".to_owned());
    v
}

} // verus!
