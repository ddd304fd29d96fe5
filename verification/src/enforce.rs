//! The loop that keeps the cursor confined: on every tick it looks at the
//! control flags and says what to ask of the pointer subsystem.

use vstd::prelude::*;
use crate::control::ControlState;
use crate::region::Region;

verus! {

/// How long the loop sleeps between two ticks, in milliseconds.
pub const TICK_MS: u64 = 10;

/// One request to the pointer subsystem.
#[derive(Clone, Copy, Debug, PartialEq, Eq, Structural)]
pub enum ServiceCall {
    /// Restrict the cursor to the region.
    Confine(Region),
    /// Put a cursor that has left the region back into it.
    EnsureInside(Region),
    /// Lift any restriction.
    Release,
}

/// Whether the pointer subsystem holds the cursor in a region.
#[derive(Clone, Copy, Debug, PartialEq, Eq, Structural)]
pub enum Confinement {
    Released,
    Active(Region),
}

/// The loop between two ticks: the region it was started with, and whether
/// it has ended.
pub struct LoopState {
    pub region: Region,
    pub stopped: bool,
}

/// The enforcement loop. It keeps the region it was started with for its
/// whole life, and once stopped it stays stopped.
#[derive(Clone, Copy, Debug)]
pub struct Enforcer {
    region: Region,
    stopped: bool,
}

/// The requests of one tick that finds the flags at `flags`.
///
/// A loop that has ended asks for nothing. One that finds `running` cleared
/// releases, and so does one that finds `paused` set. Otherwise it confines
/// the cursor to its region and then puts an escaped cursor back.
pub open spec fn tick_calls(s: LoopState, flags: ControlState) -> Seq<ServiceCall> {
    if s.stopped {
        Seq::empty()
    } else if !flags.running || flags.paused {
        seq![ServiceCall::Release]
    } else {
        seq![ServiceCall::Confine(s.region), ServiceCall::EnsureInside(s.region)]
    }
}

/// The loop after one tick that finds the flags at `flags`: it ends when it
/// finds `running` cleared.
pub open spec fn tick_state(s: LoopState, flags: ControlState) -> LoopState {
    LoopState { region: s.region, stopped: s.stopped || !flags.running }
}

/// The requests of a run of ticks, in order; `seen[i]` is what tick `i` finds
/// the flags at.
pub open spec fn run_calls(s: LoopState, seen: Seq<ControlState>) -> Seq<ServiceCall>
    decreases seen.len(),
{
    if seen.len() == 0 {
        Seq::empty()
    } else {
        tick_calls(s, seen[0]) + run_calls(tick_state(s, seen[0]), seen.drop_first())
    }
}

/// The loop after a run of ticks.
pub open spec fn run_state(s: LoopState, seen: Seq<ControlState>) -> LoopState
    decreases seen.len(),
{
    if seen.len() == 0 {
        s
    } else {
        run_state(tick_state(s, seen[0]), seen.drop_first())
    }
}

/// What one request does to the confinement.
pub open spec fn effect(before: Confinement, call: ServiceCall) -> Confinement {
    match call {
        ServiceCall::Confine(r) => Confinement::Active(r),
        ServiceCall::EnsureInside(_) => before,
        ServiceCall::Release => Confinement::Released,
    }
}

/// What a row of requests does to the confinement.
pub open spec fn effect_all(before: Confinement, calls: Seq<ServiceCall>) -> Confinement
    decreases calls.len(),
{
    if calls.len() == 0 {
        before
    } else {
        effect_all(effect(before, calls[0]), calls.drop_first())
    }
}

impl View for Enforcer {
    type V = LoopState;

    closed spec fn view(&self) -> LoopState {
        LoopState { region: self.region, stopped: self.stopped }
    }
}

impl Enforcer {
    /// A loop that has not ended, for the given region.
    pub fn new(region: Region) -> (e: Enforcer)
        ensures
            e@ == (LoopState { region, stopped: false }),
    {
        Enforcer { region, stopped: false }
    }

    /// The region that the loop was started with.
    pub fn region(&self) -> (r: Region)
        ensures
            r == self@.region,
    {
        self.region
    }

    /// Whether the loop has ended.
    pub fn is_stopped(&self) -> (b: bool)
        ensures
            b == self@.stopped,
    {
        self.stopped
    }

    /// One tick: takes the flags as they were just read and returns the
    /// requests to make, in order.
    pub fn tick(&mut self, flags: ControlState) -> (calls: Vec<ServiceCall>)
        ensures
            final(self)@ == tick_state(old(self)@, flags),
            calls@ == tick_calls(old(self)@, flags),
    {
        let mut calls: Vec<ServiceCall> = Vec::new();
        if self.stopped {
            return calls;
        }
        if !flags.running {
            self.stopped = true;
            calls.push(ServiceCall::Release);
        } else if flags.paused {
            calls.push(ServiceCall::Release);
        } else {
            calls.push(ServiceCall::Confine(self.region));
            calls.push(ServiceCall::EnsureInside(self.region));
        }
        assert(calls@ =~= tick_calls(old(self)@, flags));
        calls
    }

    /// How long to sleep before the next tick: `TICK_MS`, or `None` once the
    /// loop has ended.
    pub fn pause(&self) -> (ms: Option<u64>)
        ensures
            ms == (if self@.stopped {
                None
            } else {
                Some(TICK_MS)
            }),
    {
        if self.stopped {
            None
        } else {
            Some(TICK_MS)
        }
    }
}

/// A tick of a live loop that finds `running` set decides the confinement on
/// its own, whatever held before it: active for the loop's region while
/// `paused` is clear, released while it is set. A second tick on the same
/// flags changes nothing more.
pub proof fn tick_decides_confinement(s: LoopState, flags: ControlState, before: Confinement)
    requires
        !s.stopped,
        flags.running,
    ensures
        !flags.paused ==> effect_all(before, tick_calls(s, flags)) == Confinement::Active(s.region),
        flags.paused ==> effect_all(before, tick_calls(s, flags)) == Confinement::Released,
        tick_state(s, flags) == s,
        effect_all(effect_all(before, tick_calls(s, flags)), tick_calls(s, flags)) == effect_all(
            before,
            tick_calls(s, flags),
        ),
{
    reveal_with_fuel(effect_all, 3);
    let calls = tick_calls(s, flags);
    if flags.paused {
        assert(calls.drop_first() =~= Seq::empty());
    } else {
        assert(calls.drop_first() =~= seq![ServiceCall::EnsureInside(s.region)]);
        assert(calls.drop_first().drop_first() =~= Seq::empty());
    }
}

/// A loop that has ended asks for nothing more and stays ended, whatever the
/// flags show from then on.
pub proof fn stopped_loop_is_silent(s: LoopState, seen: Seq<ControlState>)
    requires
        s.stopped,
    ensures
        run_calls(s, seen) == Seq::<ServiceCall>::empty(),
        run_state(s, seen) == s,
    decreases seen.len(),
{
    if seen.len() > 0 {
        stopped_loop_is_silent(tick_state(s, seen[0]), seen.drop_first());
        assert(run_calls(s, seen) =~= Seq::<ServiceCall>::empty());
    }
}

/// A run of ticks over `a + b` is the run over `a` followed by the run over
/// `b` from where the first one left the loop.
pub proof fn run_splits(s: LoopState, a: Seq<ControlState>, b: Seq<ControlState>)
    ensures
        run_calls(s, a + b) == run_calls(s, a) + run_calls(run_state(s, a), b),
        run_state(s, a + b) == run_state(run_state(s, a), b),
    decreases a.len(),
{
    if a.len() == 0 {
        assert(a + b =~= b);
        assert(run_calls(s, a + b) =~= run_calls(s, a) + run_calls(run_state(s, a), b));
    } else {
        assert((a + b)[0] == a[0]);
        assert((a + b).drop_first() =~= a.drop_first() + b);
        run_splits(tick_state(s, a[0]), a.drop_first(), b);
        assert(run_calls(s, a + b) =~= run_calls(s, a) + run_calls(run_state(s, a), b));
    }
}

/// A run of ticks that all find `running` set leaves the loop alive.
pub proof fn running_keeps_loop_alive(s: LoopState, seen: Seq<ControlState>)
    requires
        !s.stopped,
        forall|i: int| 0 <= i < seen.len() ==> seen[i].running,
    ensures
        run_state(s, seen) == s,
    decreases seen.len(),
{
    if seen.len() > 0 {
        assert(tick_state(s, seen[0]) == s);
        running_keeps_loop_alive(s, seen.drop_first());
    }
}

/// The first tick that finds `running` cleared, tick `k`, releases once and
/// ends the loop: the requests of the whole run are those of the ticks before
/// `k` and then that one release. No tick after `k` asks for anything, so the
/// cursor is never confined again, and the run leaves it released.
pub proof fn stop_ends_with_one_release(s: LoopState, seen: Seq<ControlState>, k: int, before: Confinement)
    requires
        !s.stopped,
        0 <= k < seen.len(),
        !seen[k].running,
        forall|i: int| 0 <= i < k ==> seen[i].running,
    ensures
        run_calls(s, seen) == run_calls(s, seen.take(k)) + seq![ServiceCall::Release],
        run_calls(run_state(s, seen.take(k + 1)), seen.skip(k + 1)) == Seq::<ServiceCall>::empty(),
        run_state(s, seen).stopped,
        effect_all(before, run_calls(s, seen)) == Confinement::Released,
{
    let head = seen.take(k);
    let at = seq![seen[k]];
    let tail = seen.skip(k + 1);
    assert(seen =~= head + (at + tail));
    assert(seen.take(k + 1) =~= head + at);
    running_keeps_loop_alive(s, head);
    run_splits(s, head, at + tail);
    run_splits(s, head, at);
    run_splits(s, at, tail);
    assert(at.drop_first() =~= Seq::<ControlState>::empty());
    reveal_with_fuel(run_calls, 2);
    reveal_with_fuel(run_state, 2);
    assert(run_calls(s, at) =~= seq![ServiceCall::Release]);
    assert(run_state(s, at).stopped);
    stopped_loop_is_silent(run_state(s, at), tail);
    assert(run_calls(s, seen) =~= run_calls(s, head) + seq![ServiceCall::Release]);
    effect_splits(before, run_calls(s, head), seq![ServiceCall::Release]);
    reveal_with_fuel(effect_all, 2);
    assert(seq![ServiceCall::Release].drop_first() =~= Seq::<ServiceCall>::empty());
}

/// The effect of `a + b` is the effect of `b` on what `a` left.
pub proof fn effect_splits(before: Confinement, a: Seq<ServiceCall>, b: Seq<ServiceCall>)
    ensures
        effect_all(before, a + b) == effect_all(effect_all(before, a), b),
    decreases a.len(),
{
    if a.len() == 0 {
        assert(a + b =~= b);
    } else {
        assert((a + b)[0] == a[0]);
        assert((a + b).drop_first() =~= a.drop_first() + b);
        effect_splits(effect(before, a[0]), a.drop_first(), b);
    }
}

/// Every confinement that a run asks for is for the region that the loop was
/// started with.
pub proof fn run_confines_to_own_region(s: LoopState, seen: Seq<ControlState>, i: int)
    requires
        0 <= i < run_calls(s, seen).len(),
    ensures
        run_calls(s, seen)[i] is Confine ==> run_calls(s, seen)[i] == ServiceCall::Confine(s.region),
        run_calls(s, seen)[i] is EnsureInside ==> run_calls(s, seen)[i] == ServiceCall::EnsureInside(
            s.region,
        ),
    decreases seen.len(),
{
    if seen.len() > 0 {
        let first = tick_calls(s, seen[0]);
        if i >= first.len() {
            run_confines_to_own_region(tick_state(s, seen[0]), seen.drop_first(), i - first.len());
        }
    }
}

} // verus!
