//! Per-CPU preemption control.
//!
//! Every CPU owns one [`PreemptionCount`]. While the count is above zero,
//! preemptive task switching is disabled on that CPU. The count is only ever
//! touched by its owning CPU, which is why the functions here take it by
//! exclusive reference. Reconfiguring the local timer is left to the caller:
//! each transition reports the [`TimerAction`] that has to be carried out.

use vstd::prelude::*;

verus! {

/// Identifier of a processor.
#[derive(Clone, Copy, Debug, PartialEq, Eq, Structural)]
pub struct CpuId(pub u32);

/// What has to happen to the local timer interrupt after a transition.
#[derive(Clone, Copy, Debug, PartialEq, Eq, Structural)]
pub enum TimerAction {
    /// The timer stays as it is.
    Unchanged,
    /// The timer interrupt has to be switched off.
    Disable,
    /// The timer interrupt has to be switched on again.
    Enable,
}

/// The count after one more acquisition.
pub open spec fn count_after_hold(count: nat) -> nat {
    count + 1
}

/// The count after one release.
pub open spec fn count_after_release(count: nat) -> nat
    recommends
        count > 0,
{
    (count - 1) as nat
}

/// The timer action of an acquisition that found the count at `count`.
pub open spec fn hold_timer_action(count: nat, disable_timer: bool) -> TimerAction {
    if disable_timer && count == 0 {
        TimerAction::Disable
    } else {
        TimerAction::Unchanged
    }
}

/// The timer action of a release that found the count at `count`.
pub open spec fn release_timer_action(count: nat) -> TimerAction {
    if count == 1 {
        TimerAction::Enable
    } else {
        TimerAction::Unchanged
    }
}

/// The preemption count of one CPU.
///
/// At `0` preemption is enabled, above `0` it is disabled.
pub struct PreemptionCount {
    count: u8,
}

impl View for PreemptionCount {
    type V = nat;

    closed spec fn view(&self) -> nat {
        self.count as nat
    }
}

impl PreemptionCount {
    /// Creates a new `PreemptionCount` with an initial value of `0`.
    pub fn new() -> (count: Self)
        ensures
            count@ == 0,
    {
        PreemptionCount { count: 0 }
    }

    /// The current nesting depth.
    pub fn value(&self) -> (value: u8)
        ensures
            value as nat == self@,
    {
        self.count
    }

    /// The count never leaves the range of a byte.
    pub proof fn lemma_bounded(&self)
        ensures
            self@ <= 255,
    {
    }
}

/// A token for one acquisition of the preemption count.
///
/// It is neither `Clone` nor constructible from outside, so every guard stems
/// from exactly one acquisition and can be released at most once.
#[derive(Debug)]
pub struct PreemptionGuard {
    /// The CPU on which preemption was held.
    cpu_id: CpuId,
    /// Whether preemption was enabled when this guard was created.
    preemption_was_enabled: bool,
}

impl PreemptionGuard {
    /// The CPU recorded in the guard.
    pub closed spec fn spec_cpu_id(&self) -> CpuId {
        self.cpu_id
    }

    /// The transition flag recorded in the guard.
    pub closed spec fn spec_preemption_was_enabled(&self) -> bool {
        self.preemption_was_enabled
    }

    /// Returns whether preemption was enabled when this guard was created.
    ///
    /// `true` means that this acquisition caused the transition from enabled
    /// to disabled; `false` means that preemption was already disabled.
    pub fn preemption_was_enabled(&self) -> (enabled: bool)
        ensures
            enabled == self.spec_preemption_was_enabled(),
    {
        self.preemption_was_enabled
    }

    /// Returns the ID of the CPU on which this guard was created.
    pub fn cpu_id(&self) -> (id: CpuId)
        ensures
            id == self.spec_cpu_id(),
    {
        self.cpu_id
    }

    /// Whether releasing this guard on `current_cpu` is in order: the guard
    /// was created there and the count is above zero.
    pub open spec fn releasable(&self, count: nat, current_cpu: CpuId) -> bool {
        self.spec_cpu_id() == current_cpu && count > 0
    }

    /// Ends the acquisition that this guard stands for.
    ///
    /// The count drops by one. When it reaches zero, preemption is enabled
    /// again and the local timer has to be switched back on.
    pub fn release(self, count: &mut PreemptionCount, current_cpu: CpuId) -> (action: TimerAction)
        requires
            self.releasable(old(count)@, current_cpu),
        ensures
            final(count)@ == count_after_release(old(count)@),
            action == release_timer_action(old(count)@),
    {
        let prev_val: u8 = count.count;
        count.count = prev_val - 1;
        if prev_val == 1 {
            TimerAction::Enable
        } else {
            TimerAction::Unchanged
        }
    }
}

/// Prevents preemption from occurring until the returned guard is released.
///
/// If this is the transition from enabled to disabled, the local timer
/// interrupt has to be disabled as well, which the returned action says.
pub fn hold_preemption(count: &mut PreemptionCount, cpu_id: CpuId) -> (held: (
    PreemptionGuard,
    TimerAction,
))
    requires
        old(count)@ < 255,
    ensures
        final(count)@ == count_after_hold(old(count)@),
        held.0.spec_cpu_id() == cpu_id,
        held.0.spec_preemption_was_enabled() == (old(count)@ == 0),
        held.1 == hold_timer_action(old(count)@, true),
{
    hold_preemption_internal::<true>(count, cpu_id)
}

/// Prevents preemption from occurring until the returned guard is released,
/// without ever asking for the timer interrupt to be disabled.
///
/// Meant for very short regions only. The release of such a guard still asks
/// for the timer to be enabled when the count returns to zero.
pub fn hold_preemption_no_timer_disable(count: &mut PreemptionCount, cpu_id: CpuId) -> (held: (
    PreemptionGuard,
    TimerAction,
))
    requires
        old(count)@ < 255,
    ensures
        final(count)@ == count_after_hold(old(count)@),
        held.0.spec_cpu_id() == cpu_id,
        held.0.spec_preemption_was_enabled() == (old(count)@ == 0),
        held.1 == TimerAction::Unchanged,
{
    hold_preemption_internal::<false>(count, cpu_id)
}

/// The routine behind both ways of holding preemption.
fn hold_preemption_internal<const DISABLE_TIMER: bool>(
    count: &mut PreemptionCount,
    cpu_id: CpuId,
) -> (held: (PreemptionGuard, TimerAction))
    requires
        old(count)@ < 255,
    ensures
        final(count)@ == count_after_hold(old(count)@),
        held.0.spec_cpu_id() == cpu_id,
        held.0.spec_preemption_was_enabled() == (old(count)@ == 0),
        held.1 == hold_timer_action(old(count)@, DISABLE_TIMER),
{
    let prev_val: u8 = count.count;
    count.count = prev_val + 1;
    // A previous value of 0 means that preemption goes from enabled to disabled.
    let preemption_was_enabled = prev_val == 0;
    let guard = PreemptionGuard { cpu_id, preemption_was_enabled };
    let action = if DISABLE_TIMER && preemption_was_enabled {
        TimerAction::Disable
    } else {
        TimerAction::Unchanged
    };
    (guard, action)
}

/// Returns `true` if preemption is currently enabled on the CPU that owns `count`.
///
/// This is a snapshot: nothing keeps the answer true after the call returns.
pub fn preemption_enabled(count: &PreemptionCount) -> (enabled: bool)
    ensures
        enabled == (count@ == 0),
{
    count.count == 0
}

/// One operation on the preemption count of a CPU.
#[derive(Clone, Copy, Debug, PartialEq, Eq, Structural)]
pub enum PreemptionOp {
    /// An acquisition by [`hold_preemption`].
    Hold,
    /// An acquisition by [`hold_preemption_no_timer_disable`].
    HoldNoTimerDisable,
    /// The release of a guard.
    Release,
}

impl PreemptionOp {
    /// Whether the operation may be applied at `count`: an acquisition needs
    /// room below the maximum, a release needs a count above zero.
    pub open spec fn admissible_at(self, count: nat) -> bool {
        match self {
            PreemptionOp::Release => count > 0,
            _ => count < 255,
        }
    }

    /// The count that the operation leaves behind.
    pub open spec fn count_after(self, count: nat) -> nat {
        match self {
            PreemptionOp::Release => count_after_release(count),
            _ => count_after_hold(count),
        }
    }

    /// The timer action that the operation reports.
    pub open spec fn timer_action(self, count: nat) -> TimerAction {
        match self {
            PreemptionOp::Hold => hold_timer_action(count, true),
            PreemptionOp::HoldNoTimerDisable => hold_timer_action(count, false),
            PreemptionOp::Release => release_timer_action(count),
        }
    }

    /// Whether the operation is an acquisition whose guard records that
    /// preemption was enabled.
    pub open spec fn yields_flagged_guard(self, count: nat) -> bool {
        self != PreemptionOp::Release && count == 0
    }
}

/// The count after the operations `ops` were applied in order, from `start`.
pub open spec fn count_after_ops(start: nat, ops: Seq<PreemptionOp>) -> nat
    decreases ops.len(),
{
    if ops.len() == 0 {
        start
    } else {
        ops.last().count_after(count_after_ops(start, ops.drop_last()))
    }
}

/// Whether every operation of `ops` is admissible at the count it finds.
pub open spec fn ops_admissible(start: nat, ops: Seq<PreemptionOp>) -> bool
    decreases ops.len(),
{
    ops.len() == 0 || (ops_admissible(start, ops.drop_last()) && ops.last().admissible_at(
        count_after_ops(start, ops.drop_last()),
    ))
}

/// The number of acquisitions among `ops`.
pub open spec fn acquisitions(ops: Seq<PreemptionOp>) -> nat
    decreases ops.len(),
{
    if ops.len() == 0 {
        0
    } else if ops.last() == PreemptionOp::Release {
        acquisitions(ops.drop_last())
    } else {
        acquisitions(ops.drop_last()) + 1
    }
}

/// The number of releases among `ops`.
pub open spec fn releases(ops: Seq<PreemptionOp>) -> nat
    decreases ops.len(),
{
    if ops.len() == 0 {
        0
    } else if ops.last() == PreemptionOp::Release {
        releases(ops.drop_last()) + 1
    } else {
        releases(ops.drop_last())
    }
}

/// The number of guards handed out by `ops` that record preemption as
/// having been enabled.
pub open spec fn flagged_guards(start: nat, ops: Seq<PreemptionOp>) -> nat
    decreases ops.len(),
{
    if ops.len() == 0 {
        0
    } else if ops.last().yields_flagged_guard(count_after_ops(start, ops.drop_last())) {
        flagged_guards(start, ops.drop_last()) + 1
    } else {
        flagged_guards(start, ops.drop_last())
    }
}

/// The number of releases among `ops` that brought the count back to zero.
pub open spec fn closed_regions(start: nat, ops: Seq<PreemptionOp>) -> nat
    decreases ops.len(),
{
    if ops.len() == 0 {
        0
    } else if ops.last() == PreemptionOp::Release && count_after_ops(start, ops.drop_last()) == 1 {
        closed_regions(start, ops.drop_last()) + 1
    } else {
        closed_regions(start, ops.drop_last())
    }
}

/// Whether the timer interrupt is on after the actions reported by `ops`
/// were carried out, given that it was `enabled` before.
pub open spec fn timer_enabled_after_ops(enabled: bool, start: nat, ops: Seq<PreemptionOp>) -> bool
    decreases ops.len(),
{
    if ops.len() == 0 {
        enabled
    } else {
        match ops.last().timer_action(count_after_ops(start, ops.drop_last())) {
            TimerAction::Unchanged => timer_enabled_after_ops(enabled, start, ops.drop_last()),
            TimerAction::Disable => false,
            TimerAction::Enable => true,
        }
    }
}

/// Whatever the order of acquisitions and releases on one CPU, the count is
/// the number of acquisitions that were not released yet. It is therefore
/// back at zero exactly when every acquisition has been matched by a release.
pub proof fn lemma_count_is_unmatched_acquisitions(ops: Seq<PreemptionOp>)
    requires
        ops_admissible(0, ops),
    ensures
        count_after_ops(0, ops) + releases(ops) == acquisitions(ops),
        count_after_ops(0, ops) == 0 <==> acquisitions(ops) == releases(ops),
    decreases ops.len(),
{
    if ops.len() > 0 {
        lemma_count_is_unmatched_acquisitions(ops.drop_last());
    }
}

/// Each outermost region has exactly one guard that records preemption as
/// having been enabled: the number of such guards is the number of regions
/// that were closed, plus one if a region is open.
pub proof fn lemma_one_flagged_guard_per_region(ops: Seq<PreemptionOp>)
    requires
        ops_admissible(0, ops),
    ensures
        flagged_guards(0, ops) == closed_regions(0, ops) + if count_after_ops(0, ops) > 0 {
            1nat
        } else {
            0nat
        },
    decreases ops.len(),
{
    if ops.len() > 0 {
        lemma_one_flagged_guard_per_region(ops.drop_last());
    }
}

/// An operation touches the timer exactly when the count moves between zero
/// and one: an ordinary acquisition disables it on the way up, a release
/// enables it on the way down, and nothing else reports an action.
pub proof fn lemma_timer_action_on_edges(op: PreemptionOp, count: nat)
    requires
        op.admissible_at(count),
    ensures
        op.timer_action(count) == TimerAction::Disable <==> op == PreemptionOp::Hold && count == 0
            && op.count_after(count) == 1,
        op.timer_action(count) == TimerAction::Enable <==> op == PreemptionOp::Release && count
            == 1 && op.count_after(count) == 0,
{
}

/// As long as only ordinary acquisitions are used, the timer interrupt is on
/// exactly while the count is zero.
pub proof fn lemma_timer_follows_count(ops: Seq<PreemptionOp>)
    requires
        ops_admissible(0, ops),
        forall|i: int| 0 <= i < ops.len() ==> ops[i] != PreemptionOp::HoldNoTimerDisable,
    ensures
        timer_enabled_after_ops(true, 0, ops) == (count_after_ops(0, ops) == 0),
    decreases ops.len(),
{
    if ops.len() > 0 {
        lemma_timer_follows_count(ops.drop_last());
    }
}

} // verus!
