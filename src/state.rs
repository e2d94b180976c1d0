//! The vent state machine: a current and a target angle, moved one degree
//! per step.

use vstd::prelude::*;
use crate::identity::{
    apply_writes, commit_writes, committed, write_ahead_writes, writes_view, DeviceIdentity,
    RecordModel, StoreWrite,
};
use crate::protocol::{
    clamp_angle, clamp_spec, in_range, resting_state, PowerSource, VentState, ANGLE_CLOSED,
};

verus! {

/// Logical state of a flap at `current` heading for `target`.
pub open spec fn state_of(current: int, target: int) -> VentState {
    if current != target {
        VentState::Moving
    } else {
        resting_state(current)
    }
}

/// Position after one step from `current` toward `target`.
pub open spec fn step_toward(current: int, target: int) -> int {
    if current < target {
        current + 1
    } else if current > target {
        current - 1
    } else {
        current
    }
}

/// Position after `n` steps from `current` toward `target`.
pub open spec fn steps_toward(current: int, target: int, n: nat) -> int
    decreases n,
{
    if n == 0 {
        current
    } else {
        steps_toward(step_toward(current, target), target, (n - 1) as nat)
    }
}

/// Distance between two angles.
pub open spec fn distance(a: int, b: int) -> int {
    if a >= b {
        a - b
    } else {
        b - a
    }
}

/// Current and target angle of the flap.
pub struct VentStateMachine {
    current_angle: u8,
    target_angle: u8,
}

impl VentStateMachine {
    /// The current angle, in the model.
    pub closed spec fn current(&self) -> int {
        self.current_angle as int
    }

    /// The target angle, in the model.
    pub closed spec fn target(&self) -> int {
        self.target_angle as int
    }

    /// Both angles lie in the actuator's range.
    pub open spec fn wf(&self) -> bool {
        in_range(self.current()) && in_range(self.target())
    }

    /// A machine at rest at `initial_angle`, clamped into range.
    pub fn new(initial_angle: u8) -> (r: Self)
        ensures
            r.current() == clamp_spec(initial_angle as int),
            r.target() == clamp_spec(initial_angle as int),
            r.wf(),
    {
        let angle = clamp_angle(initial_angle);
        VentStateMachine { current_angle: angle, target_angle: angle }
    }

    pub fn current_angle(&self) -> (r: u8)
        ensures
            r as int == self.current(),
    {
        self.current_angle
    }

    pub fn target_angle(&self) -> (r: u8)
        ensures
            r as int == self.target(),
    {
        self.target_angle
    }

    /// Moving while the angles differ; otherwise closed, open or partial by
    /// where the flap rests.
    pub fn state(&self) -> (r: VentState)
        ensures
            r == state_of(self.current(), self.target()),
    {
        if self.current_angle != self.target_angle {
            VentState::Moving
        } else {
            VentState::from_angle(self.current_angle)
        }
    }

    /// Aim at `angle`, clamped into range, and return the angle the flap
    /// stood at before the call. The current angle is left alone.
    pub fn set_target(&mut self, angle: u8) -> (prev: u8)
        ensures
            prev as int == old(self).current(),
            final(self).current() == old(self).current(),
            final(self).target() == clamp_spec(angle as int),
            old(self).wf() ==> final(self).wf(),
    {
        let prev = self.current_angle;
        self.target_angle = clamp_angle(angle);
        prev
    }

    /// Move one degree toward the target; returns whether a step was taken.
    pub fn step(&mut self) -> (moved: bool)
        ensures
            moved == (old(self).current() != old(self).target()),
            final(self).current() == step_toward(old(self).current(), old(self).target()),
            final(self).target() == old(self).target(),
            old(self).wf() ==> final(self).wf(),
    {
        if self.current_angle < self.target_angle {
            self.current_angle = self.current_angle + 1;
            true
        } else if self.current_angle > self.target_angle {
            self.current_angle = self.current_angle - 1;
            true
        } else {
            false
        }
    }

    pub fn is_moving(&self) -> (r: bool)
        ensures
            r == (self.current() != self.target()),
    {
        self.current_angle != self.target_angle
    }
}

/// One step that is taken brings the flap exactly one degree closer to its
/// target and never past it.
pub proof fn lemma_step_closes_in(current: int, target: int)
    requires
        current != target,
    ensures
        distance(step_toward(current, target), target) == distance(current, target) - 1,
        distance(step_toward(current, target), current) == 1,
        target < current ==> target <= step_toward(current, target) < current,
        current < target ==> current < step_toward(current, target) <= target,
{
}

/// From any start, stepping toward a target takes exactly as many steps as
/// the distance between them: after `n` steps the flap is
/// `distance - n` away while `n` is below the distance, and at the target
/// from then on.
pub proof fn lemma_steps_reach_target(current: int, target: int, n: nat)
    ensures
        n <= distance(current, target) ==> distance(steps_toward(current, target, n), target)
            == distance(current, target) - n,
        n >= distance(current, target) ==> steps_toward(current, target, n) == target,
    decreases n,
{
    if n > 0 {
        if current != target {
            lemma_step_closes_in(current, target);
        }
        lemma_steps_reach_target(step_toward(current, target), target, (n - 1) as nat);
    }
}

/// Angle the flap starts at after a restart: the last checkpoint, or the
/// closed limit when none was ever recorded.
pub open spec fn boot_angle(m: RecordModel) -> int {
    match m.angle {
        Some(a) => clamp_spec(a as int),
        None => ANGLE_CLOSED as int,
    }
}

/// Target after a restart: the pending intent when the last move was
/// interrupted, otherwise the start angle itself.
pub open spec fn boot_target(m: RecordModel) -> int {
    if !committed(m) && m.target is Some {
        clamp_spec(m.target->0 as int)
    } else {
        boot_angle(m)
    }
}

/// The state machine a restart begins with: at the last checkpoint, and,
/// when the last move was written ahead but never committed, already
/// heading for its pending target so that the move completes.
pub fn recover(identity: &DeviceIdentity) -> (r: VentStateMachine)
    ensures
        r.current() == boot_angle(identity.record()),
        r.target() == boot_target(identity.record()),
        r.wf(),
{
    let angle = match identity.checkpoint_angle() {
        Some(a) => a,
        None => ANGLE_CLOSED,
    };
    let mut vent = VentStateMachine::new(angle);
    if !identity.is_committed() {
        if let Some(target) = identity.get_pending() {
            vent.set_target(target);
        }
    }
    vent
}

/// Whether the record holds, durably, the intent to move to `target`: it is
/// the pending target and the commit flag is cleared.
pub open spec fn intent_recorded(m: RecordModel, target: int) -> bool {
    m.target == Some(target as u8) && !committed(m) && in_range(target)
}

/// A restart after a durable write-ahead to `target` starts where the last
/// checkpoint left the flap and heads for `target`.
pub proof fn lemma_restart_after_write_ahead(m: RecordModel, target: u8)
    requires
        in_range(target as int),
    ensures
        boot_angle(apply_writes(m, write_ahead_writes(target))) == boot_angle(m),
        boot_target(apply_writes(m, write_ahead_writes(target))) == target as int,
        intent_recorded(apply_writes(m, write_ahead_writes(target)), target as int),
{
    reveal_with_fuel(apply_writes, 3);
}

/// A move to `angle` that was written ahead restarts at `angle` once its
/// commit has begun: after the checkpoint write alone the flap starts
/// there with nothing left to do, and after both writes the record is
/// committed at `angle`.
pub proof fn lemma_restart_during_commit(m: RecordModel, angle: u8)
    requires
        intent_recorded(m, angle as int),
    ensures
        boot_angle(apply_writes(m, commit_writes(angle).take(1))) == angle as int,
        boot_target(apply_writes(m, commit_writes(angle).take(1))) == angle as int,
        boot_angle(apply_writes(m, commit_writes(angle))) == angle as int,
        boot_target(apply_writes(m, commit_writes(angle))) == angle as int,
        committed(apply_writes(m, commit_writes(angle))),
        apply_writes(m, commit_writes(angle)).angle == Some(angle),
{
    reveal_with_fuel(apply_writes, 3);
    assert(commit_writes(angle).take(1) =~= seq![crate::identity::WriteModel::Angle(angle)]);
}

/// What one turn of the actuation loop did.
#[derive(Debug)]
pub enum Advance {
    /// The flap was at its target; nothing changed.
    Idle,
    /// One step was taken; the flap is not there yet. Holds the new angle.
    Stepped(u8),
    /// One step was taken and the flap arrived. Holds the final angle and
    /// the writes that commit the move.
    Arrived(u8, Vec<StoreWrite>),
}

/// All mutable state of the controller, owned by one process-wide instance
/// behind a single lock.
pub struct AppState {
    pub vent: VentStateMachine,
    pub identity: DeviceIdentity,
    pub power_source: PowerSource,
    pub poll_period_ms: u32,
}

impl AppState {
    /// State after a restart with the given identity and power settings.
    pub fn boot(identity: DeviceIdentity, power_source: PowerSource, poll_period_ms: u32) -> (r:
        Self)
        ensures
            r.vent.current() == boot_angle(identity.record()),
            r.vent.target() == boot_target(identity.record()),
            r.vent.wf(),
            r.identity == identity,
            r.power_source == power_source,
            r.poll_period_ms == poll_period_ms,
    {
        let vent = recover(&identity);
        AppState { vent, identity, power_source, poll_period_ms }
    }

    /// The writes that must be durable before the flap may head for
    /// `angle` (clamped into range).
    pub fn intent_writes(&self, angle: u8) -> (ws: Vec<StoreWrite>)
        ensures
            writes_view(ws@) == write_ahead_writes(clamp_spec(angle as int) as u8),
    {
        self.identity.write_ahead(clamp_angle(angle))
    }

    /// Head for `angle` (clamped into range), provided the record shows that
    /// intent as durable; returns the angle the flap stood at. Without it
    /// nothing changes and the result is `None`.
    pub fn apply_target(&mut self, angle: u8) -> (r: Option<u8>)
        ensures
            final(self).identity == old(self).identity,
            final(self).power_source == old(self).power_source,
            final(self).poll_period_ms == old(self).poll_period_ms,
            final(self).vent.current() == old(self).vent.current(),
            intent_recorded(old(self).identity.record(), clamp_spec(angle as int)) ==> (r is Some
                && r->0 as int == old(self).vent.current() && final(self).vent.target() == clamp_spec(
                angle as int,
            )),
            !intent_recorded(old(self).identity.record(), clamp_spec(angle as int)) ==> (r is None
                && final(self).vent == old(self).vent),
            old(self).vent.wf() ==> final(self).vent.wf(),
    {
        let target = clamp_angle(angle);
        let pending = self.identity.get_pending();
        let recorded = match pending {
            Some(p) => p == target && !self.identity.is_committed(),
            None => false,
        };
        if recorded {
            Some(self.vent.set_target(angle))
        } else {
            None
        }
    }

    /// One turn of the actuation loop: step toward the target if not there,
    /// and on arrival hand out the writes that commit the move.
    pub fn advance(&mut self) -> (r: Advance)
        ensures
            final(self).identity == old(self).identity,
            final(self).power_source == old(self).power_source,
            final(self).poll_period_ms == old(self).poll_period_ms,
            final(self).vent.target() == old(self).vent.target(),
            final(self).vent.current() == step_toward(
                old(self).vent.current(),
                old(self).vent.target(),
            ),
            old(self).vent.wf() ==> final(self).vent.wf(),
            old(self).vent.current() == old(self).vent.target() ==> r is Idle,
            old(self).vent.current() != old(self).vent.target() && final(self).vent.current()
                != final(self).vent.target() ==> r == Advance::Stepped(
                final(self).vent.current() as u8,
            ),
            old(self).vent.current() != old(self).vent.target() && final(self).vent.current()
                == final(self).vent.target() ==> (r matches Advance::Arrived(a, ws) && a as int
                == final(self).vent.current() && writes_view(ws@) == commit_writes(a)),
    {
        if !self.vent.step() {
            return Advance::Idle;
        }
        let angle = self.vent.current_angle();
        if self.vent.is_moving() {
            Advance::Stepped(angle)
        } else {
            Advance::Arrived(angle, self.identity.commit(angle))
        }
    }
}

} // verus!
