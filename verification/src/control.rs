//! The navigation state machine: one control decision per invocation,
//! appropriate to the current mode, with the mode mutated in place.

use vstd::prelude::*;
use crate::vision::StepError;

verus! {

/// How long each drive pulse of the turning maneuver runs, in milliseconds.
pub const PULSE_MILLIS: u64 = 500;

/// The turn-convergence tolerance, in thousandths of a degree: a measured
/// angle strictly below this magnitude counts as facing the target.
pub const TOLERANCE_MILLIDEGREES: i64 = 10000;

/// A steering actuator setting.
#[derive(Clone, Copy, PartialEq, Eq, Structural, Debug)]
pub enum Steering {
    Left,
    Straight,
    Right,
}

/// A motor drive direction.
#[derive(Clone, Copy, PartialEq, Eq, Structural, Debug)]
pub enum Drive {
    Forward,
    Backward,
}

/// One discrete actuator command.
#[derive(Clone, Copy, PartialEq, Eq, Structural, Debug)]
pub enum Command {
    /// Set the steering actuator.
    Steer(Steering),
    /// Run the motor in a direction for a number of milliseconds.
    Pulse(Drive, u64),
}

/// The outcome signal of the approach maneuver.
#[derive(Clone, Copy, PartialEq, Eq, Structural, Debug)]
pub enum Hint {
    TargetWasHit,
    OrientationIsOff,
}

/// The control mode of the navigation state machine.
#[derive(Clone, Copy, PartialEq, Eq, Structural, Debug)]
pub enum State {
    /// Turn the vehicle by consecutive forward and backward pulses until
    /// the angle between its heading and the target falls under tolerance.
    Turning,
    /// Delegate one full approach maneuver and read its outcome hint.
    Approaching,
    /// Sit on the target until the idle maneuver reports it moved away.
    Idle,
}

/// What the collaborators reported back for one decision.
#[derive(Clone, Copy, PartialEq, Eq, Structural, Debug)]
pub enum StepEvent {
    /// Turning measured the signed angle, in thousandths of a degree, from
    /// the vehicle's realized heading to the direction of the target.
    Angle(i64),
    /// The approach maneuver finished and reported its hint.
    Maneuver(Hint),
    /// The idle maneuver finished.
    Idled,
    /// A collaborator failed before any decision could be made.
    Failed(StepError),
}

/// Whether a measured angle counts as facing the target: its magnitude is
/// strictly under the tolerance.
pub open spec fn converged(angle_millidegrees: int) -> bool {
    -(TOLERANCE_MILLIDEGREES as int) < angle_millidegrees
        && angle_millidegrees < TOLERANCE_MILLIDEGREES as int
}

/// The side to steer toward first: the side the angle's sign indicates,
/// with zero counting as positive.
pub open spec fn steer_toward(angle_millidegrees: int) -> Steering {
    if angle_millidegrees >= 0 {
        Steering::Right
    } else {
        Steering::Left
    }
}

/// The mirrored side steered to after the backward pulse, so that the next
/// forward pulse continues curving the same way.
pub open spec fn steer_counter(angle_millidegrees: int) -> Steering {
    if angle_millidegrees >= 0 {
        Steering::Left
    } else {
        Steering::Right
    }
}

/// The commands one turning decision issues: steer straight when the
/// heading has converged; otherwise the two-phase wiggle of steering to
/// the indicated side, pulsing backward, and steering to the mirror side.
pub open spec fn turning_commands(angle_millidegrees: int) -> Seq<Command> {
    if converged(angle_millidegrees) {
        seq![Command::Steer(Steering::Straight)]
    } else {
        seq![
            Command::Steer(steer_toward(angle_millidegrees)),
            Command::Pulse(Drive::Backward, PULSE_MILLIS),
            Command::Steer(steer_counter(angle_millidegrees)),
        ]
    }
}

/// The mode a turning decision lands in.
pub open spec fn turning_next(angle_millidegrees: int) -> State {
    if converged(angle_millidegrees) {
        State::Approaching
    } else {
        State::Turning
    }
}

/// The successor mode for every mode and event: the transitions are total.
pub open spec fn step_next(s: State, e: StepEvent) -> State {
    match e {
        StepEvent::Angle(a) => turning_next(a as int),
        StepEvent::Maneuver(h) => match h {
            Hint::TargetWasHit => State::Idle,
            Hint::OrientationIsOff => State::Turning,
        },
        StepEvent::Idled => State::Turning,
        StepEvent::Failed(_) => s,
    }
}

/// The commands a decision issues: only a turning decision commands the
/// actuators itself, and a failed step commands nothing.
pub open spec fn step_commands(s: State, e: StepEvent) -> Seq<Command> {
    match e {
        StepEvent::Angle(a) => turning_commands(a as int),
        _ => Seq::empty(),
    }
}

/// Which events a mode can be handed: each mode produces its own kind of
/// outcome, and a collaborator failure can happen in any mode.
pub open spec fn event_fits(s: State, e: StepEvent) -> bool {
    match e {
        StepEvent::Angle(_) => s == State::Turning,
        StepEvent::Maneuver(_) => s == State::Approaching,
        StepEvent::Idled => s == State::Idle,
        StepEvent::Failed(_) => true,
    }
}

impl State {
    /// One decision of the control loop: given what the collaborators
    /// reported, issue the commands of the current mode and move to the
    /// successor mode.  A failed collaborator leaves the mode untouched,
    /// issues no command, and hands the failure back as the step's only
    /// observable result.
    pub fn execute(&mut self, event: StepEvent) -> (r: Result<Vec<Command>, StepError>)
        requires
            event_fits(*old(self), event),
        ensures
            *final(self) == step_next(*old(self), event),
            match event {
                StepEvent::Failed(err) => r matches Err(e) && e == err,
                _ => r matches Ok(cmds) && cmds@ == step_commands(*old(self), event),
            },
    {
        match event {
            StepEvent::Failed(err) => Err(err),
            StepEvent::Angle(a) => {
                let mut cmds: Vec<Command> = Vec::new();
                if -TOLERANCE_MILLIDEGREES < a && a < TOLERANCE_MILLIDEGREES {
                    cmds.push(Command::Steer(Steering::Straight));
                    *self = State::Approaching;
                } else {
                    let toward = if a >= 0 { Steering::Right } else { Steering::Left };
                    let counter = if a >= 0 { Steering::Left } else { Steering::Right };
                    cmds.push(Command::Steer(toward));
                    cmds.push(Command::Pulse(Drive::Backward, PULSE_MILLIS));
                    cmds.push(Command::Steer(counter));
                    *self = State::Turning;
                }
                proof {
                    assert(cmds@ =~= turning_commands(a as int));
                }
                Ok(cmds)
            }
            StepEvent::Maneuver(hint) => {
                *self = match hint {
                    Hint::TargetWasHit => State::Idle,
                    Hint::OrientationIsOff => State::Turning,
                };
                Ok(Vec::new())
            }
            StepEvent::Idled => {
                *self = State::Turning;
                Ok(Vec::new())
            }
        }
    }
}

/// Law: whenever the measured angle is within tolerance, the turning mode
/// issues exactly one command — steer straight — and hands control to
/// Approaching.
pub proof fn lemma_turning_converged(a: int)
    requires
        converged(a),
    ensures
        turning_commands(a) =~= seq![Command::Steer(Steering::Straight)],
        turning_next(a) == State::Approaching,
{
}

/// Law: whenever the measured angle is at least the tolerance, the turning
/// mode steers right, pulses backward, then steers left, and remains in
/// Turning.
pub proof fn lemma_turning_positive(a: int)
    requires
        a >= TOLERANCE_MILLIDEGREES as int,
    ensures
        turning_commands(a) =~= seq![
            Command::Steer(Steering::Right),
            Command::Pulse(Drive::Backward, PULSE_MILLIS),
            Command::Steer(Steering::Left),
        ],
        turning_next(a) == State::Turning,
{
}

/// Law: whenever the measured angle is at most the negated tolerance, the
/// turning mode steers left, pulses backward, then steers right, and
/// remains in Turning.
pub proof fn lemma_turning_negative(a: int)
    requires
        a <= -(TOLERANCE_MILLIDEGREES as int),
    ensures
        turning_commands(a) =~= seq![
            Command::Steer(Steering::Left),
            Command::Pulse(Drive::Backward, PULSE_MILLIS),
            Command::Steer(Steering::Right),
        ],
        turning_next(a) == State::Turning,
{
}

/// Law: the convergence test is strict on both sides of the tolerance — an
/// angle exactly at the tolerance, of either sign, does not converge, while
/// one thousandth of a degree inside it does.
pub proof fn lemma_tolerance_boundary()
    ensures
        !converged(TOLERANCE_MILLIDEGREES as int),
        !converged(-(TOLERANCE_MILLIDEGREES as int)),
        converged(TOLERANCE_MILLIDEGREES as int - 1),
        converged(-(TOLERANCE_MILLIDEGREES as int) + 1),
{
}

/// Law: an angle of exactly zero counts as positive for the choice of
/// turn direction.
pub proof fn lemma_zero_angle_is_positive()
    ensures
        steer_toward(0) == Steering::Right,
        steer_counter(0) == Steering::Left,
{
}

/// Law: Approaching moves to Idle exactly when the maneuver reports the
/// target was hit, and back to Turning exactly when it reports the
/// orientation is off; the decision itself commands no actuator.
pub proof fn lemma_approaching_transitions(h: Hint)
    ensures
        (step_next(State::Approaching, StepEvent::Maneuver(h)) == State::Idle) <==> (h
            == Hint::TargetWasHit),
        (step_next(State::Approaching, StepEvent::Maneuver(h)) == State::Turning) <==> (h
            == Hint::OrientationIsOff),
        step_commands(State::Approaching, StepEvent::Maneuver(h)) =~= Seq::<Command>::empty(),
{
}

/// Law: a completed idle maneuver always sends the controller back to
/// Turning — Idle never self-loops — and commands no actuator.
pub proof fn lemma_idle_always_turns()
    ensures
        step_next(State::Idle, StepEvent::Idled) == State::Turning,
        step_next(State::Idle, StepEvent::Idled) != State::Idle,
        step_commands(State::Idle, StepEvent::Idled) =~= Seq::<Command>::empty(),
{
}

/// Law: a step whose collaborators failed issues no actuator command and
/// leaves the mode exactly as it was, in every mode.
pub proof fn lemma_failed_step_is_inert(s: State, err: StepError)
    ensures
        step_next(s, StepEvent::Failed(err)) == s,
        step_commands(s, StepEvent::Failed(err)) =~= Seq::<Command>::empty(),
{
}

/// Law: the mode graph is closed — Turning steps to Turning or
/// Approaching, Approaching to Idle or Turning, Idle to Turning, and a
/// failed step holds its mode — so the machine can always take a next
/// step.
pub proof fn lemma_transitions_total(s: State, e: StepEvent)
    requires
        event_fits(s, e),
    ensures
        s == State::Turning && !(e matches StepEvent::Failed(_)) ==> (step_next(s, e)
            == State::Turning || step_next(s, e) == State::Approaching),
        s == State::Approaching && !(e matches StepEvent::Failed(_)) ==> (step_next(s, e)
            == State::Idle || step_next(s, e) == State::Turning),
        s == State::Idle && !(e matches StepEvent::Failed(_)) ==> step_next(s, e)
            == State::Turning,
        e matches StepEvent::Failed(_) ==> step_next(s, e) == s,
{
}

/// The command that begins every turning measurement cycle: a forward
/// pulse whose realized displacement reveals the vehicle's heading.
pub fn turning_probe() -> (c: Command)
    ensures
        c == Command::Pulse(Drive::Forward, PULSE_MILLIS),
{
    Command::Pulse(Drive::Forward, PULSE_MILLIS)
}

} // verus!
