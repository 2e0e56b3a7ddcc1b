//! The target and its timer-driven life cycle.
//!
//! A target is born `Idle`. A shot turns it `Hit` or `Missed`; either of
//! those, or an `Idle` target nobody shot at, becomes `Dead` once its time
//! is up, and a `Dead` target ends as `Dispose`. Time is counted in
//! microseconds of real elapsed time, never in frames.

use vstd::prelude::*;
use crate::geometry::Point;
use crate::render::Color;

verus! {

/// How long an untouched target waits before it expires: 2 s.
pub const EXPIRY_MICROS: u64 = 2_000_000;

/// How long a target shows that it was hit, missed or is spent: 0.25 s.
pub const LINGER_MICROS: u64 = 250_000;

#[derive(Clone, Copy, Debug, PartialEq, Eq, Structural)]
pub enum TargetState {
    Idle,
    Hit,
    Missed,
    Dead,
    Dispose,
}

impl TargetState {
    /// The time a target spends in this state before it proposes to leave
    /// it, or `None` for the final state, which is never left.
    pub open spec fn spec_duration(self) -> Option<u64> {
        match self {
            TargetState::Idle => Some(EXPIRY_MICROS),
            TargetState::Hit => Some(LINGER_MICROS),
            TargetState::Missed => Some(LINGER_MICROS),
            TargetState::Dead => Some(LINGER_MICROS),
            TargetState::Dispose => None,
        }
    }

    #[verifier::when_used_as_spec(spec_duration)]
    pub fn duration(self) -> (duration: Option<u64>)
        ensures
            duration == self.spec_duration(),
    {
        match self {
            TargetState::Idle => Some(EXPIRY_MICROS),
            TargetState::Hit => Some(LINGER_MICROS),
            TargetState::Missed => Some(LINGER_MICROS),
            TargetState::Dead => Some(LINGER_MICROS),
            TargetState::Dispose => None,
        }
    }

    /// The state a target proposes once its time in this state is up.
    pub open spec fn spec_successor(self) -> Option<TargetState> {
        match self {
            TargetState::Idle => Some(TargetState::Dead),
            TargetState::Hit => Some(TargetState::Dead),
            TargetState::Missed => Some(TargetState::Dead),
            TargetState::Dead => Some(TargetState::Dispose),
            TargetState::Dispose => None,
        }
    }

    #[verifier::when_used_as_spec(spec_successor)]
    pub fn successor(self) -> (successor: Option<TargetState>)
        ensures
            successor == self.spec_successor(),
    {
        match self {
            TargetState::Idle => Some(TargetState::Dead),
            TargetState::Hit => Some(TargetState::Dead),
            TargetState::Missed => Some(TargetState::Dead),
            TargetState::Dead => Some(TargetState::Dispose),
            TargetState::Dispose => None,
        }
    }

    /// The colour that goes with this state. A target takes it when it
    /// enters the state and wears it for as long as it stays there.
    pub open spec fn spec_color(self) -> Color {
        match self {
            TargetState::Idle => Color::Blue,
            TargetState::Hit => Color::Green,
            TargetState::Missed => Color::Red,
            TargetState::Dead => Color::DarkGray,
            TargetState::Dispose => Color::DarkGray,
        }
    }

    #[verifier::when_used_as_spec(spec_color)]
    pub fn color(self) -> (color: Color)
        ensures
            color == self.spec_color(),
    {
        match self {
            TargetState::Idle => Color::Blue,
            TargetState::Hit => Color::Green,
            TargetState::Missed => Color::Red,
            TargetState::Dead => Color::DarkGray,
            TargetState::Dispose => Color::DarkGray,
        }
    }

    /// The legality table: whether a target in this state may move to
    /// `proposed`.
    pub open spec fn spec_admits(self, proposed: TargetState) -> bool {
        match (self, proposed) {
            (TargetState::Idle, TargetState::Hit) => true,
            (TargetState::Idle, TargetState::Missed) => true,
            (TargetState::Idle, TargetState::Dead) => true,
            (TargetState::Hit, TargetState::Dead) => true,
            (TargetState::Missed, TargetState::Dead) => true,
            (TargetState::Dead, TargetState::Dispose) => true,
            _ => false,
        }
    }

    #[verifier::when_used_as_spec(spec_admits)]
    pub fn admits(self, proposed: TargetState) -> (legal: bool)
        ensures
            legal == self.spec_admits(proposed),
    {
        match (self, proposed) {
            (TargetState::Idle, TargetState::Hit) => true,
            (TargetState::Idle, TargetState::Missed) => true,
            (TargetState::Idle, TargetState::Dead) => true,
            (TargetState::Hit, TargetState::Dead) => true,
            (TargetState::Missed, TargetState::Dead) => true,
            (TargetState::Dead, TargetState::Dispose) => true,
            _ => false,
        }
    }
}

/// A target as the contracts see it.
pub struct TargetView {
    pub state: TargetState,
    /// Microseconds counted in the current state.
    pub timer: nat,
    pub position: Point,
    pub radius: nat,
    pub color: Color,
}

impl TargetView {
    /// What every target satisfies: its radius is positive and its colour
    /// is the colour of its state.
    pub open spec fn wf(self) -> bool {
        &&& self.radius > 0
        &&& self.color == self.state.spec_color()
    }

    /// A newly made target.
    pub open spec fn fresh(position: Point, radius: nat) -> TargetView {
        TargetView {
            state: TargetState::Idle,
            timer: 0,
            position,
            radius,
            color: TargetState::Idle.spec_color(),
        }
    }

    /// Whether the time allotted to the current state is used up.
    pub open spec fn due(self) -> bool {
        match self.state.spec_duration() {
            Some(limit) => self.timer >= limit,
            None => false,
        }
    }

    /// What one update proposes: the successor state once the target is
    /// due, nothing before that.
    pub open spec fn proposal(self) -> Option<TargetState> {
        if self.due() {
            self.state.spec_successor()
        } else {
            None
        }
    }

    /// The target after one update that saw `dt` microseconds pass: the
    /// timer has advanced by `dt`, unless the target was due already or is
    /// in its final state. Nothing else moves.
    pub open spec fn tick(self, dt: nat) -> TargetView {
        if self.state.spec_duration() is Some && !self.due() {
            TargetView { timer: self.timer + dt, ..self }
        } else {
            self
        }
    }

    /// The target after `proposed` was put to it. If the legality table
    /// admits the move, the target is in the new state, wears its colour
    /// and has its timer at zero; otherwise it is untouched.
    pub open spec fn enter(self, proposed: TargetState) -> TargetView {
        if self.state.spec_admits(proposed) {
            TargetView { state: proposed, timer: 0, color: proposed.spec_color(), ..self }
        } else {
            self
        }
    }

    /// The target after a run of updates, one for each entry of `dts`, in
    /// which no proposal was acted on.
    pub open spec fn run(self, dts: Seq<nat>) -> TargetView
        decreases dts.len(),
    {
        if dts.len() == 0 {
            self
        } else {
            self.run(dts.drop_last()).tick(dts.last())
        }
    }
}

/// The microseconds that a run of updates saw pass in all.
pub open spec fn elapsed(dts: Seq<nat>) -> nat
    decreases dts.len(),
{
    if dts.len() == 0 {
        0
    } else {
        elapsed(dts.drop_last()) + dts.last()
    }
}

/// One hittable object on the playfield.
#[derive(Clone, Copy, Debug, PartialEq, Eq)]
pub struct Target {
    state: TargetState,
    state_timer: u64,
    position: Point,
    radius: u32,
    color: Color,
}

impl View for Target {
    type V = TargetView;

    closed spec fn view(&self) -> TargetView {
        TargetView {
            state: self.state,
            timer: self.state_timer as nat,
            position: self.position,
            radius: self.radius as nat,
            color: self.color,
        }
    }
}

impl Target {
    /// Holds of every target there is.
    #[verifier::type_invariant]
    pub open spec fn inv(self) -> bool {
        self@.wf()
    }

    /// Makes an `Idle` target with its timer at zero.
    pub fn new(position: Point, radius: u32) -> (target: Target)
        requires
            radius > 0,
        ensures
            target@ == TargetView::fresh(position, radius as nat),
            target@.wf(),
    {
        Target {
            state: TargetState::Idle,
            state_timer: 0,
            position,
            radius,
            color: TargetState::Idle.color(),
        }
    }

    pub fn state(&self) -> (state: TargetState)
        ensures
            state == self@.state,
    {
        self.state
    }

    /// Microseconds counted in the current state.
    pub fn state_timer(&self) -> (timer: u64)
        ensures
            timer == self@.timer,
    {
        self.state_timer
    }

    pub fn position(&self) -> (position: Point)
        ensures
            position == self@.position,
    {
        self.position
    }

    pub fn radius(&self) -> (radius: u32)
        ensures
            radius == self@.radius,
            radius > 0,
    {
        proof {
            use_type_invariant(self);
        }
        self.radius
    }

    /// The colour the target wears, which is always that of its state.
    pub fn color(&self) -> (color: Color)
        ensures
            color == self@.color,
            color == self@.state.spec_color(),
    {
        proof {
            use_type_invariant(self);
        }
        self.color
    }

    /// Advances the target by one frame in which `dt` microseconds passed,
    /// and returns the state it proposes to move to, if its time is up.
    ///
    /// A target whose time is up proposes its successor and counts no
    /// further; until then the timer grows by `dt` and nothing is proposed.
    /// State and colour are never changed here: a proposal takes effect
    /// only through [`Target::change_state`].
    pub fn update(&mut self, dt: u32) -> (proposal: Option<TargetState>)
        ensures
            final(self)@ == old(self)@.tick(dt as nat),
            proposal == old(self)@.proposal(),
            final(self)@.state == old(self)@.state,
            final(self)@.color == old(self)@.color,
            final(self)@.wf(),
    {
        proof {
            use_type_invariant(&*self);
        }
        match self.state.duration() {
            None => None,
            Some(limit) => {
                if self.state_timer >= limit {
                    self.state.successor()
                } else {
                    self.state_timer = self.state_timer + dt as u64;
                    None
                }
            },
        }
    }

    /// Puts `proposed` to the target. A move that the legality table admits
    /// is made: the target enters the state, takes its colour and starts
    /// its timer from zero. Any other proposal leaves the target exactly as
    /// it was, timer included.
    pub fn change_state(&mut self, proposed: TargetState)
        ensures
            final(self)@ == old(self)@.enter(proposed),
            !old(self)@.state.spec_admits(proposed) ==> final(self)@ == old(self)@,
            old(self)@.state.spec_admits(proposed) ==> final(self)@.state == proposed
                && final(self)@.timer == 0,
            final(self)@.wf(),
    {
        proof {
            use_type_invariant(&*self);
        }
        if self.state.admits(proposed) {
            *self = Target {
                state: proposed,
                state_timer: 0,
                position: self.position,
                radius: self.radius,
                color: proposed.color(),
            };
        }
    }
}

/// The order of a target's life: no move leads back to `Idle` or out of
/// `Dispose`, `Dispose` is reached from `Dead` alone, and the move that a
/// state proposes when its time is up is one that the table admits.
pub proof fn lemma_life_cycle(from: TargetState, to: TargetState)
    ensures
        from.spec_admits(to) ==> !(to is Idle) && !(from is Dispose) && from != to,
        from.spec_admits(to) && to is Dispose ==> from is Dead,
        from.spec_successor() == Some(to) ==> from.spec_admits(to),
        from.spec_successor() is Some <==> from.spec_duration() is Some,
{
}

/// A run of updates moves neither the state nor the place of a target.
pub proof fn lemma_run_keeps_state(target: TargetView, dts: Seq<nat>)
    ensures
        target.run(dts).state == target.state,
        target.run(dts).position == target.position,
        target.run(dts).radius == target.radius,
        target.wf() ==> target.run(dts).wf(),
    decreases dts.len(),
{
    if dts.len() > 0 {
        lemma_run_keeps_state(target, dts.drop_last());
    }
}

/// Time is counted truly: over a run of updates in a state that has a
/// duration, a target is due exactly when the time it had counted before
/// the run and the time the run saw pass together reach that duration.
/// Until then its timer holds that sum to the microsecond.
pub proof fn lemma_due_when_time_is_up(target: TargetView, dts: Seq<nat>)
    requires
        target.state.spec_duration() is Some,
    ensures
        target.run(dts).due() <==> target.timer + elapsed(dts)
            >= target.state.spec_duration()->0,
        !target.run(dts).due() ==> target.run(dts).timer == target.timer + elapsed(dts),
    decreases dts.len(),
{
    if dts.len() > 0 {
        lemma_run_keeps_state(target, dts.drop_last());
        lemma_due_when_time_is_up(target, dts.drop_last());
    }
}

/// An `Idle` target that nobody shoots at expires: once the updates it has
/// seen add up to two seconds, the next update proposes `Dead`.
pub proof fn lemma_idle_target_expires(target: TargetView, dts: Seq<nat>)
    requires
        target.state is Idle,
        target.timer + elapsed(dts) >= EXPIRY_MICROS,
    ensures
        target.run(dts).state is Idle,
        target.run(dts).proposal() == Some(TargetState::Dead),
{
    lemma_run_keeps_state(target, dts);
    lemma_due_when_time_is_up(target, dts);
}

/// A target that was hit or missed, or is dead, moves on: once the updates
/// it has seen in that state add up to a quarter of a second, the next
/// update proposes the successor, `Dead` after `Hit` and `Missed`, `Dispose`
/// after `Dead`.
pub proof fn lemma_lingering_target_moves_on(target: TargetView, dts: Seq<nat>)
    requires
        target.state is Hit || target.state is Missed || target.state is Dead,
        target.timer + elapsed(dts) >= LINGER_MICROS,
    ensures
        target.run(dts).state == target.state,
        target.state is Hit || target.state is Missed ==> target.run(dts).proposal() == Some(
            TargetState::Dead,
        ),
        target.state is Dead ==> target.run(dts).proposal() == Some(TargetState::Dispose),
{
    lemma_run_keeps_state(target, dts);
    lemma_due_when_time_is_up(target, dts);
}

/// No target leaves a state early: while the time counted stays under the
/// duration of its state, an update proposes nothing.
pub proof fn lemma_no_proposal_before_time(target: TargetView, dts: Seq<nat>)
    requires
        target.state.spec_duration() is Some,
        target.timer + elapsed(dts) < target.state.spec_duration()->0,
    ensures
        target.run(dts).proposal() is None,
{
    lemma_due_when_time_is_up(target, dts);
}

/// The colour belongs to the state, not to the clock: updates never touch
/// it, so a target shows the same colour however many updates it has seen
/// in a state and however much time they saw pass, and that colour is the
/// one its state assigns.
pub proof fn lemma_color_ignores_elapsed_time(target: TargetView, first: Seq<nat>, second: Seq<nat>)
    ensures
        target.run(first).color == target.run(second).color,
        target.run(first).color == target.color,
        target.wf() ==> target.run(first).color == target.state.spec_color(),
    decreases first.len() + second.len(),
{
    if first.len() > 0 {
        lemma_color_ignores_elapsed_time(target, first.drop_last(), second);
    } else if second.len() > 0 {
        lemma_color_ignores_elapsed_time(target, first, second.drop_last());
    }
}

/// A colour is assigned when a state is entered and at no other time: a
/// move that is made gives the target the colour of its new state, whatever
/// it wore before, and neither a move that is dropped nor an update changes
/// the colour.
pub proof fn lemma_color_assigned_on_entry(target: TargetView, proposed: TargetState, dt: nat)
    ensures
        target.state.spec_admits(proposed) ==> target.enter(proposed).color
            == proposed.spec_color(),
        !target.state.spec_admits(proposed) ==> target.enter(proposed).color == target.color,
        target.tick(dt).color == target.color,
        target.wf() ==> target.enter(proposed).wf() && target.tick(dt).wf(),
{
}

} // verus!
