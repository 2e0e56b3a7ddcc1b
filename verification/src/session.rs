//! The session: the top-level state machine and the per-frame protocol
//! that ties target, actor, input and presentation together.
//!
//! A frame never changes the session state directly. An update proposes a
//! state, and the proposal takes effect only through
//! [`Session::transition`], which consults the legality table.

use vstd::prelude::*;
use crate::actor::{Actor, ActorView};
use crate::command::{Command, CommandSource};
use crate::geometry::Point;
use crate::render::{
    lemma_may_show_none, lemma_may_show_one_more, may_show_all, Draw, Label, Paint, RenderSink,
};
use crate::target::{Target, TargetState, TargetView};

verus! {

/// A shot hits when it lands strictly closer to the target's centre than
/// this many distance units. The reach of a shot is a rule of its own and
/// does not follow the radius a target is drawn with.
pub const HIT_RADIUS: u32 = 50;

/// The radius every target is made with.
pub const TARGET_RADIUS: u32 = 64;

pub const SPAWN_X: i32 = 50;

pub const SPAWN_Y: i32 = 50;

/// Where every target is made.
pub open spec fn spec_spawn_point() -> Point {
    Point { x: SPAWN_X, y: SPAWN_Y }
}

#[verifier::when_used_as_spec(spec_spawn_point)]
pub fn spawn_point() -> (point: Point)
    ensures
        point == spec_spawn_point(),
{
    Point { x: SPAWN_X, y: SPAWN_Y }
}

/// The position that status captions are rendered at. Where a caption ends
/// up on a surface is for the sink to decide.
pub open spec fn spec_status_anchor() -> Point {
    Point { x: 0, y: 0 }
}

#[verifier::when_used_as_spec(spec_status_anchor)]
pub fn status_anchor() -> (point: Point)
    ensures
        point == spec_status_anchor(),
{
    Point { x: 0, y: 0 }
}

/// The target that a session starts with and that replaces a disposed one.
pub open spec fn spawned() -> TargetView {
    TargetView::fresh(spawn_point(), TARGET_RADIUS as nat)
}

#[derive(Clone, Copy, Debug, PartialEq, Eq, Structural)]
pub enum SessionState {
    Start,
    Play,
    Paused,
    End,
}

impl SessionState {
    /// The legality table: whether a session in this state may move to
    /// `proposed`.
    pub open spec fn spec_admits(self, proposed: SessionState) -> bool {
        match (self, proposed) {
            (SessionState::Start, SessionState::Play) => true,
            (SessionState::Play, SessionState::Paused) => true,
            (SessionState::Paused, SessionState::Play) => true,
            (SessionState::Play, SessionState::End) => true,
            (SessionState::Paused, SessionState::End) => true,
            _ => false,
        }
    }

    #[verifier::when_used_as_spec(spec_admits)]
    pub fn admits(self, proposed: SessionState) -> (legal: bool)
        ensures
            legal == self.spec_admits(proposed),
    {
        match (self, proposed) {
            (SessionState::Start, SessionState::Play) => true,
            (SessionState::Play, SessionState::Paused) => true,
            (SessionState::Paused, SessionState::Play) => true,
            (SessionState::Play, SessionState::End) => true,
            (SessionState::Paused, SessionState::End) => true,
            _ => false,
        }
    }

    /// Whether a frame in this state asks the player for a command.
    pub open spec fn spec_polls(self) -> bool {
        self is Play || self is Paused
    }

    #[verifier::when_used_as_spec(spec_polls)]
    pub fn polls(self) -> (polls: bool)
        ensures
            polls == self.spec_polls(),
    {
        match self {
            SessionState::Play => true,
            SessionState::Paused => true,
            _ => false,
        }
    }
}

/// What one frame brings from outside, apart from the player's command.
#[derive(Clone, Copy, Debug, PartialEq, Eq, Structural)]
pub struct FrameInput {
    /// Microseconds since the previous frame.
    pub elapsed_micros: u32,
    /// Whether the key that pauses and resumes was pressed this frame.
    pub pause_pressed: bool,
}

/// What the frame loop is to do after a frame.
#[derive(Clone, Copy, Debug, PartialEq, Eq, Structural)]
pub enum Effect {
    /// Present the frame and run the next one.
    Continue,
    /// The session is over: end the process.
    Terminate,
}

/// A session as the contracts see it.
pub struct SessionView {
    pub state: SessionState,
    pub target: TargetView,
    pub actor: ActorView,
}

/// The target after a shot was resolved against it: an `Attack` makes it
/// `Hit` if the aim point is within reach of its centre and `Missed` if
/// not, as far as its state admits the move. Other commands do nothing.
pub open spec fn shot(target: TargetView, aim: Point, command: Option<Command>) -> TargetView {
    if command == Some(Command::Attack) {
        if aim.within(target.position, HIT_RADIUS as nat) {
            target.enter(TargetState::Hit)
        } else {
            target.enter(TargetState::Missed)
        }
    } else {
        target
    }
}

/// The target after one update in which its own proposal, if it made one,
/// was put to it.
pub open spec fn aged(target: TargetView, dt: nat) -> TargetView {
    match target.proposal() {
        Some(next) => target.tick(dt).enter(next),
        None => target.tick(dt),
    }
}

/// A disposed target gives way to a newly spawned one; any other stays.
pub open spec fn recycled(target: TargetView) -> TargetView {
    if target.state is Dispose {
        spawned()
    } else {
        target
    }
}

impl SessionView {
    /// The session after `proposed` was put to it: in the new state if the
    /// legality table admits the move, untouched otherwise.
    pub open spec fn transition(self, proposed: SessionState) -> SessionView {
        if self.state.spec_admits(proposed) {
            SessionView { state: proposed, ..self }
        } else {
            self
        }
    }

    /// One simulation step: the shot is resolved, the target ages by `dt`
    /// and is recycled if that disposed of it, and then the target and the
    /// aim point are rendered, in that order.
    pub open spec fn simulate(self, dt: nat, command: Option<Command>) -> SessionView {
        let target = recycled(aged(shot(self.target, self.actor.aim, command), dt));
        SessionView {
            target,
            actor: self.actor.rendered(target.position, Some(Paint::Fill(target.color))).rendered(
                self.actor.aim,
                None,
            ),
            ..self
        }
    }

    /// One frame of a session whose actor has answered `command`: the
    /// session as the frame leaves it, and the state the frame proposes.
    ///
    /// * `Start` proposes `Play` and does nothing else.
    /// * `Play` proposes `End` on `Quit`, else `Paused` if the pause key was
    ///   pressed, and otherwise runs one simulation step and proposes
    ///   nothing.
    /// * `Paused` renders the status caption and proposes `End` on `Quit`,
    ///   else `Play` if the pause key was pressed. The target is not touched.
    /// * `End` does nothing.
    pub open spec fn advance(self, input: FrameInput, command: Option<Command>) -> (
        SessionView,
        Option<SessionState>,
    ) {
        match self.state {
            SessionState::Start => (self, Some(SessionState::Play)),
            SessionState::Play => {
                if command == Some(Command::Quit) {
                    (self, Some(SessionState::End))
                } else if input.pause_pressed {
                    (self, Some(SessionState::Paused))
                } else {
                    (self.simulate(input.elapsed_micros as nat, command), None)
                }
            },
            SessionState::Paused => {
                let shown = SessionView {
                    actor: self.actor.rendered(status_anchor(), Some(Paint::Caption(Label::Paused))),
                    ..self
                };
                if command == Some(Command::Quit) {
                    (shown, Some(SessionState::End))
                } else if input.pause_pressed {
                    (shown, Some(SessionState::Play))
                } else {
                    (shown, None)
                }
            },
            SessionState::End => (self, None),
        }
    }

    /// One update of a session whose command source, if it is asked,
    /// answers `command`. In the two states that poll, the actor hears the
    /// command before the frame is worked out; in the other two nobody is
    /// asked.
    pub open spec fn step(self, input: FrameInput, command: Option<Command>) -> (
        SessionView,
        Option<SessionState>,
    ) {
        if self.state.spec_polls() {
            SessionView { actor: self.actor.heard(command), ..self }.advance(input, command)
        } else {
            self.advance(input, None)
        }
    }

    /// One whole frame: the update, and then the transition it proposed. A
    /// session that has ended stays as it is.
    pub open spec fn frame(self, input: FrameInput, command: Option<Command>) -> SessionView {
        let (next, proposal) = self.step(input, command);
        match proposal {
            Some(state) => next.transition(state),
            None => next,
        }
    }
}

pub struct Session<S: CommandSource, R: RenderSink> {
    state: SessionState,
    target: Target,
    actor: Actor<S, R>,
}

impl<S: CommandSource, R: RenderSink> View for Session<S, R> {
    type V = SessionView;

    closed spec fn view(&self) -> SessionView {
        SessionView { state: self.state, target: self.target@, actor: self.actor@ }
    }
}

impl<S: CommandSource, R: RenderSink> Session<S, R> {
    /// The actor this session owns.
    pub closed spec fn spec_actor(&self) -> &Actor<S, R> {
        &self.actor
    }

    /// The command source of the actor this session owns.
    pub open spec fn spec_source(&self) -> &S {
        self.spec_actor().spec_source()
    }

    /// The render sink of the actor this session owns.
    pub open spec fn spec_sink(&self) -> &R {
        self.spec_actor().spec_sink()
    }

    /// Whether the sink may have been handed, one after another and nothing
    /// else, the requests that the log holds in `next` beyond those it holds
    /// here, and be left as it is in `next`.
    pub open spec fn showed(&self, next: &Self) -> bool {
        may_show_all(
            self.spec_sink(),
            next@.actor.drawn.skip(self@.actor.drawn.len() as int),
            next.spec_sink(),
        )
    }

    /// Whether the command source can answer `command` when this session
    /// runs a frame, and be left as it is in `next`. In a state that asks
    /// for no command the source must be left alone.
    pub open spec fn polled(&self, command: Option<Command>, next: &Self) -> bool {
        if self@.state.spec_polls() {
            self.spec_source().may_answer(command, next.spec_source())
        } else {
            next.spec_source() == self.spec_source()
        }
    }

    /// A session in `Start`, with a newly spawned target.
    pub fn new(actor: Actor<S, R>) -> (session: Session<S, R>)
        ensures
            session@ == (SessionView {
                state: SessionState::Start,
                target: spawned(),
                actor: actor@,
            }),
            session.spec_actor() == actor,
    {
        Session {
            state: SessionState::Start,
            target: Target::new(spawn_point(), TARGET_RADIUS),
            actor,
        }
    }

    pub fn state(&self) -> (state: SessionState)
        ensures
            state == self@.state,
    {
        self.state
    }

    pub fn target(&self) -> (target: Target)
        ensures
            target@ == self@.target,
            target@.wf(),
    {
        let target = self.target;
        proof {
            use_type_invariant(&target);
        }
        target
    }

    #[verifier::when_used_as_spec(spec_actor)]
    pub fn actor(&self) -> (actor: &Actor<S, R>)
        ensures
            actor == self.spec_actor(),
            actor@ == self@.actor,
    {
        &self.actor
    }

    /// Puts `proposed` to the session. A move that the legality table
    /// admits is made; any other is dropped without a trace. Nothing but the
    /// state ever changes here.
    pub fn transition(&mut self, proposed: SessionState)
        ensures
            final(self)@ == old(self)@.transition(proposed),
            !old(self)@.state.spec_admits(proposed) ==> final(self)@.state == old(self)@.state,
            old(self)@.state.spec_admits(proposed) ==> final(self)@.state == proposed,
            final(self)@.target == old(self)@.target,
            final(self).spec_actor() == old(self).spec_actor(),
    {
        if self.state.admits(proposed) {
            self.state = proposed;
        }
    }

    /// Resolves an `Attack` against the target: within reach of its centre
    /// the target is asked to become `Hit`, out of reach `Missed`.
    fn check_for_hit(&mut self, command: Option<Command>)
        ensures
            final(self)@ == (SessionView {
                target: shot(old(self)@.target, old(self)@.actor.aim, command),
                ..old(self)@
            }),
            final(self).spec_actor() == old(self).spec_actor(),
    {
        if let Some(Command::Attack) = command {
            if self.actor.target_point().is_within(self.target.position(), HIT_RADIUS) {
                self.target.change_state(TargetState::Hit);
            } else {
                self.target.change_state(TargetState::Missed);
            }
        }
    }

    /// Advances the target by one frame and puts its proposal to it.
    fn update_target(&mut self, dt: u32)
        ensures
            final(self)@ == (SessionView { target: aged(old(self)@.target, dt as nat), ..old(self)@ }),
            final(self).spec_actor() == old(self).spec_actor(),
    {
        if let Some(state) = self.target.update(dt) {
            self.target.change_state(state);
        }
    }

    /// Replaces a disposed target by a newly spawned one.
    fn reset_disposed_target(&mut self)
        ensures
            final(self)@ == (SessionView { target: recycled(old(self)@.target), ..old(self)@ }),
            final(self).spec_actor() == old(self).spec_actor(),
    {
        if let TargetState::Dispose = self.target.state() {
            self.target = Target::new(spawn_point(), TARGET_RADIUS);
        }
    }

    /// Renders the target in its colour, then the aim point.
    fn draw(&mut self)
        ensures
            final(self)@ == (SessionView {
                actor: old(self)@.actor.rendered(
                    old(self)@.target.position,
                    Some(Paint::Fill(old(self)@.target.color)),
                ).rendered(old(self)@.actor.aim, None),
                ..old(self)@
            }),
            exists|between: R|
                old(self).spec_sink().may_show(
                    old(self)@.target.position,
                    Some(Paint::Fill(old(self)@.target.color)),
                    &between,
                ) && #[trigger] between.may_show(old(self)@.actor.aim, None, final(self).spec_sink()),
            old(self).showed(final(self)),
            final(self).spec_source() == old(self).spec_source(),
    {
        let position = self.target.position();
        let fill = Some(Paint::Fill(self.target.color()));
        self.actor.render(position, fill);
        let ghost between = *self;
        let aim = self.actor.target_point();
        self.actor.render(aim, None);
        proof {
            let none = Seq::<Draw>::empty();
            lemma_may_show_none(old(self).spec_sink(), old(self).spec_sink());
            lemma_may_show_one_more(
                old(self).spec_sink(),
                none,
                old(self).spec_sink(),
                position,
                fill,
                between.spec_sink(),
            );
            lemma_may_show_one_more(
                old(self).spec_sink(),
                none.push(Draw { position, paint: fill }),
                between.spec_sink(),
                aim,
                None,
                self.spec_sink(),
            );
            assert(self@.actor.drawn.skip(old(self)@.actor.drawn.len() as int) == none.push(
                Draw { position, paint: fill },
            ).push(Draw { position: aim, paint: None }));
            assert(between.spec_sink().may_show(old(self)@.actor.aim, None, self.spec_sink()));
        }
    }

    /// One frame in `Play`.
    fn play(&mut self, input: FrameInput, command: Option<Command>) -> (proposal: Option<
        SessionState,
    >)
        requires
            old(self)@.state is Play,
        ensures
            (final(self)@, proposal) == old(self)@.advance(input, command),
            proposal is None ==> exists|between: R|
                old(self).spec_sink().may_show(
                    final(self)@.target.position,
                    Some(Paint::Fill(final(self)@.target.color)),
                    &between,
                ) && #[trigger] between.may_show(final(self)@.actor.aim, None, final(self).spec_sink()),
            proposal is Some ==> final(self).spec_sink() == old(self).spec_sink(),
            old(self).showed(final(self)),
            final(self).spec_source() == old(self).spec_source(),
    {
        if let Some(Command::Quit) = command {
            proof {
                lemma_may_show_none(self.spec_sink(), self.spec_sink());
                assert(self@.actor.drawn.skip(self@.actor.drawn.len() as int) == Seq::<
                    Draw,
                >::empty());
            }
            return Some(SessionState::End);
        }
        if input.pause_pressed {
            proof {
                lemma_may_show_none(self.spec_sink(), self.spec_sink());
                assert(self@.actor.drawn.skip(self@.actor.drawn.len() as int) == Seq::<
                    Draw,
                >::empty());
            }
            return Some(SessionState::Paused);
        }
        self.check_for_hit(command);
        self.update_target(input.elapsed_micros);
        self.reset_disposed_target();
        let ghost settled = *self;
        self.draw();
        proof {
            let between = choose|between: R|
                settled.spec_sink().may_show(
                    settled@.target.position,
                    Some(Paint::Fill(settled@.target.color)),
                    &between,
                ) && #[trigger] between.may_show(settled@.actor.aim, None, self.spec_sink());
            assert(settled.spec_sink() == old(self).spec_sink());
            assert(between.may_show(self@.actor.aim, None, self.spec_sink()));
        }
        None
    }

    /// One frame in `Paused`.
    fn paused(&mut self, input: FrameInput, command: Option<Command>) -> (proposal: Option<
        SessionState,
    >)
        requires
            old(self)@.state is Paused,
        ensures
            (final(self)@, proposal) == old(self)@.advance(input, command),
            old(self).spec_sink().may_show(
                status_anchor(),
                Some(Paint::Caption(Label::Paused)),
                final(self).spec_sink(),
            ),
            old(self).showed(final(self)),
            final(self).spec_source() == old(self).spec_source(),
    {
        self.actor.render(status_anchor(), Some(Paint::Caption(Label::Paused)));
        proof {
            let none = Seq::<Draw>::empty();
            lemma_may_show_none(old(self).spec_sink(), old(self).spec_sink());
            lemma_may_show_one_more(
                old(self).spec_sink(),
                none,
                old(self).spec_sink(),
                status_anchor(),
                Some(Paint::Caption(Label::Paused)),
                self.spec_sink(),
            );
            assert(self@.actor.drawn.skip(old(self)@.actor.drawn.len() as int) == none.push(
                Draw { position: status_anchor(), paint: Some(Paint::Caption(Label::Paused)) },
            ));
        }
        if let Some(Command::Quit) = command {
            return Some(SessionState::End);
        }
        if input.pause_pressed {
            Some(SessionState::Play)
        } else {
            None
        }
    }

    /// Works out one frame from the command that the actor passed on for it,
    /// and returns the state that the frame proposes. The session state
    /// itself is left alone.
    pub fn advance(&mut self, input: FrameInput, command: Option<Command>) -> (proposal: Option<
        SessionState,
    >)
        ensures
            (final(self)@, proposal) == old(self)@.advance(input, command),
            old(self)@.state is Paused ==> old(self).spec_sink().may_show(
                status_anchor(),
                Some(Paint::Caption(Label::Paused)),
                final(self).spec_sink(),
            ),
            old(self)@.state is Play && proposal is None ==> exists|between: R|
                old(self).spec_sink().may_show(
                    final(self)@.target.position,
                    Some(Paint::Fill(final(self)@.target.color)),
                    &between,
                ) && #[trigger] between.may_show(final(self)@.actor.aim, None, final(self).spec_sink()),
            !(old(self)@.state is Paused) && !(old(self)@.state is Play && proposal is None)
                ==> final(self).spec_sink() == old(self).spec_sink(),
            old(self).showed(final(self)),
            final(self).spec_source() == old(self).spec_source(),
            final(self)@.state == old(self)@.state,
            old(self)@.state is Paused ==> final(self)@.target == old(self)@.target,
            old(self)@.state is Play && proposal is None ==> !(final(self)@.target.state is Dispose),
            !old(self)@.state.spec_polls() ==> *final(self) == *old(self),
            final(self)@.target.wf(),
    {
        proof {
            lemma_may_show_none(self.spec_sink(), self.spec_sink());
            assert(self@.actor.drawn.skip(self@.actor.drawn.len() as int) == Seq::<Draw>::empty());
        }
        let proposal = match self.state {
            SessionState::Start => Some(SessionState::Play),
            SessionState::Play => self.play(input, command),
            SessionState::Paused => self.paused(input, command),
            SessionState::End => None,
        };
        proof {
            use_type_invariant(&self.target);
        }
        proposal
    }

    /// Runs one frame: asks the actor for the player's command where the
    /// state calls for one, works the frame out and returns the state it
    /// proposes.
    ///
    /// The command is whatever the source answers, so the contract speaks of
    /// some command that the source may answer; [`SessionView::step`] says
    /// what follows from each.
    pub fn update(&mut self, input: FrameInput) -> (proposal: Option<SessionState>)
        ensures
            exists|command: Option<Command>|
                (#[trigger] old(self)@.step(input, command)) == (final(self)@, proposal) && old(
                    self,
                ).polled(command, final(self)),
            old(self)@.state is Paused ==> old(self).spec_sink().may_show(
                status_anchor(),
                Some(Paint::Caption(Label::Paused)),
                final(self).spec_sink(),
            ),
            old(self)@.state is Play && proposal is None ==> exists|between: R|
                old(self).spec_sink().may_show(
                    final(self)@.target.position,
                    Some(Paint::Fill(final(self)@.target.color)),
                    &between,
                ) && #[trigger] between.may_show(final(self)@.actor.aim, None, final(self).spec_sink()),
            !(old(self)@.state is Paused) && !(old(self)@.state is Play && proposal is None)
                ==> final(self).spec_sink() == old(self).spec_sink(),
            old(self).showed(final(self)),
            final(self)@.state == old(self)@.state,
            old(self)@.state is Start ==> proposal == Some(SessionState::Play),
            !old(self)@.state.spec_polls() ==> *final(self) == *old(self),
            old(self)@.state is Paused ==> final(self)@.target == old(self)@.target,
            final(self)@.target.wf(),
    {
        if self.state.polls() {
            let command = self.actor.update();
            let proposal = self.advance(input, command);
            assert(old(self)@.step(input, command) == (self@, proposal) && old(self).polled(
                command,
                self,
            ));
            proposal
        } else {
            let proposal = self.advance(input, None);
            assert(old(self)@.step(input, None) == (self@, proposal) && old(self).polled(
                None,
                self,
            ));
            proposal
        }
    }

    /// Runs one whole frame, the update and then the transition it
    /// proposed, and tells the frame loop how to go on. A session that has
    /// reached `End` asks to be terminated and does nothing more.
    pub fn frame(&mut self, input: FrameInput) -> (effect: Effect)
        ensures
            exists|command: Option<Command>|
                (#[trigger] old(self)@.frame(input, command)) == final(self)@ && old(self).polled(
                    command,
                    final(self),
                ),
            old(self).showed(final(self)),
            effect == (if old(self)@.state is End {
                Effect::Terminate
            } else {
                Effect::Continue
            }),
            old(self)@.state is End ==> *final(self) == *old(self),
            final(self)@.target.wf(),
    {
        if let SessionState::End = self.state {
            proof {
                use_type_invariant(&self.target);
                lemma_may_show_none(self.spec_sink(), self.spec_sink());
                assert(self@.actor.drawn.skip(self@.actor.drawn.len() as int) == Seq::<
                    Draw,
                >::empty());
            }
            assert(old(self)@.frame(input, None) == self@ && old(self).polled(None, self));
            return Effect::Terminate;
        }
        let proposal = self.update(input);
        let ghost updated = *self;
        if let Some(state) = proposal {
            self.transition(state);
        }
        proof {
            let command = choose|command: Option<Command>|
                (#[trigger] old(self)@.step(input, command)) == (updated@, proposal) && old(
                    self,
                ).polled(command, &updated);
            assert(old(self)@.frame(input, command) == self@ && old(self).polled(command, self));
        }
        Effect::Continue
    }
}

/// Whatever an update proposes, the legality table admits: no frame asks
/// for a move that a transition would then drop.
pub proof fn lemma_proposals_are_legal(
    session: SessionView,
    input: FrameInput,
    command: Option<Command>,
)
    ensures
        session.step(input, command).1 matches Some(proposed) ==> session.state.spec_admits(
            proposed,
        ),
        session.step(input, command).0.state == session.state,
        session.frame(input, command).state == session.state || session.state.spec_admits(
            session.frame(input, command).state,
        ),
{
}

/// A session leaves `Start` with its first frame: whatever the frame
/// brings, the session plays afterwards and nothing else has changed.
pub proof fn lemma_first_frame_starts_play(
    session: SessionView,
    input: FrameInput,
    command: Option<Command>,
)
    requires
        session.state is Start,
    ensures
        session.step(input, command) == (session, Some(SessionState::Play)),
        session.frame(input, command) == (SessionView { state: SessionState::Play, ..session }),
{
}

/// A `Quit` ends the session from `Play` and from `Paused` alike, whatever
/// else the frame brings, and the target is not touched on the way out.
pub proof fn lemma_quit_ends_session(session: SessionView, input: FrameInput)
    requires
        session.state is Play || session.state is Paused,
    ensures
        session.step(input, Some(Command::Quit)).1 == Some(SessionState::End),
        session.frame(input, Some(Command::Quit)).state is End,
        session.frame(input, Some(Command::Quit)).target == session.target,
{
}

/// A shot at an `Idle` target is decided by distance alone: the target
/// ends the frame `Hit` if the aim point lies within reach of its centre
/// and `Missed` if it does not, with the time of that one frame on its
/// timer.
pub proof fn lemma_attack_decided_by_reach(session: SessionView, input: FrameInput)
    requires
        session.state is Play,
        !input.pause_pressed,
        session.target.state is Idle,
    ensures
        session.actor.aim.within(session.target.position, HIT_RADIUS as nat) ==> session.frame(
            input,
            Some(Command::Attack),
        ).target.state is Hit,
        !session.actor.aim.within(session.target.position, HIT_RADIUS as nat) ==> session.frame(
            input,
            Some(Command::Attack),
        ).target.state is Missed,
        session.frame(input, Some(Command::Attack)).target.timer == input.elapsed_micros,
        session.frame(input, Some(Command::Attack)).target.position == session.target.position,
{
}

/// A frame in which nothing happens counts time and nothing else: an `Idle`
/// target whose time is not up stays `Idle` where it is, its timer grows by
/// exactly the time the frame saw pass, nothing is proposed, and the frame
/// asks for the target in its colour and then for the aim point.
pub proof fn lemma_quiet_frame_counts_time(
    session: SessionView,
    input: FrameInput,
    command: Option<Command>,
)
    requires
        session.state is Play,
        session.target.state is Idle,
        !session.target.due(),
        command != Some(Command::Quit),
        command != Some(Command::Attack),
        !input.pause_pressed,
    ensures
        session.step(input, command).1 is None,
        session.frame(input, command).state is Play,
        session.frame(input, command).target == (TargetView {
            timer: session.target.timer + input.elapsed_micros as nat,
            ..session.target
        }),
        session.frame(input, command).actor.drawn == session.actor.drawn.push(
            Draw { position: session.target.position, paint: Some(Paint::Fill(session.target.color)) },
        ).push(Draw { position: session.frame(input, command).actor.aim, paint: None }),
{
}

/// A target whose time is up moves on within the frame that finds it so.
/// An `Idle` target that nobody shoots at, and a `Hit` or `Missed` one, end
/// the frame `Dead` with the timer at zero, whatever time the frame saw
/// pass; a `Dead` one is disposed of and replaced. Nothing is proposed for
/// the session.
pub proof fn lemma_due_target_moves_on_in_frame(
    session: SessionView,
    input: FrameInput,
    command: Option<Command>,
)
    requires
        session.state is Play,
        session.target.due(),
        command != Some(Command::Quit),
        !(command == Some(Command::Attack) && session.target.state is Idle),
        !input.pause_pressed,
    ensures
        session.step(input, command).1 is None,
        !(session.target.state is Dead) ==> session.frame(input, command).target == (TargetView {
            state: TargetState::Dead,
            timer: 0,
            color: TargetState::Dead.spec_color(),
            ..session.target
        }),
        session.target.state is Dead ==> session.frame(input, command).target == spawned(),
{
}

/// A session that has ended stays ended: `End` admits no move, and a frame
/// there changes nothing.
pub proof fn lemma_end_is_final(session: SessionView, input: FrameInput, command: Option<Command>)
    requires
        session.state is End,
    ensures
        forall|proposed: SessionState| session.transition(proposed) == session,
        session.frame(input, command) == session,
{
}

/// The target lives only while the session plays on: a frame that starts
/// outside `Play`, or that takes the session out of `Play`, hands the target
/// on exactly as it found it.
pub proof fn lemma_target_rests_outside_play(
    session: SessionView,
    input: FrameInput,
    command: Option<Command>,
)
    requires
        !(session.state is Play) || session.frame(input, command).state != session.state,
    ensures
        session.frame(input, command).target == session.target,
{
}

/// Pausing freezes the target's time. A paused session that resumes and is
/// paused again holds the very target it held before: the same state and
/// the same timer, to the microsecond, whatever time the two frames saw
/// pass.
pub proof fn lemma_pause_round_trip_keeps_target(
    session: SessionView,
    resume: FrameInput,
    heard_on_resume: Option<Command>,
    pause: FrameInput,
    heard_on_pause: Option<Command>,
)
    requires
        session.state is Paused,
        session.frame(resume, heard_on_resume).state is Play,
        session.frame(resume, heard_on_resume).frame(pause, heard_on_pause).state is Paused,
    ensures
        session.frame(resume, heard_on_resume).frame(pause, heard_on_pause).target
            == session.target,
        session.frame(resume, heard_on_resume).frame(pause, heard_on_pause).target.state
            == session.target.state,
        session.frame(resume, heard_on_resume).frame(pause, heard_on_pause).target.timer
            == session.target.timer,
{
    lemma_target_rests_outside_play(session, resume, heard_on_resume);
    lemma_target_rests_outside_play(session.frame(resume, heard_on_resume), pause, heard_on_pause);
}

/// What is drawn follows the state. A simulation step asks for two things,
/// the target and then the aim point, and it asks for the target at the
/// place and in the colour of the state that the step leaves it in: two
/// frames that leave the target in one state draw it in one colour,
/// whatever time they saw pass.
pub proof fn lemma_target_drawn_in_color_of_state(
    session: SessionView,
    input: FrameInput,
    command: Option<Command>,
)
    requires
        session.state is Play,
        command != Some(Command::Quit),
        !input.pause_pressed,
        session.target.wf(),
    ensures
        session.frame(input, command).actor.drawn == session.actor.heard(command).drawn.push(
            Draw {
                position: session.frame(input, command).target.position,
                paint: Some(Paint::Fill(session.frame(input, command).target.state.spec_color())),
            },
        ).push(Draw { position: session.frame(input, command).actor.aim, paint: None }),
        session.frame(input, command).target.wf(),
{
}

/// A disposed target is replaced in the frame that sees it. No simulation
/// step leaves a target in `Dispose` behind; a step that finds the target
/// disposed, or dead with its time up, ends with a newly spawned one,
/// `Idle` with its timer at zero at the spawn point.
pub proof fn lemma_disposed_target_is_recycled(
    session: SessionView,
    input: FrameInput,
    command: Option<Command>,
)
    requires
        session.state is Play,
        command != Some(Command::Quit),
        !input.pause_pressed,
    ensures
        !(session.frame(input, command).target.state is Dispose),
        session.target.state is Dispose || (session.target.state is Dead && session.target.due())
            ==> session.frame(input, command).target == spawned(),
        spawned().state is Idle && spawned().timer == 0 && spawned().position == spawn_point(),
{
}

} // verus!
