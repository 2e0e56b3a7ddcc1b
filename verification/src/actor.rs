//! The actor: the player's stand-in inside the simulation.
//!
//! An actor has no state machine of its own. It remembers where the player
//! last pointed, passes the player's other intents on, and hands render
//! requests to the sink it owns. Each request that it hands over it also
//! notes in a log, which is what the contracts of a frame speak of.

use vstd::prelude::*;
use crate::command::{Command, CommandSource};
use crate::geometry::Point;
use crate::render::{Draw, Paint, RenderSink};

verus! {

/// An actor as the contracts see it.
pub struct ActorView {
    /// The position last pointed at.
    pub aim: Point,
    /// Every request that the actor has handed to its sink, oldest first.
    pub drawn: Seq<Draw>,
}

impl ActorView {
    /// The actor after it heard `command`: an `Aim` moves the aim point,
    /// anything else leaves the actor as it was.
    pub open spec fn heard(self, command: Option<Command>) -> ActorView {
        match command {
            Some(Command::Aim(position)) => ActorView { aim: position, ..self },
            _ => self,
        }
    }

    /// The actor after it handed one more request to its sink.
    pub open spec fn rendered(self, position: Point, paint: Option<Paint>) -> ActorView {
        ActorView { drawn: self.drawn.push(Draw { position, paint }), ..self }
    }
}

pub struct Actor<S: CommandSource, R: RenderSink> {
    target_point: Point,
    source: S,
    sink: R,
    drawn: Ghost<Seq<Draw>>,
}

impl<S: CommandSource, R: RenderSink> View for Actor<S, R> {
    type V = ActorView;

    closed spec fn view(&self) -> ActorView {
        ActorView { aim: self.target_point, drawn: self.drawn@ }
    }
}

impl<S: CommandSource, R: RenderSink> Actor<S, R> {
    /// The command source this actor owns.
    pub closed spec fn spec_source(&self) -> &S {
        &self.source
    }

    /// The render sink this actor owns.
    pub closed spec fn spec_sink(&self) -> &R {
        &self.sink
    }

    /// An actor that aims at the origin and has rendered nothing yet.
    pub fn new(source: S, sink: R) -> (actor: Actor<S, R>)
        ensures
            actor@.aim == (Point { x: 0, y: 0 }),
            actor@.drawn == Seq::<Draw>::empty(),
            actor.spec_source() == source,
            actor.spec_sink() == sink,
    {
        Actor { target_point: Point { x: 0, y: 0 }, source, sink, drawn: Ghost(Seq::empty()) }
    }

    /// The position last pointed at.
    pub fn target_point(&self) -> (point: Point)
        ensures
            point == self@.aim,
    {
        self.target_point
    }

    #[verifier::when_used_as_spec(spec_source)]
    pub fn source(&self) -> (source: &S)
        ensures
            source == self.spec_source(),
    {
        &self.source
    }

    #[verifier::when_used_as_spec(spec_sink)]
    pub fn sink(&self) -> (sink: &R)
        ensures
            sink == self.spec_sink(),
    {
        &self.sink
    }

    /// Polls the command source once and returns what it answered. An `Aim`
    /// is taken up as the new aim point on the way; `Attack` and `Quit` are
    /// only passed on. Nothing is rendered.
    pub fn update(&mut self) -> (command: Option<Command>)
        ensures
            final(self)@ == old(self)@.heard(command),
            old(self).spec_source().may_answer(command, final(self).spec_source()),
            final(self).spec_sink() == old(self).spec_sink(),
    {
        let command = self.source.poll();
        if let Some(Command::Aim(position)) = command {
            self.target_point = position;
        }
        command
    }

    /// Hands one request to the render sink, and notes it in the log.
    pub fn render(&mut self, position: Point, paint: Option<Paint>)
        ensures
            old(self).spec_sink().may_show(position, paint, final(self).spec_sink()),
            final(self)@ == old(self)@.rendered(position, paint),
            final(self).spec_source() == old(self).spec_source(),
    {
        self.sink.render(position, paint);
        proof {
            self.drawn@ = self.drawn@.push(Draw { position, paint });
        }
    }
}

} // verus!
