//! The input boundary: player intents and where they come from.

use vstd::prelude::*;
use crate::geometry::Point;

verus! {

/// One thing the player wants.
#[derive(Clone, Copy, Debug, PartialEq, Eq, Structural)]
pub enum Command {
    /// Point at a position.
    Aim(Point),
    /// Shoot at the position last pointed at.
    Attack,
    /// Leave the game.
    Quit,
}

impl Command {
    /// The one command that a frame of device readings amounts to: a quit
    /// request beats an attack, an attack beats a pointer position, and with
    /// none of the three there is no command.
    pub open spec fn spec_from_readings(quit: bool, attack: bool, pointer: Option<Point>) -> Option<
        Command,
    > {
        if quit {
            Some(Command::Quit)
        } else if attack {
            Some(Command::Attack)
        } else {
            match pointer {
                Some(position) => Some(Command::Aim(position)),
                None => None,
            }
        }
    }

    /// Reduces what a device reports in one frame to at most one command.
    #[verifier::when_used_as_spec(spec_from_readings)]
    pub fn from_readings(quit: bool, attack: bool, pointer: Option<Point>) -> (command: Option<
        Command,
    >)
        ensures
            command == Command::spec_from_readings(quit, attack, pointer),
            quit ==> command == Some(Command::Quit),
            !quit && attack ==> command == Some(Command::Attack),
            !quit && !attack ==> (command is None <==> pointer is None),
    {
        if quit {
            Some(Command::Quit)
        } else if attack {
            Some(Command::Attack)
        } else {
            match pointer {
                Some(position) => Some(Command::Aim(position)),
                None => None,
            }
        }
    }
}

/// What a pointer at `pointer` has to say when the aim last sent was
/// `last_aim`: its position if that differs from the aim last sent, nothing
/// if the pointer rests where it last aimed.
pub open spec fn spec_moved_pointer(last_aim: Option<Point>, pointer: Point) -> Option<Point> {
    if last_aim == Some(pointer) {
        None
    } else {
        Some(pointer)
    }
}

#[verifier::when_used_as_spec(spec_moved_pointer)]
pub fn moved_pointer(last_aim: Option<Point>, pointer: Point) -> (moved: Option<Point>)
    ensures
        moved == spec_moved_pointer(last_aim, pointer),
{
    match last_aim {
        Some(aim) => {
            if aim.x == pointer.x && aim.y == pointer.y {
                None
            } else {
                Some(pointer)
            }
        },
        None => Some(pointer),
    }
}

/// The memory a live command source needs: the aim it last sent, so that a
/// pointer at rest is not sent frame after frame.
pub struct AimTracker {
    last_aim: Option<Point>,
}

impl View for AimTracker {
    /// The aim last sent, if any.
    type V = Option<Point>;

    closed spec fn view(&self) -> Option<Point> {
        self.last_aim
    }
}

impl AimTracker {
    /// A tracker that has sent no aim yet.
    pub fn new() -> (tracker: AimTracker)
        ensures
            tracker@ is None,
    {
        AimTracker { last_aim: None }
    }

    /// The aim last sent, if any.
    pub fn last_aim(&self) -> (aim: Option<Point>)
        ensures
            aim == self@,
    {
        self.last_aim
    }

    /// Reduces one frame of device readings to at most one command. The
    /// pointer counts as a reading only if it has moved since the aim last
    /// sent; the command is then picked by rank, quit before attack before
    /// aim, and an aim that is sent is remembered.
    pub fn resolve(&mut self, quit: bool, attack: bool, pointer: Point) -> (command: Option<
        Command,
    >)
        ensures
            command == Command::spec_from_readings(
                quit,
                attack,
                spec_moved_pointer(old(self)@, pointer),
            ),
            final(self)@ == (match command {
                Some(Command::Aim(position)) => Some(position),
                _ => old(self)@,
            }),
    {
        let command = Command::from_readings(quit, attack, moved_pointer(self.last_aim, pointer));
        if let Some(Command::Aim(position)) = command {
            self.last_aim = Some(position);
        }
        command
    }
}

/// Something that can be asked, once per frame, what the player wants.
///
/// An answer of `None` means that there is no new intent this frame.
pub trait CommandSource {
    /// Whether a poll of this source may answer `command` and leave the
    /// source as `next`.
    ///
    /// What a source answers is its own affair. One that reads a device can
    /// answer anything, and that is what this says unless a source states
    /// more about itself.
    open spec fn may_answer(&self, command: Option<Command>, next: &Self) -> bool {
        true
    }

    fn poll(&mut self) -> (command: Option<Command>)
        ensures
            old(self).may_answer(command, final(self)),
    ;
}

/// A command source that plays back a prepared list, first entry first.
pub struct ScriptedSource {
    script: Vec<Command>,
    cursor: usize,
}

impl View for ScriptedSource {
    /// The commands not yet handed out, next one first.
    type V = Seq<Command>;

    closed spec fn view(&self) -> Seq<Command> {
        self.script@.skip(self.cursor as int)
    }
}

impl ScriptedSource {
    #[verifier::type_invariant]
    spec fn inv(self) -> bool {
        self.cursor <= self.script.len()
    }

    /// A source that will hand out the entries of `script` in order.
    pub fn new(script: Vec<Command>) -> (source: ScriptedSource)
        ensures
            source@ == script@,
    {
        ScriptedSource { script, cursor: 0 }
    }

    /// How many commands are still to come.
    pub fn remaining(&self) -> (count: usize)
        ensures
            count == self@.len(),
    {
        proof {
            use_type_invariant(self);
        }
        self.script.len() - self.cursor
    }
}

impl CommandSource for ScriptedSource {
    /// A script answers with its next entry and moves past it; once it has
    /// run out it answers `None` and stays as it is.
    open spec fn may_answer(&self, command: Option<Command>, next: &Self) -> bool {
        if self@.len() > 0 {
            command == Some(self@.first()) && next@ == self@.skip(1)
        } else {
            command is None && next@ == self@
        }
    }

    /// Hands out the next command of the script. Each entry is handed out
    /// exactly once; when none is left the answer is `None`, now and on
    /// every later poll.
    fn poll(&mut self) -> (command: Option<Command>)
        ensures
            old(self)@.len() > 0 ==> command == Some(old(self)@.first()) && final(self)@ == old(
                self,
            )@.skip(1),
            old(self)@.len() == 0 ==> command is None && final(self)@ == old(self)@,
    {
        proof {
            use_type_invariant(&*self);
        }
        if self.cursor < self.script.len() {
            let command = self.script[self.cursor];
            self.cursor = self.cursor + 1;
            assert(self.script@.skip(self.cursor as int) == old(self).script@.skip(
                old(self).cursor as int,
            ).skip(1));
            Some(command)
        } else {
            None
        }
    }
}

} // verus!
