//! The presentation boundary: what the simulation asks to have drawn.

use vstd::prelude::*;
use crate::geometry::Point;

verus! {

/// The colour tags a target can carry.
#[derive(Clone, Copy, Debug, PartialEq, Eq, Structural)]
pub enum Color {
    Blue,
    Green,
    Red,
    DarkGray,
}

/// Status captions the session can ask a sink to show.
#[derive(Clone, Copy, Debug, PartialEq, Eq, Structural)]
pub enum Label {
    Paused,
}

/// How a position is to be presented: filled with a colour, or captioned.
#[derive(Clone, Copy, Debug, PartialEq, Eq, Structural)]
pub enum Paint {
    Fill(Color),
    Caption(Label),
}

/// One request made of a render sink.
#[derive(Clone, Copy, Debug, PartialEq, Eq, Structural)]
pub struct Draw {
    pub position: Point,
    pub paint: Option<Paint>,
}

/// A presentation backend, graphical or textual.
///
/// Rendering is best effort: it returns nothing and reports no failure.
pub trait RenderSink {
    /// Whether this sink, handed the request to present `position` as
    /// `paint`, may be left as `next`.
    ///
    /// What a sink does with a request is its own affair. One that draws on
    /// a surface or prints can end up anyhow, and that is what this says
    /// unless a sink states more about itself.
    open spec fn may_show(&self, position: Point, paint: Option<Paint>, next: &Self) -> bool {
        true
    }

    /// Presents `position`, painted as `paint` asks, or in the sink's own
    /// default style when `paint` is `None`.
    fn render(&mut self, position: Point, paint: Option<Paint>)
        ensures
            old(self).may_show(position, paint, final(self)),
    ;
}

/// Whether `sinks` follows one sink through the requests `draws`: each
/// entry, handed the request at its place, may be left as the entry after
/// it.
pub open spec fn handed_along<R: RenderSink>(sinks: Seq<R>, draws: Seq<Draw>) -> bool {
    &&& sinks.len() == draws.len() + 1
    &&& forall|i: int|
        0 <= i < draws.len() ==> (#[trigger] sinks[i]).may_show(
            draws[i].position,
            draws[i].paint,
            &sinks[i + 1],
        )
}

/// Whether a sink may be handed the requests `draws`, one after another and
/// nothing in between, and be left as `next`. With no request the sink is
/// left alone.
pub open spec fn may_show_all<R: RenderSink>(sink: &R, draws: Seq<Draw>, next: &R) -> bool {
    exists|sinks: Seq<R>| #[trigger]
        handed_along(sinks, draws) && sinks.first() == *sink && sinks.last() == *next
}

/// A sink that is handed nothing is left as it was, and only so.
pub proof fn lemma_may_show_none<R: RenderSink>(sink: &R, next: &R)
    ensures
        may_show_all(sink, Seq::<Draw>::empty(), next) <==> *next == *sink,
{
    if *next == *sink {
        assert(handed_along(seq![*sink], Seq::<Draw>::empty()));
    }
}

/// One more request, handed to a sink that was handed `draws`, makes a
/// longer run of requests.
pub proof fn lemma_may_show_one_more<R: RenderSink>(
    sink: &R,
    draws: Seq<Draw>,
    before: &R,
    position: Point,
    paint: Option<Paint>,
    next: &R,
)
    requires
        may_show_all(sink, draws, before),
        before.may_show(position, paint, next),
    ensures
        may_show_all(sink, draws.push(Draw { position, paint }), next),
{
    let sinks = choose|sinks: Seq<R>| #[trigger]
        handed_along(sinks, draws) && sinks.first() == *sink && sinks.last() == *before;
    let longer = sinks.push(*next);
    assert(handed_along(longer, draws.push(Draw { position, paint }))) by {
        assert forall|i: int| 0 <= i < draws.len() + 1 implies (#[trigger] longer[i]).may_show(
            draws.push(Draw { position, paint })[i].position,
            draws.push(Draw { position, paint })[i].paint,
            &longer[i + 1],
        ) by {
            if i < draws.len() {
                assert(sinks[i].may_show(draws[i].position, draws[i].paint, &sinks[i + 1]));
            }
        }
    }
    assert(longer.first() == *sink && longer.last() == *next);
}

/// A sink that draws nothing and keeps every request, for runs without a
/// surface.
pub struct Recorder {
    requests: Vec<Draw>,
}

impl View for Recorder {
    /// The requests received so far, oldest first.
    type V = Seq<Draw>;

    closed spec fn view(&self) -> Seq<Draw> {
        self.requests@
    }
}

impl Recorder {
    pub fn new() -> (sink: Recorder)
        ensures
            sink@ == Seq::<Draw>::empty(),
    {
        Recorder { requests: Vec::new() }
    }

    /// The requests received so far, oldest first.
    pub fn requests(&self) -> (requests: &Vec<Draw>)
        ensures
            requests@ == self@,
    {
        &self.requests
    }
}

impl RenderSink for Recorder {
    /// A recorder appends the request to what it holds.
    open spec fn may_show(&self, position: Point, paint: Option<Paint>, next: &Self) -> bool {
        next@ == self@.push(Draw { position, paint })
    }

    fn render(&mut self, position: Point, paint: Option<Paint>)
        ensures
            final(self)@ == old(self)@.push(Draw { position, paint }),
    {
        self.requests.push(Draw { position, paint });
    }
}

/// A recorder that was handed a run of requests holds what it held before
/// and then that run, in order.
pub proof fn lemma_recorder_keeps_all(sink: &Recorder, draws: Seq<Draw>, next: &Recorder)
    requires
        may_show_all(sink, draws, next),
    ensures
        next@ == sink@ + draws,
{
    let sinks = choose|sinks: Seq<Recorder>| #[trigger]
        handed_along(sinks, draws) && sinks.first() == *sink && sinks.last() == *next;
    lemma_recorders_along(sinks, draws, draws.len() as int);
    assert(draws.take(draws.len() as int) == draws);
}

/// Along a run of requests, each recorder holds what the first one held
/// and then the requests handed over so far.
proof fn lemma_recorders_along(sinks: Seq<Recorder>, draws: Seq<Draw>, upto: int)
    requires
        handed_along(sinks, draws),
        0 <= upto <= draws.len(),
    ensures
        sinks[upto]@ == sinks[0]@ + draws.take(upto),
    decreases upto,
{
    if upto > 0 {
        lemma_recorders_along(sinks, draws, upto - 1);
        assert(sinks[upto - 1].may_show(
            draws[upto - 1].position,
            draws[upto - 1].paint,
            &sinks[upto],
        ));
        assert(draws.take(upto) == draws.take(upto - 1).push(draws[upto - 1]));
    } else {
        assert(draws.take(0) == Seq::<Draw>::empty());
    }
}

} // verus!
