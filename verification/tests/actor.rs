use enkalous::actor::Actor;
use enkalous::command::{Command, ScriptedSource};
use enkalous::geometry::Point;
use enkalous::render::{Color, Draw, Label, Paint, Recorder};

fn actor_with(script: Vec<Command>) -> Actor<ScriptedSource, Recorder> {
    Actor::new(ScriptedSource::new(script), Recorder::new())
}

#[test]
fn a_new_actor_aims_at_the_origin() {
    let actor = actor_with(vec![Command::Attack]);
    assert_eq!(actor.target_point(), Point::new(0, 0));
    assert_eq!(actor.source().remaining(), 1);
    assert!(actor.sink().requests().is_empty());
}

#[test]
fn an_aim_moves_the_aim_point_and_is_passed_on() {
    let mut actor = actor_with(vec![Command::Aim(Point::new(52, 52)), Command::Aim(Point::new(-1, 8))]);
    assert_eq!(actor.update(), Some(Command::Aim(Point::new(52, 52))));
    assert_eq!(actor.target_point(), Point::new(52, 52));
    assert_eq!(actor.update(), Some(Command::Aim(Point::new(-1, 8))));
    assert_eq!(actor.target_point(), Point::new(-1, 8));
}

#[test]
fn attack_and_quit_are_passed_on_and_leave_the_aim_point() {
    let mut actor = actor_with(vec![Command::Aim(Point::new(9, 9)), Command::Attack, Command::Quit]);
    actor.update();
    assert_eq!(actor.update(), Some(Command::Attack));
    assert_eq!(actor.target_point(), Point::new(9, 9));
    assert_eq!(actor.update(), Some(Command::Quit));
    assert_eq!(actor.target_point(), Point::new(9, 9));
    assert_eq!(actor.update(), None);
    assert_eq!(actor.target_point(), Point::new(9, 9));
}

#[test]
fn update_polls_once_and_renders_nothing() {
    let mut actor = actor_with(vec![Command::Attack, Command::Attack]);
    actor.update();
    assert_eq!(actor.source().remaining(), 1);
    assert!(actor.sink().requests().is_empty());
}

#[test]
fn render_hands_each_request_to_the_sink_in_order() {
    let mut actor = actor_with(vec![Command::Quit]);
    actor.render(Point::new(1, 2), Some(Paint::Fill(Color::Red)));
    actor.render(Point::new(3, 4), None);
    actor.render(Point::new(0, 0), Some(Paint::Caption(Label::Paused)));
    assert_eq!(
        actor.sink().requests(),
        &vec![
            Draw { position: Point::new(1, 2), paint: Some(Paint::Fill(Color::Red)) },
            Draw { position: Point::new(3, 4), paint: None },
            Draw { position: Point::new(0, 0), paint: Some(Paint::Caption(Label::Paused)) },
        ]
    );
    assert_eq!(actor.source().remaining(), 1);
    assert_eq!(actor.target_point(), Point::new(0, 0));
}
