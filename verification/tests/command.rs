use enkalous::command::{moved_pointer, AimTracker, Command, CommandSource, ScriptedSource};
use enkalous::geometry::Point;

#[test]
fn quit_beats_attack_and_attack_beats_aim() {
    let pointer = Some(Point::new(3, 4));
    assert_eq!(Command::from_readings(true, true, pointer), Some(Command::Quit));
    assert_eq!(Command::from_readings(true, false, pointer), Some(Command::Quit));
    assert_eq!(Command::from_readings(true, true, None), Some(Command::Quit));
    assert_eq!(Command::from_readings(true, false, None), Some(Command::Quit));
    assert_eq!(Command::from_readings(false, true, pointer), Some(Command::Attack));
    assert_eq!(Command::from_readings(false, true, None), Some(Command::Attack));
    assert_eq!(Command::from_readings(false, false, pointer), Some(Command::Aim(Point::new(3, 4))));
}

#[test]
fn no_reading_gives_no_command() {
    assert_eq!(Command::from_readings(false, false, None), None);
}

#[test]
fn a_script_is_played_back_first_entry_first() {
    let mut source = ScriptedSource::new(vec![
        Command::Aim(Point::new(52, 52)),
        Command::Attack,
        Command::Aim(Point::new(1, 1)),
        Command::Quit,
    ]);
    assert_eq!(source.remaining(), 4);
    assert_eq!(source.poll(), Some(Command::Aim(Point::new(52, 52))));
    assert_eq!(source.remaining(), 3);
    assert_eq!(source.poll(), Some(Command::Attack));
    assert_eq!(source.poll(), Some(Command::Aim(Point::new(1, 1))));
    assert_eq!(source.remaining(), 1);
    assert_eq!(source.poll(), Some(Command::Quit));
    assert_eq!(source.remaining(), 0);
}

#[test]
fn an_exhausted_script_answers_none_for_ever() {
    let mut source = ScriptedSource::new(vec![Command::Attack]);
    assert_eq!(source.poll(), Some(Command::Attack));
    for _ in 0..100 {
        assert_eq!(source.poll(), None);
        assert_eq!(source.remaining(), 0);
    }
}

#[test]
fn an_empty_script_never_answers() {
    let mut source = ScriptedSource::new(Vec::new());
    assert_eq!(source.remaining(), 0);
    assert_eq!(source.poll(), None);
    assert_eq!(source.poll(), None);
}

#[test]
fn a_repeated_command_is_handed_out_once_per_entry() {
    let mut source = ScriptedSource::new(vec![Command::Attack, Command::Attack]);
    assert_eq!(source.poll(), Some(Command::Attack));
    assert_eq!(source.poll(), Some(Command::Attack));
    assert_eq!(source.poll(), None);
}

#[test]
fn a_pointer_that_has_moved_aims() {
    assert_eq!(moved_pointer(None, Point::new(3, 4)), Some(Point::new(3, 4)));
    assert_eq!(moved_pointer(Some(Point::new(3, 5)), Point::new(3, 4)), Some(Point::new(3, 4)));
    assert_eq!(moved_pointer(Some(Point::new(2, 4)), Point::new(3, 4)), Some(Point::new(3, 4)));
    assert_eq!(moved_pointer(Some(Point::new(4, 3)), Point::new(3, 4)), Some(Point::new(3, 4)));
}

#[test]
fn a_pointer_at_rest_says_nothing() {
    assert_eq!(moved_pointer(Some(Point::new(3, 4)), Point::new(3, 4)), None);
    assert_eq!(moved_pointer(Some(Point::new(0, 0)), Point::new(0, 0)), None);
}

#[test]
fn a_tracker_sends_each_position_once() {
    let mut tracker = AimTracker::new();
    assert_eq!(tracker.last_aim(), None);
    assert_eq!(tracker.resolve(false, false, Point::new(0, 0)), Some(Command::Aim(Point::new(0, 0))));
    assert_eq!(tracker.last_aim(), Some(Point::new(0, 0)));
    assert_eq!(tracker.resolve(false, false, Point::new(0, 0)), None);
    assert_eq!(tracker.resolve(false, false, Point::new(5, 0)), Some(Command::Aim(Point::new(5, 0))));
    assert_eq!(tracker.resolve(false, false, Point::new(5, 0)), None);
    assert_eq!(tracker.resolve(false, false, Point::new(0, 0)), Some(Command::Aim(Point::new(0, 0))));
    assert_eq!(tracker.last_aim(), Some(Point::new(0, 0)));
}

#[test]
fn a_tracker_holds_back_an_aim_that_was_outranked() {
    let mut tracker = AimTracker::new();
    tracker.resolve(false, false, Point::new(1, 1));
    // the pointer has moved, but the attack goes first and the aim is not yet sent
    assert_eq!(tracker.resolve(false, true, Point::new(9, 9)), Some(Command::Attack));
    assert_eq!(tracker.last_aim(), Some(Point::new(1, 1)));
    assert_eq!(tracker.resolve(true, true, Point::new(9, 9)), Some(Command::Quit));
    assert_eq!(tracker.last_aim(), Some(Point::new(1, 1)));
    assert_eq!(tracker.resolve(false, false, Point::new(9, 9)), Some(Command::Aim(Point::new(9, 9))));
    assert_eq!(tracker.last_aim(), Some(Point::new(9, 9)));
    assert_eq!(tracker.resolve(false, true, Point::new(9, 9)), Some(Command::Attack));
    assert_eq!(tracker.resolve(true, false, Point::new(9, 9)), Some(Command::Quit));
    assert_eq!(tracker.resolve(false, false, Point::new(9, 9)), None);
}
