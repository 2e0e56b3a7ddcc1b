use enkalous::geometry::Point;
use enkalous::render::{Color, Draw, Label, Paint, Recorder, RenderSink};

#[test]
fn a_new_recorder_holds_nothing() {
    assert!(Recorder::new().requests().is_empty());
}

#[test]
fn a_recorder_keeps_every_request_in_order() {
    let mut sink = Recorder::new();
    sink.render(Point::new(1, 2), Some(Paint::Fill(Color::Red)));
    assert_eq!(
        sink.requests(),
        &vec![Draw { position: Point::new(1, 2), paint: Some(Paint::Fill(Color::Red)) }]
    );
    sink.render(Point::new(3, 4), None);
    sink.render(Point::new(1, 2), Some(Paint::Fill(Color::Red)));
    sink.render(Point::new(0, 0), Some(Paint::Caption(Label::Paused)));
    assert_eq!(
        sink.requests(),
        &vec![
            Draw { position: Point::new(1, 2), paint: Some(Paint::Fill(Color::Red)) },
            Draw { position: Point::new(3, 4), paint: None },
            Draw { position: Point::new(1, 2), paint: Some(Paint::Fill(Color::Red)) },
            Draw { position: Point::new(0, 0), paint: Some(Paint::Caption(Label::Paused)) },
        ]
    );
}
