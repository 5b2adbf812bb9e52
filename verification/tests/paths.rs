use outline_reveal::geometry::{Point, Vector};
use outline_reveal::path::{PathAccumulator, Stroke};
use outline_reveal::ratio::Ratio;
use outline_reveal::segment::Segment;

#[test]
fn fresh_accumulator_is_empty_at_the_grid_origin() {
    let acc = PathAccumulator::new();
    assert_eq!(acc.cursor(), Some(Point::new(0, 0)));
    let path = acc.build();
    assert_eq!(path.start(), Point::new(0, 0));
    assert!(path.strokes().is_empty());
    assert_eq!(path.end_point(), Some(Point::new(0, 0)));
}

#[test]
fn move_to_sets_the_cursor_and_draws_nothing() {
    let mut acc = PathAccumulator::new();
    acc.move_to(Point::new(100, 0));
    assert_eq!(acc.cursor(), Some(Point::new(100, 0)));
    let path = acc.build();
    assert_eq!(path.start(), Point::new(100, 0));
    assert!(path.strokes().is_empty());
}

#[test]
fn move_to_starts_a_new_path() {
    let mut acc = PathAccumulator::new();
    acc.move_to(Point::new(1, 1));
    acc.line_to(Point::new(2, 2));
    acc.move_to(Point::new(5, 5));
    acc.line_to(Point::new(6, 6));

    let mut direct = PathAccumulator::new();
    direct.move_to(Point::new(5, 5));
    direct.line_to(Point::new(6, 6));

    assert_eq!(acc.build(), direct.build());
    assert_eq!(acc.build().strokes(), &vec![Stroke::LineTo { to: Point::new(6, 6) }]);
}

#[test]
fn line_to_moves_the_cursor() {
    let mut acc = PathAccumulator::new();
    acc.move_to(Point::new(100, 0));
    acc.line_to(Point::new(3, 4));
    assert_eq!(acc.cursor(), Some(Point::new(3, 4)));
    assert_eq!(acc.build().end_point(), Some(Point::new(3, 4)));
}

#[test]
fn arc_end_is_left_to_the_renderer() {
    let mut acc = PathAccumulator::new();
    acc.move_to(Point::new(100, 0));
    acc.arc(Point::new(0, 0), Vector::splat(100), 90);
    assert_eq!(acc.cursor(), None);
    assert_eq!(
        acc.build().strokes(),
        &vec![Stroke::ArcTo { center: Point::new(0, 0), radii: Vector::splat(100), sweep: 90 }]
    );
    acc.line_to(Point::new(200, 200));
    assert_eq!(acc.cursor(), Some(Point::new(200, 200)));
}

#[test]
fn append_segment_draws_the_scaled_segment() {
    let line = Segment::Line { start: Point::new(0, 100), end: Point::new(200, 200) };
    let arc = Segment::Arc { center: Point::new(0, 0), radii: Vector::splat(100), sweep: 90 };
    let mut acc = PathAccumulator::new();
    acc.move_to(Point::new(100, 0));
    acc.append_segment(arc, Ratio::from_parts(16384));
    acc.append_segment(line, Ratio::from_parts(49152));
    assert_eq!(
        acc.build().strokes(),
        &vec![
            Stroke::ArcTo { center: Point::new(0, 0), radii: Vector::splat(100), sweep: 22 },
            Stroke::LineTo { to: Point::new(150, 175) },
        ]
    );
    assert_eq!(acc.cursor(), Some(Point::new(150, 175)));
}

#[test]
fn append_segment_and_append_to_agree() {
    let line = Segment::Line { start: Point::new(0, 100), end: Point::new(200, 200) };
    let ratio = Ratio::from_parts(12345);
    let mut first = PathAccumulator::new();
    first.append_segment(line, ratio);
    let mut second = PathAccumulator::new();
    line.append_to(&mut second, ratio);
    assert_eq!(first.build(), second.build());
}

#[test]
fn build_leaves_the_accumulator_usable() {
    let mut acc = PathAccumulator::new();
    acc.move_to(Point::new(100, 0));
    acc.line_to(Point::new(1, 1));
    let first = acc.build();
    let again = acc.build();
    assert_eq!(first, again);
    acc.line_to(Point::new(2, 2));
    let longer = acc.build();
    assert_eq!(first.strokes().len(), 1);
    assert_eq!(
        longer.strokes(),
        &vec![Stroke::LineTo { to: Point::new(1, 1) }, Stroke::LineTo { to: Point::new(2, 2) }]
    );
}
