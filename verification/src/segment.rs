//! The geometric primitives an outline is made of.

use vstd::prelude::*;
use crate::geometry::{Point, Vector};
use crate::path::{PathAccumulator, PathModel, Stroke};
use crate::ratio::{
    interpolated, is_rounded_down, lemma_interpolated_at_one, lemma_interpolated_at_zero,
    lemma_interpolated_monotonic, lemma_interpolated_rounds_down, Ratio, RATIO_ONE,
};

verus! {

/// One primitive of an outline. A segment is never changed: scaling gives a new one.
#[derive(Clone, Copy, Debug, PartialEq, Eq, Structural)]
pub enum Segment {
    /// An elliptical arc that starts at the pen and sweeps `sweep` angular units
    /// around `center`.
    Arc { center: Point, radii: Vector, sweep: i32 },
    /// A straight line from `start` to `end`. Drawing goes from the pen to the end point:
    /// `start` is where interpolation sets out from, and it is not drawn to.
    Line { start: Point, end: Point },
}

impl Segment {
    /// The segment cut down to `ratio` of its extent: an arc keeps its ellipse and sweeps
    /// `sweep * ratio`; a line keeps its start and ends at `start + (end - start) * ratio`.
    pub open spec fn scaled_by(self, ratio: Ratio) -> Segment {
        match self {
            Segment::Arc { center, radii, sweep } => Segment::Arc {
                center,
                radii,
                sweep: interpolated(0, sweep as int, ratio.parts as int) as i32,
            },
            Segment::Line { start, end } => Segment::Line {
                start,
                end: start.toward(end, ratio),
            },
        }
    }

    /// The stroke that draws the whole segment from the pen.
    pub open spec fn stroke(self) -> Stroke {
        match self {
            Segment::Arc { center, radii, sweep } => Stroke::ArcTo { center, radii, sweep },
            Segment::Line { start, end } => Stroke::LineTo { to: end },
        }
    }

    /// A copy of the segment scaled to `ratio`.
    pub fn scaled(self, ratio: Ratio) -> (part: Segment)
        ensures
            part == self.scaled_by(ratio),
    {
        match self {
            Segment::Arc { center, radii, sweep } => Segment::Arc {
                center,
                radii,
                sweep: ratio.lerp(0, sweep),
            },
            Segment::Line { start, end } => Segment::Line {
                start,
                end: start.lerp(end, ratio),
            },
        }
    }

    /// Draws the whole segment onto `acc`.
    pub fn draw_to(self, acc: &mut PathAccumulator)
        ensures
            final(acc)@ == old(acc)@.drawn(self.stroke()),
    {
        match self {
            Segment::Arc { center, radii, sweep } => {
                acc.arc(center, radii, sweep);
            },
            Segment::Line { start: _, end } => {
                acc.line_to(end);
            },
        }
    }

    /// Appends the segment to `acc`, drawn up to `ratio` of its extent.
    pub fn append_to(self, acc: &mut PathAccumulator, ratio: Ratio)
        ensures
            final(acc)@ == old(acc)@.drawn(self.scaled_by(ratio).stroke()),
    {
        self.scaled(ratio).draw_to(acc);
    }
}

/// True when `first` and `second` lie on the way from `from` to `to`, in that order.
pub open spec fn in_travel_order(from: int, first: int, second: int, to: int) -> bool {
    &&& from <= to ==> from <= first <= second <= to
    &&& from >= to ==> from >= first >= second >= to
}

/// At ratio zero nothing of a segment shows. An arc sweeps no angle. A line ends at its
/// own start, so a pen that stands at the start of the line stays where it is.
pub proof fn lemma_nothing_shows_at_zero(segment: Segment, before: PathModel)
    ensures
        segment matches Segment::Arc { center, radii, sweep } ==> segment.scaled_by(
            Ratio { parts: 0 },
        ) == (Segment::Arc { center, radii, sweep: 0 }),
        segment matches Segment::Line { start, end } ==> {
            &&& segment.scaled_by(Ratio { parts: 0 }) == (Segment::Line { start, end: start })
            &&& before.cursor() == Some(start) ==> before.drawn(
                segment.scaled_by(Ratio { parts: 0 }).stroke(),
            ).cursor() == before.cursor()
        },
{
    match segment {
        Segment::Arc { center, radii, sweep } => {
            lemma_interpolated_at_zero(0, sweep);
        },
        Segment::Line { start, end } => {
            lemma_interpolated_at_zero(start.x, end.x);
            lemma_interpolated_at_zero(start.y, end.y);
        },
    }
}

/// At ratio one a segment is whole: scaling gives the segment back, and appending it at
/// that ratio draws what drawing the segment itself draws.
pub proof fn lemma_whole_at_one(segment: Segment, before: PathModel)
    ensures
        segment.scaled_by(Ratio { parts: RATIO_ONE }) == segment,
        before.drawn(segment.scaled_by(Ratio { parts: RATIO_ONE }).stroke()) == before.drawn(
            segment.stroke(),
        ),
{
    match segment {
        Segment::Arc { center, radii, sweep } => {
            lemma_interpolated_at_one(0, sweep);
        },
        Segment::Line { start, end } => {
            lemma_interpolated_at_one(start.x, end.x);
            lemma_interpolated_at_one(start.y, end.y);
        },
    }
}

/// As the ratio grows from zero to one, the end of a scaled line moves from the line's
/// start to its end along each axis, never turning back and never overshooting.
pub proof fn lemma_line_end_advances(line: Segment, earlier: Ratio, later: Ratio)
    requires
        line is Line,
        0 <= earlier.parts <= later.parts <= RATIO_ONE,
    ensures
        line.scaled_by(earlier) is Line,
        line.scaled_by(later) is Line,
        in_travel_order(
            line->start.x as int,
            line.scaled_by(earlier)->end.x as int,
            line.scaled_by(later)->end.x as int,
            line->end.x as int,
        ),
        in_travel_order(
            line->start.y as int,
            line.scaled_by(earlier)->end.y as int,
            line.scaled_by(later)->end.y as int,
            line->end.y as int,
        ),
{
    lemma_interpolated_monotonic(line->start.x, line->end.x, earlier, later);
    lemma_interpolated_monotonic(line->start.y, line->end.y, earlier, later);
}

/// For a ratio from zero to one, the end of a scaled line is the point of the straight
/// line from start to end at that ratio, rounded down to the grid on each axis.
pub proof fn lemma_line_end_follows_line(line: Segment, ratio: Ratio)
    requires
        line is Line,
        0 <= ratio.parts <= RATIO_ONE,
    ensures
        line.scaled_by(ratio) is Line,
        line.scaled_by(ratio)->start == line->start,
        is_rounded_down(
            line->start.x as int,
            line->end.x as int,
            ratio.parts as int,
            line.scaled_by(ratio)->end.x as int,
        ),
        is_rounded_down(
            line->start.y as int,
            line->end.y as int,
            ratio.parts as int,
            line.scaled_by(ratio)->end.y as int,
        ),
{
    lemma_interpolated_rounds_down(line->start.x, line->end.x, ratio);
    lemma_interpolated_rounds_down(line->start.y, line->end.y, ratio);
}

} // verus!
