//! Paths, and the accumulator that builds them stroke by stroke.

use vstd::prelude::*;
use crate::geometry::{Point, Vector};
use crate::ratio::Ratio;
use crate::segment::Segment;

verus! {

/// One drawing command. Each stroke starts where the pen stands and moves it on.
#[derive(Clone, Copy, Debug, PartialEq, Eq, Structural)]
pub enum Stroke {
    /// A straight line from the pen to `to`.
    LineTo { to: Point },
    /// An arc that starts at the pen and sweeps `sweep` angular units around `center`
    /// along the ellipse of the given radii.
    ArcTo { center: Point, radii: Vector, sweep: i32 },
}

/// What a path is: the point it starts from, then its strokes in drawing order.
pub ghost struct PathModel {
    pub start: Point,
    pub strokes: Seq<Stroke>,
}

impl PathModel {
    /// The path that starts at `start` and has no stroke yet.
    pub open spec fn begun_at(start: Point) -> PathModel {
        PathModel { start, strokes: Seq::empty() }
    }

    /// This path with one more stroke at its end.
    pub open spec fn drawn(self, stroke: Stroke) -> PathModel {
        PathModel { start: self.start, strokes: self.strokes.push(stroke) }
    }

    /// Where the pen stands at the end of the path, as far as the grid can tell: the start
    /// of a path without strokes, or the end of a final line. Where an arc ends is for
    /// the renderer to work out.
    pub open spec fn cursor(self) -> Option<Point> {
        if self.strokes.len() == 0 {
            Some(self.start)
        } else {
            match self.strokes.last() {
                Stroke::LineTo { to } => Some(to),
                Stroke::ArcTo { .. } => None,
            }
        }
    }
}

/// A finished path, ready to be rendered.
#[derive(Clone, Debug, PartialEq, Eq)]
pub struct Path {
    start: Point,
    strokes: Vec<Stroke>,
}

impl View for Path {
    type V = PathModel;

    closed spec fn view(&self) -> PathModel {
        PathModel { start: self.start, strokes: self.strokes@ }
    }
}

impl Path {
    /// The point the path starts from.
    pub fn start(&self) -> (p: Point)
        ensures
            p == self@.start,
    {
        self.start
    }

    /// The strokes of the path, in drawing order.
    pub fn strokes(&self) -> (s: &Vec<Stroke>)
        ensures
            s@ == self@.strokes,
    {
        &self.strokes
    }

    /// The final point of the path, where the grid can tell it.
    pub fn end_point(&self) -> (p: Option<Point>)
        ensures
            p == self@.cursor(),
    {
        cursor_of(self.start, &self.strokes)
    }
}

fn cursor_of(start: Point, strokes: &Vec<Stroke>) -> (p: Option<Point>)
    ensures
        p == (PathModel { start, strokes: strokes@ }).cursor(),
{
    let n: usize = strokes.len();
    if n == 0 {
        Some(start)
    } else {
        match strokes[n - 1] {
            Stroke::LineTo { to } => Some(to),
            Stroke::ArcTo { .. } => None,
        }
    }
}

/// Builds a path from a starting point and the strokes appended after it.
pub struct PathAccumulator {
    start: Point,
    strokes: Vec<Stroke>,
}

impl View for PathAccumulator {
    type V = PathModel;

    closed spec fn view(&self) -> PathModel {
        PathModel { start: self.start, strokes: self.strokes@ }
    }
}

impl PathAccumulator {
    /// A fresh accumulator: the pen stands at the origin of the grid and nothing is drawn.
    pub fn new() -> (acc: PathAccumulator)
        ensures
            acc@ == PathModel::begun_at(Point { x: 0, y: 0 }),
    {
        PathAccumulator { start: Point { x: 0, y: 0 }, strokes: Vec::new() }
    }

    /// Starts a new path at `point`. The move itself draws nothing, and what was
    /// accumulated before is no part of the new path.
    pub fn move_to(&mut self, point: Point)
        ensures
            final(self)@ == PathModel::begun_at(point),
            final(self)@.cursor() == Some(point),
    {
        self.start = point;
        self.strokes = Vec::new();
    }

    /// Draws a straight line from the pen to `to`.
    pub fn line_to(&mut self, to: Point)
        ensures
            final(self)@ == old(self)@.drawn(Stroke::LineTo { to }),
            final(self)@.cursor() == Some(to),
    {
        self.strokes.push(Stroke::LineTo { to });
    }

    /// Draws an arc from the pen, sweeping `sweep` angular units around `center`.
    pub fn arc(&mut self, center: Point, radii: Vector, sweep: i32)
        ensures
            final(self)@ == old(self)@.drawn(Stroke::ArcTo { center, radii, sweep }),
    {
        self.strokes.push(Stroke::ArcTo { center, radii, sweep });
    }

    /// Appends `segment`, drawn up to `ratio` of its extent.
    pub fn append_segment(&mut self, segment: Segment, ratio: Ratio)
        ensures
            final(self)@ == old(self)@.drawn(segment.scaled_by(ratio).stroke()),
    {
        segment.append_to(self, ratio);
    }

    /// Where the pen stands, where the grid can tell it.
    pub fn cursor(&self) -> (p: Option<Point>)
        ensures
            p == self@.cursor(),
    {
        cursor_of(self.start, &self.strokes)
    }

    /// The path accumulated since the last `move_to`. The accumulator stays as it is
    /// and can take further strokes.
    pub fn build(&self) -> (path: Path)
        ensures
            path@ == self@,
    {
        let mut strokes: Vec<Stroke> = Vec::new();
        let mut i: usize = 0;
        while i < self.strokes.len()
            invariant
                i <= self.strokes.len(),
                strokes@ == self.strokes@.take(i as int),
            decreases self.strokes.len() - i,
        {
            strokes.push(self.strokes[i]);
            i += 1;
        }
        assert(self.strokes@.take(i as int) =~= self.strokes@);
        Path { start: self.start, strokes }
    }
}

} // verus!
