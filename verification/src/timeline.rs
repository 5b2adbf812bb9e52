//! Reveal steps, the timeline that orders them, and the path a step shows at a given ratio.

use vstd::prelude::*;
use crate::geometry::Point;
use crate::path::{Path, PathAccumulator, PathModel};
use crate::ratio::Ratio;
use crate::segment::Segment;

verus! {

/// How long one step of a timeline lasts unless the builder is told otherwise.
pub const STEP_DURATION_MS: u64 = 1000;

/// The curve that maps elapsed time to progress within a step.
#[derive(Clone, Copy, Debug, PartialEq, Eq, Structural)]
pub enum Easing {
    /// Slow at both ends, quadratic in between.
    QuadraticInOut,
}

/// How often a step plays.
#[derive(Clone, Copy, Debug, PartialEq, Eq, Structural)]
pub enum Playback {
    /// Once, from start to end, with no repetition.
    Once,
}

/// One phase of the reveal: the segments before `current` are shown whole, `current` is
/// shown up to the ratio of the moment, and the segments after it not at all.
#[derive(Clone, Debug, PartialEq, Eq)]
pub struct RevealStep {
    /// Where the outline starts.
    pub origin: Point,
    /// The segment that this step reveals.
    pub current: Segment,
    /// The segments revealed by earlier steps, in drawing order.
    pub done: Vec<Segment>,
}

/// What a reveal step is, with its list of segments as a sequence.
pub ghost struct RevealModel {
    pub origin: Point,
    pub current: Segment,
    pub done: Seq<Segment>,
}

impl RevealModel {
    /// The path that the step shows at `ratio`: from the origin, every earlier segment
    /// whole, then the current segment scaled to `ratio`.
    pub open spec fn revealed(self, ratio: Ratio) -> PathModel {
        PathModel {
            start: self.origin,
            strokes: self.done.map_values(|s: Segment| s.stroke()).push(
                self.current.scaled_by(ratio).stroke(),
            ),
        }
    }
}

impl View for RevealStep {
    type V = RevealModel;

    open spec fn view(&self) -> RevealModel {
        RevealModel { origin: self.origin, current: self.current, done: self.done@ }
    }
}

impl RevealStep {
    /// Computes the path to show at `ratio`. The path is drawn afresh from the step and
    /// the ratio alone, so equal arguments give equal paths.
    pub fn interpolate(&self, ratio: Ratio) -> (path: Path)
        ensures
            path@ == self@.revealed(ratio),
    {
        let mut acc = PathAccumulator::new();
        acc.move_to(self.origin);
        let mut i: usize = 0;
        while i < self.done.len()
            invariant
                i <= self.done.len(),
                acc@.start == self.origin,
                acc@.strokes == self.done@.take(i as int).map_values(|s: Segment| s.stroke()),
            decreases self.done.len() - i,
        {
            self.done[i].draw_to(&mut acc);
            proof {
                assert(self.done@.take(i + 1) =~= self.done@.take(i as int).push(self.done@[i as int]));
                assert(self.done@.take(i + 1).map_values(|s: Segment| s.stroke())
                    =~= self.done@.take(i as int).map_values(|s: Segment| s.stroke()).push(
                    self.done@[i as int].stroke(),
                ));
            }
            i += 1;
        }
        assert(self.done@.take(i as int) =~= self.done@);
        acc.append_segment(self.current, ratio);
        acc.build()
    }
}

/// A reveal step together with how it is to be played.
#[derive(Clone, Debug, PartialEq, Eq)]
pub struct TimedStep {
    pub step: RevealStep,
    pub duration_ms: u64,
    pub easing: Easing,
    pub playback: Playback,
}

/// What a timed step is, over the model of its reveal step.
pub ghost struct TimedModel {
    pub step: RevealModel,
    pub duration_ms: u64,
    pub easing: Easing,
    pub playback: Playback,
}

impl View for TimedStep {
    type V = TimedModel;

    open spec fn view(&self) -> TimedModel {
        TimedModel {
            step: self.step@,
            duration_ms: self.duration_ms,
            easing: self.easing,
            playback: self.playback,
        }
    }
}

/// The steps of a reveal, played one after the other in order.
#[derive(Clone, Debug, PartialEq, Eq)]
pub struct Timeline {
    steps: Vec<TimedStep>,
}

impl View for Timeline {
    type V = Seq<TimedModel>;

    closed spec fn view(&self) -> Seq<TimedModel> {
        self.steps@.map_values(|s: TimedStep| s@)
    }
}

impl Timeline {
    /// The number of steps.
    pub fn len(&self) -> (n: usize)
        ensures
            n == self@.len(),
    {
        self.steps.len()
    }

    /// The step at `index`, if the timeline has that many.
    pub fn step(&self, index: usize) -> (s: Option<&TimedStep>)
        ensures
            index < self@.len() ==> s.is_some() && s.unwrap()@ == self@[index as int],
            index >= self@.len() ==> s.is_none(),
    {
        if index < self.steps.len() {
            Some(&self.steps[index])
        } else {
            None
        }
    }
}

/// Turns a list of segments into a timeline. Holds what every step shares: where the
/// outline starts and how long a step lasts.
#[derive(Clone, Copy, Debug, PartialEq, Eq, Structural)]
pub struct TimelineBuilder {
    pub origin: Point,
    pub step_duration_ms: u64,
}

/// The step that reveals segment `index` of `segments`: everything before it is done.
pub open spec fn planned_step(builder: TimelineBuilder, segments: Seq<Segment>, index: int) -> TimedModel {
    TimedModel {
        step: RevealModel {
            origin: builder.origin,
            current: segments[index],
            done: segments.take(index),
        },
        duration_ms: builder.step_duration_ms,
        easing: Easing::QuadraticInOut,
        playback: Playback::Once,
    }
}

/// The timeline for `segments`: one step for each segment, in order.
pub open spec fn planned_timeline(builder: TimelineBuilder, segments: Seq<Segment>) -> Seq<TimedModel> {
    Seq::new(segments.len(), |i: int| planned_step(builder, segments, i))
}

/// The first `count` segments of `segments`, copied.
fn prefix_of(segments: &Vec<Segment>, count: usize) -> (prefix: Vec<Segment>)
    requires
        count <= segments.len(),
    ensures
        prefix@ == segments@.take(count as int),
{
    let mut prefix: Vec<Segment> = Vec::new();
    let mut i: usize = 0;
    while i < count
        invariant
            i <= count <= segments.len(),
            prefix@ == segments@.take(i as int),
        decreases count - i,
    {
        prefix.push(segments[i]);
        assert(segments@.take(i + 1) =~= segments@.take(i as int).push(segments@[i as int]));
        i += 1;
    }
    prefix
}

impl TimelineBuilder {
    /// A builder for outlines that start at `origin`, with steps of [`STEP_DURATION_MS`].
    pub fn new(origin: Point) -> (builder: TimelineBuilder)
        ensures
            builder == (TimelineBuilder { origin, step_duration_ms: STEP_DURATION_MS }),
    {
        TimelineBuilder { origin, step_duration_ms: STEP_DURATION_MS }
    }

    /// The same builder with steps that last `millis` milliseconds.
    pub fn with_step_duration(self, millis: u64) -> (builder: TimelineBuilder)
        ensures
            builder == (TimelineBuilder { origin: self.origin, step_duration_ms: millis }),
    {
        TimelineBuilder { origin: self.origin, step_duration_ms: millis }
    }

    /// Builds the timeline for `segments`: step `i` reveals segment `i` after the
    /// segments before it. An empty list gives an empty timeline.
    pub fn build(&self, segments: &Vec<Segment>) -> (timeline: Timeline)
        ensures
            timeline@ == planned_timeline(*self, segments@),
    {
        let mut steps: Vec<TimedStep> = Vec::new();
        let mut i: usize = 0;
        while i < segments.len()
            invariant
                i <= segments.len(),
                steps@.len() == i,
                steps@.map_values(|s: TimedStep| s@) == Seq::new(
                    i as nat,
                    |k: int| planned_step(*self, segments@, k),
                ),
            decreases segments.len() - i,
        {
            let done = prefix_of(segments, i);
            let timed = TimedStep {
                step: RevealStep { origin: self.origin, current: segments[i], done },
                duration_ms: self.step_duration_ms,
                easing: Easing::QuadraticInOut,
                playback: Playback::Once,
            };
            proof {
                let before = steps@.map_values(|s: TimedStep| s@);
                let after = steps@.push(timed).map_values(|s: TimedStep| s@);
                assert(timed@ == planned_step(*self, segments@, i as int));
                assert forall|k: int| 0 <= k < i + 1 implies after[k] == planned_step(
                    *self,
                    segments@,
                    k,
                ) by {
                    if k < i {
                        assert(after[k] == before[k]);
                    }
                }
                assert(after =~= Seq::new(
                    (i + 1) as nat,
                    |k: int| planned_step(*self, segments@, k),
                ));
            }
            steps.push(timed);
            i += 1;
        }
        Timeline { steps }
    }
}

/// A step shows the same path whenever it is asked with the same ratio: the path depends
/// on the origin, the segments done, the current segment and the ratio, and on nothing else.
pub proof fn lemma_revealed_is_determined(first: RevealStep, second: RevealStep, ratio: Ratio)
    requires
        first.origin == second.origin,
        first.current == second.current,
        first.done@ == second.done@,
    ensures
        first@.revealed(ratio) == second@.revealed(ratio),
{
}

/// A timeline has one step for each segment, and the segments done at step `index`,
/// followed by its current segment, are the segments up to and including `index`.
pub proof fn lemma_timeline_is_complete(builder: TimelineBuilder, segments: Seq<Segment>, index: int)
    requires
        0 <= index < segments.len(),
    ensures
        planned_timeline(builder, segments).len() == segments.len(),
        planned_timeline(builder, segments)[index].step.done.push(
            planned_timeline(builder, segments)[index].step.current,
        ) == segments.take(index + 1),
        planned_timeline(builder, segments)[index].step.done.len() == index,
{
    assert(segments.take(index).push(segments[index]) =~= segments.take(index + 1));
}

} // verus!
