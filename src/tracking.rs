//! The per-frame tracking state machine.
//!
//! A frame runs `AcquireFrame -> Detect -> BuildCorrespondences -> Solve ->
//! Convert -> Publish`. The outside work of each stage (reading a frame,
//! detecting markers, solving and converting the pose) is done by the caller,
//! which hands its result back as an [`Event`]; the controller decides what
//! comes next and returns it as an [`Action`]. Correspondences are built here.
//! The published camera transform changes only when a converted pose arrives;
//! every failure abandons the frame and keeps the last good transform.

use vstd::prelude::*;

use crate::correspondence::{
    build_correspondences, correspondence_outcome, matched_image, matched_world, Correspondences,
    Detection,
};
use crate::error::TrackingError;

verus! {

/// A hard failure of the pose solver, as opposed to a run that found no pose.
#[derive(Clone, Copy, Debug, PartialEq, Eq, Structural)]
pub struct SolveError;

/// The outside result that the controller waits for next.
#[derive(Clone, Copy, Debug, PartialEq, Eq, Structural)]
pub enum Stage {
    /// A new frame from the frame source.
    AcquireFrame,
    /// The markers detected in that frame.
    Detect,
    /// The pose solver's verdict on the correspondences.
    Solve,
    /// The solved pose, converted to the renderer's convention.
    Convert,
}

/// The result of a stage's outside work, handed to the controller.
#[derive(Debug)]
pub enum Event<P, T> {
    /// A frame was read; `empty` when the source gave no image.
    FrameAcquired { empty: bool },
    /// The detector's markers for the frame, in detection order.
    MarkersDetected(Vec<Detection<P>>),
    /// `Ok(true)` when the solver found a pose, `Ok(false)` when it ran and
    /// found none.
    PoseSolved(Result<bool, SolveError>),
    /// The converted camera transform, or `None` when the solved rotation was
    /// rejected as degenerate.
    PoseConverted(Option<T>),
}

/// What the caller does next.
#[derive(Debug)]
pub enum Action<P> {
    /// Run the marker detector on the frame just read.
    Detect,
    /// Run the pose solver on these correspondences (equal lengths, at least four).
    Solve(Correspondences<P>),
    /// Convert the solver's pose to a camera transform.
    Convert,
    /// The new camera transform is published.
    Publish,
    /// The frame is abandoned for this reason; the transform is unchanged.
    Abandon(TrackingError),
}

/// Whether `event` is the result that `stage` waits for.
pub open spec fn event_fits<P, T>(stage: Stage, event: Event<P, T>) -> bool {
    match event {
        Event::FrameAcquired { .. } => stage == Stage::AcquireFrame,
        Event::MarkersDetected(_) => stage == Stage::Detect,
        Event::PoseSolved(_) => stage == Stage::Solve,
        Event::PoseConverted(_) => stage == Stage::Convert,
    }
}

/// The reason, if any, for which `event` ends its frame without a pose.
pub open spec fn failure_of<P, T>(event: Event<P, T>) -> Option<TrackingError> {
    match event {
        Event::FrameAcquired { empty } => if empty {
            Some(TrackingError::AcquisitionEmpty)
        } else {
            None
        },
        Event::MarkersDetected(d) => match correspondence_outcome(d@) {
            Ok(_) => None,
            Err(e) => Some(e),
        },
        Event::PoseSolved(r) => if r == Ok::<bool, SolveError>(true) {
            None
        } else {
            Some(TrackingError::SolveFailed)
        },
        Event::PoseConverted(c) => if c is Some {
            None
        } else {
            Some(TrackingError::DegeneratePose)
        },
    }
}

/// The stage after `event`: a failure, or a published pose, starts a new frame.
pub open spec fn next_stage<P, T>(event: Event<P, T>) -> Stage {
    if failure_of(event) is Some {
        Stage::AcquireFrame
    } else {
        match event {
            Event::FrameAcquired { .. } => Stage::Detect,
            Event::MarkersDetected(_) => Stage::Solve,
            Event::PoseSolved(_) => Stage::Convert,
            Event::PoseConverted(_) => Stage::AcquireFrame,
        }
    }
}

/// The published transform after `event`: only a converted pose replaces it.
pub open spec fn next_transform<P, T>(transform: T, event: Event<P, T>) -> T {
    match event {
        Event::PoseConverted(Some(t)) => t,
        _ => transform,
    }
}

/// Whether `a` is the action owed for `event`.
pub open spec fn action_follows<P, T>(a: Action<P>, event: Event<P, T>) -> bool {
    match failure_of(event) {
        Some(e) => a == Action::<P>::Abandon(e),
        None => match event {
            Event::FrameAcquired { .. } => a is Detect,
            Event::MarkersDetected(d) => {
                &&& a matches Action::Solve(c)
                &&& c.world@ == matched_world(d@)
                &&& c.image@ == matched_image(d@)
                &&& c.world@.len() == c.image@.len()
                &&& c.world@.len() >= 4
            },
            Event::PoseSolved(_) => a is Convert,
            Event::PoseConverted(_) => a is Publish,
        },
    }
}

/// The stage reached from `stage` after `events`.
pub open spec fn run_stage<P, T>(stage: Stage, events: Seq<Event<P, T>>) -> Stage {
    if events.len() == 0 {
        stage
    } else {
        next_stage(events.last())
    }
}

/// The transform published after `events`, starting from `transform`.
pub open spec fn run_transform<P, T>(transform: T, events: Seq<Event<P, T>>) -> T
    decreases events.len(),
{
    if events.len() == 0 {
        transform
    } else {
        next_transform(run_transform(transform, events.drop_last()), events.last())
    }
}

/// The last transform that `events` publish, if they publish any.
pub open spec fn last_published<P, T>(events: Seq<Event<P, T>>) -> Option<T>
    decreases events.len(),
{
    if events.len() == 0 {
        None
    } else {
        match events.last() {
            Event::PoseConverted(Some(t)) => Some(t),
            _ => last_published(events.drop_last()),
        }
    }
}

/// Owns the tracking stage and the last published camera transform.
pub struct TrackingController<T> {
    stage: Stage,
    transform: T,
}

impl<T> TrackingController<T> {
    /// The stage the controller waits in.
    pub closed spec fn current_stage(&self) -> Stage {
        self.stage
    }

    /// The camera transform last published.
    pub closed spec fn published(&self) -> T {
        self.transform
    }

    /// A controller waiting for a frame, publishing `initial` until a pose is found.
    pub fn new(initial: T) -> (r: Self)
        ensures
            r.current_stage() == Stage::AcquireFrame,
            r.published() == initial,
    {
        TrackingController { stage: Stage::AcquireFrame, transform: initial }
    }

    /// The stage the controller waits in.
    pub fn stage(&self) -> (r: Stage)
        ensures
            r == self.current_stage(),
    {
        self.stage
    }

    /// The camera transform last published.
    pub fn transform(&self) -> (r: &T)
        ensures
            *r == self.published(),
    {
        &self.transform
    }

    /// Whether `event` is the result the controller waits for.
    pub fn expects<P>(&self, event: &Event<P, T>) -> (r: bool)
        ensures
            r == event_fits(self.current_stage(), *event),
    {
        match event {
            Event::FrameAcquired { .. } => self.stage == Stage::AcquireFrame,
            Event::MarkersDetected(_) => self.stage == Stage::Detect,
            Event::PoseSolved(_) => self.stage == Stage::Solve,
            Event::PoseConverted(_) => self.stage == Stage::Convert,
        }
    }

    /// Takes the result of the current stage and decides the next step.
    pub fn step<P: Copy>(&mut self, event: Event<P, T>) -> (a: Action<P>)
        requires
            event_fits(old(self).current_stage(), event),
        ensures
            final(self).current_stage() == next_stage(event),
            final(self).published() == next_transform(old(self).published(), event),
            action_follows(a, event),
    {
        match event {
            Event::FrameAcquired { empty } => {
                if empty {
                    self.stage = Stage::AcquireFrame;
                    Action::Abandon(TrackingError::AcquisitionEmpty)
                } else {
                    self.stage = Stage::Detect;
                    Action::Detect
                }
            },
            Event::MarkersDetected(detections) => {
                match build_correspondences(&detections) {
                    Ok(c) => {
                        self.stage = Stage::Solve;
                        Action::Solve(c)
                    },
                    Err(e) => {
                        self.stage = Stage::AcquireFrame;
                        Action::Abandon(e)
                    },
                }
            },
            Event::PoseSolved(r) => {
                match r {
                    Ok(true) => {
                        self.stage = Stage::Convert;
                        Action::Convert
                    },
                    _ => {
                        self.stage = Stage::AcquireFrame;
                        Action::Abandon(TrackingError::SolveFailed)
                    },
                }
            },
            Event::PoseConverted(c) => {
                self.stage = Stage::AcquireFrame;
                match c {
                    Some(t) => {
                        self.transform = t;
                        Action::Publish
                    },
                    None => Action::Abandon(TrackingError::DegeneratePose),
                }
            },
        }
    }
}

/// After a run of events the transform is the last one they published, or
/// the previous transform when they published none.
pub proof fn lemma_run_keeps_last_good_pose<P, T>(prev: T, events: Seq<Event<P, T>>)
    ensures
        run_transform(prev, events) == match last_published(events) {
            Some(t) => t,
            None => prev,
        },
    decreases events.len(),
{
    if events.len() > 0 {
        lemma_run_keeps_last_good_pose(prev, events.drop_last());
    }
}

/// Feeding the same events (the same detections and the same solver and
/// converter results) a second time publishes the same camera transform as
/// the first time, and ends in the same stage: a frame carries no hidden
/// state beyond the last good pose.
pub proof fn lemma_repeated_events_same_transform<P, T>(
    stage: Stage,
    prev: T,
    events: Seq<Event<P, T>>,
)
    ensures
        run_transform(run_transform(prev, events), events) == run_transform(prev, events),
        run_stage(run_stage(stage, events), events) == run_stage(stage, events),
{
    lemma_run_keeps_last_good_pose(prev, events);
    lemma_run_keeps_last_good_pose(run_transform(prev, events), events);
}

} // verus!
