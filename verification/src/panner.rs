//! From detections to a camera pose: trackers, then the panner.

use crate::calibration::Calibration;
use crate::detector::{CameraId, MappedDetection};
use crate::number::{Real32, Real64};
use crate::pose::ViewportPosition;
use vstd::prelude::*;

verus! {

/// How sure a tracker is of an entity.
#[derive(Clone, Copy, Debug, PartialEq, Eq, Structural)]
pub enum TrackState {
    /// Seen lately.
    Tracking,
    /// Not seen for too long.
    Lost,
}

/// An entity a tracker follows.
#[derive(Clone, Copy, Debug, PartialEq, Eq)]
pub struct TrackedEntity {
    /// Identity across frames.
    pub id: u64,
    /// Class of the object.
    pub class_id: u16,
    /// Where it is, across.
    pub yaw: Real32,
    /// Where it is, up.
    pub pitch: Real32,
    /// How it moves, per second.
    pub velocity: Option<(Real32, Real32)>,
    /// Confidence, up to one.
    pub confidence: Real32,
    /// How sure the tracker is.
    pub state: TrackState,
    /// Frames since it was first seen.
    pub age_frames: u64,
    /// The camera that saw it last.
    pub origin: CameraId,
}

/// Everything the trackers know at one instant.
#[derive(Clone, Debug)]
pub struct WorldState {
    /// The ball.
    pub ball: Option<TrackedEntity>,
    /// The players.
    pub players: Vec<TrackedEntity>,
}

impl Default for WorldState {
    fn default() -> (world: WorldState)
        ensures
            world.ball is None,
            world.players@ == Seq::<TrackedEntity>::empty(),
    {
        WorldState { ball: None, players: Vec::new() }
    }
}

/// What a panner gets besides the world.
pub struct PanContext<'a> {
    /// Index of the frame.
    pub frame_index: u64,
    /// Time since the start, in milliseconds.
    pub timestamp_ms: Real64,
    /// Where the camera looked on the previous frame.
    pub previous_position: ViewportPosition,
    /// The calibration in use.
    pub calibration: &'a Calibration,
}

/// What a stage of the chain reports of itself.
#[derive(Clone, Debug)]
pub enum PipelineEvent {
    /// The detections a frame starts from.
    DetectionsRaw {
        /// Index of the frame.
        frame_index: u64,
        /// The detections.
        detections: Vec<MappedDetection>,
    },
    /// What the trackers made of them.
    WorldState {
        /// Index of the frame.
        frame_index: u64,
        /// Time since the start, in milliseconds.
        timestamp_ms: Real64,
        /// The players.
        players: Vec<TrackedEntity>,
        /// The ball.
        ball: Option<TrackedEntity>,
    },
    /// Where the panner wants to look.
    PanDecision {
        /// Index of the frame.
        frame_index: u64,
        /// The decision.
        pose: ViewportPosition,
    },
    /// Where the camera looks in the end.
    PosePresented {
        /// Index of the frame.
        frame_index: u64,
        /// The pose.
        pose: ViewportPosition,
    },
}

/// Takes the events of the chain.
pub trait PipelineEventSink: Send {
    /// Take one event.
    fn emit(&mut self, event: PipelineEvent);
}

/// Follows entities of one class across frames.
pub trait Tracker: Send {
    /// The class.
    fn class_id(&self) -> u16;

    /// See what the other trackers found on this frame.
    fn observe_world(&mut self, world: &WorldState);

    /// Take this frame's detections and give the entities.
    fn update(&mut self, detections: &[MappedDetection], timestamp_ms: Real64) -> Vec<
        TrackedEntity,
    >;
}

/// Decides where the camera looks.
pub trait Panner: Send {
    /// Decide for one frame.
    fn decide(&mut self, world: &WorldState, ctx: &PanContext<'_>) -> ViewportPosition;

    /// Decide for one frame while the following ones are already known,
    /// nearest first.
    fn decide_with_lookahead(
        &mut self,
        world: &WorldState,
        future: &[WorldState],
        ctx: &PanContext<'_>,
    ) -> (pose: ViewportPosition)
        default_ensures
            exists|p: &mut Self|
                {
                    &&& #[trigger] call_ensures(Self::decide, (p, world, ctx), pose)
                    &&& &*p == &*old(self)
                    &&& &*final(p) == &*final(self)
                },
    {
        self.decide(world, ctx)
    }

    /// A snapshot of the last decision's inner workings.
    fn debug_event(&self, frame_index: u64) -> (event: Option<PipelineEvent>)
        default_ensures
            event is None,
    {
        None
    }
}

/// Whether this tracker, as it stands, may find those entities in those
/// detections.
pub open spec fn followed<T: Tracker + ?Sized>(
    tracker: &mut T,
    detections: &[MappedDetection],
    timestamp_ms: Real64,
    entities: Vec<TrackedEntity>,
) -> bool {
    call_ensures(T::update, (tracker, detections, timestamp_ms), entities)
}

/// Whether this tracker, as it stands, is shown a world.
pub open spec fn shown<T: Tracker + ?Sized>(tracker: &mut T, world: &WorldState) -> bool {
    call_ensures(T::observe_world, (tracker, world), ())
}

/// Whether this panner, as it stands, may decide so, given all it is to know.
pub open spec fn panned<P: Panner + ?Sized>(
    panner: &mut P,
    world: &WorldState,
    future: &[WorldState],
    ctx: PanContext<'_>,
    pose: ViewportPosition,
) -> bool {
    call_ensures(P::decide_with_lookahead, (panner, world, future, &ctx), pose)
}

/// Whether this panner, as it stands, may give that snapshot of its workings.
pub open spec fn explained<P: Panner + ?Sized>(
    panner: &P,
    frame_index: u64,
    event: Option<PipelineEvent>,
) -> bool {
    call_ensures(P::debug_event, (panner, frame_index), event)
}

/// Whether this sink, as it stands, is told of that event.
pub open spec fn told<S: PipelineEventSink + ?Sized>(sink: &mut S, event: PipelineEvent) -> bool {
    call_ensures(S::emit, (sink, event), ())
}

fn update_with<T: Tracker + ?Sized>(
    tracker: &mut T,
    detections: &[MappedDetection],
    timestamp_ms: Real64,
) -> (entities: Vec<TrackedEntity>)
    ensures
        exists|t: &mut T|
            #![trigger call_ensures(T::update, (t, detections, timestamp_ms), entities)]
            {
                &&& followed(t, detections, timestamp_ms, entities)
                &&& &*t == &*old(tracker)
                &&& &*final(t) == &*final(tracker)
            },
{
    tracker.update(detections, timestamp_ms)
}

fn show<T: Tracker + ?Sized>(tracker: &mut T, world: &WorldState)
    ensures
        exists|t: &mut T|
            #![trigger call_ensures(T::observe_world, (t, world), ())]
            {
                &&& shown(t, world)
                &&& &*t == &*old(tracker)
                &&& &*final(t) == &*final(tracker)
            },
{
    tracker.observe_world(world);
}

/// Let a panner decide.
pub(crate) fn decide_with<P: Panner + ?Sized>(
    panner: &mut P,
    world: &WorldState,
    future: &[WorldState],
    ctx: &PanContext<'_>,
) -> (pose: ViewportPosition)
    ensures
        exists|p: &mut P|
            #![trigger call_ensures(P::decide_with_lookahead, (p, world, future, ctx), pose)]
            {
                &&& panned(p, world, future, *ctx, pose)
                &&& &*p == &*old(panner)
                &&& &*final(p) == &*final(panner)
            },
{
    panner.decide_with_lookahead(world, future, ctx)
}

fn explain<P: Panner + ?Sized>(panner: &P, frame_index: u64) -> (event: Option<PipelineEvent>)
    ensures
        explained(panner, frame_index, event),
{
    panner.debug_event(frame_index)
}

/// Tell a sink of an event.
pub(crate) fn tell<S: PipelineEventSink + ?Sized>(sink: &mut S, event: PipelineEvent)
    ensures
        exists|s: &mut S|
            #![trigger call_ensures(S::emit, (s, event), ())]
            {
                &&& told(s, event)
                &&& &*s == &*old(sink)
                &&& &*final(s) == &*final(sink)
            },
{
    sink.emit(event);
}

/// A frame's inputs to the chain.
#[derive(Clone, Copy)]
pub struct DispatchContext<'a> {
    /// The detections.
    pub detections: &'a [MappedDetection],
    /// The calibration in use.
    pub calibration: &'a Calibration,
    /// Index of the frame.
    pub frame_index: u64,
    /// Time since the start, in milliseconds.
    pub timestamp_ms: Real64,
}

/// What the chain made of a frame.
pub struct DispatchResult {
    /// Where the panner wants to look.
    pub pose: ViewportPosition,
    /// What the trackers found.
    pub world_state: WorldState,
    /// Number of players.
    pub active_tracks: u32,
    /// Whether there is a ball that is not lost.
    pub ball_present: bool,
}

/// The ball, given what its tracker found. There is one ball, the first.
pub open spec fn ball_of(entities: Seq<TrackedEntity>) -> Option<TrackedEntity> {
    if entities.len() > 0 {
        Some(entities[0])
    } else {
        None
    }
}

/// The ball, given what its tracker found. There is one ball, the first.
pub fn first_entity(entities: &Vec<TrackedEntity>) -> (first: Option<TrackedEntity>)
    ensures
        first == ball_of(entities@),
        entities@.len() > 0 ==> first == Some(entities@[0]),
        entities@.len() == 0 ==> first is None,
{
    if entities.len() > 0 {
        Some(entities[0])
    } else {
        None
    }
}

/// Whether a world has a ball that is not lost.
pub open spec fn has_ball(world: WorldState) -> bool {
    world.ball matches Some(b) && b.state != TrackState::Lost
}

/// What to report of a world: the number of players, and whether there is a
/// ball that is not lost.
pub fn summarize(world: &WorldState) -> (summary: (u32, bool))
    ensures
        summary.0 == world.players@.len() as u32,
        summary.1 == has_ball(*world),
        summary.1 == (world.ball is Some && world.ball->0.state is Tracking),
{
    let ball_present = match &world.ball {
        Some(b) => match b.state {
            TrackState::Lost => false,
            TrackState::Tracking => true,
        },
        None => false,
    };
    (world.players.len() as u32, ball_present)
}

/// Run the trackers on a frame. Players come first, so that the ball's
/// tracker sees where they are.
pub fn dispatch_detect_only(
    player_tracker: Option<&mut Box<dyn Tracker>>,
    ball_tracker: Option<&mut Box<dyn Tracker>>,
    ctx: DispatchContext<'_>,
) -> (world: WorldState)
    ensures
        match player_tracker {
            Some(p) => exists|t: &mut dyn Tracker, found: Vec<TrackedEntity>|
                {
                    &&& #[trigger] followed(t, ctx.detections, ctx.timestamp_ms, found)
                    &&& found@ == world.players@
                    &&& &*t == &**p
                    &&& &*final(t) == &**final(p)
                },
            None => world.players@.len() == 0,
        },
        match ball_tracker {
            Some(p) => exists|
                a: &mut dyn Tracker,
                b: &mut dyn Tracker,
                seen: WorldState,
                found: Vec<TrackedEntity>,
            |
                {
                    &&& #[trigger] shown(a, &seen)
                    &&& #[trigger] followed(b, ctx.detections, ctx.timestamp_ms, found)
                    &&& seen.ball is None
                    &&& seen.players@ == world.players@
                    &&& world.ball == ball_of(found@)
                    &&& &*a == &**p
                    &&& &*b == &*final(a)
                    &&& &*final(b) == &**final(p)
                },
            None => world.ball is None,
        },
{
    let mut world = WorldState::default();
    if let Some(t) = player_tracker {
        world.players = update_with(&mut **t, ctx.detections, ctx.timestamp_ms);
    }
    if let Some(t) = ball_tracker {
        show(&mut **t, &world);
        let entities = update_with(&mut **t, ctx.detections, ctx.timestamp_ms);
        world.ball = first_entity(&entities);
    }
    world
}

/// What a panner is told of a frame besides the world.
pub open spec fn pan_context<'a>(
    ctx: DispatchContext<'a>,
    previous_position: ViewportPosition,
) -> PanContext<'a> {
    PanContext {
        frame_index: ctx.frame_index,
        timestamp_ms: ctx.timestamp_ms,
        previous_position,
        calibration: ctx.calibration,
    }
}

/// Run the trackers and the panner on a frame, and remember where the panner
/// wants to look. Without a panner nothing runs. The sink is told of the world,
/// then of the decision, then of the panner's workings where it gives any.
#[verifier::spinoff_prover]
pub fn dispatch(
    panner: Option<&mut Box<dyn Panner>>,
    player_tracker: Option<&mut Box<dyn Tracker>>,
    ball_tracker: Option<&mut Box<dyn Tracker>>,
    previous_panner_pose: &mut ViewportPosition,
    event_sink: &mut Option<Box<dyn PipelineEventSink>>,
    future: &[WorldState],
    ctx: DispatchContext<'_>,
) -> (result: Option<DispatchResult>)
    ensures
        result is Some <==> panner is Some,
        result is None ==> {
            &&& *final(previous_panner_pose) == *old(previous_panner_pose)
            &&& *final(event_sink) == *old(event_sink)
            &&& player_tracker matches Some(p) ==> &**final(p) == &**p
            &&& ball_tracker matches Some(p) ==> &**final(p) == &**p
        },
        result matches Some(r) ==> {
            &&& *final(previous_panner_pose) == r.pose
            &&& r.active_tracks == r.world_state.players@.len() as u32
            &&& r.ball_present == has_ball(r.world_state)
            &&& r.ball_present == (r.world_state.ball is Some && r.world_state.ball->0.state is Tracking)
            &&& match player_tracker {
                Some(p) => exists|t: &mut dyn Tracker, found: Vec<TrackedEntity>|
                    {
                        &&& #[trigger] followed(t, ctx.detections, ctx.timestamp_ms, found)
                        &&& found@ == r.world_state.players@
                        &&& &*t == &**p
                        &&& &*final(t) == &**final(p)
                    },
                None => r.world_state.players@.len() == 0,
            }
            &&& match ball_tracker {
                Some(p) => exists|
                    a: &mut dyn Tracker,
                    b: &mut dyn Tracker,
                    seen: WorldState,
                    found: Vec<TrackedEntity>,
                |
                    {
                        &&& #[trigger] shown(a, &seen)
                        &&& #[trigger] followed(b, ctx.detections, ctx.timestamp_ms, found)
                        &&& seen.ball is None
                        &&& seen.players@ == r.world_state.players@
                        &&& r.world_state.ball == ball_of(found@)
                        &&& &*a == &**p
                        &&& &*b == &*final(a)
                        &&& &*final(b) == &**final(p)
                    },
                None => r.world_state.ball is None,
            }
        },
        panner matches Some(p) ==> exists|d: &mut dyn Panner|
            {
                &&& #[trigger] panned(
                    d,
                    &result->0.world_state,
                    future,
                    pan_context(ctx, *old(previous_panner_pose)),
                    result->0.pose,
                )
                &&& &*d == &**p
                &&& &*final(d) == &**final(p)
            },
        *final(event_sink) is Some <==> *old(event_sink) is Some,
        panner is Some && *old(event_sink) is Some ==> exists|
            a: &mut dyn PipelineEventSink,
            b: &mut dyn PipelineEventSink,
            players: Vec<TrackedEntity>,
            debug: Option<PipelineEvent>,
        |
            {
                &&& #[trigger] told(
                    a,
                    PipelineEvent::WorldState {
                        frame_index: ctx.frame_index,
                        timestamp_ms: ctx.timestamp_ms,
                        players,
                        ball: result->0.world_state.ball,
                    },
                )
                &&& players@ == result->0.world_state.players@
                &&& #[trigger] told(
                    b,
                    PipelineEvent::PanDecision {
                        frame_index: ctx.frame_index,
                        pose: result->0.pose,
                    },
                )
                &&& #[trigger] explained(&**final(panner->0), ctx.frame_index, debug)
                &&& &*a == &*(*old(event_sink))->0
                &&& &*b == &*final(a)
                &&& match debug {
                    Some(event) => exists|c: &mut dyn PipelineEventSink|
                        {
                            &&& #[trigger] told(c, event)
                            &&& &*c == &*final(b)
                            &&& &*final(c) == &*(*final(event_sink))->0
                        },
                    None => &*final(b) == &*(*final(event_sink))->0,
                }
            },
{
    match panner {
        None => None,
        Some(panner) => {
            let world = dispatch_detect_only(player_tracker, ball_tracker, ctx);
            if let Some(sink) = event_sink {
                let players: Vec<TrackedEntity> = world.players.clone();
                assert(players@ =~= world.players@);
                tell(
                    &mut **sink,
                    PipelineEvent::WorldState {
                        frame_index: ctx.frame_index,
                        timestamp_ms: ctx.timestamp_ms,
                        players,
                        ball: world.ball,
                    },
                );
            }
            let pan = PanContext {
                frame_index: ctx.frame_index,
                timestamp_ms: ctx.timestamp_ms,
                previous_position: *previous_panner_pose,
                calibration: ctx.calibration,
            };
            let (active_tracks, ball_present): (u32, bool) = summarize(&world);
            let pose = decide_with(&mut **panner, &world, future, &pan);
            *previous_panner_pose = pose;
            if let Some(sink) = event_sink {
                tell(
                    &mut **sink,
                    PipelineEvent::PanDecision { frame_index: ctx.frame_index, pose },
                );
                let debug: Option<PipelineEvent> = explain(&**panner, ctx.frame_index);
                if let Some(event) = debug {
                    tell(&mut **sink, event);
                }
            }
            Some(DispatchResult { pose, world_state: world, active_tracks, ball_present })
        },
    }
}

/// The ball is the first entity that its tracker finds, and there is one exactly if it finds
/// any.
pub proof fn law_the_first_ball_counts(first: TrackedEntity, others: Seq<TrackedEntity>)
    ensures
        ball_of(seq![first] + others) == Some(first),
        ball_of(Seq::empty()) is None,
{
}

/// A ball that is lost is not there; one that is followed is.
pub proof fn law_lost_balls_are_not_there(world: WorldState)
    ensures
        has_ball(world) <==> (world.ball is Some && world.ball->0.state is Tracking),
{
}

/// A panner is told of the frame that is dispatched: its number, its time, the calibration in
/// use and where the camera looked before.
pub proof fn law_panner_is_told_of_the_frame(
    ctx: DispatchContext<'_>,
    previous: ViewportPosition,
)
    ensures
        pan_context(ctx, previous).frame_index == ctx.frame_index,
        pan_context(ctx, previous).timestamp_ms == ctx.timestamp_ms,
        pan_context(ctx, previous).previous_position == previous,
        pan_context(ctx, previous).calibration == ctx.calibration,
{
}

/// Trackers, panners and sinks are called with what they are said to be called with.
pub proof fn law_calls_are_what_they_are_said_to_be<
    T: Tracker + ?Sized,
    P: Panner + ?Sized,
    S: PipelineEventSink + ?Sized,
>(
    detections: &[MappedDetection],
    timestamp_ms: Real64,
    entities: Vec<TrackedEntity>,
    world: &WorldState,
    future: &[WorldState],
    ctx: PanContext<'_>,
    pose: ViewportPosition,
    frame_index: u64,
    debug: Option<PipelineEvent>,
    event: PipelineEvent,
)
    ensures
        forall|t: &mut T| #[trigger]
            followed(t, detections, timestamp_ms, entities) ==> call_ensures(
                T::update,
                (t, detections, timestamp_ms),
                entities,
            ),
        forall|t: &mut T| #[trigger]
            shown(t, world) ==> call_ensures(T::observe_world, (t, world), ()),
        forall|p: &mut P| #[trigger]
            panned(p, world, future, ctx, pose) ==> call_ensures(
                P::decide_with_lookahead,
                (p, world, future, &ctx),
                pose,
            ),
        forall|p: &P| #[trigger]
            explained(p, frame_index, debug) ==> call_ensures(
                P::debug_event,
                (p, frame_index),
                debug,
            ),
        forall|s: &mut S| #[trigger] told(s, event) ==> call_ensures(S::emit, (s, event), ()),
{
}

} // verus!
