//! The system that keeps the camera's projection fitted to the window.
//!
//! The system starts without a camera. `setup` gives it one, with the
//! projection that fits the window as it is then. From then on each `run`
//! takes the window events that were published since the last one and, for
//! every resize, replaces the camera's projection by the fit for the new size.
//! A resize to a window with a zero dimension has no fit and changes nothing.

use crate::channel::channel_events;
use crate::channel::channel_id;
use crate::channel::read_events;
use crate::channel::reader_channel;
use crate::channel::reader_position;
use crate::channel::register_reader;
use crate::channel::WindowEvent;
use crate::fit::fit;
use crate::fit::fit_spec;
use crate::fit::lemma_fit_holds_content;
use crate::fit::CameraViewport;
use crate::fit::ContentExtent;
use crate::fit::Ratio;
use crate::fit::WindowSize;
use shrev::EventChannel;
use shrev::ReaderId;
use vstd::prelude::*;

verus! {

/// The width of the content, in world units.
pub const CONTENT_WIDTH: u32 = 600;

/// The height of the content, in world units.
pub const CONTENT_HEIGHT: u32 = 400;

/// The distance at which the camera stands in front of the content plane.
pub const CAMERA_DEPTH: u32 = 1;

/// The handle of the camera in the scene: the slot it occupies there and the
/// generation of that slot.
#[derive(Clone, Copy, Debug, PartialEq, Eq, Structural)]
pub struct CameraEntity {
    pub index: u32,
    pub generation: i32,
}

/// The camera that the system follows, with its current projection.
#[derive(Clone, Copy, Debug, PartialEq, Eq, Structural)]
pub struct ActiveCamera {
    pub entity: CameraEntity,
    pub viewport: CameraViewport,
}

/// Where the camera is put when it is made, and what it shows.
#[derive(Clone, Copy, Debug, PartialEq, Eq, Structural)]
pub struct CameraPlacement {
    pub viewport: CameraViewport,
    /// The horizontal centre of the content.
    pub center_x: Ratio,
    /// The vertical centre of the content.
    pub center_y: Ratio,
    pub depth: u32,
}

/// Why a projection could not be applied.
#[derive(Clone, Copy, Debug, PartialEq, Eq, Structural)]
pub enum CameraError {
    /// The system has no camera yet.
    MissingCamera,
}

/// What one run of the system did to the camera.
#[derive(Clone, Copy, Debug, PartialEq, Eq, Structural)]
pub enum TickOutcome {
    /// No event asked for a new projection.
    Idle,
    /// The camera now has this projection.
    Updated(CameraViewport),
    /// A resize arrived, but the system has no camera to apply it to.
    CameraMissing,
}

/// Builds the camera system for the content of `get_camera_pixels`.
pub struct CameraSystemDesc;

/// Follows the window's resize events and keeps the camera fitted.
pub struct CameraSystem {
    min_width: u32,
    min_height: u32,
    camera: Option<ActiveCamera>,
    reader: ReaderId<WindowEvent>,
}

/// The size announced by the last event of `events` that resizes the window
/// to a size with an aspect ratio, if there is one.
pub open spec fn last_usable_resize(events: Seq<WindowEvent>) -> Option<WindowSize>
    decreases events.len(),
{
    if events.len() == 0 {
        None
    } else {
        match events.last().usable_size() {
            Some(size) => Some(size),
            None => last_usable_resize(events.drop_last()),
        }
    }
}

/// The projection that a new camera gets: the fit for the window, or the
/// content rectangle itself where the window has a zero dimension.
pub open spec fn initial_viewport(content: ContentExtent, screen: WindowSize) -> CameraViewport {
    match fit_spec(content, screen) {
        Some(viewport) => viewport,
        None => CameraViewport::of_content(content),
    }
}

/// Where a new camera for `content` is put in a window of size `screen`: over
/// the centre of the content, showing `initial_viewport`.
pub open spec fn placement_spec(content: ContentExtent, screen: WindowSize) -> CameraPlacement {
    CameraPlacement {
        viewport: initial_viewport(content, screen),
        center_x: Ratio { num: content.width as u64, den: 2 },
        center_y: Ratio { num: content.height as u64, den: 2 },
        depth: CAMERA_DEPTH,
    }
}

/// The camera after a batch of events: its projection is the fit for the last
/// usable resize of the batch. Without a camera, or without such a resize,
/// nothing changes.
pub open spec fn camera_after(
    content: ContentExtent,
    camera: Option<ActiveCamera>,
    events: Seq<WindowEvent>,
) -> Option<ActiveCamera> {
    match (camera, last_usable_resize(events)) {
        (Some(active), Some(size)) => Some(
            ActiveCamera { entity: active.entity, viewport: fit_spec(content, size).unwrap() },
        ),
        _ => camera,
    }
}

/// What a run over a batch of events reports.
pub open spec fn outcome_of(
    content: ContentExtent,
    camera: Option<ActiveCamera>,
    events: Seq<WindowEvent>,
) -> TickOutcome {
    match last_usable_resize(events) {
        None => TickOutcome::Idle,
        Some(size) => if camera is Some {
            TickOutcome::Updated(fit_spec(content, size).unwrap())
        } else {
            TickOutcome::CameraMissing
        },
    }
}

/// The size of the content that the camera must always show.
pub fn get_camera_pixels() -> (size: (u32, u32))
    ensures
        size == (CONTENT_WIDTH, CONTENT_HEIGHT),
        size == (600u32, 400u32),
{
    (CONTENT_WIDTH, CONTENT_HEIGHT)
}

impl CameraSystemDesc {
    /// Subscribes to `channel` and makes the system for the standard content.
    /// The system has no camera yet, and will see only the events that are
    /// written to the channel from now on.
    pub fn build(self, channel: &mut EventChannel<WindowEvent>) -> (system: CameraSystem)
        ensures
            channel_events(*final(channel)) == channel_events(*old(channel)),
            channel_id(*final(channel)) == channel_id(*old(channel)),
            system.content() == (ContentExtent { width: CONTENT_WIDTH, height: CONTENT_HEIGHT }),
            system.camera() is None,
            system.subscribed_to(*final(channel)),
            system.cursor() == channel_events(*final(channel)).len(),
    {
        let reader = register_reader(channel);
        CameraSystem::new(CONTENT_WIDTH, CONTENT_HEIGHT, reader)
    }
}

impl CameraSystem {
    /// The content that the camera must show.
    pub closed spec fn content(&self) -> ContentExtent {
        ContentExtent { width: self.min_width, height: self.min_height }
    }

    /// The camera that the system follows, if it has one.
    pub closed spec fn camera(&self) -> Option<ActiveCamera> {
        self.camera
    }

    /// How many events of the channel lie behind the system's reader.
    pub closed spec fn cursor(&self) -> nat {
        reader_position(self.reader)
    }

    /// The identity of the channel that registered the system's reader.
    pub closed spec fn source(&self) -> int {
        reader_channel(self.reader)
    }

    /// The system's reader was registered by `channel`.
    pub open spec fn subscribed_to(&self, channel: EventChannel<WindowEvent>) -> bool {
        self.source() == channel_id(channel)
    }

    /// Where the system has a camera, its projection holds the whole content.
    pub open spec fn fitted(&self) -> bool {
        self.camera() matches Some(active) ==> active.viewport.wf() && active.viewport.contains(
            self.content(),
        )
    }

    /// Makes a system for content of the given size, reading with `reader`.
    /// It has no camera until `setup`.
    pub fn new(min_width: u32, min_height: u32, reader: ReaderId<WindowEvent>) -> (system:
        CameraSystem)
        ensures
            system.content() == (ContentExtent { width: min_width, height: min_height }),
            system.camera() is None,
            system.cursor() == reader_position(reader),
            system.source() == reader_channel(reader),
    {
        CameraSystem { min_width, min_height, camera: None, reader }
    }

    /// The content that the camera must show.
    pub fn content_extent(&self) -> (content: ContentExtent)
        ensures
            content == self.content(),
    {
        ContentExtent { width: self.min_width, height: self.min_height }
    }

    /// The camera that the system follows, with its projection.
    pub fn active_camera(&self) -> (camera: Option<ActiveCamera>)
        ensures
            camera == self.camera(),
    {
        self.camera
    }

    /// The camera's current projection.
    pub fn viewport(&self) -> (viewport: Option<CameraViewport>)
        ensures
            viewport == match self.camera() {
                Some(active) => Some(active.viewport),
                None => None,
            },
    {
        match self.camera {
            Some(active) => Some(active.viewport),
            None => None,
        }
    }

    /// The extent that the camera must show in a window of size `screen`;
    /// `None` exactly when the window has a zero dimension.
    pub fn calc_camera_xy(&self, screen: WindowSize) -> (out: Option<CameraViewport>)
        ensures
            out == fit_spec(self.content(), screen),
            out is Some <==> screen.usable(),
            out matches Some(v) ==> v.wf() && v.contains(self.content()),
    {
        fit(self.content_extent(), screen)
    }

    /// Replaces the camera's projection by `viewport`; nothing of the old one
    /// is kept. Fails, and changes nothing, when the system has no camera.
    pub fn update_camera(&mut self, viewport: CameraViewport) -> (done: Result<(), CameraError>)
        ensures
            final(self).content() == old(self).content(),
            final(self).cursor() == old(self).cursor(),
            final(self).source() == old(self).source(),
            match old(self).camera() {
                Some(active) => done is Ok && final(self).camera() == Some(
                    ActiveCamera { entity: active.entity, viewport },
                ),
                None => final(self).camera() is None && done == Err::<(), CameraError>(
                    CameraError::MissingCamera,
                ),
            },
    {
        match self.camera {
            Some(active) => {
                self.camera = Some(ActiveCamera { entity: active.entity, viewport });
                Ok(())
            },
            None => Err(CameraError::MissingCamera),
        }
    }

    /// Gives the system its camera. The camera shows the fit for the window
    /// as it is now, or the content rectangle itself if the window has a zero
    /// dimension, and stands over the centre of the content. The result says
    /// how the scene must place it.
    pub fn setup(&mut self, screen: WindowSize, entity: CameraEntity) -> (placement:
        CameraPlacement)
        ensures
            final(self).content() == old(self).content(),
            final(self).cursor() == old(self).cursor(),
            final(self).source() == old(self).source(),
            placement == placement_spec(old(self).content(), screen),
            final(self).camera() == Some(
                ActiveCamera { entity, viewport: initial_viewport(old(self).content(), screen) },
            ),
            final(self).fitted(),
    {
        let content = self.content_extent();
        let viewport = match self.calc_camera_xy(screen) {
            Some(viewport) => viewport,
            None => CameraViewport::exactly(content),
        };
        self.camera = Some(ActiveCamera { entity, viewport });
        CameraPlacement {
            viewport,
            center_x: Ratio { num: content.width as u64, den: 2 },
            center_y: Ratio { num: content.height as u64, den: 2 },
            depth: CAMERA_DEPTH,
        }
    }

    /// Applies a batch of window events, oldest first. Each resize to a
    /// usable size replaces the camera's projection by the fit for that size,
    /// so the last one decides; every other event is passed over.
    pub fn apply_events(&mut self, events: &Vec<WindowEvent>) -> (outcome: TickOutcome)
        ensures
            final(self).content() == old(self).content(),
            final(self).cursor() == old(self).cursor(),
            final(self).source() == old(self).source(),
            final(self).camera() == camera_after(old(self).content(), old(self).camera(), events@),
            outcome == outcome_of(old(self).content(), old(self).camera(), events@),
            old(self).fitted() ==> final(self).fitted(),
    {
        let mut outcome = TickOutcome::Idle;
        let mut i: usize = 0;
        while i < events.len()
            invariant
                0 <= i <= events.len(),
                self.content() == old(self).content(),
                self.cursor() == old(self).cursor(),
                self.source() == old(self).source(),
                self.camera() == camera_after(
                    old(self).content(),
                    old(self).camera(),
                    events@.take(i as int),
                ),
                outcome == outcome_of(
                    old(self).content(),
                    old(self).camera(),
                    events@.take(i as int),
                ),
                old(self).fitted() ==> self.fitted(),
            decreases events.len() - i,
        {
            proof {
                assert(events@.take(i + 1).drop_last() == events@.take(i as int));
                assert(events@.take(i + 1).last() == events@[i as int]);
            }
            if let Some(size) = events[i].resized_to() {
                if let Some(viewport) = self.calc_camera_xy(size) {
                    outcome =
                    match self.update_camera(viewport) {
                        Ok(()) => TickOutcome::Updated(viewport),
                        Err(_) => TickOutcome::CameraMissing,
                    };
                }
            }
            i += 1;
        }
        proof {
            assert(events@.take(events.len() as int) == events@);
        }
        outcome
    }

    /// Takes the events that were written to `channel` since the last run, or
    /// since the system subscribed, and applies them. Afterwards none of the
    /// channel's events is left unread.
    pub fn run(&mut self, channel: &EventChannel<WindowEvent>) -> (outcome: TickOutcome)
        requires
            old(self).subscribed_to(*channel),
        ensures
            final(self).content() == old(self).content(),
            final(self).source() == old(self).source(),
            old(self).cursor() <= channel_events(*channel).len(),
            final(self).cursor() == channel_events(*channel).len(),
            final(self).camera() == camera_after(
                old(self).content(),
                old(self).camera(),
                channel_events(*channel).skip(old(self).cursor() as int),
            ),
            outcome == outcome_of(
                old(self).content(),
                old(self).camera(),
                channel_events(*channel).skip(old(self).cursor() as int),
            ),
            old(self).fitted() ==> final(self).fitted(),
    {
        let events = read_events(channel, &mut self.reader);
        self.apply_events(&events)
    }
}

/// In a batch that ends with a resize to a usable size, that resize decides:
/// the camera's projection afterwards is the fit for it, however many events
/// came before it and whatever sizes they announced.
pub proof fn lemma_last_resize_decides(
    content: ContentExtent,
    camera: ActiveCamera,
    events: Seq<WindowEvent>,
    size: WindowSize,
)
    requires
        events.len() > 0,
        events.last() == WindowEvent::Resized(size),
        size.usable(),
    ensures
        last_usable_resize(events) == Some(size),
        camera_after(content, Some(camera), events) == Some(
            ActiveCamera { entity: camera.entity, viewport: fit_spec(content, size).unwrap() },
        ),
        outcome_of(content, Some(camera), events) == TickOutcome::Updated(
            fit_spec(content, size).unwrap(),
        ),
{
}

/// A batch in which no event is a resize to a usable size (resizes to a
/// window with a zero dimension included) leaves the camera as it was.
pub proof fn lemma_unusable_events_change_nothing(
    content: ContentExtent,
    camera: Option<ActiveCamera>,
    events: Seq<WindowEvent>,
)
    requires
        forall|i: int| 0 <= i < events.len() ==> (#[trigger] events[i]).usable_size() is None,
    ensures
        last_usable_resize(events) is None,
        camera_after(content, camera, events) == camera,
        outcome_of(content, camera, events) == TickOutcome::Idle,
    decreases events.len(),
{
    if events.len() > 0 {
        assert(events.last() == events[events.len() - 1]);
        assert forall|i: int| 0 <= i < events.drop_last().len() implies (
        #[trigger] events.drop_last()[i]).usable_size() is None by {
            assert(events.drop_last()[i] == events[i]);
        }
        lemma_unusable_events_change_nothing(content, camera, events.drop_last());
    }
}

/// The last usable resize of two batches in a row is that of the second, or,
/// where the second has none, that of the first.
pub proof fn lemma_last_usable_resize_of_concat(first: Seq<WindowEvent>, second: Seq<WindowEvent>)
    ensures
        last_usable_resize(first + second) == match last_usable_resize(second) {
            Some(size) => Some(size),
            None => last_usable_resize(first),
        },
    decreases second.len(),
{
    if second.len() == 0 {
        assert(first + second == first);
    } else {
        assert((first + second).last() == second.last());
        assert((first + second).drop_last() == first + second.drop_last());
        lemma_last_usable_resize_of_concat(first, second.drop_last());
    }
}

/// Events may be delivered in one batch or in two: the camera ends with the
/// same projection either way.
pub proof fn lemma_batches_compose(
    content: ContentExtent,
    camera: Option<ActiveCamera>,
    first: Seq<WindowEvent>,
    second: Seq<WindowEvent>,
)
    ensures
        camera_after(content, camera_after(content, camera, first), second) == camera_after(
            content,
            camera,
            first + second,
        ),
{
    lemma_last_usable_resize_of_concat(first, second);
}

/// Reading the channel's log in two runs, the first up to `mid` and the second
/// from there, leaves the camera as one run over the whole does: no event is
/// applied twice and none is passed over.
pub proof fn lemma_runs_compose(
    content: ContentExtent,
    camera: Option<ActiveCamera>,
    log: Seq<WindowEvent>,
    from: int,
    mid: int,
)
    requires
        0 <= from <= mid <= log.len(),
    ensures
        camera_after(
            content,
            camera_after(content, camera, log.subrange(from, mid)),
            log.skip(mid),
        ) == camera_after(content, camera, log.skip(from)),
{
    assert(log.subrange(from, mid) + log.skip(mid) == log.skip(from));
    lemma_batches_compose(content, camera, log.subrange(from, mid), log.skip(mid));
}

/// A run that finds nothing unread, its reader standing at the end of the
/// log, is idle and leaves the camera as it was.
pub proof fn lemma_nothing_unread_changes_nothing(
    content: ContentExtent,
    camera: Option<ActiveCamera>,
    log: Seq<WindowEvent>,
)
    ensures
        camera_after(content, camera, log.skip(log.len() as int)) == camera,
        outcome_of(content, camera, log.skip(log.len() as int)) == TickOutcome::Idle,
{
    assert(log.skip(log.len() as int).len() == 0);
}

/// Where the system's projection holds the content before a batch, it holds it
/// after: every projection that a batch installs is a fit.
pub proof fn lemma_batch_keeps_content_visible(
    content: ContentExtent,
    camera: ActiveCamera,
    events: Seq<WindowEvent>,
)
    requires
        camera.viewport.wf(),
        camera.viewport.contains(content),
    ensures
        camera_after(content, Some(camera), events) matches Some(after) && after.entity
            == camera.entity && after.viewport.wf() && after.viewport.contains(content),
{
    lemma_last_usable_resize_is_usable(events);
    if let Some(size) = last_usable_resize(events) {
        lemma_fit_holds_content(content, size);
    }
}

/// What `last_usable_resize` finds is a usable size that an event of the
/// batch announced.
pub proof fn lemma_last_usable_resize_is_usable(events: Seq<WindowEvent>)
    ensures
        last_usable_resize(events) matches Some(size) ==> size.usable() && exists|i: int|
            0 <= i < events.len() && #[trigger] events[i] == WindowEvent::Resized(size),
    decreases events.len(),
{
    if events.len() > 0 {
        match events.last().usable_size() {
            Some(size) => {
                assert(events[events.len() - 1] == WindowEvent::Resized(size));
            },
            None => {
                lemma_last_usable_resize_is_usable(events.drop_last());
                if let Some(size) = last_usable_resize(events.drop_last()) {
                    let i = choose|i: int|
                        0 <= i < events.drop_last().len() && #[trigger] events.drop_last()[i]
                            == WindowEvent::Resized(size);
                    assert(events[i] == WindowEvent::Resized(size));
                }
            },
        }
    }
}

} // verus!
