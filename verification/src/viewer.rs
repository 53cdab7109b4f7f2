//! The interactive viewer's decisions: what each window event and each
//! outcome of the swapchain does to the viewer's state, and what the event
//! loop must do in response.
//!
//! The view parameters themselves (center, zoom, iteration limit) are
//! floating-point values kept by the event loop; this module decides which
//! update applies to them.

use vstd::prelude::*;

verus! {

/// The viewer's state apart from the view parameters.
#[derive(Clone, Copy, PartialEq, Eq, Debug, Structural)]
pub struct ViewerState {
    /// The left mouse button is held: cursor motion pans the view.
    pub dragging: bool,
    /// The window was resized since the swapchain was last rebuilt.
    pub window_resized: bool,
    /// The swapchain was found out of date or suboptimal.
    pub recreate_swapchain: bool,
}

/// What the event loop observed.
#[derive(Clone, Copy, PartialEq, Eq, Debug, Structural)]
pub enum ViewerEvent {
    /// The user asked to close the window.
    CloseRequested,
    /// The window changed size.
    Resized,
    /// A keyboard event for the `R` key.
    ResetKey,
    /// The mouse wheel turned by whole lines.
    WheelLines,
    /// The mouse wheel (or touchpad) scrolled by pixels.
    WheelPixels,
    /// The left mouse button went down.
    LeftPressed,
    /// The left mouse button went up.
    LeftReleased,
    /// The cursor moved inside the window.
    CursorMoved,
    /// All pending window events were handled: time to render a frame.
    MainEventsCleared,
    /// A swapchain image was acquired; `suboptimal` as the driver reported.
    ImageAcquired { suboptimal: bool },
    /// Acquiring a swapchain image failed because the swapchain is out of date.
    AcquireOutOfDate,
    /// The frame was submitted and queued for presentation.
    PresentSucceeded,
    /// Presenting failed because the swapchain is out of date.
    PresentOutOfDate,
    /// Presenting failed for another reason.
    PresentFailed,
    /// Anything else.
    Other,
}

/// What the event loop must do in response to an event.
#[derive(Clone, Copy, PartialEq, Eq, Debug, Structural)]
pub enum ViewerAction {
    /// Leave the event loop.
    Exit,
    /// Nothing beyond the state change.
    Nothing,
    /// Put the view back to its initial center and zoom.
    ResetView,
    /// Zoom by the wheel's line count.
    ZoomByWheel,
    /// Remember the cursor position and view center as the origin of a drag.
    RecordDragOrigin,
    /// Move the view center by the cursor's offset from the drag origin.
    PanView,
    /// Start a frame, rebuilding the swapchain first when asked.
    BeginFrame { recreate_swapchain: bool },
    /// Record, submit and present the compute pass for the acquired image.
    DrawFrame,
    /// Give up this frame.
    SkipFrame,
    /// Wait for the GPU to finish the submitted frame.
    WaitForGpu,
    /// Report that the frame could not be flushed.
    ReportPresentError,
}

/// The swapchain must be rebuilt before the next frame.
pub open spec fn needs_recreation(s: ViewerState) -> bool {
    s.window_resized || s.recreate_swapchain
}

/// The transition of the viewer: next state and action for `event` in `s`.
pub open spec fn transition(s: ViewerState, event: ViewerEvent) -> (ViewerState, ViewerAction) {
    match event {
        ViewerEvent::CloseRequested => (s, ViewerAction::Exit),
        ViewerEvent::Resized => (ViewerState { window_resized: true, ..s }, ViewerAction::Nothing),
        ViewerEvent::ResetKey => (s, ViewerAction::ResetView),
        ViewerEvent::WheelLines => (s, ViewerAction::ZoomByWheel),
        ViewerEvent::WheelPixels => (s, ViewerAction::Nothing),
        ViewerEvent::LeftPressed => (ViewerState { dragging: true, ..s }, ViewerAction::Nothing),
        ViewerEvent::LeftReleased => (ViewerState { dragging: false, ..s }, ViewerAction::Nothing),
        ViewerEvent::CursorMoved => (
            s,
            if s.dragging {
                ViewerAction::PanView
            } else {
                ViewerAction::RecordDragOrigin
            },
        ),
        ViewerEvent::MainEventsCleared => (
            ViewerState { window_resized: false, recreate_swapchain: false, ..s },
            ViewerAction::BeginFrame { recreate_swapchain: needs_recreation(s) },
        ),
        ViewerEvent::ImageAcquired { suboptimal } => (
            ViewerState { recreate_swapchain: s.recreate_swapchain || suboptimal, ..s },
            ViewerAction::DrawFrame,
        ),
        ViewerEvent::AcquireOutOfDate => (
            ViewerState { recreate_swapchain: true, ..s },
            ViewerAction::SkipFrame,
        ),
        ViewerEvent::PresentSucceeded => (s, ViewerAction::WaitForGpu),
        ViewerEvent::PresentOutOfDate => (
            ViewerState { recreate_swapchain: true, ..s },
            ViewerAction::Nothing,
        ),
        ViewerEvent::PresentFailed => (s, ViewerAction::ReportPresentError),
        ViewerEvent::Other => (s, ViewerAction::Nothing),
    }
}

/// The state after handling `events` in order, starting from `s`.
pub open spec fn run(s: ViewerState, events: Seq<ViewerEvent>) -> ViewerState
    decreases events.len(),
{
    if events.len() == 0 {
        s
    } else {
        run(transition(s, events[0]).0, events.drop_first())
    }
}

impl ViewerState {
    /// The state when the window opens: not dragging, nothing to rebuild.
    pub fn new() -> (s: ViewerState)
        ensures
            !s.dragging,
            !s.window_resized,
            !s.recreate_swapchain,
    {
        ViewerState { dragging: false, window_resized: false, recreate_swapchain: false }
    }

    /// Handles one event: updates the state and says what to do.
    pub fn step(&mut self, event: ViewerEvent) -> (action: ViewerAction)
        ensures
            (*final(self), action) == transition(*old(self), event),
            event == ViewerEvent::CloseRequested ==> action == ViewerAction::Exit && *final(self)
                == *old(self),
            event == ViewerEvent::ResetKey ==> action == ViewerAction::ResetView && *final(self)
                == *old(self),
            event == ViewerEvent::WheelLines ==> action == ViewerAction::ZoomByWheel && *final(self)
                == *old(self),
            event == ViewerEvent::Resized ==> {
                &&& action == ViewerAction::Nothing
                &&& final(self).window_resized
                &&& final(self).dragging == old(self).dragging
                &&& final(self).recreate_swapchain == old(self).recreate_swapchain
            },
            event == ViewerEvent::LeftPressed ==> final(self).dragging && action
                == ViewerAction::Nothing,
            event == ViewerEvent::LeftReleased ==> !final(self).dragging && action
                == ViewerAction::Nothing,
            event == ViewerEvent::CursorMoved ==> *final(self) == *old(self) && (action
                == ViewerAction::PanView <==> old(self).dragging) && (action
                == ViewerAction::RecordDragOrigin <==> !old(self).dragging),
            event == ViewerEvent::MainEventsCleared ==> {
                &&& action == (ViewerAction::BeginFrame {
                    recreate_swapchain: old(self).window_resized || old(self).recreate_swapchain,
                })
                &&& !final(self).window_resized
                &&& !final(self).recreate_swapchain
                &&& final(self).dragging == old(self).dragging
            },
            event == ViewerEvent::AcquireOutOfDate ==> {
                &&& action == ViewerAction::SkipFrame
                &&& final(self).recreate_swapchain
                &&& final(self).dragging == old(self).dragging
                &&& final(self).window_resized == old(self).window_resized
            },
            (event matches ViewerEvent::ImageAcquired { suboptimal }) ==> {
                &&& action == ViewerAction::DrawFrame
                &&& final(self).recreate_swapchain == (old(self).recreate_swapchain
                    || event->suboptimal)
                &&& final(self).dragging == old(self).dragging
                &&& final(self).window_resized == old(self).window_resized
            },
            event == ViewerEvent::PresentSucceeded ==> action == ViewerAction::WaitForGpu
                && *final(self) == *old(self),
            event == ViewerEvent::PresentFailed ==> action == ViewerAction::ReportPresentError
                && *final(self) == *old(self),
            event == ViewerEvent::PresentOutOfDate ==> {
                &&& action == ViewerAction::Nothing
                &&& final(self).recreate_swapchain
                &&& final(self).dragging == old(self).dragging
                &&& final(self).window_resized == old(self).window_resized
            },
    {
        let s = *self;
        match event {
            ViewerEvent::CloseRequested => ViewerAction::Exit,
            ViewerEvent::Resized => {
                self.window_resized = true;
                ViewerAction::Nothing
            },
            ViewerEvent::ResetKey => ViewerAction::ResetView,
            ViewerEvent::WheelLines => ViewerAction::ZoomByWheel,
            ViewerEvent::WheelPixels => ViewerAction::Nothing,
            ViewerEvent::LeftPressed => {
                self.dragging = true;
                ViewerAction::Nothing
            },
            ViewerEvent::LeftReleased => {
                self.dragging = false;
                ViewerAction::Nothing
            },
            ViewerEvent::CursorMoved => {
                if s.dragging {
                    ViewerAction::PanView
                } else {
                    ViewerAction::RecordDragOrigin
                }
            },
            ViewerEvent::MainEventsCleared => {
                let recreate = s.window_resized || s.recreate_swapchain;
                self.window_resized = false;
                self.recreate_swapchain = false;
                ViewerAction::BeginFrame { recreate_swapchain: recreate }
            },
            ViewerEvent::ImageAcquired { suboptimal } => {
                if suboptimal {
                    self.recreate_swapchain = true;
                }
                ViewerAction::DrawFrame
            },
            ViewerEvent::AcquireOutOfDate => {
                self.recreate_swapchain = true;
                ViewerAction::SkipFrame
            },
            ViewerEvent::PresentSucceeded => ViewerAction::WaitForGpu,
            ViewerEvent::PresentOutOfDate => {
                self.recreate_swapchain = true;
                ViewerAction::Nothing
            },
            ViewerEvent::PresentFailed => ViewerAction::ReportPresentError,
            ViewerEvent::Other => ViewerAction::Nothing,
        }
    }
}

/// Only the left mouse button changes whether the view is being dragged:
/// pressing starts a drag, releasing ends it, every other event keeps it.
pub proof fn drag_follows_left_button(s: ViewerState, event: ViewerEvent)
    ensures
        transition(s, event).0.dragging == match event {
            ViewerEvent::LeftPressed => true,
            ViewerEvent::LeftReleased => false,
            _ => s.dragging,
        },
{
}

/// Cursor motion pans the view exactly while dragging, and otherwise keeps
/// the drag origin up to date.
pub proof fn cursor_pans_only_while_dragging(s: ViewerState)
    ensures
        transition(s, ViewerEvent::CursorMoved).1 == (if s.dragging {
            ViewerAction::PanView
        } else {
            ViewerAction::RecordDragOrigin
        }),
        transition(s, ViewerEvent::CursorMoved).0 == s,
{
}

/// The viewer exits on a close request and on nothing else, and a close
/// request leaves the state as it was.
pub proof fn exits_only_on_close(s: ViewerState, event: ViewerEvent)
    ensures
        (transition(s, event).1 == ViewerAction::Exit) <==> (event == ViewerEvent::CloseRequested),
        event == ViewerEvent::CloseRequested ==> transition(s, event).0 == s,
{
}

/// An out-of-date acquisition skips the frame and, whatever the state (in
/// particular during a drag), marks the swapchain for rebuilding while
/// keeping the other fields; the next frame start then rebuilds it.
pub proof fn out_of_date_acquire_rebuilds_next_frame(s: ViewerState)
    ensures
        transition(s, ViewerEvent::AcquireOutOfDate).1 == ViewerAction::SkipFrame,
        transition(s, ViewerEvent::AcquireOutOfDate).0 == (ViewerState {
            dragging: s.dragging,
            window_resized: s.window_resized,
            recreate_swapchain: true,
        }),
        transition(transition(s, ViewerEvent::AcquireOutOfDate).0, ViewerEvent::MainEventsCleared).1
            == (ViewerAction::BeginFrame { recreate_swapchain: true }),
{
}

/// An out-of-date presentation marks the swapchain for rebuilding, whatever
/// the state, and the next frame start rebuilds it.
pub proof fn out_of_date_present_rebuilds_next_frame(s: ViewerState)
    ensures
        transition(s, ViewerEvent::PresentOutOfDate).0 == (ViewerState {
            dragging: s.dragging,
            window_resized: s.window_resized,
            recreate_swapchain: true,
        }),
        transition(transition(s, ViewerEvent::PresentOutOfDate).0, ViewerEvent::MainEventsCleared).1
            == (ViewerAction::BeginFrame { recreate_swapchain: true }),
{
}

/// A resize, in any state, makes the next frame start rebuild the swapchain.
pub proof fn resize_rebuilds_next_frame(s: ViewerState)
    ensures
        transition(s, ViewerEvent::Resized).0 == (ViewerState {
            dragging: s.dragging,
            window_resized: true,
            recreate_swapchain: s.recreate_swapchain,
        }),
        transition(transition(s, ViewerEvent::Resized).0, ViewerEvent::MainEventsCleared).1 == (
        ViewerAction::BeginFrame { recreate_swapchain: true }),
{
}

/// A frame start rebuilds the swapchain exactly when a resize or a rebuild
/// request is pending, clears both, and keeps the drag.
pub proof fn frame_start_rebuilds_when_pending(s: ViewerState)
    ensures
        transition(s, ViewerEvent::MainEventsCleared).1 == (ViewerAction::BeginFrame {
            recreate_swapchain: s.window_resized || s.recreate_swapchain,
        }),
        transition(s, ViewerEvent::MainEventsCleared).0 == (ViewerState {
            dragging: s.dragging,
            window_resized: false,
            recreate_swapchain: false,
        }),
{
}

/// An acquired image is always drawn, whatever the state (dragging or not);
/// a suboptimal one additionally marks the swapchain for rebuilding.
pub proof fn acquired_image_is_drawn(s: ViewerState, suboptimal: bool)
    ensures
        transition(s, ViewerEvent::ImageAcquired { suboptimal }).1 == ViewerAction::DrawFrame,
        transition(s, ViewerEvent::ImageAcquired { suboptimal }).0 == (ViewerState {
            dragging: s.dragging,
            window_resized: s.window_resized,
            recreate_swapchain: s.recreate_swapchain || suboptimal,
        }),
{
}

/// A successful presentation is always waited for; a failed one is always
/// reported; neither changes the state.
pub proof fn present_outcomes_handled(s: ViewerState)
    ensures
        transition(s, ViewerEvent::PresentSucceeded) == (s, ViewerAction::WaitForGpu),
        transition(s, ViewerEvent::PresentFailed) == (s, ViewerAction::ReportPresentError),
{
}

/// The wheel's line scrolling always zooms, in any state (also while the
/// left button is held), and changes no state.
pub proof fn wheel_always_zooms(s: ViewerState)
    ensures
        transition(s, ViewerEvent::WheelLines) == (s, ViewerAction::ZoomByWheel),
        transition(s, ViewerEvent::WheelPixels) == (s, ViewerAction::Nothing),
{
}

/// The `R` key always resets the view, in any state (also while dragging),
/// and changes no state.
pub proof fn reset_key_always_resets(s: ViewerState)
    ensures
        transition(s, ViewerEvent::ResetKey) == (s, ViewerAction::ResetView),
{
}

/// Pressing the left button and then moving the cursor pans; releasing it
/// and then moving records a new drag origin, from any state.
pub proof fn press_move_pans_release_move_records(s: ViewerState)
    ensures
        transition(transition(s, ViewerEvent::LeftPressed).0, ViewerEvent::CursorMoved).1
            == ViewerAction::PanView,
        transition(transition(s, ViewerEvent::LeftReleased).0, ViewerEvent::CursorMoved).1
            == ViewerAction::RecordDragOrigin,
        transition(s, ViewerEvent::LeftPressed).0 == (ViewerState {
            dragging: true,
            window_resized: s.window_resized,
            recreate_swapchain: s.recreate_swapchain,
        }),
        transition(s, ViewerEvent::LeftReleased).0 == (ViewerState {
            dragging: false,
            window_resized: s.window_resized,
            recreate_swapchain: s.recreate_swapchain,
        }),
{
}

/// A pending swapchain rebuild is never lost: whatever events arrive before
/// the next frame starts, that frame rebuilds the swapchain, and the frame
/// start clears the request so the rebuild is not repeated.
pub proof fn pending_rebuild_reaches_next_frame(s: ViewerState, events: Seq<ViewerEvent>)
    requires
        needs_recreation(s),
        forall|i: int| 0 <= i < events.len() ==> #[trigger] events[i] != ViewerEvent::MainEventsCleared,
    ensures
        needs_recreation(run(s, events)),
        transition(run(s, events), ViewerEvent::MainEventsCleared).1 == (ViewerAction::BeginFrame {
            recreate_swapchain: true,
        }),
        !needs_recreation(transition(run(s, events), ViewerEvent::MainEventsCleared).0),
    decreases events.len(),
{
    if events.len() > 0 {
        let rest = events.drop_first();
        assert(events[0] != ViewerEvent::MainEventsCleared);
        assert forall|i: int| 0 <= i < rest.len() implies #[trigger] rest[i]
            != ViewerEvent::MainEventsCleared by {
            assert(rest[i] == events[i + 1]);
        }
        pending_rebuild_reaches_next_frame(transition(s, events[0]).0, rest);
    }
}

/// Over any run of events without a left-button press or release (window
/// events, wheel, cursor motion, whole frames), a drag neither starts nor ends.
pub proof fn drag_persists_without_left_button(s: ViewerState, events: Seq<ViewerEvent>)
    requires
        forall|i: int|
            0 <= i < events.len() ==> #[trigger] events[i] != ViewerEvent::LeftPressed
                && events[i] != ViewerEvent::LeftReleased,
    ensures
        run(s, events).dragging == s.dragging,
    decreases events.len(),
{
    if events.len() > 0 {
        let rest = events.drop_first();
        assert(events[0] != ViewerEvent::LeftPressed && events[0] != ViewerEvent::LeftReleased);
        assert forall|i: int| 0 <= i < rest.len() implies #[trigger] rest[i]
            != ViewerEvent::LeftPressed && rest[i] != ViewerEvent::LeftReleased by {
            assert(rest[i] == events[i + 1]);
        }
        drag_persists_without_left_button(transition(s, events[0]).0, rest);
    }
}

} // verus!
