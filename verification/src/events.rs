//! Window and input events, and their effect on the loop state.
//!
//! The window system hands the application a batch of events each frame.
//! Only two kinds carry meaning here: a framebuffer resize updates the
//! viewport, and a press of the escape key requests that the loop close.
//! Everything else is informational.

use vstd::prelude::*;

verus! {

/// Key code the window system reports for the escape key.
pub const KEY_ESCAPE: i32 = 256;

/// What happened to a key.
#[derive(Clone, Copy, PartialEq, Eq, Structural, Debug)]
pub enum KeyAction {
    Press,
    Release,
    Repeat,
}

/// A window or input event, already reduced to the fields the loop reads.
#[derive(Clone, Copy, PartialEq, Eq, Structural, Debug)]
pub enum WindowEvent {
    /// The framebuffer now measures `width` by `height` pixels.
    FramebufferResize { width: i32, height: i32 },
    /// A key changed state.
    Key { code: i32, action: KeyAction },
    /// Any other event; the loop ignores it.
    Other,
}

/// The pixel rectangle of the framebuffer that rendering output maps to.
#[derive(Clone, Copy, PartialEq, Eq, Structural, Debug)]
pub struct Viewport {
    pub x: i32,
    pub y: i32,
    pub width: i32,
    pub height: i32,
}

/// A press of the escape key asks the loop to terminate.
pub open spec fn is_close_request(e: WindowEvent) -> bool {
    match e {
        WindowEvent::Key { code, action } => code == KEY_ESCAPE && action == KeyAction::Press,
        _ => false,
    }
}

/// Whether some event of the batch asks the loop to terminate.
pub open spec fn requests_close(events: Seq<WindowEvent>) -> bool {
    exists|i: int| 0 <= i < events.len() && is_close_request(events[i])
}

/// The loop's closing flag after a batch of events: once set it stays set,
/// and a close request in the batch sets it.
pub open spec fn closing_after(closing: bool, events: Seq<WindowEvent>) -> bool {
    closing || requests_close(events)
}

/// The viewport after a batch of events, applied in order: each resize event
/// of `(w, h)` replaces the viewport by `(0, 0, w, h)`; other events leave it.
pub open spec fn viewport_after(vp: Viewport, events: Seq<WindowEvent>) -> Viewport
    decreases events.len(),
{
    if events.len() == 0 {
        vp
    } else {
        match events.last() {
            WindowEvent::FramebufferResize { width, height } => Viewport {
                x: 0,
                y: 0,
                width,
                height,
            },
            _ => viewport_after(vp, events.drop_last()),
        }
    }
}

/// Exec mirror of `is_close_request`.
pub fn is_close_request_event(e: &WindowEvent) -> (r: bool)
    ensures
        r == is_close_request(*e),
{
    match e {
        WindowEvent::Key { code, action } => *code == KEY_ESCAPE && *action == KeyAction::Press,
        _ => false,
    }
}

/// Extending a batch by one event requests close exactly when the batch
/// already did or the new event does.
pub proof fn lemma_requests_close_step(events: Seq<WindowEvent>, i: int)
    requires
        0 <= i < events.len(),
    ensures
        requests_close(events.take(i + 1)) == (requests_close(events.take(i)) || is_close_request(
            events[i],
        )),
{
    let pre = events.take(i);
    let ext = events.take(i + 1);
    if requests_close(ext) {
        let j: int = choose|j: int| 0 <= j < ext.len() && is_close_request(ext[j]);
        if j < i {
            assert(pre[j] == ext[j]);
            assert(requests_close(pre));
        } else {
            assert(ext[j] == events[i]);
        }
    }
    if requests_close(pre) {
        let j: int = choose|j: int| 0 <= j < pre.len() && is_close_request(pre[j]);
        assert(ext[j] == pre[j]);
        assert(requests_close(ext));
    }
    if is_close_request(events[i]) {
        assert(ext[i] == events[i]);
        assert(requests_close(ext));
    }
}

/// A close request in a batch leaves the loop closing, whatever its prior
/// state: the iteration that observes the request may still render its one
/// frame, but the loop condition fails before any further frame.
pub proof fn lemma_close_request_ends_loop(closing: bool, events: Seq<WindowEvent>)
    requires
        requests_close(events),
    ensures
        closing_after(closing, events),
{
}

/// A resize event with no later resize in the batch pins the frame's
/// viewport: whatever the viewport was before, after the batch it is exactly
/// `(0, 0, width, height)`.
pub proof fn lemma_resize_sets_frame_viewport(
    vp: Viewport,
    events: Seq<WindowEvent>,
    i: int,
    width: i32,
    height: i32,
)
    requires
        0 <= i < events.len(),
        events[i] == (WindowEvent::FramebufferResize { width, height }),
        forall|j: int| i < j < events.len() ==> !(#[trigger] events[j] is FramebufferResize),
    ensures
        viewport_after(vp, events) == (Viewport { x: 0, y: 0, width, height }),
    decreases events.len(),
{
    if i == events.len() - 1 {
        assert(events.last() == events[i]);
    } else {
        assert(!(events.last() is FramebufferResize));
        let shorter = events.drop_last();
        assert(shorter[i] == events[i]);
        assert(forall|j: int|
            i < j < shorter.len() ==> !(#[trigger] shorter[j] is FramebufferResize));
        lemma_resize_sets_frame_viewport(vp, shorter, i, width, height);
    }
}

} // verus!
