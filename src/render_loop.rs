use vstd::prelude::*;

use crate::surface::{resized, SurfaceBinding, SurfaceDescriptor};
use crate::transform::Transform;
use crate::view::{initial_view, pan_accepted, zoom_accepted, zoomed, ViewController};

verus! {

/// Last known cursor position in screen pixels, and whether the left button
/// is held.
#[derive(Clone, Copy, Debug, PartialEq, Eq, Structural)]
pub struct PointerState {
    pub x: i32,
    pub y: i32,
    pub dragging: bool,
}

/// An input or lifecycle event from the host window, in screen pixels.
#[derive(Clone, Copy, Debug, PartialEq, Eq, Structural)]
pub enum Event {
    Resized { width: u32, height: u32 },
    PointerMoved { x: i32, y: i32 },
    LeftPressed,
    LeftReleased,
    Scroll { lines: i32 },
    CloseRequested,
    EventsCleared,
    RedrawRequested,
}

/// What the host has to do after an event.
#[derive(Clone, Copy, Debug, PartialEq, Eq)]
pub enum Action {
    Nothing,
    /// Reconfigure the presented surface to this size.
    ResizeSurface { width: u32, height: u32 },
    /// Ask the window for a redraw.
    RequestRedraw,
    /// Draw one frame with this view transform on a surface of this size,
    /// then present it.
    Draw { transform: Transform, width: u32, height: u32 },
    /// Leave the loop, releasing the surface and context.
    Exit,
}

/// What the loop holds between events.
pub struct LoopState {
    pub transform: Transform,
    pub pointer: PointerState,
    pub surface: SurfaceDescriptor,
    pub stopped: bool,
}

/// The event-driven core of the viewer: turns each event into updates of
/// the view, pointer and surface state, and into one action for the host.
pub struct RenderLoop {
    view: ViewController,
    pointer: PointerState,
    surface: SurfaceBinding,
    stopped: bool,
}

impl View for RenderLoop {
    type V = LoopState;

    closed spec fn view(&self) -> LoopState {
        LoopState {
            transform: self.view@,
            pointer: self.pointer,
            surface: self.surface@,
            stopped: self.stopped,
        }
    }
}

/// The view transform after the pointer moves to `(x, y)`.
pub open spec fn moved_transform(s: LoopState, x: int, y: int) -> Transform {
    let (dx, dy) = (x - s.pointer.x, y - s.pointer.y);
    if s.pointer.dragging && pan_accepted(s.transform, dx, dy) {
        s.transform.shifted(dx, dy)
    } else {
        s.transform
    }
}

/// The view transform after the wheel turns by `lines` at the cursor.
pub open spec fn scrolled_transform(s: LoopState, lines: int) -> Transform {
    let (x, y) = (s.pointer.x as int, s.pointer.y as int);
    if zoom_accepted(s.transform, x, y, lines) {
        zoomed(s.transform, x, y, lines)
    } else {
        s.transform
    }
}

/// The state after `e`, and the action it calls for.
pub open spec fn step(s: LoopState, e: Event) -> (LoopState, Action) {
    if s.stopped {
        (s, Action::Nothing)
    } else {
        match e {
            Event::Resized { width, height } => {
                let d = resized(s.surface, width, height);
                (
                    LoopState { surface: d, ..s },
                    if d != s.surface {
                        Action::ResizeSurface { width, height }
                    } else {
                        Action::Nothing
                    },
                )
            },
            Event::PointerMoved { x, y } => (
                LoopState {
                    transform: moved_transform(s, x as int, y as int),
                    pointer: PointerState { x, y, dragging: s.pointer.dragging },
                    ..s
                },
                Action::Nothing,
            ),
            Event::LeftPressed => (
                LoopState { pointer: PointerState { dragging: true, ..s.pointer }, ..s },
                Action::Nothing,
            ),
            Event::LeftReleased => (
                LoopState { pointer: PointerState { dragging: false, ..s.pointer }, ..s },
                Action::Nothing,
            ),
            Event::Scroll { lines } => (
                LoopState { transform: scrolled_transform(s, lines as int), ..s },
                Action::Nothing,
            ),
            Event::CloseRequested => (LoopState { stopped: true, ..s }, Action::Exit),
            Event::EventsCleared => (s, Action::RequestRedraw),
            Event::RedrawRequested => (
                s,
                Action::Draw {
                    transform: s.transform,
                    width: s.surface.width,
                    height: s.surface.height,
                },
            ),
        }
    }
}

impl RenderLoop {
    /// A running loop for a window of `width` by `height` pixels, with the
    /// view untransformed, the cursor at the origin and no drag in progress.
    pub fn new(width: u32, height: u32) -> (r: RenderLoop)
        requires
            width > 0,
            height > 0,
        ensures
            r@ == (LoopState {
                transform: initial_view(),
                pointer: PointerState { x: 0, y: 0, dragging: false },
                surface: SurfaceDescriptor { width, height },
                stopped: false,
            }),
    {
        RenderLoop {
            view: ViewController::new(),
            pointer: PointerState { x: 0, y: 0, dragging: false },
            surface: SurfaceBinding::new(width, height),
            stopped: false,
        }
    }

    /// Handles one event and returns what the host has to do next.
    pub fn handle(&mut self, e: Event) -> (r: Action)
        ensures
            (final(self)@, r) == step(old(self)@, e),
    {
        if self.stopped {
            return Action::Nothing;
        }
        match e {
            Event::Resized { width, height } => {
                if self.surface.on_resize(width, height) {
                    Action::ResizeSurface { width, height }
                } else {
                    Action::Nothing
                }
            },
            Event::PointerMoved { x, y } => {
                if self.pointer.dragging {
                    let dx = x as i64 - self.pointer.x as i64;
                    let dy = y as i64 - self.pointer.y as i64;
                    self.view.pan(dx, dy);
                }
                self.pointer.x = x;
                self.pointer.y = y;
                Action::Nothing
            },
            Event::LeftPressed => {
                self.pointer.dragging = true;
                Action::Nothing
            },
            Event::LeftReleased => {
                self.pointer.dragging = false;
                Action::Nothing
            },
            Event::Scroll { lines } => {
                self.view.zoom_about(self.pointer.x as i64, self.pointer.y as i64, lines);
                Action::Nothing
            },
            Event::CloseRequested => {
                self.stopped = true;
                Action::Exit
            },
            Event::EventsCleared => Action::RequestRedraw,
            Event::RedrawRequested => {
                let d = self.surface.descriptor();
                Action::Draw { transform: self.view.transform(), width: d.width, height: d.height }
            },
        }
    }

    /// The current view transform.
    pub fn transform(&self) -> (r: Transform)
        ensures
            r == self@.transform,
            r.wf(),
    {
        self.view.transform()
    }

    /// The current pointer state.
    pub fn pointer(&self) -> (r: PointerState)
        ensures
            r == self@.pointer,
    {
        self.pointer
    }

    /// The current surface size.
    pub fn surface(&self) -> (r: SurfaceDescriptor)
        ensures
            r == self@.surface,
    {
        self.surface.descriptor()
    }

    /// Whether a close request has ended the loop.
    pub fn is_stopped(&self) -> (r: bool)
        ensures
            r == self@.stopped,
    {
        self.stopped
    }
}

} // verus!
