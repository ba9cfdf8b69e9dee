//! What the session asks its driver to send to the compositor.

use vstd::prelude::*;
use crate::capability::Capability;

verus! {

/// The version at which every global is bound.
pub const BIND_VERSION: u32 = 1;

/// The key code of the Escape key.
pub const ESCAPE_KEY: u32 = 1;

/// Width and height, in pixels, to which the single pixel is scaled.
pub const WINDOW_SIDE: i32 = 640;

/// A colour as the single-pixel buffer factory takes it: four channels,
/// each spanning the whole range of `u32`.
#[derive(Clone, Copy, Debug, PartialEq, Eq)]
pub struct Color {
    pub red: u32,
    pub green: u32,
    pub blue: u32,
    pub alpha: u32,
}

/// The destination size of the viewport that scales the buffer to the window.
#[derive(Clone, Copy, Debug, PartialEq, Eq)]
pub struct Viewport {
    pub width: i32,
    pub height: i32,
}

/// One request for the driver to send. Requests are performed in the order
/// in which a handler returns them.
#[derive(Clone, Copy, Debug, PartialEq, Eq)]
pub enum Request {
    /// Bind the global announced under `name` as `capability`.
    Bind { name: u32, capability: Capability, version: u32 },
    /// Create the surface through the compositor bound under this name.
    CreateSurface { compositor: u32 },
    /// Wrap the surface in a window-management surface, through the window
    /// manager bound under this name.
    GetXdgSurface { xdg_wm_base: u32 },
    /// Derive the top-level window from the window-management surface.
    GetToplevel,
    /// Give the top-level window the title returned by [`window_title`].
    SetTitle,
    /// Commit the surface.
    Commit,
    /// Allocate the single-pixel buffer of the given colour, through the
    /// buffer manager bound under this name.
    CreateBuffer { single_pixel_buffer_manager: u32, color: Color },
    /// Acknowledge the configure event with this serial.
    AckConfigure { serial: u32 },
    /// Create the viewport of the surface, through the viewporter bound
    /// under this name.
    GetViewport { viewporter: u32 },
    /// Set the viewport's source rectangle, in whole buffer units.
    SetSource { x: i32, y: i32, width: i32, height: i32 },
    /// Set the viewport's destination size, in pixels.
    SetDestination { width: i32, height: i32 },
    /// Attach the buffer to the surface at the given offset.
    Attach { x: i32, y: i32 },
    /// Answer a ping with the same serial, on the window manager that sent it.
    Pong { serial: u32 },
    /// Ask the seat that announced its capabilities for its keyboard.
    GetKeyboard,
}

impl Request {
    /// Whether this request creates a surface.
    pub open spec fn creates_surface(self) -> bool {
        self is CreateSurface
    }

    /// Whether this request allocates a buffer, of whatever colour.
    pub open spec fn creates_buffer(self) -> bool {
        self is CreateBuffer
    }

    /// Whether this request creates a viewport.
    pub open spec fn creates_viewport(self) -> bool {
        self is GetViewport
    }
}

/// The colour of the window: red at half intensity, every other channel zero.
pub open spec fn fill_color() -> Color {
    Color { red: 0x7fff_ffff, green: 0, blue: 0, alpha: 0 }
}

/// The viewport as it is set up on the first configure: a square window.
pub open spec fn square_viewport() -> Viewport {
    Viewport { width: WINDOW_SIDE, height: WINDOW_SIDE }
}

/// The requests that create the window, in the order in which they are sent.
/// The surface is committed once without content, which the protocol asks for
/// before the window can be configured; the buffer is allocated last.
pub open spec fn startup_requests(
    compositor: u32,
    xdg_wm_base: u32,
    single_pixel_buffer_manager: u32,
) -> Seq<Request> {
    seq![
        Request::CreateSurface { compositor },
        Request::GetXdgSurface { xdg_wm_base },
        Request::GetToplevel,
        Request::SetTitle,
        Request::Commit,
        Request::CreateBuffer { single_pixel_buffer_manager, color: fill_color() },
    ]
}

/// The requests that answer a configure event: the acknowledgement first,
/// then, only if no viewport exists yet, its creation and setup, then the
/// buffer attached at the origin and the surface committed.
pub open spec fn configure_requests(serial: u32, viewporter: u32, first: bool) -> Seq<Request> {
    if first {
        seq![
            Request::AckConfigure { serial },
            Request::GetViewport { viewporter },
            Request::SetSource { x: 0, y: 0, width: 1, height: 1 },
            Request::SetDestination { width: WINDOW_SIDE, height: WINDOW_SIDE },
            Request::Attach { x: 0, y: 0 },
            Request::Commit,
        ]
    } else {
        seq![
            Request::AckConfigure { serial },
            Request::Attach { x: 0, y: 0 },
            Request::Commit,
        ]
    }
}

/// The fixed title of the window.
pub fn window_title() -> (title: &'static str)
    ensures
        title@ == "My test :^)"@,
{
    "My test :^)"
}

} // verus!
