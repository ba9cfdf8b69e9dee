//! The session: two phases, the events that move it, and the requests each
//! event is answered with.

use vstd::prelude::*;
use crate::capability::{has_keyboard, keyboard_bit_set, recognize, recognize_interface, Capability};
use crate::request::{
    configure_requests, fill_color, square_viewport, startup_requests, Color, Request, Viewport,
    BIND_VERSION, ESCAPE_KEY, WINDOW_SIDE,
};

verus! {

/// An event from the compositor, reduced to what the session reads of it.
#[derive(Clone, Debug, PartialEq, Eq)]
pub enum Event {
    /// The registry announces a global under a numeric name.
    Global { name: u32, interface: String },
    /// The window manager checks that the client is alive.
    Ping { serial: u32 },
    /// The window-management surface is configured.
    Configure { serial: u32 },
    /// The user or the compositor asks for the window to be closed.
    Close,
    /// The seat announces its capabilities: the bitmask, or `None` where it
    /// holds a bit that the protocol does not define.
    Capabilities { capabilities: Option<u32> },
    /// A key changed state.
    Key { key: u32 },
}

/// The session. A bound global is held as the numeric name under which the
/// registry announced it.
#[derive(Clone, Copy, Debug, PartialEq, Eq)]
pub enum State {
    /// Not every global is bound yet, and no window exists.
    Uninitialized {
        compositor: Option<u32>,
        single_pixel_buffer_manager: Option<u32>,
        viewporter: Option<u32>,
        seat: Option<u32>,
        xdg_wm_base: Option<u32>,
    },
    /// All five globals are bound; surface, window and buffer exist.
    Initialized {
        compositor: u32,
        single_pixel_buffer_manager: u32,
        viewporter: u32,
        seat: u32,
        xdg_wm_base: u32,
        buffer: Color,
        viewport: Option<Viewport>,
        running: bool,
    },
}

/// The requests that answer a seat's capability announcement: the keyboard is
/// asked for exactly when the bitmask is a known one with the keyboard bit set.
pub open spec fn keyboard_requests(capabilities: Option<u32>) -> Seq<Request> {
    match capabilities {
        Some(bits) if keyboard_bit_set(bits) => seq![Request::GetKeyboard],
        _ => Seq::empty(),
    }
}

impl State {
    /// The session before any event: nothing bound.
    pub open spec fn fresh() -> State {
        State::Uninitialized {
            compositor: None,
            single_pixel_buffer_manager: None,
            viewporter: None,
            seat: None,
            xdg_wm_base: None,
        }
    }

    /// Whether the window has been created.
    pub open spec fn initialized(self) -> bool {
        self is Initialized
    }

    /// The name under which `capability` was bound, if it is bound.
    pub open spec fn bound(self, capability: Capability) -> Option<u32> {
        match self {
            State::Uninitialized {
                compositor,
                single_pixel_buffer_manager,
                viewporter,
                seat,
                xdg_wm_base,
            } => match capability {
                Capability::Compositor => compositor,
                Capability::SinglePixelBufferManager => single_pixel_buffer_manager,
                Capability::Viewporter => viewporter,
                Capability::Seat => seat,
                Capability::XdgWmBase => xdg_wm_base,
            },
            State::Initialized {
                compositor,
                single_pixel_buffer_manager,
                viewporter,
                seat,
                xdg_wm_base,
                ..
            } => match capability {
                Capability::Compositor => Some(compositor),
                Capability::SinglePixelBufferManager => Some(single_pixel_buffer_manager),
                Capability::Viewporter => Some(viewporter),
                Capability::Seat => Some(seat),
                Capability::XdgWmBase => Some(xdg_wm_base),
            },
        }
    }

    /// Whether the session is uninitialized with all five globals bound: the
    /// one condition under which the window is created.
    pub open spec fn ready(self) -> bool {
        !self.initialized() && forall|capability: Capability|
            (#[trigger] self.bound(capability)).is_some()
    }

    /// What a session is between two events: an uninitialized one is never
    /// ready, and an initialized one holds the buffer of the fixed colour and
    /// either no viewport or the square one.
    pub open spec fn wf(self) -> bool {
        match self {
            State::Uninitialized { .. } => !self.ready(),
            State::Initialized { buffer, viewport, .. } => {
                &&& buffer == fill_color()
                &&& viewport.is_none() || viewport == Some(square_viewport())
            },
        }
    }

    /// The session with `capability` recorded as bound under `name`. Only an
    /// uninitialized session records anything.
    pub open spec fn with_bound(self, capability: Capability, name: u32) -> State {
        match self {
            State::Uninitialized {
                compositor,
                single_pixel_buffer_manager,
                viewporter,
                seat,
                xdg_wm_base,
            } => State::Uninitialized {
                compositor: if capability == Capability::Compositor {
                    Some(name)
                } else {
                    compositor
                },
                single_pixel_buffer_manager: if capability
                    == Capability::SinglePixelBufferManager {
                    Some(name)
                } else {
                    single_pixel_buffer_manager
                },
                viewporter: if capability == Capability::Viewporter {
                    Some(name)
                } else {
                    viewporter
                },
                seat: if capability == Capability::Seat {
                    Some(name)
                } else {
                    seat
                },
                xdg_wm_base: if capability == Capability::XdgWmBase {
                    Some(name)
                } else {
                    xdg_wm_base
                },
            },
            State::Initialized { .. } => self,
        }
    }

    /// The session after an attempt to initialize: a ready session becomes
    /// the initialized one over the same five globals, running and without a
    /// viewport; any other session is unchanged.
    pub open spec fn initialized_if_ready(self) -> State {
        match self {
            State::Uninitialized {
                compositor: Some(compositor),
                single_pixel_buffer_manager: Some(single_pixel_buffer_manager),
                viewporter: Some(viewporter),
                seat: Some(seat),
                xdg_wm_base: Some(xdg_wm_base),
            } => State::Initialized {
                compositor,
                single_pixel_buffer_manager,
                viewporter,
                seat,
                xdg_wm_base,
                buffer: fill_color(),
                viewport: None,
                running: true,
            },
            _ => self,
        }
    }

    /// The requests an attempt to initialize sends: those that create the
    /// window when the session is ready, none otherwise.
    pub open spec fn initialization_requests(self) -> Seq<Request> {
        match self {
            State::Uninitialized {
                compositor: Some(compositor),
                single_pixel_buffer_manager: Some(single_pixel_buffer_manager),
                viewporter: Some(_),
                seat: Some(_),
                xdg_wm_base: Some(xdg_wm_base),
            } => startup_requests(compositor, xdg_wm_base, single_pixel_buffer_manager),
            _ => Seq::empty(),
        }
    }

    /// The session after the registry announced `interface` under `name`.
    pub open spec fn after_global(self, name: u32, interface: Seq<char>) -> State {
        match recognize(interface) {
            Some(capability) => self.with_bound(capability, name).initialized_if_ready(),
            None => self,
        }
    }

    /// The requests that answer the announcement of `interface` under `name`:
    /// a recognized global is bound, whatever the phase, and the window is
    /// created if that made the session ready.
    pub open spec fn global_requests(self, name: u32, interface: Seq<char>) -> Seq<Request> {
        match recognize(interface) {
            Some(capability) => seq![Request::Bind { name, capability, version: BIND_VERSION }]
                + self.with_bound(capability, name).initialization_requests(),
            None => Seq::empty(),
        }
    }

    /// Whether a configure event would find no viewport yet.
    pub open spec fn lacks_viewport(self) -> bool {
        match self {
            State::Initialized { viewport, .. } => viewport.is_none(),
            State::Uninitialized { .. } => true,
        }
    }

    /// The session after a configure event: an initialized session has a
    /// viewport from then on, and the one it had is kept.
    pub open spec fn after_configure(self) -> State {
        match self {
            State::Initialized {
                compositor,
                single_pixel_buffer_manager,
                viewporter,
                seat,
                xdg_wm_base,
                buffer,
                viewport,
                running,
            } => State::Initialized {
                compositor,
                single_pixel_buffer_manager,
                viewporter,
                seat,
                xdg_wm_base,
                buffer,
                viewport: if viewport.is_none() {
                    Some(square_viewport())
                } else {
                    viewport
                },
                running,
            },
            State::Uninitialized { .. } => self,
        }
    }

    /// The requests that answer a configure event with this serial; none
    /// before the session is initialized.
    pub open spec fn configure_reply(self, serial: u32) -> Seq<Request> {
        match self {
            State::Initialized { viewporter, viewport, .. } => configure_requests(
                serial,
                viewporter,
                viewport.is_none(),
            ),
            State::Uninitialized { .. } => Seq::empty(),
        }
    }

    /// The session with `running` cleared, if it is initialized.
    pub open spec fn stopped(self) -> State {
        match self {
            State::Initialized {
                compositor,
                single_pixel_buffer_manager,
                viewporter,
                seat,
                xdg_wm_base,
                buffer,
                viewport,
                running,
            } => State::Initialized {
                compositor,
                single_pixel_buffer_manager,
                viewporter,
                seat,
                xdg_wm_base,
                buffer,
                viewport,
                running: false,
            },
            State::Uninitialized { .. } => self,
        }
    }

    /// The session after a key event: stopped by Escape, untouched by any
    /// other key.
    pub open spec fn after_key(self, key: u32) -> State {
        if key == ESCAPE_KEY {
            self.stopped()
        } else {
            self
        }
    }

    /// Whether the driver goes on dispatching: always before initialization,
    /// afterwards as long as `running` holds.
    pub open spec fn keeps_running(self) -> bool {
        match self {
            State::Uninitialized { .. } => true,
            State::Initialized { running, .. } => running,
        }
    }

    /// The session after one event.
    pub open spec fn step(self, event: Event) -> State {
        match event {
            Event::Global { name, interface } => self.after_global(name, interface@),
            Event::Ping { .. } => self,
            Event::Configure { .. } => self.after_configure(),
            Event::Close => self.stopped(),
            Event::Capabilities { .. } => self,
            Event::Key { key } => self.after_key(key),
        }
    }

    /// The requests that answer one event, in the order in which they are sent.
    pub open spec fn requests(self, event: Event) -> Seq<Request> {
        match event {
            Event::Global { name, interface } => self.global_requests(name, interface@),
            Event::Ping { serial } => seq![Request::Pong { serial }],
            Event::Configure { serial } => self.configure_reply(serial),
            Event::Close => Seq::empty(),
            Event::Capabilities { capabilities } => keyboard_requests(capabilities),
            Event::Key { .. } => Seq::empty(),
        }
    }

    /// An attempt to initialize turns a ready session into an initialized,
    /// well-formed one, and leaves any other session as it is.
    pub proof fn lemma_initialized_if_ready(self)
        ensures
            self.ready() ==> self.initialized_if_ready().initialized()
                && self.initialized_if_ready().wf(),
            !self.ready() ==> self.initialized_if_ready() == self
                && self.initialization_requests() == Seq::<Request>::empty(),
            self.ready() ==> self.initialization_requests() == startup_requests(
                self.bound(Capability::Compositor).unwrap(),
                self.bound(Capability::XdgWmBase).unwrap(),
                self.bound(Capability::SinglePixelBufferManager).unwrap(),
            ),
            forall|capability: Capability|
                self.bound(capability).is_some() ==> #[trigger] self.initialized_if_ready().bound(
                    capability,
                ) == self.bound(capability),
    {
        if self.ready() {
            assert(self.bound(Capability::Compositor).is_some());
            assert(self.bound(Capability::SinglePixelBufferManager).is_some());
            assert(self.bound(Capability::Viewporter).is_some());
            assert(self.bound(Capability::Seat).is_some());
            assert(self.bound(Capability::XdgWmBase).is_some());
        } else if !self.initialized() && self.initialized_if_ready().initialized() {
            assert forall|capability: Capability|
                (#[trigger] self.bound(capability)).is_some() by {}
        }
    }

    /// A session with nothing bound.
    pub fn new() -> (state: State)
        ensures
            state == State::fresh(),
            state.wf(),
    {
        let state = State::Uninitialized {
            compositor: None,
            single_pixel_buffer_manager: None,
            viewporter: None,
            seat: None,
            xdg_wm_base: None,
        };
        assert(state.bound(Capability::Seat).is_none());
        state
    }

    /// Whether the window has been created.
    pub fn is_initialized(&self) -> (yes: bool)
        ensures
            yes == self.initialized(),
    {
        match self {
            State::Initialized { .. } => true,
            State::Uninitialized { .. } => false,
        }
    }

    /// The name under which `capability` was bound, if it is bound.
    pub fn handle(&self, capability: Capability) -> (name: Option<u32>)
        ensures
            name == self.bound(capability),
    {
        match *self {
            State::Uninitialized {
                compositor,
                single_pixel_buffer_manager,
                viewporter,
                seat,
                xdg_wm_base,
            } => match capability {
                Capability::Compositor => compositor,
                Capability::SinglePixelBufferManager => single_pixel_buffer_manager,
                Capability::Viewporter => viewporter,
                Capability::Seat => seat,
                Capability::XdgWmBase => xdg_wm_base,
            },
            State::Initialized {
                compositor,
                single_pixel_buffer_manager,
                viewporter,
                seat,
                xdg_wm_base,
                ..
            } => match capability {
                Capability::Compositor => Some(compositor),
                Capability::SinglePixelBufferManager => Some(single_pixel_buffer_manager),
                Capability::Viewporter => Some(viewporter),
                Capability::Seat => Some(seat),
                Capability::XdgWmBase => Some(xdg_wm_base),
            },
        }
    }

    /// Whether the driver goes on dispatching events.
    pub fn should_continue(&self) -> (yes: bool)
        ensures
            yes == self.keeps_running(),
    {
        match self {
            State::Uninitialized { .. } => true,
            State::Initialized { running, .. } => *running,
        }
    }

    /// Records `capability` as bound under `name` while uninitialized.
    fn bind(&mut self, capability: Capability, name: u32)
        ensures
            *final(self) == old(self).with_bound(capability, name),
    {
        match *self {
            State::Uninitialized {
                compositor,
                single_pixel_buffer_manager,
                viewporter,
                seat,
                xdg_wm_base,
            } => {
                *self = match capability {
                    Capability::Compositor => State::Uninitialized {
                        compositor: Some(name),
                        single_pixel_buffer_manager,
                        viewporter,
                        seat,
                        xdg_wm_base,
                    },
                    Capability::SinglePixelBufferManager => State::Uninitialized {
                        compositor,
                        single_pixel_buffer_manager: Some(name),
                        viewporter,
                        seat,
                        xdg_wm_base,
                    },
                    Capability::Viewporter => State::Uninitialized {
                        compositor,
                        single_pixel_buffer_manager,
                        viewporter: Some(name),
                        seat,
                        xdg_wm_base,
                    },
                    Capability::Seat => State::Uninitialized {
                        compositor,
                        single_pixel_buffer_manager,
                        viewporter,
                        seat: Some(name),
                        xdg_wm_base,
                    },
                    Capability::XdgWmBase => State::Uninitialized {
                        compositor,
                        single_pixel_buffer_manager,
                        viewporter,
                        seat,
                        xdg_wm_base: Some(name),
                    },
                };
            },
            State::Initialized { .. } => {},
        }
    }

    /// Creates the window if, and only if, the session is uninitialized with
    /// all five globals bound. Otherwise it changes nothing and sends
    /// nothing, so it can be called after every partial update.
    pub fn try_initialize(&mut self) -> (requests: Vec<Request>)
        ensures
            *final(self) == old(self).initialized_if_ready(),
            requests@ == old(self).initialization_requests(),
            old(self).ready() ==> final(self).initialized() && final(self).wf(),
            !old(self).ready() ==> *final(self) == *old(self) && requests@.len() == 0,
            old(self).wf() ==> final(self).wf(),
    {
        let mut requests: Vec<Request> = Vec::new();
        match *self {
            State::Uninitialized {
                compositor: Some(compositor),
                single_pixel_buffer_manager: Some(single_pixel_buffer_manager),
                viewporter: Some(viewporter),
                seat: Some(seat),
                xdg_wm_base: Some(xdg_wm_base),
            } => {
                proof {
                    assert forall|capability: Capability|
                        (#[trigger] old(self).bound(capability)).is_some() by {}
                }
                let color = Color { red: u32::MAX / 2, green: 0, blue: 0, alpha: 0 };
                requests.push(Request::CreateSurface { compositor });
                requests.push(Request::GetXdgSurface { xdg_wm_base });
                requests.push(Request::GetToplevel);
                requests.push(Request::SetTitle);
                requests.push(Request::Commit);
                requests.push(Request::CreateBuffer { single_pixel_buffer_manager, color });
                *self = State::Initialized {
                    compositor,
                    single_pixel_buffer_manager,
                    viewporter,
                    seat,
                    xdg_wm_base,
                    buffer: color,
                    viewport: None,
                    running: true,
                };
                assert(requests@ =~= old(self).initialization_requests());
            },
            _ => {
                proof {
                    if old(self).ready() {
                        assert(old(self).bound(Capability::Compositor).is_some());
                        assert(old(self).bound(Capability::SinglePixelBufferManager).is_some());
                        assert(old(self).bound(Capability::Viewporter).is_some());
                        assert(old(self).bound(Capability::Seat).is_some());
                        assert(old(self).bound(Capability::XdgWmBase).is_some());
                    }
                }
            },
        }
        requests
    }

    /// Handles the registry's announcement of a global. A recognized
    /// interface is bound at version 1 and recorded, and initialization is
    /// attempted; an unrecognized one is ignored.
    pub fn global(&mut self, name: u32, interface: &str) -> (requests: Vec<Request>)
        ensures
            *final(self) == old(self).after_global(name, interface@),
            requests@ == old(self).global_requests(name, interface@),
            recognize(interface@).is_none() ==> *final(self) == *old(self) && requests@.len() == 0,
            old(self).wf() ==> final(self).wf(),
    {
        let mut requests: Vec<Request> = Vec::new();
        match recognize_interface(interface) {
            Some(capability) => {
                requests.push(Request::Bind { name, capability, version: BIND_VERSION });
                self.bind(capability, name);
                let mut startup = self.try_initialize();
                requests.append(&mut startup);
            },
            None => {},
        }
        requests
    }

    /// Answers the window manager's ping with a pong of the same serial.
    pub fn ping(&self, serial: u32) -> (requests: Vec<Request>)
        ensures
            requests@ == seq![Request::Pong { serial }],
    {
        let mut requests: Vec<Request> = Vec::new();
        requests.push(Request::Pong { serial });
        requests
    }

    /// Handles a configure event. An initialized session acknowledges the
    /// serial first, creates and sets up the viewport if it has none, then
    /// attaches the buffer at the origin and commits. An uninitialized
    /// session ignores the event.
    pub fn configure(&mut self, serial: u32) -> (requests: Vec<Request>)
        ensures
            *final(self) == old(self).after_configure(),
            requests@ == old(self).configure_reply(serial),
            old(self).initialized() ==> requests@[0] == (Request::AckConfigure { serial })
                && !final(self).lacks_viewport(),
            old(self).initialized() && !old(self).lacks_viewport() ==> *final(self) == *old(self),
            !old(self).initialized() ==> *final(self) == *old(self) && requests@.len() == 0,
            old(self).wf() ==> final(self).wf(),
    {
        let mut requests: Vec<Request> = Vec::new();
        match *self {
            State::Initialized {
                compositor,
                single_pixel_buffer_manager,
                viewporter,
                seat,
                xdg_wm_base,
                buffer,
                viewport,
                running,
            } => {
                requests.push(Request::AckConfigure { serial });
                if viewport.is_none() {
                    requests.push(Request::GetViewport { viewporter });
                    requests.push(Request::SetSource { x: 0, y: 0, width: 1, height: 1 });
                    requests.push(
                        Request::SetDestination { width: WINDOW_SIDE, height: WINDOW_SIDE },
                    );
                    *self = State::Initialized {
                        compositor,
                        single_pixel_buffer_manager,
                        viewporter,
                        seat,
                        xdg_wm_base,
                        buffer,
                        viewport: Some(Viewport { width: WINDOW_SIDE, height: WINDOW_SIDE }),
                        running,
                    };
                }
                requests.push(Request::Attach { x: 0, y: 0 });
                requests.push(Request::Commit);
                assert(requests@ =~= old(self).configure_reply(serial));
            },
            State::Uninitialized { .. } => {},
        }
        requests
    }

    /// Handles a close request: an initialized session stops running.
    pub fn close(&mut self)
        ensures
            *final(self) == old(self).stopped(),
            old(self).initialized() ==> !final(self).keeps_running(),
            !old(self).initialized() ==> *final(self) == *old(self),
            old(self).wf() ==> final(self).wf(),
    {
        match *self {
            State::Initialized {
                compositor,
                single_pixel_buffer_manager,
                viewporter,
                seat,
                xdg_wm_base,
                buffer,
                viewport,
                ..
            } => {
                *self = State::Initialized {
                    compositor,
                    single_pixel_buffer_manager,
                    viewporter,
                    seat,
                    xdg_wm_base,
                    buffer,
                    viewport,
                    running: false,
                };
            },
            State::Uninitialized { .. } => {},
        }
    }

    /// Handles a seat's capability announcement: asks for the keyboard when
    /// the bitmask is a known one with the keyboard bit set.
    pub fn seat_capabilities(&self, capabilities: Option<u32>) -> (requests: Vec<Request>)
        ensures
            requests@ == keyboard_requests(capabilities),
    {
        let mut requests: Vec<Request> = Vec::new();
        match capabilities {
            Some(bits) => {
                if has_keyboard(bits) {
                    requests.push(Request::GetKeyboard);
                }
            },
            None => {},
        }
        assert(requests@ =~= keyboard_requests(capabilities));
        requests
    }

    /// Handles a key event: Escape stops an initialized session, and any
    /// other key changes nothing.
    pub fn key(&mut self, key: u32)
        ensures
            *final(self) == old(self).after_key(key),
            key == ESCAPE_KEY && old(self).initialized() ==> !final(self).keeps_running(),
            key != ESCAPE_KEY ==> *final(self) == *old(self),
            old(self).wf() ==> final(self).wf(),
    {
        if key == ESCAPE_KEY {
            self.close();
        }
    }

    /// Handles one event: moves the session and returns the requests to
    /// send, in order.
    pub fn dispatch(&mut self, event: &Event) -> (requests: Vec<Request>)
        ensures
            *final(self) == old(self).step(*event),
            requests@ == old(self).requests(*event),
            old(self).wf() ==> final(self).wf(),
    {
        match event {
            Event::Global { name, interface } => self.global(*name, interface.as_str()),
            Event::Ping { serial } => self.ping(*serial),
            Event::Configure { serial } => self.configure(*serial),
            Event::Close => {
                self.close();
                Vec::new()
            },
            Event::Capabilities { capabilities } => self.seat_capabilities(*capabilities),
            Event::Key { key } => {
                self.key(*key);
                Vec::new()
            },
        }
    }
}

} // verus!
