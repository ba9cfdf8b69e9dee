use pixel_window::{recognize_interface, window_title, Capability, Color, Event, Request, State, Viewport};

const NAMES: [&str; 5] = [
    "wl_compositor",
    "wp_single_pixel_buffer_manager_v1",
    "wp_viewporter",
    "wl_seat",
    "xdg_wm_base",
];

const FILL: Color = Color { red: 2147483647, green: 0, blue: 0, alpha: 0 };

fn startup(compositor: u32, xdg_wm_base: u32, single_pixel_buffer_manager: u32) -> Vec<Request> {
    vec![
        Request::CreateSurface { compositor },
        Request::GetXdgSurface { xdg_wm_base },
        Request::GetToplevel,
        Request::SetTitle,
        Request::Commit,
        Request::CreateBuffer { single_pixel_buffer_manager, color: FILL },
    ]
}

fn announce(state: &mut State, name: u32, interface: &str) -> Vec<Request> {
    state.dispatch(&Event::Global { name, interface: interface.to_string() })
}

fn initialized() -> State {
    let mut state = State::new();
    for (i, interface) in NAMES.iter().enumerate() {
        announce(&mut state, 10 + i as u32, interface);
    }
    assert!(state.is_initialized());
    state
}

fn permutations(items: Vec<usize>) -> Vec<Vec<usize>> {
    if items.len() <= 1 {
        return vec![items];
    }
    let mut all = Vec::new();
    for i in 0..items.len() {
        let mut rest = items.clone();
        let head = rest.remove(i);
        for mut tail in permutations(rest) {
            tail.insert(0, head);
            all.push(tail);
        }
    }
    all
}

#[test]
fn new_session_has_nothing_bound() {
    let state = State::new();
    assert_eq!(
        state,
        State::Uninitialized {
            compositor: None,
            single_pixel_buffer_manager: None,
            viewporter: None,
            seat: None,
            xdg_wm_base: None,
        }
    );
    assert!(!state.is_initialized());
    assert!(state.should_continue());
    assert_eq!(state.handle(Capability::Seat), None);
}

#[test]
fn every_interface_name_is_recognized() {
    assert_eq!(recognize_interface("wl_compositor"), Some(Capability::Compositor));
    assert_eq!(
        recognize_interface("wp_single_pixel_buffer_manager_v1"),
        Some(Capability::SinglePixelBufferManager)
    );
    assert_eq!(recognize_interface("wp_viewporter"), Some(Capability::Viewporter));
    assert_eq!(recognize_interface("wl_seat"), Some(Capability::Seat));
    assert_eq!(recognize_interface("xdg_wm_base"), Some(Capability::XdgWmBase));
    for capability in [
        Capability::Compositor,
        Capability::SinglePixelBufferManager,
        Capability::Viewporter,
        Capability::Seat,
        Capability::XdgWmBase,
    ] {
        assert_eq!(recognize_interface(capability.interface_name()), Some(capability));
    }
}

#[test]
fn other_interface_names_are_not_recognized() {
    assert_eq!(recognize_interface("wl_shm"), None);
    assert_eq!(recognize_interface(""), None);
    assert_eq!(recognize_interface("WL_SEAT"), None);
    assert_eq!(recognize_interface("wl_seat "), None);
    assert_eq!(recognize_interface("wl_sea"), None);
    assert_eq!(recognize_interface("wl_compositor\0"), None);
}

#[test]
fn unrecognized_global_is_ignored() {
    let mut state = State::new();
    let requests = announce(&mut state, 4, "wl_output");
    assert!(requests.is_empty());
    assert_eq!(state, State::new());
}

#[test]
fn recognized_global_is_bound_at_version_one() {
    let mut state = State::new();
    let requests = state.global(9, "wp_viewporter");
    assert_eq!(
        requests,
        vec![Request::Bind { name: 9, capability: Capability::Viewporter, version: 1 }]
    );
    assert_eq!(state.handle(Capability::Viewporter), Some(9));
    assert_eq!(state.handle(Capability::Compositor), None);
    assert!(!state.is_initialized());
}

#[test]
fn repeated_announcement_replaces_the_handle() {
    let mut state = State::new();
    announce(&mut state, 1, "wl_seat");
    let requests = announce(&mut state, 2, "wl_seat");
    assert_eq!(requests, vec![Request::Bind { name: 2, capability: Capability::Seat, version: 1 }]);
    assert_eq!(state.handle(Capability::Seat), Some(2));
    assert!(!state.is_initialized());
}

#[test]
fn try_initialize_with_fewer_than_five_is_a_no_op() {
    let mut state = State::new();
    assert!(state.try_initialize().is_empty());
    assert_eq!(state, State::new());
    for (i, interface) in NAMES.iter().take(4).enumerate() {
        announce(&mut state, i as u32, interface);
        let before = state;
        assert!(state.try_initialize().is_empty());
        assert_eq!(state, before);
        assert!(!state.is_initialized());
    }
}

#[test]
fn try_initialize_with_all_five_creates_the_window() {
    let mut state = State::Uninitialized {
        compositor: Some(1),
        single_pixel_buffer_manager: Some(2),
        viewporter: Some(3),
        seat: Some(4),
        xdg_wm_base: Some(5),
    };
    let requests = state.try_initialize();
    assert_eq!(requests, startup(1, 5, 2));
    assert_eq!(
        state,
        State::Initialized {
            compositor: 1,
            single_pixel_buffer_manager: 2,
            viewporter: 3,
            seat: 4,
            xdg_wm_base: 5,
            buffer: FILL,
            viewport: None,
            running: true,
        }
    );
}

#[test]
fn try_initialize_never_fires_twice() {
    let mut state = initialized();
    let before = state;
    assert!(state.try_initialize().is_empty());
    assert_eq!(state, before);
}

#[test]
fn fill_color_is_half_red() {
    let mut state = initialized();
    assert_eq!(u32::MAX / 2, 2147483647);
    match state {
        State::Initialized { buffer, .. } => {
            assert_eq!(buffer, Color { red: u32::MAX / 2, green: 0, blue: 0, alpha: 0 })
        }
        State::Uninitialized { .. } => panic!("not initialized"),
    }
    assert!(state.try_initialize().is_empty());
}

#[test]
fn every_order_initializes_exactly_once() {
    let orders = permutations(vec![0, 1, 2, 3, 4]);
    assert_eq!(orders.len(), 120);
    for order in orders {
        let mut state = State::new();
        let mut surfaces = 0;
        let mut buffers = 0;
        for (seen, which) in order.iter().enumerate() {
            assert!(!state.is_initialized());
            let requests = announce(&mut state, *which as u32, NAMES[*which]);
            surfaces +=
                requests.iter().filter(|r| matches!(r, Request::CreateSurface { .. })).count();
            buffers +=
                requests.iter().filter(|r| matches!(r, Request::CreateBuffer { .. })).count();
            assert_eq!(state.is_initialized(), seen == 4);
            if seen < 4 {
                assert_eq!(requests.len(), 1);
            } else {
                assert_eq!(requests.len(), 7);
                assert_eq!(requests[1..].to_vec(), startup(0, 4, 1));
            }
        }
        assert_eq!(surfaces, 1);
        assert_eq!(buffers, 1);
        assert_eq!(
            state,
            State::Initialized {
                compositor: 0,
                single_pixel_buffer_manager: 1,
                viewporter: 2,
                seat: 3,
                xdg_wm_base: 4,
                buffer: FILL,
                viewport: None,
                running: true,
            }
        );
    }
}

#[test]
fn global_after_initialization_is_bound_but_not_recorded() {
    let mut state = initialized();
    let before = state;
    let requests = announce(&mut state, 77, "wl_seat");
    assert_eq!(requests, vec![Request::Bind { name: 77, capability: Capability::Seat, version: 1 }]);
    assert_eq!(state, before);
    assert_eq!(state.handle(Capability::Seat), Some(13));
}

#[test]
fn first_configure_creates_the_viewport() {
    let mut state = initialized();
    let requests = state.configure(21);
    assert_eq!(
        requests,
        vec![
            Request::AckConfigure { serial: 21 },
            Request::GetViewport { viewporter: 12 },
            Request::SetSource { x: 0, y: 0, width: 1, height: 1 },
            Request::SetDestination { width: 640, height: 640 },
            Request::Attach { x: 0, y: 0 },
            Request::Commit,
        ]
    );
    match state {
        State::Initialized { viewport, running, .. } => {
            assert_eq!(viewport, Some(Viewport { width: 640, height: 640 }));
            assert!(running);
        }
        State::Uninitialized { .. } => panic!("not initialized"),
    }
}

#[test]
fn second_configure_keeps_the_viewport() {
    let mut state = initialized();
    state.configure(1);
    let before = state;
    let requests = state.dispatch(&Event::Configure { serial: 2 });
    assert_eq!(
        requests,
        vec![
            Request::AckConfigure { serial: 2 },
            Request::Attach { x: 0, y: 0 },
            Request::Commit,
        ]
    );
    assert_eq!(state, before);
}

#[test]
fn configure_is_acknowledged_before_attach_and_commit() {
    let mut state = initialized();
    for serial in [5u32, 6, 0, u32::MAX] {
        let requests = state.configure(serial);
        let ack = requests.iter().position(|r| *r == Request::AckConfigure { serial }).unwrap();
        let attach = requests.iter().position(|r| matches!(r, Request::Attach { .. })).unwrap();
        let commit = requests.iter().position(|r| *r == Request::Commit).unwrap();
        assert_eq!(ack, 0);
        assert!(ack < attach);
        assert!(attach < commit);
        assert_eq!(commit, requests.len() - 1);
    }
}

#[test]
fn configure_before_initialization_is_ignored() {
    let mut state = State::new();
    announce(&mut state, 1, "wl_compositor");
    let before = state;
    assert!(state.configure(3).is_empty());
    assert_eq!(state, before);
}

#[test]
fn close_stops_an_initialized_session() {
    let mut state = initialized();
    state.close();
    assert!(!state.should_continue());
    assert!(state.is_initialized());

    let mut configured = initialized();
    configured.configure(1);
    assert!(configured.dispatch(&Event::Close).is_empty());
    assert!(!configured.should_continue());
    match configured {
        State::Initialized { viewport, .. } => assert!(viewport.is_some()),
        State::Uninitialized { .. } => panic!("not initialized"),
    }

    configured.close();
    assert!(!configured.should_continue());
}

#[test]
fn close_before_initialization_is_ignored() {
    let mut state = State::new();
    state.close();
    assert_eq!(state, State::new());
    assert!(state.should_continue());
}

#[test]
fn escape_stops_and_other_keys_do_not() {
    let mut state = initialized();
    for key in [0u32, 2, 28, 57, u32::MAX] {
        let before = state;
        state.key(key);
        assert_eq!(state, before);
        assert!(state.should_continue());
    }
    assert!(state.dispatch(&Event::Key { key: 1 }).is_empty());
    assert!(!state.should_continue());
    state.key(30);
    assert!(!state.should_continue());
}

#[test]
fn escape_before_initialization_is_ignored() {
    let mut state = State::new();
    state.key(1);
    assert_eq!(state, State::new());
}

#[test]
fn ping_is_answered_with_the_same_serial() {
    let mut state = State::new();
    assert_eq!(state.ping(99), vec![Request::Pong { serial: 99 }]);
    assert_eq!(state.dispatch(&Event::Ping { serial: 0 }), vec![Request::Pong { serial: 0 }]);
    assert_eq!(state, State::new());
    let mut later = initialized();
    let before = later;
    assert_eq!(later.dispatch(&Event::Ping { serial: 5 }), vec![Request::Pong { serial: 5 }]);
    assert_eq!(later, before);
}

#[test]
fn keyboard_is_requested_when_its_bit_is_set() {
    let mut state = initialized();
    let before = state;
    assert_eq!(state.seat_capabilities(Some(2)), vec![Request::GetKeyboard]);
    assert_eq!(state.seat_capabilities(Some(3)), vec![Request::GetKeyboard]);
    assert_eq!(state.seat_capabilities(Some(7)), vec![Request::GetKeyboard]);
    assert_eq!(
        state.dispatch(&Event::Capabilities { capabilities: Some(6) }),
        vec![Request::GetKeyboard]
    );
    assert!(state.seat_capabilities(Some(0)).is_empty());
    assert!(state.seat_capabilities(Some(1)).is_empty());
    assert!(state.seat_capabilities(Some(4)).is_empty());
    assert!(state.seat_capabilities(Some(5)).is_empty());
    assert!(state.seat_capabilities(None).is_empty());
    assert!(state.dispatch(&Event::Capabilities { capabilities: None }).is_empty());
    assert_eq!(state, before);
    assert_eq!(State::new().seat_capabilities(Some(2)), vec![Request::GetKeyboard]);
}

#[test]
fn window_title_is_fixed() {
    assert_eq!(window_title(), "My test :^)");
}

#[test]
fn seat_first_then_the_rest_then_configure_then_close() {
    let mut state = State::new();
    let requests = announce(&mut state, 1, "wl_seat");
    assert_eq!(requests, vec![Request::Bind { name: 1, capability: Capability::Seat, version: 1 }]);
    assert!(state.try_initialize().is_empty());
    assert!(!state.is_initialized());
    assert!(state.should_continue());

    announce(&mut state, 2, "xdg_wm_base");
    announce(&mut state, 3, "wp_viewporter");
    announce(&mut state, 4, "wl_compositor");
    assert!(!state.is_initialized());
    let requests = announce(&mut state, 5, "wp_single_pixel_buffer_manager_v1");
    let mut expected = vec![Request::Bind {
        name: 5,
        capability: Capability::SinglePixelBufferManager,
        version: 1,
    }];
    expected.extend(startup(4, 2, 5));
    assert_eq!(requests, expected);
    assert_eq!(
        state,
        State::Initialized {
            compositor: 4,
            single_pixel_buffer_manager: 5,
            viewporter: 3,
            seat: 1,
            xdg_wm_base: 2,
            buffer: FILL,
            viewport: None,
            running: true,
        }
    );

    let requests = state.dispatch(&Event::Configure { serial: 7 });
    assert_eq!(requests[0], Request::AckConfigure { serial: 7 });
    assert_eq!(requests[1], Request::GetViewport { viewporter: 3 });
    assert_eq!(requests[requests.len() - 2], Request::Attach { x: 0, y: 0 });
    assert_eq!(requests[requests.len() - 1], Request::Commit);
    match state {
        State::Initialized { viewport, running, .. } => {
            assert!(viewport.is_some());
            assert!(running);
        }
        State::Uninitialized { .. } => panic!("not initialized"),
    }

    state.dispatch(&Event::Close);
    assert!(!state.should_continue());
}

#[test]
fn objects_are_created_once_over_a_long_run() {
    let mut state = State::new();
    let mut sent: Vec<Request> = Vec::new();
    let events = vec![
        Event::Configure { serial: 1 },
        Event::Global { name: 1, interface: "wl_seat".to_string() },
        Event::Global { name: 2, interface: "wl_shm".to_string() },
        Event::Capabilities { capabilities: Some(3) },
        Event::Global { name: 3, interface: "wl_compositor".to_string() },
        Event::Global { name: 4, interface: "wl_seat".to_string() },
        Event::Key { key: 1 },
        Event::Close,
        Event::Global { name: 5, interface: "xdg_wm_base".to_string() },
        Event::Global { name: 6, interface: "wp_viewporter".to_string() },
        Event::Global { name: 7, interface: "wp_single_pixel_buffer_manager_v1".to_string() },
        Event::Global { name: 8, interface: "wl_compositor".to_string() },
        Event::Ping { serial: 9 },
        Event::Configure { serial: 2 },
        Event::Configure { serial: 3 },
        Event::Key { key: 16 },
        Event::Configure { serial: 4 },
    ];
    for event in &events {
        sent.extend(state.dispatch(event));
    }
    assert!(state.should_continue());
    assert_eq!(sent.iter().filter(|r| **r == Request::CreateSurface { compositor: 3 }).count(), 1);
    assert_eq!(sent.iter().filter(|r| matches!(r, Request::CreateSurface { .. })).count(), 1);
    assert_eq!(sent.iter().filter(|r| matches!(r, Request::CreateBuffer { .. })).count(), 1);
    assert_eq!(sent.iter().filter(|r| matches!(r, Request::GetViewport { .. })).count(), 1);
    assert_eq!(sent.iter().filter(|r| matches!(r, Request::AckConfigure { .. })).count(), 3);
    assert_eq!(sent.iter().filter(|r| matches!(r, Request::Attach { .. })).count(), 3);
    assert_eq!(state.handle(Capability::Compositor), Some(3));
    assert_eq!(state.handle(Capability::Seat), Some(4));
}
