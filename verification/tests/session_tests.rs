use handmade_hero::geometry::FrameGeometry;
use handmade_hero::input::LogicalKey;
use handmade_hero::session::{
    Action, Event, InterfaceKind, Phase, ProtocolError, Session, SetupError, classify_interface,
};

fn test_geometry() -> FrameGeometry {
    FrameGeometry::new(1920, 1080, 4).expect("well formed")
}

fn advertise(session: &mut Session, interface: InterfaceKind) -> Vec<Action> {
    session
        .handle_event(Event::Global { name: 1, interface, version: 1 })
        .expect("globals are accepted")
}

/// A session with all four required globals bound and the surface role
/// assigned, ready for its first configure event.
fn surface_ready_session() -> Session {
    let mut session = Session::new(test_geometry());
    advertise(&mut session, InterfaceKind::Shm);
    advertise(&mut session, InterfaceKind::Seat);
    advertise(&mut session, InterfaceKind::Compositor);
    advertise(&mut session, InterfaceKind::WmBase);
    session.registry_complete().expect("all globals bound");
    session.create_surface_actions().expect("registry bound");
    session
}

#[test]
fn classify_interface_recognises_required_names() {
    assert_eq!(classify_interface("wl_shm"), InterfaceKind::Shm);
    assert_eq!(classify_interface("wl_seat"), InterfaceKind::Seat);
    assert_eq!(classify_interface("wl_compositor"), InterfaceKind::Compositor);
    assert_eq!(classify_interface("xdg_wm_base"), InterfaceKind::WmBase);
    assert_eq!(classify_interface("wl_output"), InterfaceKind::Other);
    assert_eq!(classify_interface(""), InterfaceKind::Other);
}

#[test]
fn globals_bind_exactly_once() {
    let mut session = Session::new(test_geometry());
    let first = advertise(&mut session, InterfaceKind::Shm);
    assert_eq!(first, vec![Action::Bind { name: 1, interface: InterfaceKind::Shm, version: 1 }]);
    let second = advertise(&mut session, InterfaceKind::Shm);
    assert_eq!(second, vec![]);
    let ignored = advertise(&mut session, InterfaceKind::Other);
    assert_eq!(ignored, vec![]);
}

#[test]
fn registry_complete_names_first_missing_global() {
    let mut session = Session::new(test_geometry());
    assert_eq!(session.registry_complete(), Err(SetupError::MissingShm));
    advertise(&mut session, InterfaceKind::Shm);
    assert_eq!(session.registry_complete(), Err(SetupError::MissingSeat));
    advertise(&mut session, InterfaceKind::Seat);
    assert_eq!(session.registry_complete(), Err(SetupError::MissingCompositor));
    advertise(&mut session, InterfaceKind::Compositor);
    assert_eq!(session.registry_complete(), Err(SetupError::MissingWmBase));
    advertise(&mut session, InterfaceKind::WmBase);
    assert_eq!(session.registry_complete(), Ok(()));
    assert_eq!(session.phase, Phase::RegistryBound);
    assert_eq!(session.registry_complete(), Err(SetupError::WrongPhase));
}

#[test]
fn surface_role_actions_in_order() {
    let mut session = Session::new(test_geometry());
    assert_eq!(session.create_surface_actions(), Err(SetupError::WrongPhase));
    advertise(&mut session, InterfaceKind::Shm);
    advertise(&mut session, InterfaceKind::Seat);
    advertise(&mut session, InterfaceKind::Compositor);
    advertise(&mut session, InterfaceKind::WmBase);
    session.registry_complete().expect("all globals bound");
    let actions = session.create_surface_actions().expect("registry bound");
    assert_eq!(
        actions,
        vec![
            Action::CreateSurface,
            Action::AssignXdgSurfaceRole,
            Action::AssignToplevelRole,
            Action::SetTitle,
            Action::Commit,
            Action::RequestFrameCallback { prev_time: None },
        ]
    );
    assert_eq!(session.phase, Phase::SurfaceCreated);
}

#[test]
fn configure_is_acked_before_any_attach() {
    let mut session = surface_ready_session();
    let actions = session
        .handle_event(Event::SurfaceConfigure { serial: 42 })
        .expect("configure is expected once the surface exists");

    let acks: Vec<usize> = actions
        .iter()
        .enumerate()
        .filter(|(_, a)| matches!(a, Action::AckConfigure { .. }))
        .map(|(i, _)| i)
        .collect();
    assert_eq!(acks.len(), 1, "exactly one acknowledgement");
    assert!(matches!(actions[acks[0]], Action::AckConfigure { serial: 42 }));

    let first_attach = actions
        .iter()
        .position(|a| matches!(a, Action::AttachBuffer))
        .expect("the configure handler attaches a buffer");
    assert!(acks[0] < first_attach, "acknowledgement precedes the attach");
    assert_eq!(session.phase, Phase::Configured);
}

#[test]
fn configure_before_surface_is_an_error() {
    let mut session = Session::new(test_geometry());
    assert_eq!(
        session.handle_event(Event::SurfaceConfigure { serial: 1 }),
        Err(ProtocolError::UnexpectedEvent)
    );
}

#[test]
fn frame_done_paces_the_next_frame() {
    let mut session = surface_ready_session();
    session.handle_event(Event::SurfaceConfigure { serial: 1 }).expect("configure");
    let actions = session.handle_event(Event::FrameDone { time: 1000 }).expect("paced frame");
    assert_eq!(
        actions,
        vec![
            Action::ProduceFrame { size: 8_294_400 },
            Action::AttachBuffer,
            Action::DamageFull { width: 1920, height: 1080 },
            Action::RequestFrameCallback { prev_time: Some(1000) },
            Action::Commit,
        ]
    );
    assert_eq!(session.phase, Phase::Running);
}

#[test]
fn frame_done_before_configure_attaches_nothing() {
    let mut session = surface_ready_session();
    let actions = session.handle_event(Event::FrameDone { time: 5 }).expect("ignored");
    assert_eq!(actions, vec![]);
    assert_eq!(session.phase, Phase::SurfaceCreated);
}

#[test]
fn buffer_release_destroys_exactly_once_per_attach() {
    let mut session = surface_ready_session();
    session.handle_event(Event::SurfaceConfigure { serial: 1 }).expect("configure");
    assert_eq!(session.outstanding_buffers, 1);

    let release = session.handle_event(Event::BufferRelease).expect("matched release");
    assert_eq!(release, vec![Action::DestroyBuffer]);
    assert_eq!(session.outstanding_buffers, 0);

    assert_eq!(
        session.handle_event(Event::BufferRelease),
        Err(ProtocolError::UnexpectedEvent),
        "a release with no outstanding buffer never drives the count negative"
    );
    assert_eq!(session.outstanding_buffers, 0);
}

#[test]
fn ping_is_answered_with_matching_pong() {
    let mut session = surface_ready_session();
    let actions = session.handle_event(Event::Ping { serial: 7 }).expect("wm base is bound");
    assert_eq!(actions, vec![Action::Pong { serial: 7 }]);
}

#[test]
fn ping_before_wm_base_is_an_error() {
    let mut session = Session::new(test_geometry());
    assert_eq!(
        session.handle_event(Event::Ping { serial: 7 }),
        Err(ProtocolError::UnexpectedEvent)
    );
}

#[test]
fn toplevel_configure_updates_nonzero_sizes_only() {
    let mut session = surface_ready_session();
    session.handle_event(Event::ToplevelConfigure { width: 800, height: 600 }).expect("resize");
    assert_eq!(session.geometry.width, 800);
    assert_eq!(session.geometry.height, 600);

    session.handle_event(Event::ToplevelConfigure { width: 0, height: 0 }).expect("no-op");
    assert_eq!(session.geometry.width, 800);
    assert_eq!(session.geometry.height, 600);

    session.handle_event(Event::ToplevelConfigure { width: -4, height: 600 }).expect("no-op");
    assert_eq!(session.geometry.width, 800);

    session
        .handle_event(Event::ToplevelConfigure { width: i32::MAX, height: i32::MAX })
        .expect("unrepresentable pool size is ignored");
    assert_eq!(session.geometry.width, 800);
}

#[test]
fn close_request_clears_running_and_quiets_the_session() {
    let mut session = surface_ready_session();
    assert!(session.running);
    session.handle_event(Event::ToplevelClose).expect("close");
    assert!(!session.running);
    assert_eq!(session.phase, Phase::Closed);
    let after = session.handle_event(Event::Ping { serial: 9 }).expect("closed session is quiet");
    assert_eq!(after, vec![]);
}

#[test]
fn seat_capabilities_bind_devices_once() {
    let mut session = surface_ready_session();
    let both = session.handle_event(Event::SeatCapabilities { caps: 3 }).expect("seat bound");
    assert_eq!(both, vec![Action::GetKeyboard, Action::GetPointer]);
    let again = session.handle_event(Event::SeatCapabilities { caps: 3 }).expect("seat bound");
    assert_eq!(again, vec![]);
}

#[test]
fn seat_capabilities_before_seat_is_an_error() {
    let mut session = Session::new(test_geometry());
    assert_eq!(
        session.handle_event(Event::SeatCapabilities { caps: 2 }),
        Err(ProtocolError::UnexpectedEvent)
    );
}

#[test]
fn modifiers_apply_group_uniformly() {
    let mut session = surface_ready_session();
    session.handle_event(Event::SeatCapabilities { caps: 2 }).expect("keyboard");
    session.handle_event(Event::Keymap { xkb_v1: true }).expect("keymap");
    let actions = session
        .handle_event(Event::Modifiers { depressed: 4, latched: 0, locked: 2, group: 9 })
        .expect("keymap compiled");
    assert_eq!(
        actions,
        vec![Action::UpdateModifiers {
            depressed: 4,
            latched: 0,
            locked: 2,
            layout_depressed: 9,
            layout_latched: 9,
            layout_locked: 9,
        }]
    );
}

#[test]
fn modifiers_before_keymap_is_an_error() {
    let mut session = surface_ready_session();
    session.handle_event(Event::SeatCapabilities { caps: 2 }).expect("keyboard");
    assert_eq!(
        session.handle_event(Event::Modifiers { depressed: 0, latched: 0, locked: 0, group: 0 }),
        Err(ProtocolError::MissingKeymap)
    );
}

#[test]
fn key_before_keyboard_is_an_error() {
    let mut session = surface_ready_session();
    assert_eq!(
        session.handle_event(Event::Key { sym: LogicalKey::Up, state: 1 }),
        Err(ProtocolError::UnexpectedEvent)
    );
}

#[test]
fn unsupported_keymap_format_is_ignored() {
    let mut session = surface_ready_session();
    session.handle_event(Event::SeatCapabilities { caps: 2 }).expect("keyboard");
    let actions = session.handle_event(Event::Keymap { xkb_v1: false }).expect("ignored");
    assert_eq!(actions, vec![]);
    assert!(!session.has_keymap);
    let actions = session.handle_event(Event::Keymap { xkb_v1: true }).expect("compiled");
    assert_eq!(actions, vec![Action::CompileKeymap]);
    assert!(session.has_keymap);
}

#[test]
fn frame_delta_is_exact() {
    assert_eq!(Session::frame_delta(1016, 1000), 16);
    assert_eq!(Session::frame_delta(1000, 1000), 0);
}
