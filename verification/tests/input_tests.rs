use handmade_hero::geometry::FrameGeometry;
use handmade_hero::input::{KeyState, LogicalKey, classify_keycode, classify_symbol, xkb_keycode};
use handmade_hero::session::{Event, InterfaceKind, Session};

/// A session whose keyboard is bound and keymap compiled, so key events are
/// decodable.
fn keyboard_session() -> Session {
    let geometry = FrameGeometry::new(1920, 1080, 4).expect("well formed");
    let mut session = Session::new(geometry);
    for interface in [
        InterfaceKind::Shm,
        InterfaceKind::Seat,
        InterfaceKind::Compositor,
        InterfaceKind::WmBase,
    ] {
        session
            .handle_event(Event::Global { name: 1, interface, version: 1 })
            .expect("globals are accepted");
    }
    session.registry_complete().expect("all globals bound");
    session.create_surface_actions().expect("registry bound");
    session.handle_event(Event::SeatCapabilities { caps: 2 }).expect("keyboard");
    session.handle_event(Event::Keymap { xkb_v1: true }).expect("keymap");
    session
}

fn press(session: &mut Session, sym: LogicalKey) {
    session.handle_event(Event::Key { sym, state: 1 }).expect("press decodes");
}

fn release(session: &mut Session, sym: LogicalKey) {
    session.handle_event(Event::Key { sym, state: 0 }).expect("release decodes");
}

#[test]
fn classify_symbol_recognises_the_five_symbols() {
    assert_eq!(classify_symbol("q"), LogicalKey::Quit);
    assert_eq!(classify_symbol("w"), LogicalKey::Up);
    assert_eq!(classify_symbol("a"), LogicalKey::Left);
    assert_eq!(classify_symbol("s"), LogicalKey::Down);
    assert_eq!(classify_symbol("d"), LogicalKey::Right);
    assert_eq!(classify_symbol("x"), LogicalKey::Other);
    assert_eq!(classify_symbol(""), LogicalKey::Other);
    assert_eq!(classify_symbol("ww"), LogicalKey::Other);
}

#[test]
fn key_state_starts_released() {
    let ks = KeyState::new();
    assert!(!ks.up && !ks.left && !ks.right && !ks.down);
}

#[test]
fn press_then_release_leaves_key_up() {
    let mut session = keyboard_session();
    press(&mut session, LogicalKey::Left);
    assert!(session.keystate.left);
    release(&mut session, LogicalKey::Left);
    assert!(!session.keystate.left);
    assert!(session.running);
}

#[test]
fn simultaneous_presses_hold_both_keys() {
    let mut session = keyboard_session();
    press(&mut session, LogicalKey::Up);
    press(&mut session, LogicalKey::Right);
    assert!(session.keystate.up);
    assert!(session.keystate.right);
    assert!(!session.keystate.left);
    assert!(!session.keystate.down);
}

#[test]
fn quit_press_clears_running_despite_held_keys() {
    let mut session = keyboard_session();
    press(&mut session, LogicalKey::Up);
    press(&mut session, LogicalKey::Right);
    press(&mut session, LogicalKey::Quit);
    assert!(!session.running);
}

#[test]
fn quit_release_is_a_no_op() {
    let mut session = keyboard_session();
    release(&mut session, LogicalKey::Quit);
    assert!(session.running);
}

#[test]
fn unknown_symbols_and_states_are_no_ops() {
    let mut session = keyboard_session();
    press(&mut session, LogicalKey::Other);
    let ks = session.keystate;
    assert!(!ks.up && !ks.left && !ks.right && !ks.down);
    session
        .handle_event(Event::Key { sym: LogicalKey::Up, state: 2 })
        .expect("unknown key state is ignored");
    assert!(!session.keystate.up);
}

#[test]
fn raw_keycode_variant_detects_only_quit() {
    assert_eq!(classify_keycode(16, 16), LogicalKey::Quit);
    assert_eq!(classify_keycode(17, 16), LogicalKey::Other);
    assert_eq!(classify_keycode(0, 16), LogicalKey::Other);
}

#[test]
fn keycode_offset_is_eight() {
    assert_eq!(xkb_keycode(30), 38);
    assert_eq!(xkb_keycode(0), 8);
}
