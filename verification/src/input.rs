//! Keyboard input pipeline: translating raw protocol key codes, recognising
//! the handful of symbols the client reacts to, and maintaining the logical
//! key state read by the render callback.
//!
//! The keymap itself is compiled and queried by an outside keymap library;
//! this module receives the resolved textual symbol and decides what it means.

use vstd::prelude::*;
use crate::text::str_eq;

verus! {

/// Offset between protocol (evdev) key codes and the keymap library's key
/// codes, fixed by protocol convention.
pub const KEYCODE_OFFSET: u32 = 8;

/// Logical state of the four movement keys, written only by this pipeline and
/// read by the render callback.
#[derive(Clone, Copy, PartialEq, Eq, Structural, Debug)]
pub struct KeyState {
    pub up: bool,
    pub left: bool,
    pub right: bool,
    pub down: bool,
}

impl KeyState {
    /// All keys start released.
    pub fn new() -> (r: Self)
        ensures
            r == (KeyState { up: false, left: false, right: false, down: false }),
    {
        KeyState { up: false, left: false, right: false, down: false }
    }
}

/// The symbols this client distinguishes; everything else is a no-op.
#[derive(Clone, Copy, PartialEq, Eq, Structural, Debug)]
pub enum LogicalKey {
    Quit,
    Up,
    Left,
    Down,
    Right,
    Other,
}

/// Meaning of a resolved key symbol.
pub open spec fn spec_classify_symbol(s: Seq<char>) -> LogicalKey {
    if s == "q"@ {
        LogicalKey::Quit
    } else if s == "w"@ {
        LogicalKey::Up
    } else if s == "a"@ {
        LogicalKey::Left
    } else if s == "s"@ {
        LogicalKey::Down
    } else if s == "d"@ {
        LogicalKey::Right
    } else {
        LogicalKey::Other
    }
}

/// Maps the textual symbol a key resolved to onto the client's logical keys.
pub fn classify_symbol(sym: &str) -> (r: LogicalKey)
    ensures
        r == spec_classify_symbol(sym@),
{
    if str_eq(sym, "q") {
        LogicalKey::Quit
    } else if str_eq(sym, "w") {
        LogicalKey::Up
    } else if str_eq(sym, "a") {
        LogicalKey::Left
    } else if str_eq(sym, "s") {
        LogicalKey::Down
    } else if str_eq(sym, "d") {
        LogicalKey::Right
    } else {
        LogicalKey::Other
    }
}

/// The key state after one press (`pressed == true`) or release event for
/// `key`: exactly one movement flag changes; quit and unrecognised symbols
/// leave the state alone.
pub open spec fn spec_key_update(ks: KeyState, key: LogicalKey, pressed: bool) -> KeyState {
    match key {
        LogicalKey::Up => KeyState { up: pressed, ..ks },
        LogicalKey::Left => KeyState { left: pressed, ..ks },
        LogicalKey::Down => KeyState { down: pressed, ..ks },
        LogicalKey::Right => KeyState { right: pressed, ..ks },
        LogicalKey::Quit => ks,
        LogicalKey::Other => ks,
    }
}

/// Applies one press or release event to the logical key state.
pub fn apply_key(ks: &mut KeyState, key: LogicalKey, pressed: bool)
    ensures
        *final(ks) == spec_key_update(*old(ks), key, pressed),
{
    match key {
        LogicalKey::Up => ks.up = pressed,
        LogicalKey::Left => ks.left = pressed,
        LogicalKey::Down => ks.down = pressed,
        LogicalKey::Right => ks.right = pressed,
        LogicalKey::Quit => (),
        LogicalKey::Other => (),
    }
}

/// The simpler feature point of the pipeline: the quit-only variant looks a
/// raw protocol key code up against one fixed physical key instead of
/// resolving it through a keymap.  Every other code means nothing to it.
pub fn classify_keycode(evdev_code: u32, quit_code: u32) -> (r: LogicalKey)
    ensures
        r == (if evdev_code == quit_code {
            LogicalKey::Quit
        } else {
            LogicalKey::Other
        }),
{
    if evdev_code == quit_code {
        LogicalKey::Quit
    } else {
        LogicalKey::Other
    }
}

/// Converts a protocol key code to the keymap library's key code by the fixed
/// protocol offset.
pub fn xkb_keycode(evdev_code: u32) -> (r: u32)
    requires
        evdev_code + KEYCODE_OFFSET <= u32::MAX,
    ensures
        r == evdev_code + KEYCODE_OFFSET,
{
    evdev_code + KEYCODE_OFFSET
}

} // verus!
