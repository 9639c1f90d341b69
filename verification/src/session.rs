//! The protocol session: a state machine from bootstrap phase and incoming
//! event to next phase and the requests the client must send.
//!
//! The unverified shell owns the connection.  It classifies each incoming
//! protocol event into an [`Event`], calls [`Session::handle_event`], and then
//! performs the returned [`Action`]s in order on the real protocol objects.
//! All sequencing rules live here: which globals to bind, that a configure
//! event is acknowledged before any buffer is attached, that pings are
//! answered, that released buffers are destroyed, and that frame production is
//! triggered only by configure and frame-completion events.

use vstd::prelude::*;
use crate::geometry::FrameGeometry;
use crate::input::{KeyState, LogicalKey, spec_key_update, apply_key};
use crate::text::str_eq;

verus! {

/// Seat capability bit advertised for a pointer device.
pub const SEAT_CAPABILITY_POINTER: u32 = 1;

/// Seat capability bit advertised for a keyboard device.
pub const SEAT_CAPABILITY_KEYBOARD: u32 = 2;

/// The registry interfaces this client needs; anything else is ignored for
/// forward compatibility.
#[derive(Clone, Copy, PartialEq, Eq, Structural, Debug)]
pub enum InterfaceKind {
    Shm,
    Seat,
    Compositor,
    WmBase,
    Other,
}

/// Which required interface a registry-advertised name belongs to.
pub open spec fn spec_classify_interface(name: Seq<char>) -> InterfaceKind {
    if name == "wl_shm"@ {
        InterfaceKind::Shm
    } else if name == "wl_seat"@ {
        InterfaceKind::Seat
    } else if name == "wl_compositor"@ {
        InterfaceKind::Compositor
    } else if name == "xdg_wm_base"@ {
        InterfaceKind::WmBase
    } else {
        InterfaceKind::Other
    }
}

/// Recognises the advertised interface names the client binds.
pub fn classify_interface(name: &str) -> (r: InterfaceKind)
    ensures
        r == spec_classify_interface(name@),
{
    if str_eq(name, "wl_shm") {
        InterfaceKind::Shm
    } else if str_eq(name, "wl_seat") {
        InterfaceKind::Seat
    } else if str_eq(name, "wl_compositor") {
        InterfaceKind::Compositor
    } else if str_eq(name, "xdg_wm_base") {
        InterfaceKind::WmBase
    } else {
        InterfaceKind::Other
    }
}

/// Bootstrap progress of the session.
#[derive(Clone, Copy, PartialEq, Eq, Structural, Debug)]
pub enum Phase {
    /// Transport open, registry round-trip not yet finished.
    Connected,
    /// Every required global is bound.
    RegistryBound,
    /// The surface carries its window role; nothing drawn yet.
    SurfaceCreated,
    /// The first configure event has been acknowledged.
    Configured,
    /// Paced rendering: each frame follows a completion notification.
    Running,
    /// A close request or quit key ended the session.
    Closed,
}

/// An incoming protocol event, reduced to the plain values the session
/// decides on.
#[derive(Clone, Copy, PartialEq, Eq, Structural, Debug)]
pub enum Event {
    /// The registry advertised a global under a numeric name.
    Global { name: u32, interface: InterfaceKind, version: u32 },
    /// The seat advertised its input devices as a capability bit mask.
    SeatCapabilities { caps: u32 },
    /// A keymap description arrived; `xkb_v1` says it is in the one supported
    /// format.
    Keymap { xkb_v1: bool },
    /// The modifier state changed.
    Modifiers { depressed: u32, latched: u32, locked: u32, group: u32 },
    /// A key was pressed or released, already resolved through the compiled
    /// keymap to a logical symbol.  `state` is the raw protocol value:
    /// 0 released, 1 pressed, anything else unknown.
    Key { sym: LogicalKey, state: u32 },
    /// The window surface must be configured; the serial must be echoed.
    SurfaceConfigure { serial: u32 },
    /// The compositor suggests a window size; zero means "client chooses".
    ToplevelConfigure { width: i32, height: i32 },
    /// The window was asked to close.
    ToplevelClose,
    /// Liveness probe from the window manager.
    Ping { serial: u32 },
    /// The compositor returned ownership of an attached buffer.
    BufferRelease,
    /// A previously committed frame finished displaying at `time`.
    FrameDone { time: u32 },
}

/// A request the shell must perform on the real protocol objects, in the
/// order returned.
#[derive(Clone, Copy, PartialEq, Eq, Structural, Debug)]
pub enum Action {
    /// Bind the advertised global to a typed handle.
    Bind { name: u32, interface: InterfaceKind, version: u32 },
    /// Ask the compositor for a surface.
    CreateSurface,
    /// Wrap the surface with the window-manager surface role.
    AssignXdgSurfaceRole,
    /// Give the wrapped surface the top-level window role.
    AssignToplevelRole,
    /// Set the window title.
    SetTitle,
    /// Acknowledge a configure event by echoing its serial.
    AckConfigure { serial: u32 },
    /// Allocate a fresh shared-memory pool of exactly `size` bytes, carve one
    /// buffer out of it, run the render callback, and tear the pool down.
    ProduceFrame { size: i32 },
    /// Attach the produced buffer to the surface.
    AttachBuffer,
    /// Mark the whole surface extent damaged.
    DamageFull { width: i32, height: i32 },
    /// Commit the surface state.
    Commit,
    /// Register a frame-completion callback; `prev_time` threads the previous
    /// completion timestamp through for frame-time diagnostics.
    RequestFrameCallback { prev_time: Option<u32> },
    /// Answer a liveness probe with the same serial.
    Pong { serial: u32 },
    /// Destroy the buffer the compositor just released.
    DestroyBuffer,
    /// Bind the keyboard device of the seat.
    GetKeyboard,
    /// Bind the pointer device of the seat.
    GetPointer,
    /// Compile the received keymap text and build a fresh decoder from it,
    /// replacing any previous pair.
    CompileKeymap,
    /// Update the decoder's modifier mask; the event's single group value is
    /// applied uniformly to the three group-dependent parameters.
    UpdateModifiers {
        depressed: u32,
        latched: u32,
        locked: u32,
        layout_depressed: u32,
        layout_latched: u32,
        layout_locked: u32,
    },
}

/// A malformed or unexpected event; fatal, the loop must stop.
#[derive(Clone, Copy, PartialEq, Eq, Structural, Debug)]
pub enum ProtocolError {
    /// The event cannot occur in the current phase, or refers to an object
    /// the session never created.
    UnexpectedEvent,
    /// A key or modifier event arrived before any keymap was compiled.
    MissingKeymap,
}

/// A fatal bootstrap failure: a required global was never advertised, or a
/// bootstrap step was attempted out of order.
#[derive(Clone, Copy, PartialEq, Eq, Structural, Debug)]
pub enum SetupError {
    MissingShm,
    MissingSeat,
    MissingCompositor,
    MissingWmBase,
    WrongPhase,
}

/// The whole session state: bootstrap phase, the capability registry of bound
/// globals, tracked window geometry, input state, and the outstanding-buffer
/// count.
#[derive(Clone, Copy, PartialEq, Eq, Structural, Debug)]
pub struct Session {
    pub phase: Phase,
    /// Capability registry: which required globals are bound.
    pub bound_shm: bool,
    pub bound_seat: bool,
    pub bound_compositor: bool,
    pub bound_wm_base: bool,
    /// Seat devices bound so far, at most once per capability bit.
    pub keyboard_bound: bool,
    pub pointer_bound: bool,
    /// A keymap has been compiled, so key and modifier events can be decoded.
    pub has_keymap: bool,
    /// Some configure event has been acknowledged.
    pub acked_configure: bool,
    /// Tracked window geometry; buffers are produced at this size.
    pub geometry: FrameGeometry,
    /// Buffers attached to the surface and not yet released.
    pub outstanding_buffers: u32,
    /// Logical movement-key state, fed to the render callback.
    pub keystate: KeyState,
    /// The main loop iterates while this holds.
    pub running: bool,
}

impl Session {
    /// Invariant kept by every bootstrap step and event: the tracked geometry
    /// stays well formed, a phase at or past `Configured` implies an
    /// acknowledged configure, and `Closed` coincides with a cleared running
    /// flag.
    pub open spec fn well_formed(self) -> bool {
        &&& self.geometry.well_formed()
        &&& (self.phase is Configured || self.phase is Running) ==> self.acked_configure
        &&& (self.phase is Closed) == !self.running
    }

    /// A fresh session over an open transport, about to perform the registry
    /// round-trip.
    pub fn new(geometry: FrameGeometry) -> (s: Session)
        requires
            geometry.well_formed(),
        ensures
            s == Session::spec_new(geometry),
            s.well_formed(),
    {
        Session {
            phase: Phase::Connected,
            bound_shm: false,
            bound_seat: false,
            bound_compositor: false,
            bound_wm_base: false,
            keyboard_bound: false,
            pointer_bound: false,
            has_keymap: false,
            acked_configure: false,
            geometry,
            outstanding_buffers: 0,
            keystate: KeyState { up: false, left: false, right: false, down: false },
            running: true,
        }
    }

    /// The initial session value.
    pub open spec fn spec_new(geometry: FrameGeometry) -> Session {
        Session {
            phase: Phase::Connected,
            bound_shm: false,
            bound_seat: false,
            bound_compositor: false,
            bound_wm_base: false,
            keyboard_bound: false,
            pointer_bound: false,
            has_keymap: false,
            acked_configure: false,
            geometry,
            outstanding_buffers: 0,
            keystate: KeyState { up: false, left: false, right: false, down: false },
            running: true,
        }
    }

    /// Readiness check that gates the transition out of the bootstrap phase:
    /// every required global is bound.
    pub open spec fn all_globals_bound(self) -> bool {
        self.bound_shm && self.bound_seat && self.bound_compositor && self.bound_wm_base
    }

    /// Ends the registry round-trip.  Succeeds exactly when the session is
    /// still in `Connected` and every required global was advertised and
    /// bound; the error names the first missing one.
    pub fn registry_complete(&mut self) -> (r: Result<(), SetupError>)
        requires
            old(self).well_formed(),
        ensures
            final(self).well_formed(),
            match r {
                Ok(()) => {
                    &&& old(self).phase is Connected
                    &&& old(self).all_globals_bound()
                    &&& *final(self) == (Session { phase: Phase::RegistryBound, ..*old(self) })
                },
                Err(e) => {
                    &&& *final(self) == *old(self)
                    &&& !(old(self).phase is Connected && old(self).all_globals_bound())
                    &&& e == Self::spec_registry_error(*old(self))
                },
            },
    {
        if !matches!(self.phase, Phase::Connected) {
            return Err(SetupError::WrongPhase);
        }
        if !self.bound_shm {
            return Err(SetupError::MissingShm);
        }
        if !self.bound_seat {
            return Err(SetupError::MissingSeat);
        }
        if !self.bound_compositor {
            return Err(SetupError::MissingCompositor);
        }
        if !self.bound_wm_base {
            return Err(SetupError::MissingWmBase);
        }
        self.phase = Phase::RegistryBound;
        Ok(())
    }

    /// Which setup error `registry_complete` reports.
    pub open spec fn spec_registry_error(s: Session) -> SetupError {
        if !(s.phase is Connected) {
            SetupError::WrongPhase
        } else if !s.bound_shm {
            SetupError::MissingShm
        } else if !s.bound_seat {
            SetupError::MissingSeat
        } else if !s.bound_compositor {
            SetupError::MissingCompositor
        } else {
            SetupError::MissingWmBase
        }
    }

    /// The fixed request sequence that gives the surface its window role:
    /// create the surface, wrap it, assign the top-level role, set the title,
    /// commit the bare surface (which solicits the first configure event), and
    /// register the first frame callback.  No buffer exists yet: the first one
    /// is produced only once a configure event has been acknowledged.
    /// Succeeds exactly when the registry round-trip has finished.
    pub fn create_surface_actions(&mut self) -> (r: Result<Vec<Action>, SetupError>)
        requires
            old(self).well_formed(),
        ensures
            final(self).well_formed(),
            match r {
                Ok(v) => {
                    &&& old(self).phase is RegistryBound
                    &&& *final(self) == (Session { phase: Phase::SurfaceCreated, ..*old(self) })
                    &&& v@ == Self::spec_surface_actions()
                },
                Err(e) => {
                    &&& *final(self) == *old(self)
                    &&& !(old(self).phase is RegistryBound)
                    &&& e == SetupError::WrongPhase
                },
            },
    {
        if !matches!(self.phase, Phase::RegistryBound) {
            return Err(SetupError::WrongPhase);
        }
        self.phase = Phase::SurfaceCreated;
        let actions = vec![
            Action::CreateSurface,
            Action::AssignXdgSurfaceRole,
            Action::AssignToplevelRole,
            Action::SetTitle,
            Action::Commit,
            Action::RequestFrameCallback { prev_time: None },
        ];
        proof {
            assert(actions@ =~= Self::spec_surface_actions());
        }
        Ok(actions)
    }

    /// The role-assignment request sequence.
    pub open spec fn spec_surface_actions() -> Seq<Action> {
        seq![
            Action::CreateSurface,
            Action::AssignXdgSurfaceRole,
            Action::AssignToplevelRole,
            Action::SetTitle,
            Action::Commit,
            Action::RequestFrameCallback { prev_time: None },
        ]
    }

    /// The frame-production actions for a window of geometry `g`: a fresh
    /// pool-backed buffer of exactly `g.spec_size()` bytes, attached and with
    /// the full surface extent damaged.
    pub open spec fn spec_frame_actions(g: FrameGeometry) -> Seq<Action> {
        seq![
            Action::ProduceFrame { size: g.spec_size() as i32 },
            Action::AttachBuffer,
            Action::DamageFull { width: g.width, height: g.height },
        ]
    }

    /// The outstanding-buffer count after one more attach; the count sticks at
    /// the type's maximum rather than wrapping.
    pub open spec fn spec_inc_outstanding(n: u32) -> u32 {
        if n == u32::MAX {
            n
        } else {
            (n + 1) as u32
        }
    }

    /// One step of the event state machine: the state after the event, the
    /// actions the shell must perform, and the error for a malformed or
    /// unexpected event.  An erroneous event changes nothing and emits
    /// nothing; a closed session reacts to nothing.
    pub open spec fn spec_step(s: Session, ev: Event) -> (Session, Seq<Action>, Option<
        ProtocolError,
    >) {
        if s.phase is Closed {
            (s, seq![], None)
        } else {
            match ev {
                Event::Global { name, interface, version } => Self::spec_step_global(
                    s,
                    name,
                    interface,
                    version,
                ),
                Event::SeatCapabilities { caps } => Self::spec_step_seat_capabilities(s, caps),
                Event::Keymap { xkb_v1 } => Self::spec_step_keymap(s, xkb_v1),
                Event::Modifiers { depressed, latched, locked, group } => Self::spec_step_modifiers(
                    s,
                    depressed,
                    latched,
                    locked,
                    group,
                ),
                Event::Key { sym, state } => Self::spec_step_key(s, sym, state),
                Event::SurfaceConfigure { serial } => Self::spec_step_surface_configure(s, serial),
                Event::ToplevelConfigure { width, height } => Self::spec_step_toplevel_configure(
                    s,
                    width,
                    height,
                ),
                Event::ToplevelClose => Self::spec_step_toplevel_close(s),
                Event::Ping { serial } => Self::spec_step_ping(s, serial),
                Event::BufferRelease => Self::spec_step_buffer_release(s),
                Event::FrameDone { time } => Self::spec_step_frame_done(s, time),
            }
        }
    }

    /// A required global that is not bound yet is bound now; duplicates and
    /// unrecognised interfaces are ignored.
    pub open spec fn spec_step_global(s: Session, name: u32, interface: InterfaceKind, version: u32) -> (
        Session,
        Seq<Action>,
        Option<ProtocolError>,
    ) {
        let bind = seq![Action::Bind { name, interface, version }];
        match interface {
            InterfaceKind::Shm => if s.bound_shm {
                (s, seq![], None)
            } else {
                (Session { bound_shm: true, ..s }, bind, None)
            },
            InterfaceKind::Seat => if s.bound_seat {
                (s, seq![], None)
            } else {
                (Session { bound_seat: true, ..s }, bind, None)
            },
            InterfaceKind::Compositor => if s.bound_compositor {
                (s, seq![], None)
            } else {
                (Session { bound_compositor: true, ..s }, bind, None)
            },
            InterfaceKind::WmBase => if s.bound_wm_base {
                (s, seq![], None)
            } else {
                (Session { bound_wm_base: true, ..s }, bind, None)
            },
            InterfaceKind::Other => (s, seq![], None),
        }
    }

    /// Each advertised capability bit binds its device at most once.
    pub open spec fn spec_step_seat_capabilities(s: Session, caps: u32) -> (
        Session,
        Seq<Action>,
        Option<ProtocolError>,
    ) {
        if !s.bound_seat {
            (s, seq![], Some(ProtocolError::UnexpectedEvent))
        } else {
            let bind_keyboard = caps & SEAT_CAPABILITY_KEYBOARD != 0 && !s.keyboard_bound;
            let bind_pointer = caps & SEAT_CAPABILITY_POINTER != 0 && !s.pointer_bound;
            let next = Session {
                keyboard_bound: s.keyboard_bound || bind_keyboard,
                pointer_bound: s.pointer_bound || bind_pointer,
                ..s
            };
            let acts = (if bind_keyboard {
                seq![Action::GetKeyboard]
            } else {
                seq![]
            }) + (if bind_pointer {
                seq![Action::GetPointer]
            } else {
                seq![]
            });
            (next, acts, None)
        }
    }

    /// A keymap in the supported text format replaces the compiled
    /// keymap/decoder pair; other formats are ignored.
    pub open spec fn spec_step_keymap(s: Session, xkb_v1: bool) -> (
        Session,
        Seq<Action>,
        Option<ProtocolError>,
    ) {
        if !s.keyboard_bound {
            (s, seq![], Some(ProtocolError::UnexpectedEvent))
        } else if xkb_v1 {
            (Session { has_keymap: true, ..s }, seq![Action::CompileKeymap], None)
        } else {
            (s, seq![], None)
        }
    }

    /// The decoder's modifier mask is updated with the four mask components;
    /// the single group value is applied uniformly to the three
    /// group-dependent parameters.
    pub open spec fn spec_step_modifiers(s: Session, depressed: u32, latched: u32, locked: u32, group: u32) -> (
        Session,
        Seq<Action>,
        Option<ProtocolError>,
    ) {
        if !s.keyboard_bound {
            (s, seq![], Some(ProtocolError::UnexpectedEvent))
        } else if !s.has_keymap {
            (s, seq![], Some(ProtocolError::MissingKeymap))
        } else {
            (
                s,
                seq![
                    Action::UpdateModifiers {
                        depressed,
                        latched,
                        locked,
                        layout_depressed: group,
                        layout_latched: group,
                        layout_locked: group,
                    },
                ],
                None,
            )
        }
    }

    /// A press (`state == 1`) or release (`state == 0`) of a resolved symbol
    /// updates the logical key state; a pressed quit symbol closes the
    /// session; unknown state values are ignored.
    pub open spec fn spec_step_key(s: Session, sym: LogicalKey, state: u32) -> (
        Session,
        Seq<Action>,
        Option<ProtocolError>,
    ) {
        if !s.keyboard_bound {
            (s, seq![], Some(ProtocolError::UnexpectedEvent))
        } else if !s.has_keymap {
            (s, seq![], Some(ProtocolError::MissingKeymap))
        } else if state == 1 {
            if sym is Quit {
                (Session { running: false, phase: Phase::Closed, ..s }, seq![], None)
            } else {
                (Session { keystate: spec_key_update(s.keystate, sym, true), ..s }, seq![], None)
            }
        } else if state == 0 {
            (Session { keystate: spec_key_update(s.keystate, sym, false), ..s }, seq![], None)
        } else {
            (s, seq![], None)
        }
    }

    /// A configure event is acknowledged by echoing its serial, and only then
    /// is a buffer produced, attached and committed.
    pub open spec fn spec_step_surface_configure(s: Session, serial: u32) -> (
        Session,
        Seq<Action>,
        Option<ProtocolError>,
    ) {
        if s.phase is Connected || s.phase is RegistryBound {
            (s, seq![], Some(ProtocolError::UnexpectedEvent))
        } else {
            let next = Session {
                acked_configure: true,
                phase: if s.phase is SurfaceCreated {
                    Phase::Configured
                } else {
                    s.phase
                },
                outstanding_buffers: Self::spec_inc_outstanding(s.outstanding_buffers),
                ..s
            };
            let acts = seq![Action::AckConfigure { serial }] + Self::spec_frame_actions(s.geometry)
                + seq![Action::Commit];
            (next, acts, None)
        }
    }

    /// A nonzero size suggestion that makes a well-formed geometry updates the
    /// tracked window size; zero values mean "client chooses" and a size whose
    /// derived pool size cannot be represented is likewise left unchanged.
    pub open spec fn spec_step_toplevel_configure(s: Session, width: i32, height: i32) -> (
        Session,
        Seq<Action>,
        Option<ProtocolError>,
    ) {
        if s.phase is Connected || s.phase is RegistryBound {
            (s, seq![], Some(ProtocolError::UnexpectedEvent))
        } else {
            let g = FrameGeometry { width, height, bytes_per_pixel: s.geometry.bytes_per_pixel };
            if width != 0 && height != 0 && g.well_formed() {
                (Session { geometry: g, ..s }, seq![], None)
            } else {
                (s, seq![], None)
            }
        }
    }

    /// A close request clears the running flag; the loop exits on its next
    /// check.
    pub open spec fn spec_step_toplevel_close(s: Session) -> (
        Session,
        Seq<Action>,
        Option<ProtocolError>,
    ) {
        if s.phase is Connected || s.phase is RegistryBound {
            (s, seq![], Some(ProtocolError::UnexpectedEvent))
        } else {
            (Session { running: false, phase: Phase::Closed, ..s }, seq![], None)
        }
    }

    /// Liveness: every ping is answered with a pong carrying the same serial.
    pub open spec fn spec_step_ping(s: Session, serial: u32) -> (
        Session,
        Seq<Action>,
        Option<ProtocolError>,
    ) {
        if !s.bound_wm_base {
            (s, seq![], Some(ProtocolError::UnexpectedEvent))
        } else {
            (s, seq![Action::Pong { serial }], None)
        }
    }

    /// A released buffer is destroyed eagerly, exactly once per matching
    /// attach; a release with no buffer outstanding is a protocol violation.
    pub open spec fn spec_step_buffer_release(s: Session) -> (
        Session,
        Seq<Action>,
        Option<ProtocolError>,
    ) {
        if s.outstanding_buffers == 0 {
            (s, seq![], Some(ProtocolError::UnexpectedEvent))
        } else {
            (
                Session { outstanding_buffers: (s.outstanding_buffers - 1) as u32, ..s },
                seq![Action::DestroyBuffer],
                None,
            )
        }
    }

    /// Paced rendering: a frame-completion notification is the sole trigger
    /// for the next frame.  Before the first acknowledged configure no buffer
    /// may be attached, so an early completion is ignored.
    pub open spec fn spec_step_frame_done(s: Session, time: u32) -> (
        Session,
        Seq<Action>,
        Option<ProtocolError>,
    ) {
        if s.phase is Connected || s.phase is RegistryBound {
            (s, seq![], Some(ProtocolError::UnexpectedEvent))
        } else if s.phase is SurfaceCreated {
            (s, seq![], None)
        } else {
            let next = Session {
                phase: Phase::Running,
                outstanding_buffers: Self::spec_inc_outstanding(s.outstanding_buffers),
                ..s
            };
            let acts = Self::spec_frame_actions(s.geometry) + seq![
                Action::RequestFrameCallback { prev_time: Some(time) },
                Action::Commit,
            ];
            (next, acts, None)
        }
    }

    /// Dispatches one incoming event: advances the session exactly as
    /// [`Session::spec_step`] says and returns the actions the shell must
    /// perform, in order, or the fatal protocol error (which leaves the
    /// session unchanged).
    pub fn handle_event(&mut self, ev: Event) -> (r: Result<Vec<Action>, ProtocolError>)
        requires
            old(self).well_formed(),
        ensures
            final(self).well_formed(),
            ({
                let (s2, acts, err) = Self::spec_step(*old(self), ev);
                match r {
                    Ok(v) => err is None && *final(self) == s2 && v@ == acts,
                    Err(e) => err == Some(e) && *final(self) == *old(self),
                }
            }),
    {
        if matches!(self.phase, Phase::Closed) {
            let v: Vec<Action> = Vec::new();
            proof {
                assert(v@ =~= Self::spec_step(*old(self), ev).1);
            }
            return Ok(v);
        }
        match ev {
            Event::Global { name, interface, version } => Ok(
                self.on_global(name, interface, version),
            ),
            Event::SeatCapabilities { caps } => self.on_seat_capabilities(caps),
            Event::Keymap { xkb_v1 } => self.on_keymap(xkb_v1),
            Event::Modifiers { depressed, latched, locked, group } => self.on_modifiers(
                depressed,
                latched,
                locked,
                group,
            ),
            Event::Key { sym, state } => self.on_key(sym, state),
            Event::SurfaceConfigure { serial } => self.on_surface_configure(serial),
            Event::ToplevelConfigure { width, height } => self.on_toplevel_configure(
                width,
                height,
            ),
            Event::ToplevelClose => self.on_toplevel_close(),
            Event::Ping { serial } => self.on_ping(serial),
            Event::BufferRelease => self.on_buffer_release(),
            Event::FrameDone { time } => self.on_frame_done(time),
        }
    }

    /// Binds a required global that is not bound yet.
    fn on_global(&mut self, name: u32, interface: InterfaceKind, version: u32) -> (r: Vec<Action>)
        requires
            old(self).well_formed(),
            !(old(self).phase is Closed),
        ensures
            final(self).well_formed(),
            ({
                let (s2, acts, err) = Self::spec_step_global(*old(self), name, interface, version);
                err is None && *final(self) == s2 && r@ == acts
            }),
    {
        let ghost step = Self::spec_step_global(*old(self), name, interface, version);
        let already = match interface {
            InterfaceKind::Shm => self.bound_shm,
            InterfaceKind::Seat => self.bound_seat,
            InterfaceKind::Compositor => self.bound_compositor,
            InterfaceKind::WmBase => self.bound_wm_base,
            InterfaceKind::Other => true,
        };
        if already {
            let v: Vec<Action> = Vec::new();
            proof {
                assert(v@ =~= step.1);
            }
            v
        } else {
            match interface {
                InterfaceKind::Shm => self.bound_shm = true,
                InterfaceKind::Seat => self.bound_seat = true,
                InterfaceKind::Compositor => self.bound_compositor = true,
                InterfaceKind::WmBase => self.bound_wm_base = true,
                InterfaceKind::Other => (),
            }
            let v = vec![Action::Bind { name, interface, version }];
            proof {
                assert(v@ =~= step.1);
            }
            v
        }
    }

    /// Binds the seat's advertised input devices, each at most once.
    fn on_seat_capabilities(&mut self, caps: u32) -> (r: Result<Vec<Action>, ProtocolError>)
        requires
            old(self).well_formed(),
            !(old(self).phase is Closed),
        ensures
            final(self).well_formed(),
            ({
                let (s2, acts, err) = Self::spec_step_seat_capabilities(*old(self), caps);
                match r {
                    Ok(v) => err is None && *final(self) == s2 && v@ == acts,
                    Err(e) => err == Some(e) && *final(self) == *old(self),
                }
            }),
    {
        let ghost step = Self::spec_step_seat_capabilities(*old(self), caps);
        if !self.bound_seat {
            return Err(ProtocolError::UnexpectedEvent);
        }
        let bind_keyboard = caps & SEAT_CAPABILITY_KEYBOARD != 0 && !self.keyboard_bound;
        let bind_pointer = caps & SEAT_CAPABILITY_POINTER != 0 && !self.pointer_bound;
        let mut v: Vec<Action> = Vec::new();
        if bind_keyboard {
            self.keyboard_bound = true;
            v.push(Action::GetKeyboard);
        }
        if bind_pointer {
            self.pointer_bound = true;
            v.push(Action::GetPointer);
        }
        proof {
            assert(v@ =~= step.1);
        }
        Ok(v)
    }

    /// Accepts a keymap in the supported format and asks for it to be
    /// compiled.
    fn on_keymap(&mut self, xkb_v1: bool) -> (r: Result<Vec<Action>, ProtocolError>)
        requires
            old(self).well_formed(),
            !(old(self).phase is Closed),
        ensures
            final(self).well_formed(),
            ({
                let (s2, acts, err) = Self::spec_step_keymap(*old(self), xkb_v1);
                match r {
                    Ok(v) => err is None && *final(self) == s2 && v@ == acts,
                    Err(e) => err == Some(e) && *final(self) == *old(self),
                }
            }),
    {
        let ghost step = Self::spec_step_keymap(*old(self), xkb_v1);
        if !self.keyboard_bound {
            return Err(ProtocolError::UnexpectedEvent);
        }
        if xkb_v1 {
            self.has_keymap = true;
            let v = vec![Action::CompileKeymap];
            proof {
                assert(v@ =~= step.1);
            }
            Ok(v)
        } else {
            let v: Vec<Action> = Vec::new();
            proof {
                assert(v@ =~= step.1);
            }
            Ok(v)
        }
    }

    /// Forwards a modifier change to the decoder, applying the group value
    /// uniformly.
    fn on_modifiers(&mut self, depressed: u32, latched: u32, locked: u32, group: u32) -> (r:
        Result<Vec<Action>, ProtocolError>)
        requires
            old(self).well_formed(),
            !(old(self).phase is Closed),
        ensures
            final(self).well_formed(),
            ({
                let (s2, acts, err) = Self::spec_step_modifiers(
                    *old(self),
                    depressed,
                    latched,
                    locked,
                    group,
                );
                match r {
                    Ok(v) => err is None && *final(self) == s2 && v@ == acts,
                    Err(e) => err == Some(e) && *final(self) == *old(self),
                }
            }),
    {
        let ghost step = Self::spec_step_modifiers(*old(self), depressed, latched, locked, group);
        if !self.keyboard_bound {
            return Err(ProtocolError::UnexpectedEvent);
        }
        if !self.has_keymap {
            return Err(ProtocolError::MissingKeymap);
        }
        let v = vec![
            Action::UpdateModifiers {
                depressed,
                latched,
                locked,
                layout_depressed: group,
                layout_latched: group,
                layout_locked: group,
            },
        ];
        proof {
            assert(v@ =~= step.1);
        }
        Ok(v)
    }

    /// Applies a press or release of a resolved symbol; a pressed quit symbol
    /// closes the session.
    fn on_key(&mut self, sym: LogicalKey, state: u32) -> (r: Result<Vec<Action>, ProtocolError>)
        requires
            old(self).well_formed(),
            !(old(self).phase is Closed),
        ensures
            final(self).well_formed(),
            ({
                let (s2, acts, err) = Self::spec_step_key(*old(self), sym, state);
                match r {
                    Ok(v) => err is None && *final(self) == s2 && v@ == acts,
                    Err(e) => err == Some(e) && *final(self) == *old(self),
                }
            }),
    {
        let ghost step = Self::spec_step_key(*old(self), sym, state);
        if !self.keyboard_bound {
            return Err(ProtocolError::UnexpectedEvent);
        }
        if !self.has_keymap {
            return Err(ProtocolError::MissingKeymap);
        }
        if state == 1 {
            if matches!(sym, LogicalKey::Quit) {
                self.running = false;
                self.phase = Phase::Closed;
            } else {
                apply_key(&mut self.keystate, sym, true);
            }
        } else if state == 0 {
            apply_key(&mut self.keystate, sym, false);
        }
        let v: Vec<Action> = Vec::new();
        proof {
            assert(v@ =~= step.1);
        }
        Ok(v)
    }

    /// Acknowledges a configure event and only then produces, attaches and
    /// commits a buffer.
    fn on_surface_configure(&mut self, serial: u32) -> (r: Result<Vec<Action>, ProtocolError>)
        requires
            old(self).well_formed(),
            !(old(self).phase is Closed),
        ensures
            final(self).well_formed(),
            ({
                let (s2, acts, err) = Self::spec_step_surface_configure(*old(self), serial);
                match r {
                    Ok(v) => err is None && *final(self) == s2 && v@ == acts,
                    Err(e) => err == Some(e) && *final(self) == *old(self),
                }
            }),
    {
        let ghost step = Self::spec_step_surface_configure(*old(self), serial);
        if matches!(self.phase, Phase::Connected) || matches!(self.phase, Phase::RegistryBound) {
            return Err(ProtocolError::UnexpectedEvent);
        }
        self.acked_configure = true;
        if matches!(self.phase, Phase::SurfaceCreated) {
            self.phase = Phase::Configured;
        }
        if self.outstanding_buffers < u32::MAX {
            self.outstanding_buffers = self.outstanding_buffers + 1;
        }
        let size = self.geometry.buffer_size();
        let v = vec![
            Action::AckConfigure { serial },
            Action::ProduceFrame { size },
            Action::AttachBuffer,
            Action::DamageFull { width: self.geometry.width, height: self.geometry.height },
            Action::Commit,
        ];
        proof {
            assert(v@ =~= step.1);
        }
        Ok(v)
    }

    /// Adopts a usable size suggestion; zero or unrepresentable sizes leave
    /// the tracked geometry unchanged.
    fn on_toplevel_configure(&mut self, width: i32, height: i32) -> (r: Result<
        Vec<Action>,
        ProtocolError,
    >)
        requires
            old(self).well_formed(),
            !(old(self).phase is Closed),
        ensures
            final(self).well_formed(),
            ({
                let (s2, acts, err) = Self::spec_step_toplevel_configure(*old(self), width, height);
                match r {
                    Ok(v) => err is None && *final(self) == s2 && v@ == acts,
                    Err(e) => err == Some(e) && *final(self) == *old(self),
                }
            }),
    {
        let ghost step = Self::spec_step_toplevel_configure(*old(self), width, height);
        if matches!(self.phase, Phase::Connected) || matches!(self.phase, Phase::RegistryBound) {
            return Err(ProtocolError::UnexpectedEvent);
        }
        if width != 0 && height != 0 {
            match FrameGeometry::new(width, height, self.geometry.bytes_per_pixel) {
                Some(g) => self.geometry = g,
                None => (),
            }
        }
        let v: Vec<Action> = Vec::new();
        proof {
            assert(v@ =~= step.1);
        }
        Ok(v)
    }

    /// Handles a close request: clears the running flag.
    fn on_toplevel_close(&mut self) -> (r: Result<Vec<Action>, ProtocolError>)
        requires
            old(self).well_formed(),
            !(old(self).phase is Closed),
        ensures
            final(self).well_formed(),
            ({
                let (s2, acts, err) = Self::spec_step_toplevel_close(*old(self));
                match r {
                    Ok(v) => err is None && *final(self) == s2 && v@ == acts,
                    Err(e) => err == Some(e) && *final(self) == *old(self),
                }
            }),
    {
        let ghost step = Self::spec_step_toplevel_close(*old(self));
        if matches!(self.phase, Phase::Connected) || matches!(self.phase, Phase::RegistryBound) {
            return Err(ProtocolError::UnexpectedEvent);
        }
        self.running = false;
        self.phase = Phase::Closed;
        let v: Vec<Action> = Vec::new();
        proof {
            assert(v@ =~= step.1);
        }
        Ok(v)
    }

    /// Answers a liveness probe with a matching pong.
    fn on_ping(&mut self, serial: u32) -> (r: Result<Vec<Action>, ProtocolError>)
        requires
            old(self).well_formed(),
            !(old(self).phase is Closed),
        ensures
            final(self).well_formed(),
            ({
                let (s2, acts, err) = Self::spec_step_ping(*old(self), serial);
                match r {
                    Ok(v) => err is None && *final(self) == s2 && v@ == acts,
                    Err(e) => err == Some(e) && *final(self) == *old(self),
                }
            }),
    {
        let ghost step = Self::spec_step_ping(*old(self), serial);
        if !self.bound_wm_base {
            return Err(ProtocolError::UnexpectedEvent);
        }
        let v = vec![Action::Pong { serial }];
        proof {
            assert(v@ =~= step.1);
        }
        Ok(v)
    }

    /// Destroys the released buffer and settles the outstanding count.
    fn on_buffer_release(&mut self) -> (r: Result<Vec<Action>, ProtocolError>)
        requires
            old(self).well_formed(),
            !(old(self).phase is Closed),
        ensures
            final(self).well_formed(),
            ({
                let (s2, acts, err) = Self::spec_step_buffer_release(*old(self));
                match r {
                    Ok(v) => err is None && *final(self) == s2 && v@ == acts,
                    Err(e) => err == Some(e) && *final(self) == *old(self),
                }
            }),
    {
        let ghost step = Self::spec_step_buffer_release(*old(self));
        if self.outstanding_buffers == 0 {
            return Err(ProtocolError::UnexpectedEvent);
        }
        self.outstanding_buffers = self.outstanding_buffers - 1;
        let v = vec![Action::DestroyBuffer];
        proof {
            assert(v@ =~= step.1);
        }
        Ok(v)
    }

    /// Produces the next paced frame after a completion notification.
    fn on_frame_done(&mut self, time: u32) -> (r: Result<Vec<Action>, ProtocolError>)
        requires
            old(self).well_formed(),
            !(old(self).phase is Closed),
        ensures
            final(self).well_formed(),
            ({
                let (s2, acts, err) = Self::spec_step_frame_done(*old(self), time);
                match r {
                    Ok(v) => err is None && *final(self) == s2 && v@ == acts,
                    Err(e) => err == Some(e) && *final(self) == *old(self),
                }
            }),
    {
        let ghost step = Self::spec_step_frame_done(*old(self), time);
        if matches!(self.phase, Phase::Connected) || matches!(self.phase, Phase::RegistryBound) {
            return Err(ProtocolError::UnexpectedEvent);
        }
        if matches!(self.phase, Phase::SurfaceCreated) {
            let v: Vec<Action> = Vec::new();
            proof {
                assert(v@ =~= step.1);
            }
            return Ok(v);
        }
        self.phase = Phase::Running;
        if self.outstanding_buffers < u32::MAX {
            self.outstanding_buffers = self.outstanding_buffers + 1;
        }
        let size = self.geometry.buffer_size();
        let v = vec![
            Action::ProduceFrame { size },
            Action::AttachBuffer,
            Action::DamageFull { width: self.geometry.width, height: self.geometry.height },
            Action::RequestFrameCallback { prev_time: Some(time) },
            Action::Commit,
        ];
        proof {
            assert(v@ =~= step.1);
        }
        Ok(v)
    }

    /// Instantaneous frame time from two consecutive completion timestamps,
    /// for diagnostics only.
    pub fn frame_delta(time: u32, prev_time: u32) -> (d: u64)
        requires
            prev_time <= time,
        ensures
            d == time - prev_time,
    {
        (time - prev_time) as u64
    }
}

/// The session after an event sequence, with every emitted action
/// concatenated in dispatch order.  An erroneous event changes nothing, as
/// [`Session::spec_step`] says.
pub open spec fn run_events(s: Session, evs: Seq<Event>) -> (Session, Seq<Action>)
    decreases evs.len(),
{
    if evs.len() == 0 {
        (s, seq![])
    } else {
        let (s1, acts, _) = Session::spec_step(s, evs[0]);
        let (s2, rest) = run_events(s1, evs.drop_first());
        (s2, acts + rest)
    }
}

/// How many buffers an action trace attaches.
pub open spec fn count_attaches(tr: Seq<Action>) -> nat
    decreases tr.len(),
{
    if tr.len() == 0 {
        0
    } else {
        (if tr[0] is AttachBuffer {
            1nat
        } else {
            0nat
        }) + count_attaches(tr.drop_first())
    }
}

/// How many buffers an action trace destroys after a release.
pub open spec fn count_destroys(tr: Seq<Action>) -> nat
    decreases tr.len(),
{
    if tr.len() == 0 {
        0
    } else {
        (if tr[0] is DestroyBuffer {
            1nat
        } else {
            0nat
        }) + count_destroys(tr.drop_first())
    }
}

proof fn lemma_counts_concat(a: Seq<Action>, b: Seq<Action>)
    ensures
        count_attaches(a + b) == count_attaches(a) + count_attaches(b),
        count_destroys(a + b) == count_destroys(a) + count_destroys(b),
    decreases a.len(),
{
    if a.len() == 0 {
        assert(a + b =~= b);
    } else {
        assert((a + b).drop_first() =~= a.drop_first() + b);
        lemma_counts_concat(a.drop_first(), b);
    }
}

/// One step keeps the session invariant, never acknowledges a configure
/// without recording it, and emits an attach only when a configure was
/// acknowledged at the step's start or earlier in the same action list.
#[verifier::rlimit(100)]
proof fn lemma_step_facts(s: Session, ev: Event)
    requires
        s.well_formed(),
    ensures
        ({
            let (s1, a, _) = Session::spec_step(s, ev);
            &&& s1.well_formed()
            &&& (s.acked_configure ==> s1.acked_configure)
            &&& (s1.acked_configure ==> s.acked_configure || exists|j: int|
                0 <= j < a.len() && #[trigger] a[j] is AckConfigure)
            &&& forall|i: int|
                0 <= i < a.len() && #[trigger] a[i] is AttachBuffer ==> s.acked_configure
                    || exists|j: int| 0 <= j < i && #[trigger] a[j] is AckConfigure
            &&& count_attaches(a) <= 1
            &&& count_destroys(a) <= s.outstanding_buffers + count_attaches(a)
            &&& s.outstanding_buffers + count_attaches(a) <= u32::MAX ==> s1.outstanding_buffers
                == s.outstanding_buffers + count_attaches(a) - count_destroys(a)
        }),
{
    let (s1, a, _) = Session::spec_step(s, ev);
    if !(s.phase is Closed) {
        match ev {
            Event::SurfaceConfigure { serial } => {
                if !(s.phase is Connected || s.phase is RegistryBound) {
                    assert(a[0] is AckConfigure);
                    assert(count_attaches(a) == 1 && count_destroys(a) == 0) by {
                        reveal_with_fuel(count_attaches, 8);
                        reveal_with_fuel(count_destroys, 8);
                    }
                }
            },
            Event::FrameDone { time } => {
                if s.phase is Configured || s.phase is Running {
                    assert(s.acked_configure);
                    assert(count_attaches(a) == 1 && count_destroys(a) == 0) by {
                        reveal_with_fuel(count_attaches, 8);
                        reveal_with_fuel(count_destroys, 8);
                    }
                }
            },
            Event::BufferRelease => {
                if s.outstanding_buffers != 0 {
                    assert(count_attaches(a) == 0 && count_destroys(a) == 1) by {
                        reveal_with_fuel(count_attaches, 8);
                        reveal_with_fuel(count_destroys, 8);
                    }
                }
            },
            Event::SeatCapabilities { caps } => {
                if s.bound_seat {
                    assert(count_attaches(a) == 0 && count_destroys(a) == 0) by {
                        reveal_with_fuel(count_attaches, 4);
                        reveal_with_fuel(count_destroys, 4);
                    }
                }
            },
            _ => {
                assert(count_attaches(a) == 0 && count_destroys(a) == 0) by {
                    reveal_with_fuel(count_attaches, 4);
                    reveal_with_fuel(count_destroys, 4);
                }
            },
        }
    }
}

proof fn lemma_attach_after_ack_rec(s: Session, evs: Seq<Event>)
    requires
        s.well_formed(),
    ensures
        ({
            let (s2, tr) = run_events(s, evs);
            &&& s2.well_formed()
            &&& (s2.acked_configure ==> s.acked_configure || exists|j: int|
                0 <= j < tr.len() && #[trigger] tr[j] is AckConfigure)
            &&& forall|i: int|
                0 <= i < tr.len() && #[trigger] tr[i] is AttachBuffer ==> s.acked_configure
                    || exists|j: int| 0 <= j < i && #[trigger] tr[j] is AckConfigure
        }),
    decreases evs.len(),
{
    if evs.len() == 0 {
    } else {
        let (s1, a, _) = Session::spec_step(s, evs[0]);
        let (s2, rest) = run_events(s1, evs.drop_first());
        let tr = a + rest;
        lemma_step_facts(s, evs[0]);
        lemma_attach_after_ack_rec(s1, evs.drop_first());
        assert forall|i: int| 0 <= i < tr.len() && #[trigger] tr[i] is AttachBuffer implies s
            .acked_configure || exists|j: int| 0 <= j < i && #[trigger] tr[j] is AckConfigure by {
            if i < a.len() {
                assert(a[i] is AttachBuffer);
                if !s.acked_configure {
                    let j = choose|j: int| 0 <= j < i && #[trigger] a[j] is AckConfigure;
                    assert(tr[j] is AckConfigure);
                }
            } else {
                let k = i - a.len();
                assert(rest[k] is AttachBuffer);
                if s1.acked_configure && !s.acked_configure {
                    let j = choose|j: int| 0 <= j < a.len() && #[trigger] a[j] is AckConfigure;
                    assert(tr[j] is AckConfigure && j < i);
                } else if !s1.acked_configure {
                    let j = choose|j: int| 0 <= j < k && #[trigger] rest[j] is AckConfigure;
                    assert(tr[a.len() + j] is AckConfigure && a.len() + j < i);
                }
            }
        }
        assert(s2.acked_configure ==> s.acked_configure || exists|j: int|
            0 <= j < tr.len() && #[trigger] tr[j] is AckConfigure) by {
            if s2.acked_configure && !s.acked_configure {
                if s1.acked_configure {
                    let j = choose|j: int| 0 <= j < a.len() && #[trigger] a[j] is AckConfigure;
                    assert(tr[j] is AckConfigure);
                } else {
                    let j = choose|j: int|
                        0 <= j < rest.len() && #[trigger] rest[j] is AckConfigure;
                    assert(tr[a.len() + j] is AckConfigure);
                }
            }
        }
    }
}

/// Law: starting from a fresh session, whatever events the compositor sends,
/// no buffer is ever attached before some configure event has been
/// acknowledged earlier in the emitted request trace.
pub proof fn lemma_no_attach_before_ack(g: FrameGeometry, evs: Seq<Event>)
    requires
        g.well_formed(),
    ensures
        ({
            let tr = run_events(Session::spec_new(g), evs).1;
            forall|i: int|
                0 <= i < tr.len() && #[trigger] tr[i] is AttachBuffer ==> exists|j: int|
                    0 <= j < i && #[trigger] tr[j] is AckConfigure
        }),
{
    lemma_attach_after_ack_rec(Session::spec_new(g), evs);
}

proof fn lemma_buffer_accounting_rec(s: Session, evs: Seq<Event>)
    requires
        s.well_formed(),
        s.outstanding_buffers + evs.len() <= u32::MAX,
    ensures
        ({
            let (s2, tr) = run_events(s, evs);
            &&& count_attaches(tr) <= evs.len()
            &&& count_destroys(tr) <= s.outstanding_buffers + count_attaches(tr)
            &&& s2.outstanding_buffers == s.outstanding_buffers + count_attaches(tr)
                - count_destroys(tr)
        }),
    decreases evs.len(),
{
    if evs.len() == 0 {
    } else {
        let (s1, a, _) = Session::spec_step(s, evs[0]);
        let (s2, rest) = run_events(s1, evs.drop_first());
        lemma_step_facts(s, evs[0]);
        lemma_buffer_accounting_rec(s1, evs.drop_first());
        lemma_counts_concat(a, rest);
    }
}

/// Law: release events decrement the outstanding-buffer count exactly once
/// per matching attach.  Over any event sequence from a fresh session, the
/// trace never destroys more buffers than it attached, and the tracked count
/// is exactly attaches minus destroys — in particular it never goes negative.
pub proof fn lemma_buffer_accounting(g: FrameGeometry, evs: Seq<Event>)
    requires
        g.well_formed(),
        evs.len() <= u32::MAX,
    ensures
        ({
            let (s2, tr) = run_events(Session::spec_new(g), evs);
            &&& count_destroys(tr) <= count_attaches(tr)
            &&& count_attaches(tr) <= evs.len()
            &&& s2.outstanding_buffers == count_attaches(tr) - count_destroys(tr)
        }),
{
    lemma_buffer_accounting_rec(Session::spec_new(g), evs);
}

} // verus!
