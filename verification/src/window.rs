//! The window resource: creation, teardown, geometry and state
//! operations, the cursor-state transition, and the two event-retrieval
//! entry points.
//!
//! The display server is an external collaborator.  Everything creation
//! reads from it arrives in an [`XConnection`] value; every native call
//! a decision demands leaves as plain data (an action list, a wake
//! request, a theme-cursor name) for a deployment to perform.  The raw
//! event stream enters [`Window::poll_events`] and
//! [`Window::wait_events`] as a vector of already-fetched records.

use vstd::prelude::*;
use std::collections::VecDeque;
use crate::cursor::CursorState;
use crate::cursor::GrabOutcome;
use crate::cursor::MouseCursor;
use crate::cursor::cursor_theme_name;
use crate::cursor::theme_name_spec;
use crate::events::Event;
use crate::modes::Mode;
use crate::modes::choose_mode;
use crate::modes::choose_mode_spec;
use crate::proxy::ProxySlot;
use crate::proxy::WindowProxy;
use crate::proxy::WindowProxyData;
use crate::pump::RawEvent;
use crate::pump::XI_DEVICE_CHANGED;
use crate::pump::XI_LASTEVENT;
use crate::pump::cache_after;
use crate::pump::closed_after;
use crate::pump::is_close_message;
use crate::pump::pump_cache;
use crate::pump::pump_closed;
use crate::pump::pump_yields;
use crate::pump::raw_event_yield;
use crate::pump::wait_cache;
use crate::pump::wait_closed;
use crate::pump::wait_rest;
use crate::pump::wait_yields;

verus! {

/// The recognized window configuration options.  Minimum and maximum
/// dimensions are not supported on this platform: constructing with
/// either set is a contract violation, not a recoverable error.
#[derive(Debug)]
pub struct WindowAttributes {
    /// Initial inner dimensions; 800 by 600 when absent.
    pub dimensions: Option<(u32, u32)>,
    /// Unsupported; must be absent.
    pub min_dimensions: Option<(u32, u32)>,
    /// Unsupported; must be absent.
    pub max_dimensions: Option<(u32, u32)>,
    /// Target monitor's screen number; requests fullscreen when present.
    pub monitor: Option<u32>,
    /// Initial window title.
    pub title: String,
    /// Whether the window is mapped and raised at creation.
    pub visible: bool,
    /// Whether the background is made transparent.
    pub transparent: bool,
}

impl Default for WindowAttributes {
    /// A windowed, visible, opaque configuration with default
    /// dimensions and an empty title.
    fn default() -> (r: Self)
        ensures
            r.dimensions is None,
            r.min_dimensions is None,
            r.max_dimensions is None,
            r.monitor is None,
            r.title@ == Seq::<char>::empty(),
            r.visible,
            !r.transparent,
    {
        proof {
            reveal_strlit("");
        }
        WindowAttributes {
            dimensions: None,
            min_dimensions: None,
            max_dimensions: None,
            monitor: None,
            title: String::from_str(""),
            visible: true,
            transparent: false,
        }
    }
}

/// The connection handle, reduced to what the engine reads through it:
/// the native handles the server assigned, the registered atoms, and
/// what the server reported about the target screen's capabilities.
#[derive(Debug)]
pub struct XConnection {
    /// Native display handle, for interop with a rendering layer.
    pub display: u64,
    /// The server's default screen number.
    pub default_screen: i32,
    /// The native handle the server assigns to the next created window.
    pub next_window: u64,
    /// The interned delete-window protocol atom.
    pub wm_delete_window: u64,
    /// The mode lines the mode-switching extension reports for the
    /// target screen; empty when the extension reports none.
    pub modes: Vec<Mode>,
    /// The input-method handle, absent when the open call fails.
    pub im: Option<u64>,
    /// The input-context handle, absent when creation fails.
    pub ic: Option<u64>,
    /// Whether the server supports detectable key auto-repeat.
    pub detectable_autorepeat: bool,
}

/// A fatal window-creation failure, with a human-readable cause.
#[derive(Clone, Copy, Debug, PartialEq, Eq, Structural)]
pub enum CreationError {
    /// A fullscreen window was requested, modes were reported, and none
    /// matches or covers the requested dimensions.
    NoSuitableGraphicsMode,
    /// The input method could not be opened.
    InputMethodOpenFailed,
    /// The input context could not be created.
    InputContextCreateFailed,
    /// The server does not support detectable key auto-repeat, which
    /// correct key-repeat semantics require.
    DetectableAutoRepeatUnsupported,
}

/// The message each creation failure carries.
pub open spec fn creation_error_message(e: CreationError) -> Seq<char> {
    match e {
        CreationError::NoSuitableGraphicsMode => "Could not find a suitable graphics mode"@,
        CreationError::InputMethodOpenFailed => "XOpenIM failed"@,
        CreationError::InputContextCreateFailed => "XCreateIC failed"@,
        CreationError::DetectableAutoRepeatUnsupported => "XkbSetDetectableAutoRepeat failed"@,
    }
}

impl CreationError {
    /// The human-readable cause of this failure.
    pub fn description(&self) -> (r: &'static str)
        ensures
            r@ == creation_error_message(*self),
    {
        match self {
            CreationError::NoSuitableGraphicsMode => "Could not find a suitable graphics mode",
            CreationError::InputMethodOpenFailed => "XOpenIM failed",
            CreationError::InputContextCreateFailed => "XCreateIC failed",
            CreationError::DetectableAutoRepeatUnsupported => "XkbSetDetectableAutoRepeat failed",
        }
    }
}

/// One native call of window teardown; a deployment performs these in
/// plan order, under the same process-wide input-method lock creation
/// takes, treating failures as best-effort.
#[derive(Clone, Copy, Debug, PartialEq, Eq, Structural)]
pub enum TeardownAction {
    /// Restore the saved desktop display mode.
    SwitchToMode(Mode),
    /// Reset the viewport offset to the origin.
    SetViewPort,
    /// Destroy the input context.
    DestroyIc,
    /// Close the input method.
    CloseIm,
    /// Destroy the native window.
    DestroyWindow,
}

/// The natively owned window resources: handles, fullscreen state, the
/// saved desktop mode, and the shared wake-up slot.
#[derive(Debug)]
pub struct XWindow {
    /// Native display handle.
    pub display: u64,
    /// Native window handle.
    pub window: u64,
    /// Whether the window was created fullscreen.
    pub is_fullscreen: bool,
    /// The screen the window was created on.
    pub screen_id: i32,
    /// The desktop mode to restore on teardown; populated exactly when
    /// the window was created fullscreen and a mode switch occurred.
    pub xf86_desk_mode: Option<Mode>,
    /// Input-context handle.
    pub ic: u64,
    /// Input-method handle.
    pub im: u64,
    /// The shared slot wake-up proxies read; cleared first at teardown.
    pub window_proxy_data: ProxySlot,
}

impl XWindow {
    /// The native calls teardown performs, in order: restore the saved
    /// desktop mode and reset the viewport when fullscreen, then
    /// destroy the input context, close the input method, and destroy
    /// the window.
    pub open spec fn teardown_actions(self) -> Seq<TeardownAction> {
        (if self.is_fullscreen {
            (match self.xf86_desk_mode {
                Option::Some(m) => seq![TeardownAction::SwitchToMode(m)],
                Option::None => Seq::<TeardownAction>::empty(),
            }) + seq![TeardownAction::SetViewPort]
        } else {
            Seq::<TeardownAction>::empty()
        }) + seq![TeardownAction::DestroyIc, TeardownAction::CloseIm, TeardownAction::DestroyWindow]
    }

    /// Tear the native resources down.  The shared wake-up slot is
    /// cleared first, so no in-flight or future wake-up can reach the
    /// resources the returned plan destroys; a window that saved no
    /// desktop mode restores none.
    pub fn teardown(&mut self) -> (actions: Vec<TeardownAction>)
        ensures
            final(self).window_proxy_data.data is None,
            actions@ == old(self).teardown_actions(),
            final(self).display == old(self).display,
            final(self).window == old(self).window,
            final(self).is_fullscreen == old(self).is_fullscreen,
            final(self).screen_id == old(self).screen_id,
            final(self).xf86_desk_mode == old(self).xf86_desk_mode,
            final(self).ic == old(self).ic,
            final(self).im == old(self).im,
    {
        self.window_proxy_data = ProxySlot { data: None };
        let mut actions: Vec<TeardownAction> = Vec::new();
        if self.is_fullscreen {
            match self.xf86_desk_mode {
                Option::Some(m) => actions.push(TeardownAction::SwitchToMode(m)),
                Option::None => {},
            }
            actions.push(TeardownAction::SetViewPort);
        }
        actions.push(TeardownAction::DestroyIc);
        actions.push(TeardownAction::CloseIm);
        actions.push(TeardownAction::DestroyWindow);
        proof {
            assert(actions@ =~= old(self).teardown_actions());
        }
        actions
    }
}

/// The dimensions creation uses: the requested ones, or 800 by 600.
pub open spec fn effective_dimensions(attrs: WindowAttributes) -> (u32, u32) {
    match attrs.dimensions {
        Option::Some(d) => d,
        Option::None => (800u32, 600u32),
    }
}

/// The screen the window is created on: the requested monitor's, or
/// the server's default screen.
pub open spec fn target_screen(conn: XConnection, attrs: WindowAttributes) -> i32 {
    match attrs.monitor {
        Option::Some(m) => m as i32,
        Option::None => conn.default_screen,
    }
}

/// The mode a fullscreen window switches to: searched only when a
/// monitor was requested and the server reported modes.
pub open spec fn switched_mode(conn: XConnection, attrs: WindowAttributes) -> Option<Mode> {
    if attrs.monitor is Some && conn.modes@.len() > 0 {
        choose_mode_spec(conn.modes@, effective_dimensions(attrs))
    } else {
        None
    }
}

/// The desktop mode saved for restoration at teardown: the first
/// reported mode, exactly when the window is fullscreen and a mode
/// switch occurs.
pub open spec fn saved_desk_mode(conn: XConnection, attrs: WindowAttributes) -> Option<Mode> {
    if attrs.monitor is Some && conn.modes@.len() > 0 && switched_mode(conn, attrs) is Some {
        Some(conn.modes@[0])
    } else {
        None
    }
}

/// The first failure creation runs into, if any, in the order the
/// acquisition sequence performs its steps.
pub open spec fn creation_failure(conn: XConnection, attrs: WindowAttributes) -> Option<
    CreationError,
> {
    if attrs.monitor is Some && conn.modes@.len() > 0 && choose_mode_spec(
        conn.modes@,
        effective_dimensions(attrs),
    ) is None {
        Some(CreationError::NoSuitableGraphicsMode)
    } else if conn.im is None {
        Some(CreationError::InputMethodOpenFailed)
    } else if conn.ic is None {
        Some(CreationError::InputContextCreateFailed)
    } else if !conn.detectable_autorepeat {
        Some(CreationError::DetectableAutoRepeatUnsupported)
    } else {
        None
    }
}

/// A window: the native resources, the closed flag, the resize-dedup
/// cache, the queue of already-translated events, the cursor state,
/// and the engine's view of the window's geometry.
///
/// In a deployment the closed flag is atomic and the queue and cursor
/// state are each mutex-guarded; the input translator the pump
/// delegates raw key and extension records to owns its own state, and
/// its yields ride on the raw records themselves.
#[derive(Debug)]
pub struct Window {
    /// The natively owned resources.
    pub x: XWindow,
    /// Set when the delete-window request was classified; observable
    /// from other threads in a deployment.
    pub is_closed: bool,
    /// The registered delete-window atom the pump compares client
    /// messages against.
    pub wm_delete_window: u64,
    /// The last size a notification reported; duplicate notifications
    /// are suppressed against it.
    pub current_size: (u32, u32),
    /// Already-translated events not yet handed out by an iterator.
    pub pending_events: VecDeque<Event>,
    /// The cursor interaction state.
    pub cursor_state: CursorState,
    /// The window's position as last set.
    pub position: (i32, i32),
    /// The window's inner size as created or last set.
    pub inner_size: (u32, u32),
    /// The border width the server reports; zero as created.
    pub border: u32,
    /// Whether the window is mapped.
    pub visible: bool,
    /// The window title as last set.
    pub title: String,
    /// Where the pointer was last warped to, if anywhere.
    pub cursor_position: Option<(i32, i32)>,
}

impl Window {
    /// The window's structural invariant: creation requests no border,
    /// so the outer size cannot overflow.
    pub open spec fn wf(self) -> bool {
        self.border == 0
    }

    /// Create a window on the given connection.
    ///
    /// The acquisition sequence fails on the first step the server
    /// refuses: the mode search (only when a monitor was requested and
    /// modes were reported; a fullscreen request with no reported
    /// modes is tolerated and simply switches no mode), then the
    /// input-method open, the input-context creation, and the
    /// detectable auto-repeat check.  On success the window starts
    /// windowed at the requested dimensions, not closed, with an empty
    /// queue, a normal cursor, and its wake-up slot populated.
    pub fn new(conn: &XConnection, window_attrs: &WindowAttributes) -> (r: Result<
        Window,
        CreationError,
    >)
        requires
            window_attrs.min_dimensions is None,
            window_attrs.max_dimensions is None,
        ensures
            r is Ok <==> creation_failure(*conn, *window_attrs) is None,
            r matches Err(e) ==> Some(e) == creation_failure(*conn, *window_attrs),
            r matches Ok(w) ==> w.wf() && w.x.display == conn.display && w.x.window
                == conn.next_window && w.x.screen_id == target_screen(*conn, *window_attrs)
                && w.x.is_fullscreen == window_attrs.monitor is Some && w.x.xf86_desk_mode
                == saved_desk_mode(*conn, *window_attrs) && w.x.im == conn.im->0 && w.x.ic
                == conn.ic->0,
            r matches Ok(w) ==> w.x.window_proxy_data.data == Some(
                WindowProxyData { display: conn.display, window: conn.next_window },
            ),
            r matches Ok(w) ==> !w.is_closed && w.wm_delete_window == conn.wm_delete_window
                && w.current_size == (0u32, 0u32) && w.pending_events@ == Seq::<Event>::empty()
                && w.cursor_state == CursorState::Normal,
            r matches Ok(w) ==> w.position == (0i32, 0i32) && w.inner_size == effective_dimensions(
                *window_attrs,
            ) && w.visible == window_attrs.visible && w.title@ == window_attrs.title@
                && w.cursor_position is None,
    {
        let dimensions = match window_attrs.dimensions {
            Option::Some(d) => d,
            Option::None => (800u32, 600u32),
        };

        let screen_id: i32 = match window_attrs.monitor {
            Option::Some(m) => m as i32,
            Option::None => conn.default_screen,
        };

        // the mode search runs only for a fullscreen request when the
        // extension reported mode lines at all; the chosen mode is what
        // a deployment switches the display to, and the first reported
        // mode is the desktop mode teardown restores
        let mut xf86_desk_mode: Option<Mode> = None;
        if conn.modes.len() > 0 && window_attrs.monitor.is_some() {
            if choose_mode(&conn.modes, dimensions).is_none() {
                return Err(CreationError::NoSuitableGraphicsMode);
            }
            xf86_desk_mode = Some(conn.modes[0]);
        }

        let im: u64 = match conn.im {
            Option::Some(h) => h,
            Option::None => {
                return Err(CreationError::InputMethodOpenFailed);
            },
        };

        let ic: u64 = match conn.ic {
            Option::Some(h) => h,
            Option::None => {
                return Err(CreationError::InputContextCreateFailed);
            },
        };

        if !conn.detectable_autorepeat {
            return Err(CreationError::DetectableAutoRepeatUnsupported);
        }

        let is_fullscreen = window_attrs.monitor.is_some();

        let window_proxy_data = ProxySlot {
            data: Some(WindowProxyData { display: conn.display, window: conn.next_window }),
        };

        let mut window = Window {
            x: XWindow {
                display: conn.display,
                window: conn.next_window,
                is_fullscreen,
                screen_id,
                xf86_desk_mode,
                ic,
                im,
                window_proxy_data,
            },
            is_closed: false,
            wm_delete_window: conn.wm_delete_window,
            current_size: (0u32, 0u32),
            pending_events: VecDeque::new(),
            cursor_state: CursorState::Normal,
            position: (0i32, 0i32),
            inner_size: dimensions,
            border: 0u32,
            visible: window_attrs.visible,
            title: String::from_str(""),
            cursor_position: None,
        };

        // the title is set through the public operation, so the
        // encoding decision lives in one place
        window.set_title(window_attrs.title.as_str());

        Ok(window)
    }

    /// Record the window title; a deployment stores the name on the
    /// window and replaces the UTF-8 title property, then flushes.
    pub fn set_title(&mut self, title: &str)
        ensures
            final(self).title@ == title@,
            final(self).x == old(self).x,
            final(self).is_closed == old(self).is_closed,
            final(self).wm_delete_window == old(self).wm_delete_window,
            final(self).current_size == old(self).current_size,
            final(self).pending_events@ == old(self).pending_events@,
            final(self).cursor_state == old(self).cursor_state,
            final(self).position == old(self).position,
            final(self).inner_size == old(self).inner_size,
            final(self).border == old(self).border,
            final(self).visible == old(self).visible,
            final(self).cursor_position == old(self).cursor_position,
    {
        self.title = String::from_str(title);
    }

    /// Map and raise the window.
    pub fn show(&mut self)
        ensures
            *final(self) == (Window { visible: true, ..*old(self) }),
    {
        self.visible = true;
    }

    /// Unmap the window.
    pub fn hide_window(&mut self)
        ensures
            *final(self) == (Window { visible: false, ..*old(self) }),
    {
        self.visible = false;
    }

    /// The window's geometry as the server reports it: position, inner
    /// size, and border width.
    fn get_geometry(&self) -> (r: Option<(i32, i32, u32, u32, u32)>)
        ensures
            r == Some(
                (
                    self.position.0,
                    self.position.1,
                    self.inner_size.0,
                    self.inner_size.1,
                    self.border,
                ),
            ),
    {
        Some((self.position.0, self.position.1, self.inner_size.0, self.inner_size.1, self.border))
    }

    /// The window's position.
    pub fn get_position(&self) -> (r: Option<(i32, i32)>)
        ensures
            r == Some(self.position),
    {
        match self.get_geometry() {
            Option::Some((x, y, _, _, _)) => Some((x, y)),
            Option::None => None,
        }
    }

    /// Move the window to the given position.
    pub fn set_position(&mut self, x: i32, y: i32)
        ensures
            *final(self) == (Window { position: (x, y), ..*old(self) }),
    {
        self.position = (x, y);
    }

    /// The window's inner size.
    pub fn get_inner_size(&self) -> (r: Option<(u32, u32)>)
        ensures
            r == Some(self.inner_size),
    {
        match self.get_geometry() {
            Option::Some((_, _, w, h, _)) => Some((w, h)),
            Option::None => None,
        }
    }

    /// The window's outer size: the inner size grown by the border.
    pub fn get_outer_size(&self) -> (r: Option<(u32, u32)>)
        requires
            self.wf(),
        ensures
            r == Some((self.inner_size.0, self.inner_size.1)),
    {
        match self.get_geometry() {
            Option::Some((_, _, w, h, b)) => Some((w + b, h + b)),
            Option::None => None,
        }
    }

    /// Resize the window to the given inner size.
    pub fn set_inner_size(&mut self, x: u32, y: u32)
        ensures
            *final(self) == (Window { inner_size: (x, y), ..*old(self) }),
    {
        self.inner_size = (x, y);
    }

    /// A cloneable wake-up handle; it reads the shared slot at call
    /// time, so it outlives the window safely.
    pub fn create_window_proxy(&self) -> (r: WindowProxy)
    {
        WindowProxy {}
    }

    /// The native display handle, for interop with a rendering layer.
    pub fn get_xlib_display(&self) -> (r: u64)
        ensures
            r == self.x.display,
    {
        self.x.display
    }

    /// The native display handle under the platform-neutral name.
    pub fn platform_display(&self) -> (r: u64)
        ensures
            r == self.x.display,
    {
        self.x.display
    }

    /// The native window handle, for interop with a rendering layer.
    pub fn get_xlib_window(&self) -> (r: u64)
        ensures
            r == self.x.window,
    {
        self.x.window
    }

    /// The native window handle under the platform-neutral name.
    pub fn platform_window(&self) -> (r: u64)
        ensures
            r == self.x.window,
    {
        self.x.window
    }

    /// The name of the themed cursor a deployment loads, defines on the
    /// window, and frees, to show the requested icon.
    pub fn set_cursor(&self, cursor: MouseCursor) -> (name: &'static str)
        ensures
            name@ == theme_name_spec(cursor),
    {
        cursor_theme_name(cursor)
    }

    /// Transition the cursor state machine to the given state.
    ///
    /// The native calls of the transition are
    /// [`crate::cursor::cursor_transition_plan`] of the current and
    /// target states; `grab` is the server's verdict on the pointer
    /// grab that plan requests, and is ignored when it requests none.
    /// Requesting the state already active is a no-op success.  The
    /// state is committed only when the target's setup succeeds: a
    /// refused grab leaves it unchanged and reports the failure.
    pub fn set_cursor_state(&mut self, state: CursorState, grab: GrabOutcome) -> (r: Result<
        (),
        String,
    >)
        ensures
            r is Ok <==> (old(self).cursor_state == state || state != CursorState::Grab || grab
                == GrabOutcome::Success),
            r is Ok ==> *final(self) == (Window { cursor_state: state, ..*old(self) }),
            r matches Err(m) ==> *final(self) == *old(self) && m@
                == "cursor could not be grabbed"@,
    {
        if self.cursor_state == state {
            return Ok(());
        }
        match state {
            CursorState::Grab => {
                match grab {
                    GrabOutcome::Success => {
                        self.cursor_state = state;
                        Ok(())
                    },
                    _ => Err(String::from_str("cursor could not be grabbed")),
                }
            },
            _ => {
                self.cursor_state = state;
                Ok(())
            },
        }
    }

    /// Hand every queued already-translated event out, oldest first.
    fn drain_pending(&mut self) -> (out: Vec<Event>)
        ensures
            out@ == old(self).pending_events@,
            final(self).pending_events@ == Seq::<Event>::empty(),
            final(self).x == old(self).x,
            final(self).is_closed == old(self).is_closed,
            final(self).wm_delete_window == old(self).wm_delete_window,
            final(self).current_size == old(self).current_size,
            final(self).cursor_state == old(self).cursor_state,
            final(self).position == old(self).position,
            final(self).inner_size == old(self).inner_size,
            final(self).border == old(self).border,
            final(self).visible == old(self).visible,
            final(self).title == old(self).title,
            final(self).cursor_position == old(self).cursor_position,
    {
        let mut out: Vec<Event> = Vec::new();
        while self.pending_events.len() > 0
            invariant
                out@ + self.pending_events@ == old(self).pending_events@,
                self.x == old(self).x,
                self.is_closed == old(self).is_closed,
                self.wm_delete_window == old(self).wm_delete_window,
                self.current_size == old(self).current_size,
                self.cursor_state == old(self).cursor_state,
                self.position == old(self).position,
                self.inner_size == old(self).inner_size,
                self.border == old(self).border,
                self.visible == old(self).visible,
                self.title == old(self).title,
                self.cursor_position == old(self).cursor_position,
            decreases self.pending_events@.len(),
        {
            let ghost pending_pre = self.pending_events@;
            let ghost out_pre = out@;
            match self.pending_events.pop_front() {
                Option::Some(e) => {
                    out.push(e);
                    proof {
                        assert(self.pending_events@ =~= pending_pre.skip(1));
                        assert(out@ + self.pending_events@ =~= out_pre + pending_pre);
                    }
                },
                Option::None => {},
            }
        }
        proof {
            assert(out@ + self.pending_events@ =~= out@);
        }
        out
    }

    /// Classify one raw event against the engine state, appending
    /// whatever it yields: exactly `raw_event_yield` of the event, with
    /// the cache and the closed flag advanced accordingly.  A
    /// delete-window request yields `Closed` only while the flag was
    /// still clear, so one window emits `Closed` at most once.
    fn classify_raw_event(&mut self, ev: RawEvent, out: &mut Vec<Event>)
        ensures
            final(out)@ == old(out)@ + raw_event_yield(
                old(self).wm_delete_window,
                old(self).is_closed,
                old(self).current_size,
                ev,
            ),
            final(self).current_size == cache_after(old(self).current_size, ev),
            final(self).is_closed == closed_after(
                old(self).is_closed,
                old(self).wm_delete_window,
                ev,
            ),
            final(self).x == old(self).x,
            final(self).wm_delete_window == old(self).wm_delete_window,
            final(self).pending_events@ == old(self).pending_events@,
            final(self).cursor_state == old(self).cursor_state,
            final(self).position == old(self).position,
            final(self).inner_size == old(self).inner_size,
            final(self).border == old(self).border,
            final(self).visible == old(self).visible,
            final(self).title == old(self).title,
            final(self).cursor_position == old(self).cursor_position,
    {
        let ghost atom = self.wm_delete_window;
        let ghost closed_pre = self.is_closed;
        let ghost cache_pre = self.current_size;
        let ghost out_pre = out@;
        match ev {
            RawEvent::MappingNotify => {
                // the deployment refreshes the keyboard mapping; no
                // event is yielded
                proof {
                    assert(out@ =~= out_pre + raw_event_yield(atom, closed_pre, cache_pre, ev));
                }
            },
            RawEvent::ClientMessage { payload } => {
                if payload == self.wm_delete_window {
                    if !self.is_closed {
                        self.is_closed = true;
                        out.push(Event::Closed);
                    }
                } else {
                    out.push(Event::Awakened);
                }
                proof {
                    assert(out@ =~= out_pre + raw_event_yield(atom, closed_pre, cache_pre, ev));
                }
            },
            RawEvent::ConfigureNotify { width, height } => {
                if width != self.current_size.0 || height != self.current_size.1 {
                    self.current_size = (width, height);
                    out.push(Event::Resized(width, height));
                }
                proof {
                    assert(out@ =~= out_pre + raw_event_yield(atom, closed_pre, cache_pre, ev));
                }
            },
            RawEvent::Expose => {
                out.push(Event::Refresh);
                proof {
                    assert(out@ =~= out_pre + raw_event_yield(atom, closed_pre, cache_pre, ev));
                }
            },
            RawEvent::Key { translated } => {
                // the translator's yields pass through in their order
                let mut translated = translated;
                out.append(&mut translated);
                proof {
                    assert(out@ =~= out_pre + raw_event_yield(atom, closed_pre, cache_pre, ev));
                }
            },
            RawEvent::Generic { cookie } => {
                // the deployment acquires the auxiliary payload and
                // releases it on every path; only subtype codes in the
                // recognized extension range reach the translator
                match cookie {
                    Option::Some(c) => {
                        if XI_DEVICE_CHANGED <= c.evtype && c.evtype <= XI_LASTEVENT {
                            match c.event {
                                Option::Some(e) => out.push(e),
                                Option::None => {},
                            }
                        }
                    },
                    Option::None => {},
                }
                proof {
                    assert(out@ =~= out_pre + raw_event_yield(atom, closed_pre, cache_pre, ev));
                }
            },
            RawEvent::Other => {
                proof {
                    assert(out@ =~= out_pre + raw_event_yield(atom, closed_pre, cache_pre, ev));
                }
            },
        }
    }

    /// Drain the queue, then classify the raw events the server had
    /// pending, in order, yielding every event they contribute.  The
    /// produced sequence is finite; a later call resumes from whatever
    /// the server delivers next.
    pub fn poll_events(&mut self, raw: Vec<RawEvent>) -> (it: PollEventsIterator)
        ensures
            it.pos == 0,
            it.events@ == old(self).pending_events@ + pump_yields(
                old(self).wm_delete_window,
                old(self).is_closed,
                old(self).current_size,
                raw@,
            ),
            final(self).pending_events@ == Seq::<Event>::empty(),
            final(self).current_size == pump_cache(old(self).current_size, raw@),
            final(self).is_closed == pump_closed(
                old(self).is_closed,
                old(self).wm_delete_window,
                raw@,
            ),
            final(self).x == old(self).x,
            final(self).wm_delete_window == old(self).wm_delete_window,
            final(self).cursor_state == old(self).cursor_state,
            final(self).position == old(self).position,
            final(self).inner_size == old(self).inner_size,
            final(self).border == old(self).border,
            final(self).visible == old(self).visible,
            final(self).title == old(self).title,
            final(self).cursor_position == old(self).cursor_position,
    {
        let ghost atom = self.wm_delete_window;
        let ghost cache0 = self.current_size;
        let ghost closed0 = self.is_closed;
        let ghost raw0 = raw@;
        let mut raw = raw;
        let mut out = self.drain_pending();
        while raw.len() > 0
            invariant
                self.wm_delete_window == atom,
                out@ + pump_yields(atom, self.is_closed, self.current_size, raw@) == old(
                    self,
                ).pending_events@ + pump_yields(atom, closed0, cache0, raw0),
                pump_cache(self.current_size, raw@) == pump_cache(cache0, raw0),
                pump_closed(self.is_closed, atom, raw@) == pump_closed(closed0, atom, raw0),
                self.pending_events@ == Seq::<Event>::empty(),
                self.x == old(self).x,
                self.cursor_state == old(self).cursor_state,
                self.position == old(self).position,
                self.inner_size == old(self).inner_size,
                self.border == old(self).border,
                self.visible == old(self).visible,
                self.title == old(self).title,
                self.cursor_position == old(self).cursor_position,
            decreases raw.len(),
        {
            let ghost pre = raw@;
            let ghost cache_pre = self.current_size;
            let ghost closed_pre = self.is_closed;
            let ev = raw.remove(0);
            proof {
                assert(pre[0] == ev);
                assert(raw@ =~= pre.skip(1));
            }
            self.classify_raw_event(ev, &mut out);
            proof {
                assert(pump_yields(atom, closed_pre, cache_pre, pre) == raw_event_yield(
                    atom,
                    closed_pre,
                    cache_pre,
                    ev,
                ) + pump_yields(
                    atom,
                    closed_after(closed_pre, atom, ev),
                    cache_after(cache_pre, ev),
                    pre.skip(1),
                ));
            }
        }
        proof {
            assert(raw@ =~= Seq::<RawEvent>::empty());
            assert(out@ + pump_yields(atom, self.is_closed, self.current_size, raw@) =~= out@);
        }
        PollEventsIterator { events: out, pos: 0 }
    }

    /// Drain the queue, then classify raw events until the first
    /// delete-window request, whose `Closed` event ends the sequence;
    /// once the window is marked closed, yield nothing and consume
    /// nothing.  Everything after a delete-window request is handed
    /// back undelivered, as the server still holds it.
    pub fn wait_events(&mut self, raw: Vec<RawEvent>) -> (it: WaitEventsIterator)
        ensures
            it.pos == 0,
            old(self).is_closed ==> it.events@ == Seq::<Event>::empty() && it.undelivered@ == raw@
                && *final(self) == *old(self),
            !old(self).is_closed ==> it.events@ == old(self).pending_events@ + wait_yields(
                old(self).wm_delete_window,
                old(self).current_size,
                raw@,
            ),
            !old(self).is_closed ==> it.undelivered@ == wait_rest(
                old(self).wm_delete_window,
                raw@,
            ),
            !old(self).is_closed ==> final(self).is_closed == wait_closed(
                old(self).wm_delete_window,
                raw@,
            ),
            !old(self).is_closed ==> final(self).current_size == wait_cache(
                old(self).wm_delete_window,
                old(self).current_size,
                raw@,
            ),
            !old(self).is_closed ==> final(self).pending_events@ == Seq::<Event>::empty(),
            final(self).x == old(self).x,
            final(self).wm_delete_window == old(self).wm_delete_window,
            final(self).cursor_state == old(self).cursor_state,
            final(self).position == old(self).position,
            final(self).inner_size == old(self).inner_size,
            final(self).border == old(self).border,
            final(self).visible == old(self).visible,
            final(self).title == old(self).title,
            final(self).cursor_position == old(self).cursor_position,
    {
        if self.is_closed {
            return WaitEventsIterator { events: Vec::new(), pos: 0, undelivered: raw };
        }
        let ghost atom = self.wm_delete_window;
        let ghost cache0 = self.current_size;
        let ghost raw0 = raw@;
        let mut raw = raw;
        let mut out = self.drain_pending();
        while raw.len() > 0 && !self.is_closed
            invariant
                self.wm_delete_window == atom,
                !self.is_closed ==> out@ + wait_yields(atom, self.current_size, raw@) == old(
                    self,
                ).pending_events@ + wait_yields(atom, cache0, raw0),
                !self.is_closed ==> wait_cache(atom, self.current_size, raw@) == wait_cache(
                    atom,
                    cache0,
                    raw0,
                ),
                !self.is_closed ==> wait_closed(atom, raw@) == wait_closed(atom, raw0),
                !self.is_closed ==> wait_rest(atom, raw@) == wait_rest(atom, raw0),
                self.is_closed ==> out@ == old(self).pending_events@ + wait_yields(
                    atom,
                    cache0,
                    raw0,
                ),
                self.is_closed ==> raw@ == wait_rest(atom, raw0),
                self.is_closed ==> self.current_size == wait_cache(atom, cache0, raw0),
                self.is_closed ==> wait_closed(atom, raw0),
                self.pending_events@ == Seq::<Event>::empty(),
                self.x == old(self).x,
                self.cursor_state == old(self).cursor_state,
                self.position == old(self).position,
                self.inner_size == old(self).inner_size,
                self.border == old(self).border,
                self.visible == old(self).visible,
                self.title == old(self).title,
                self.cursor_position == old(self).cursor_position,
            decreases raw.len(),
        {
            let ghost pre = raw@;
            let ghost cache_pre = self.current_size;
            let ev = raw.remove(0);
            proof {
                assert(pre[0] == ev);
                assert(raw@ =~= pre.skip(1));
            }
            self.classify_raw_event(ev, &mut out);
            proof {
                if is_close_message(atom, pre[0]) {
                    assert(raw_event_yield(atom, false, cache_pre, pre[0]) =~= seq![
                        Event::Closed,
                    ]);
                    assert(wait_yields(atom, cache_pre, pre) =~= seq![Event::Closed]);
                } else {
                    assert(wait_yields(atom, cache_pre, pre) == raw_event_yield(
                        atom,
                        false,
                        cache_pre,
                        pre[0],
                    ) + wait_yields(atom, cache_after(cache_pre, pre[0]), pre.skip(1)));
                }
            }
        }
        proof {
            if !self.is_closed {
                assert(raw@ =~= Seq::<RawEvent>::empty());
                assert(out@ + wait_yields(atom, self.current_size, raw@) =~= out@);
            }
        }
        WaitEventsIterator { events: out, pos: 0, undelivered: raw }
    }

    /// Warp the pointer to the given window coordinates.
    pub fn set_cursor_position(&mut self, x: i32, y: i32) -> (r: Result<(), ()>)
        ensures
            r is Ok,
            *final(self) == (Window { cursor_position: Some((x, y)), ..*old(self) }),
    {
        self.cursor_position = Some((x, y));
        Ok(())
    }
}

/// The finite sequence of events a non-blocking poll produced, handed
/// out one per call.
#[derive(Debug)]
pub struct PollEventsIterator {
    /// The events, in classification order.
    pub events: Vec<Event>,
    /// How many have been handed out.
    pub pos: usize,
}

impl PollEventsIterator {
    /// The events not yet handed out, in order.
    pub open spec fn remaining(self) -> Seq<Event> {
        self.events@.skip(self.pos as int)
    }

    /// The oldest event not yet handed out, or nothing when the poll's
    /// produce is exhausted.
    pub fn next(&mut self) -> (r: Option<Event>)
        ensures
            final(self).events == old(self).events,
            old(self).pos < old(self).events@.len() ==> r == Some(
                old(self).events@[old(self).pos as int],
            ) && final(self).pos == old(self).pos + 1,
            old(self).pos >= old(self).events@.len() ==> r is None && *final(self) == *old(self),
    {
        if self.pos < self.events.len() {
            let e = self.events[self.pos];
            self.pos = self.pos + 1;
            Some(e)
        } else {
            None
        }
    }
}

/// The events a blocking wait delivered before it stopped, handed out
/// one per call, together with the raw events it left on the server.
#[derive(Debug)]
pub struct WaitEventsIterator {
    /// The delivered events, in classification order, ending at the
    /// first `Closed`.
    pub events: Vec<Event>,
    /// How many have been handed out.
    pub pos: usize,
    /// Raw events after the delete-window request, never fetched.
    pub undelivered: Vec<RawEvent>,
}

impl WaitEventsIterator {
    /// The events not yet handed out, in order.
    pub open spec fn remaining(self) -> Seq<Event> {
        self.events@.skip(self.pos as int)
    }

    /// The oldest event not yet handed out, or nothing once the wait
    /// has terminated.
    pub fn next(&mut self) -> (r: Option<Event>)
        ensures
            final(self).events == old(self).events,
            final(self).undelivered == old(self).undelivered,
            old(self).pos < old(self).events@.len() ==> r == Some(
                old(self).events@[old(self).pos as int],
            ) && final(self).pos == old(self).pos + 1,
            old(self).pos >= old(self).events@.len() ==> r is None && *final(self) == *old(self),
    {
        if self.pos < self.events.len() {
            let e = self.events[self.pos];
            self.pos = self.pos + 1;
            Some(e)
        } else {
            None
        }
    }
}

} // verus!
