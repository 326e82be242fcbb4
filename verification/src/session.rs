//! A running VNC session: what each event from the server does to the session's state and
//! which action it asks of the window, the full-screen toggle, and the decisions of the
//! connection task that shuttles events between the server and the window.
use vstd::prelude::*;

use crate::input::PointerState;

verus! {

/// Width of the window while the connect form is shown.
pub const CONNECT_WINDOW_WIDTH: u32 = 480;
/// Height of the window while the connect form is shown.
pub const CONNECT_WINDOW_HEIGHT: u32 = 410;
/// Width the window is given once the remote desktop is first drawn.
pub const VIEWER_WINDOW_WIDTH: u32 = 1200;
/// Height the window is given once the remote desktop is first drawn.
pub const VIEWER_WINDOW_HEIGHT: u32 = 1024;
/// Capacity of the channels between the window and the connection task.
pub const CHANNEL_CAPACITY: usize = 128;
/// Milliseconds between two refresh requests to the server.
pub const REFRESH_INTERVAL_MS: u64 = 16;

/// An event from the server, with the parts the session decides on.
pub enum SessionEvent {
    /// The remote desktop has this size.
    Resolution { width: u16, height: u16 },
    /// Pixels for the rectangle at `(x, y)` of size `width` x `height`.
    Image { x: u16, y: u16, width: u16, height: u16 },
    /// The remote clipboard now holds this text.
    Text(String),
    /// The connection failed.
    Error(String),
    /// Anything else.
    Other,
}

/// What the window does for an event.
pub enum SessionAction {
    /// Create a black desktop picture of this size, replacing any previous one.
    CreateDesktop { width: u16, height: u16 },
    /// Draw the pixels into the desktop picture; when `resize_window` holds, first grow the
    /// window to the viewer size.
    PaintDesktop { x: u16, y: u16, width: u16, height: u16, resize_window: bool },
    /// Put this text into the local clipboard.
    CopyToClipboard(String),
    /// Nothing.
    Nothing,
}

/// The state of a session as far as the decisions go.
pub struct SessionState {
    /// Width of the remote desktop; 0 until the server tells it.
    pub remote_width: u16,
    /// Height of the remote desktop; 0 until the server tells it.
    pub remote_height: u16,
    /// A desktop picture exists.
    pub has_desktop: bool,
    /// The error that ended the session, if any.
    pub error: Option<String>,
    /// The window has already been grown to the viewer size.
    pub resized_window: bool,
    /// The pointer state last sent to the server.
    pub latest_pointer: PointerState,
}

impl SessionState {
    /// A session that has just started: no desktop, no error, window not yet resized.
    pub fn new() -> (r: Self)
        ensures
            r.remote_width == 0,
            r.remote_height == 0,
            !r.has_desktop,
            r.error is None,
            !r.resized_window,
            r.latest_pointer == (PointerState { x: 0, y: 0, buttons: 0 }),
    {
        SessionState {
            remote_width: 0,
            remote_height: 0,
            has_desktop: false,
            error: None,
            resized_window: false,
            latest_pointer: PointerState::initial(),
        }
    }

    /// Whether the window should be grown now: true the first time only.
    pub fn take_resize(&mut self) -> (r: bool)
        ensures
            r == !old(self).resized_window,
            final(self).resized_window,
            final(self).remote_width == old(self).remote_width,
            final(self).remote_height == old(self).remote_height,
            final(self).has_desktop == old(self).has_desktop,
            final(self).error == old(self).error,
            final(self).latest_pointer == old(self).latest_pointer,
    {
        if self.resized_window {
            return false;
        }
        self.resized_window = true;
        true
    }

    /// Whether the session shows its error screen instead of the desktop.
    pub fn failed(&self) -> (r: bool)
        ensures
            r == self.error is Some,
    {
        self.error.is_some()
    }

    /// Handles one event from the server. A new resolution is recorded and asks for a new
    /// desktop picture; pixels are drawn only once a picture exists, and the first drawing
    /// grows the window; clipboard text goes to the local clipboard; an error is recorded;
    /// anything else is ignored.
    pub fn on_event(&mut self, event: SessionEvent) -> (r: SessionAction)
        ensures
            match event {
                SessionEvent::Resolution { width, height } => {
                    &&& r matches SessionAction::CreateDesktop { width: w, height: h }
                    &&& w == width && h == height
                    &&& final(self).remote_width == width
                    &&& final(self).remote_height == height
                    &&& final(self).has_desktop
                    &&& final(self).error == old(self).error
                    &&& final(self).resized_window == old(self).resized_window
                },
                SessionEvent::Image { x, y, width, height } => {
                    &&& old(self).has_desktop ==> (r matches SessionAction::PaintDesktop {
                        x: px,
                        y: py,
                        width: pw,
                        height: ph,
                        resize_window,
                    } && px == x && py == y && pw == width && ph == height && resize_window
                        == !old(self).resized_window)
                    &&& old(self).has_desktop ==> final(self).resized_window
                    &&& !old(self).has_desktop ==> r is Nothing && final(self).resized_window == old(
                        self,
                    ).resized_window
                    &&& final(self).remote_width == old(self).remote_width
                    &&& final(self).remote_height == old(self).remote_height
                    &&& final(self).has_desktop == old(self).has_desktop
                    &&& final(self).error == old(self).error
                },
                SessionEvent::Text(text) => {
                    &&& r matches SessionAction::CopyToClipboard(t)
                    &&& t@ == text@
                    &&& final(self).remote_width == old(self).remote_width
                    &&& final(self).remote_height == old(self).remote_height
                    &&& final(self).has_desktop == old(self).has_desktop
                    &&& final(self).error == old(self).error
                    &&& final(self).resized_window == old(self).resized_window
                },
                SessionEvent::Error(e) => {
                    &&& r is Nothing
                    &&& final(self).error == Some(e)
                    &&& final(self).remote_width == old(self).remote_width
                    &&& final(self).remote_height == old(self).remote_height
                    &&& final(self).has_desktop == old(self).has_desktop
                    &&& final(self).resized_window == old(self).resized_window
                },
                SessionEvent::Other => {
                    &&& r is Nothing
                    &&& final(self).remote_width == old(self).remote_width
                    &&& final(self).remote_height == old(self).remote_height
                    &&& final(self).has_desktop == old(self).has_desktop
                    &&& final(self).error == old(self).error
                    &&& final(self).resized_window == old(self).resized_window
                },
            },
            final(self).latest_pointer == old(self).latest_pointer,
            final(self).phase() == phase_after(old(self).phase(), event),
            resizes(r) == resizes_at(old(self).phase(), event),
    {
        match event {
            SessionEvent::Resolution { width, height } => {
                self.remote_width = width;
                self.remote_height = height;
                self.has_desktop = true;
                SessionAction::CreateDesktop { width, height }
            },
            SessionEvent::Image { x, y, width, height } => {
                if self.has_desktop {
                    let resize_window = self.take_resize();
                    SessionAction::PaintDesktop { x, y, width, height, resize_window }
                } else {
                    SessionAction::Nothing
                }
            },
            SessionEvent::Text(text) => SessionAction::CopyToClipboard(text),
            SessionEvent::Error(e) => {
                self.error = Some(e);
                SessionAction::Nothing
            },
            SessionEvent::Other => SessionAction::Nothing,
        }
    }
}

/// Whether an action grows the window.
pub open spec fn resizes(a: SessionAction) -> bool {
    a matches SessionAction::PaintDesktop { resize_window, .. } && resize_window
}

/// The part of a session's state that decides whether the window is grown.
pub struct Phase {
    pub has_desktop: bool,
    pub resized: bool,
}

impl SessionState {
    pub open spec fn phase(&self) -> Phase {
        Phase { has_desktop: self.has_desktop, resized: self.resized_window }
    }
}

/// The event grows the window: it is the first drawing into an existing desktop picture.
pub open spec fn resizes_at(p: Phase, e: SessionEvent) -> bool {
    e is Image && p.has_desktop && !p.resized
}

/// The phase after an event.
pub open spec fn phase_after(p: Phase, e: SessionEvent) -> Phase {
    match e {
        SessionEvent::Resolution { .. } => Phase { has_desktop: true, resized: p.resized },
        SessionEvent::Image { .. } => Phase {
            has_desktop: p.has_desktop,
            resized: p.resized || p.has_desktop,
        },
        _ => p,
    }
}

/// How many of the events, handled in order from phase `p`, grow the window.
pub open spec fn resize_count(p: Phase, events: Seq<SessionEvent>) -> nat
    decreases events.len(),
{
    if events.len() == 0 {
        0
    } else {
        (if resizes_at(p, events[0]) {
            1nat
        } else {
            0nat
        }) + resize_count(phase_after(p, events[0]), events.drop_first())
    }
}

/// Whatever the server sends, the window is grown at most once per session, and never again
/// once it has been grown.
pub proof fn law_window_resized_at_most_once(p: Phase, events: Seq<SessionEvent>)
    ensures
        resize_count(p, events) <= 1,
        p.resized ==> resize_count(p, events) == 0,
    decreases events.len(),
{
    if events.len() > 0 {
        let q = phase_after(p, events[0]);
        law_window_resized_at_most_once(q, events.drop_first());
        if resizes_at(p, events[0]) {
            assert(q.resized);
        }
    }
}

/// The full-screen toggle: whether full screen is on, and what is needed to restore the
/// window when it is turned off.
pub struct Fullscreen<W> {
    pub on: bool,
    pub windowed: Option<W>,
}

impl<W> Fullscreen<W> {
    /// Full screen off, nothing saved.
    pub fn new() -> (r: Self)
        ensures
            !r.on,
            r.windowed is None,
    {
        Fullscreen { on: false, windowed: None }
    }

    /// Applies the toggle after `on` has changed: when on, `enter` puts the window in full
    /// screen and what it returns is kept to restore it later; when off, the kept state is
    /// dropped, which restores the window, and `enter` is not called.
    pub fn set<F: FnOnce() -> Option<W>>(&mut self, enter: F)
        requires
            old(self).on ==> call_requires(enter, ()),
        ensures
            final(self).on == old(self).on,
            old(self).on ==> call_ensures(enter, (), final(self).windowed),
            !old(self).on ==> final(self).windowed is None,
    {
        self.windowed = if self.on {
            enter()
        } else {
            None
        };
    }
}

/// What the connection task woke up for.
pub enum TaskEvent<I, E> {
    /// The refresh timer ticked.
    Tick,
    /// The window sent an input event, or closed its side (`None`).
    Input(Option<I>),
    /// The server produced an event, or nothing yet (`None`).
    Polled(Option<E>),
    /// Polling the server failed.
    PollFailed,
}

/// What the connection task does next.
pub enum TaskStep<I, E> {
    /// Ask the server for an incremental refresh.
    Refresh,
    /// Send this input event to the server.
    SendInput(I),
    /// Hand this server event to the window.
    Forward(E),
    /// Wait for the next event.
    Wait,
    /// End the task.
    Stop,
}

/// The connection task's decision for one wake-up: a tick asks for a refresh, input goes to
/// the server, server events go to the window, and the task ends when the window's side is
/// closed or polling fails.
pub fn task_step<I, E>(event: TaskEvent<I, E>) -> (r: TaskStep<I, E>)
    ensures
        match event {
            TaskEvent::Tick => r is Refresh,
            TaskEvent::Input(Some(i)) => r == TaskStep::<I, E>::SendInput(i),
            TaskEvent::Input(None) => r is Stop,
            TaskEvent::Polled(Some(e)) => r == TaskStep::<I, E>::Forward(e),
            TaskEvent::Polled(None) => r is Wait,
            TaskEvent::PollFailed => r is Stop,
        },
{
    match event {
        TaskEvent::Tick => TaskStep::Refresh,
        TaskEvent::Input(Some(i)) => TaskStep::SendInput(i),
        TaskEvent::Input(None) => TaskStep::Stop,
        TaskEvent::Polled(Some(e)) => TaskStep::Forward(e),
        TaskEvent::Polled(None) => TaskStep::Wait,
        TaskEvent::PollFailed => TaskStep::Stop,
    }
}

} // verus!
