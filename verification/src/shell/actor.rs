//! The shell overlay's loop: what it takes in, when it wakes and what one pass
//! comes to.

use vstd::prelude::*;

use crate::gpu::error::SurfaceLost;
use crate::platform::{LogicalPoint, Visibility, WindowExtent};
use crate::shell::connection::{Connection, Request, Screen};
use crate::shell::edit::{Act, Apply, Deferred, Reader, Target};
use crate::shell::focus::{
    ignored_press, FocusMemory, Id, Identity, IgnoredKey, Key, ScrollOffset, Tab,
};
use crate::shell::messages::{settings_overlay_dismiss_last, Message};
use crate::text::joined;
use crate::time::{Duration, Instant};
use crate::web::navigation::WebEvent;

verus! {

/// Nanoseconds that the loop waits for its window at startup.
pub const TARGET_WAIT: u64 = 5_000_000_000;

/// Nanoseconds that shutdown waits for the loop's thread.
pub const SHUTDOWN_TIMEOUT: u64 = 2_000_000_000;

/// When the loop has to wake, if ever.
#[derive(Clone, Copy, Debug, PartialEq, Eq, Structural)]
pub struct Deadline {
    pub when: Option<Instant>,
}

pub open spec fn earlier(a: Option<Instant>, b: Option<Instant>) -> Option<Instant> {
    match (a, b) {
        (Some(x), Some(y)) => if x.nanos <= y.nanos {
            Some(x)
        } else {
            Some(y)
        },
        (Some(x), None) => Some(x),
        (None, y) => y,
    }
}

impl Deadline {
    pub fn none() -> (r: Deadline)
        ensures
            r.when is None,
    {
        Deadline { when: None }
    }

    pub fn at(when: Instant) -> (r: Deadline)
        ensures
            r.when == Some(when),
    {
        Deadline { when: Some(when) }
    }

    /// The earlier of two deadlines.
    pub fn merge(self, other: Deadline) -> (r: Deadline)
        ensures
            r.when == earlier(self.when, other.when),
    {
        match (self.when, other.when) {
            (Some(a), Some(b)) => Deadline { when: Some(if a.nanos <= b.nanos { a } else { b }) },
            (Some(a), None) => Deadline { when: Some(a) },
            (None, b) => Deadline { when: b },
        }
    }

    pub open spec fn has_elapsed(self, now: Instant) -> bool {
        self.when matches Some(at) && now.nanos >= at.nanos
    }

    pub fn elapsed(self, now: Instant) -> (r: bool)
        ensures
            r == self.has_elapsed(now),
    {
        match self.when {
            Some(at) => now.nanos >= at.nanos,
            None => false,
        }
    }

    /// How long there is to wait, `None` for ever.
    pub fn wait_for(self, now: Instant) -> (r: Option<Duration>)
        ensures
            r == (match self.when {
                Some(at) => Some(Duration { nanos: at.since(now) as u64 }),
                None => None,
            }),
    {
        match self.when {
            Some(at) => Some(at.duration_since(now)),
            None => None,
        }
    }
}

/// Merging deadlines never puts one off: whatever had come due stays due, and
/// nothing else comes due.
pub proof fn merge_keeps_every_deadline(a: Deadline, b: Deadline, now: Instant)
    ensures
        (Deadline { when: earlier(a.when, b.when) }).has_elapsed(now) <==> a.has_elapsed(now)
            || b.has_elapsed(now),
{
}

#[must_use]
#[derive(Clone, Copy, Debug, PartialEq, Eq, Structural)]
pub enum JoinOutcome {
    Terminated,
    Panicked,
    TimedOut,
    JoinerUnavailable,
}

impl JoinOutcome {
    /// The thread is known to be gone.
    pub fn terminated(self) -> (r: bool)
        ensures
            r == (self is Terminated || self is Panicked),
    {
        match self {
            JoinOutcome::Terminated | JoinOutcome::Panicked => true,
            JoinOutcome::TimedOut | JoinOutcome::JoinerUnavailable => false,
        }
    }
}

/// The end of a joining thread, as far as it was seen in time.
pub fn join_outcome(joiner_spawned: bool, joined: Option<bool>) -> (r: JoinOutcome)
    ensures
        r == (if !joiner_spawned {
            JoinOutcome::JoinerUnavailable
        } else {
            match joined {
                Some(true) => JoinOutcome::Terminated,
                Some(false) => JoinOutcome::Panicked,
                None => JoinOutcome::TimedOut,
            }
        }),
{
    if !joiner_spawned {
        return JoinOutcome::JoinerUnavailable;
    }
    match joined {
        Some(clean) => {
            if clean {
                JoinOutcome::Terminated
            } else {
                JoinOutcome::Panicked
            }
        },
        None => JoinOutcome::TimedOut,
    }
}

/// A position in the window, each coordinate held as the bits of an IEEE 754
/// single.
#[derive(Clone, Copy, Debug, PartialEq, Eq, Structural)]
pub struct Position {
    pub x_bits: u32,
    pub y_bits: u32,
}

#[derive(Clone, Copy, Debug, PartialEq, Eq, Structural)]
pub enum Cursor {
    Available(Position),
    Unavailable,
}

/// An event for the widgets.
#[derive(Debug)]
pub enum ShellEvent {
    CursorMoved { position: Position },
    CursorLeft,
    KeyPressed { key: Key, shift: bool },
    ClipboardText(String),
    RedrawRequested { at: Instant },
    /// Any other event, by the number its sender keeps it under.
    Other(u64),
}

impl Clone for ShellEvent {
    fn clone(&self) -> (r: Self)
        ensures
            r == *self,
    {
        match self {
            ShellEvent::CursorMoved { position } => ShellEvent::CursorMoved { position: *position },
            ShellEvent::CursorLeft => ShellEvent::CursorLeft,
            ShellEvent::KeyPressed { key, shift } => ShellEvent::KeyPressed {
                key: *key,
                shift: *shift,
            },
            ShellEvent::ClipboardText(text) => ShellEvent::ClipboardText(text.clone()),
            ShellEvent::RedrawRequested { at } => ShellEvent::RedrawRequested { at: *at },
            ShellEvent::Other(n) => ShellEvent::Other(*n),
        }
    }
}

/// What the titlebar depends on.
#[derive(Clone, Copy, Debug, PartialEq, Eq, Structural)]
pub struct ChromeInputs {
    pub titlebar_shown: bool,
}

/// A colour, each channel held as the bits of an IEEE 754 single.
#[derive(Clone, Copy, Debug, PartialEq, Eq, Structural)]
pub struct Color {
    pub r_bits: u32,
    pub g_bits: u32,
    pub b_bits: u32,
    pub a_bits: u32,
}

/// What the loop takes in.
#[derive(Debug)]
pub enum Work {
    Event(ShellEvent),
    Resize { extent: WindowExtent },
    Redraw,
    OpenAbout,
    OpenClientSettings,
    Chrome(ChromeInputs),
    ChromeBackground(Color),
    SelectionText { reader: Reader, text: Option<String> },
    ContextMenu(LogicalPoint),
    EditMenuAtCaret,
    PrimaryPaste(LogicalPoint),
    EditAt { field: Target, command: crate::input::sink::EditCommand },
    WebAttached,
    WebEvent(WebEvent),
    Shutdown,
}

/// A step of the modal stack.
#[derive(Clone, Copy, Debug, PartialEq, Eq, Structural)]
pub enum Transition {
    OpenAbout,
    OpenClientSettings,
    Escape,
}

#[derive(Clone, Copy, Debug, PartialEq, Eq, Structural)]
pub enum Flow {
    Continue,
    Stop,
}

/// What the loop's surroundings do once a piece of work is taken in.
#[derive(Debug)]
pub enum Effect {
    Nothing,
    /// Resize the painter; the widgets' state is void.
    ResizePainter(WindowExtent),
    /// Move the modal stack; the widgets' state is void.
    Transition(Transition),
    /// Deliver these requests to the web overlay. A server that was found is
    /// saved first; a connect screen that starts to fade gives up its colour.
    Deliver { requests: Vec<Request>, save_server: Option<String>, connect_dismissed: bool },
    Stop,
}

#[derive(Debug)]
pub enum LoopStartError {
    NoTarget,
    NoGpu,
    NoExtent,
    Painter(SurfaceLost),
}

impl LoopStartError {
    pub fn message(&self) -> (r: String)
        ensures
            r@ == (match *self {
                LoopStartError::NoTarget => "window target unavailable or startup canceled"@,
                LoopStartError::NoGpu => "GPU device unavailable"@,
                LoopStartError::NoExtent => "window extent unavailable"@,
                LoopStartError::Painter(lost) => "swapchain creation failed: "@
                    + crate::gpu::error::kind_message(lost.kind),
            }),
    {
        match self {
            LoopStartError::NoTarget => "window target unavailable or startup canceled".to_owned(),
            LoopStartError::NoGpu => "GPU device unavailable".to_owned(),
            LoopStartError::NoExtent => "window extent unavailable".to_owned(),
            LoopStartError::Painter(lost) => joined(
                "swapchain creation failed: ",
                lost.message().as_str(),
            ),
        }
    }
}

/// What the overlay is about.
#[derive(Debug)]
pub struct Model {
    pub connection: Connection,
    pub screen: Screen,
    pub inputs: ChromeInputs,
    pub chrome_background: Color,
}

#[derive(Debug)]
pub struct Loop {
    pub model: Model,
    pub events: Vec<ShellEvent>,
    pub cursor: Cursor,
    pub current: WindowExtent,
    pub focus: FocusMemory,
    pub pending: Deadline,
    pub immediate: bool,
    pub batch: Vec<Work>,
    pub queued: Vec<Apply>,
    pub deferred: Vec<Deferred>,
    pub last_primary: Option<(Id, u64)>,
    pub drew_nothing_yet: bool,
}

/// What the loop does before it looks at its work again.
#[derive(Clone, Copy, Debug, PartialEq, Eq, Structural)]
pub enum Wait {
    /// Go on at once.
    Proceed,
    /// Wait for work, but no longer than this.
    Timeout(Duration),
    /// Wait for work.
    Block,
}

/// What the wait came to.
#[derive(Debug)]
pub enum Received {
    Work(Work),
    TimedOut,
    Disconnected,
}

/// `new` is `old` but for the parts named by a caller's other clauses: the
/// parts that no work and no pass may touch unasked.
pub open spec fn keeps_bookkeeping(old: Loop, new: Loop) -> bool {
    &&& new.pending == old.pending
    &&& new.immediate == old.immediate
    &&& new.batch@ == old.batch@
    &&& new.last_primary == old.last_primary
    &&& new.drew_nothing_yet == old.drew_nothing_yet
}

/// The work changed none of what the widgets and the painter work on.
pub open spec fn keeps_scene(old: Loop, new: Loop) -> bool {
    &&& new.model.screen == old.model.screen
    &&& new.cursor == old.cursor
    &&& new.current == old.current
    &&& new.focus == old.focus
    &&& new.model.inputs == old.model.inputs
    &&& new.model.chrome_background == old.model.chrome_background
}

pub open spec fn keeps_queues(old: Loop, new: Loop) -> bool {
    &&& new.events@ == old.events@
    &&& new.queued@ == old.queued@
    &&& new.deferred@ == old.deferred@
}

pub open spec fn keeps_connection(old: Loop, new: Loop) -> bool {
    crate::shell::connection::unchanged(old.model.connection, new.model.connection)
}

/// The widgets' state is void, and their focus is to be restored.
pub open spec fn cache_discarded(old: FocusMemory, new: FocusMemory) -> bool {
    new == (FocusMemory { cache_lost: true, ..old })
}

/// A web event has been answered: the connection has taken its step, and what
/// it then wanted delivered has been taken out of it.
pub open spec fn web_step(
    old: Connection,
    new: Connection,
    event: WebEvent,
    now: Instant,
    effect: Effect,
) -> bool {
    exists|mid: Connection|
        {
            &&& #[trigger] web_answer(old, mid, event, now)
            &&& effect matches Effect::Deliver { requests, save_server, connect_dismissed }
            &&& crate::shell::connection::flushed(mid, new, requests@)
            &&& match event {
                WebEvent::ProbeFinished { cycle, base } => {
                    &&& !connect_dismissed
                    &&& match save_server {
                        Some(saved) => base matches Some(b) && saved@ == b@ && old.phase.probe()
                            == Some(cycle),
                        None => base is None || old.phase.probe() != Some(cycle),
                    }
                },
                WebEvent::NavigationFailed(_) => !connect_dismissed && save_server is None,
                WebEvent::FramePresented(p) => {
                    &&& connect_dismissed == crate::shell::connection::loads(old, p.of())
                    &&& save_server is None
                },
            }
        }
}

/// The connection's own step for a web event.
pub open spec fn web_answer(
    old: Connection,
    mid: Connection,
    event: WebEvent,
    now: Instant,
) -> bool {
    match event {
        WebEvent::ProbeFinished { cycle, base } => match base {
            Some(b) => if old.phase.probe() == Some(cycle) {
                crate::shell::connection::navigated(old, mid, b@, now)
            } else {
                crate::shell::connection::unchanged(old, mid)
            },
            None => crate::shell::connection::probe_failure(old, mid, cycle, now),
        },
        WebEvent::NavigationFailed(n) => crate::shell::connection::navigation_failure(old, mid, n),
        WebEvent::FramePresented(p) => if crate::shell::connection::loads(old, p.of()) {
            crate::shell::connection::entered(
                old,
                mid,
                crate::shell::connection::Phase::Retiring { navigation: p.of(), fade_from: now },
            )
        } else {
            crate::shell::connection::unchanged(old, mid)
        },
    }
}

/// What taking in one piece of work changes, and what it asks for.
pub open spec fn absorbed(old: Loop, new: Loop, work: Work, now: Instant, effect: Effect) -> bool {
    &&& keeps_bookkeeping(old, new)
    &&& match work {
        Work::Event(event) => {
            &&& effect is Nothing
            &&& new.events@ == old.events@.push(event)
            &&& new.cursor == (match event {
                ShellEvent::CursorMoved { position } => Cursor::Available(position),
                ShellEvent::CursorLeft => Cursor::Unavailable,
                _ => old.cursor,
            })
            &&& new.queued@ == old.queued@ && new.deferred@ == old.deferred@
            &&& new.model.screen == old.model.screen && new.current == old.current && new.focus == old.focus
            &&& new.model.inputs == old.model.inputs && new.model.chrome_background == old.model.chrome_background
            &&& keeps_connection(old, new)
        },
        Work::Resize { extent } => {
            &&& effect == Effect::ResizePainter(extent)
            &&& new.current == extent
            &&& cache_discarded(old.focus, new.focus)
            &&& new.model.screen == old.model.screen && new.cursor == old.cursor
            &&& new.model.inputs == old.model.inputs && new.model.chrome_background == old.model.chrome_background
            &&& keeps_queues(old, new)
            &&& keeps_connection(old, new)
        },
        Work::Redraw => effect is Nothing && keeps_scene(old, new) && keeps_queues(old, new)
            && keeps_connection(old, new),
        Work::OpenAbout => {
            &&& effect == Effect::Transition(Transition::OpenAbout)
            &&& cache_discarded(old.focus, new.focus)
            &&& new.model.screen == old.model.screen && new.cursor == old.cursor && new.current == old.current
            &&& new.model.inputs == old.model.inputs && new.model.chrome_background == old.model.chrome_background
            &&& keeps_queues(old, new)
            &&& keeps_connection(old, new)
        },
        Work::OpenClientSettings => {
            &&& effect == Effect::Transition(Transition::OpenClientSettings)
            &&& cache_discarded(old.focus, new.focus)
            &&& new.model.screen == old.model.screen && new.cursor == old.cursor && new.current == old.current
            &&& new.model.inputs == old.model.inputs && new.model.chrome_background == old.model.chrome_background
            &&& keeps_queues(old, new)
            &&& keeps_connection(old, new)
        },
        Work::Chrome(inputs) => {
            &&& effect is Nothing
            &&& new.model.inputs == inputs
            &&& new.model.chrome_background == old.model.chrome_background
            &&& new.model.screen == old.model.screen && new.cursor == old.cursor && new.current == old.current
            &&& new.focus == old.focus
            &&& keeps_queues(old, new)
            &&& keeps_connection(old, new)
        },
        Work::ChromeBackground(color) => {
            &&& effect is Nothing
            &&& new.model.chrome_background == color
            &&& new.model.inputs == old.model.inputs
            &&& new.model.screen == old.model.screen && new.cursor == old.cursor && new.current == old.current
            &&& new.focus == old.focus
            &&& keeps_queues(old, new)
            &&& keeps_connection(old, new)
        },
        Work::SelectionText { reader, text } => {
            &&& effect is Nothing
            &&& keeps_scene(old, new)
            &&& keeps_connection(old, new)
            &&& new.deferred@ == old.deferred@
            &&& match (reader, text) {
                (Reader::Iced, Some(t)) => new.events@ == old.events@.push(
                    ShellEvent::ClipboardText(t),
                ) && new.queued@ == old.queued@,
                (Reader::Field(field), Some(t)) => new.events@ == old.events@ && new.queued@
                    == old.queued@.push(Apply::Act { field, act: Act::Paste(t) }),
                (_, None) => new.events@ == old.events@ && new.queued@ == old.queued@,
            }
        },
        Work::ContextMenu(p) => deferred_more(old, new, Deferred::ContextMenu(p), effect),
        Work::EditMenuAtCaret => deferred_more(old, new, Deferred::EditMenuAtCaret, effect),
        Work::PrimaryPaste(p) => deferred_more(old, new, Deferred::PrimaryPaste(p), effect),
        Work::EditAt { field, command } => deferred_more(
            old,
            new,
            Deferred::Edit(field, command),
            effect,
        ),
        Work::WebAttached => {
            &&& keeps_scene(old, new)
            &&& keeps_queues(old, new)
            &&& effect matches Effect::Deliver { requests, save_server, connect_dismissed }
            &&& requests@ == old.model.connection.requests@
            &&& save_server is None && !connect_dismissed
            &&& new.model.connection.attached
            &&& new.model.connection.requests@.len() == 0
            &&& new.model.connection.phase == old.model.connection.phase
            &&& new.model.connection.cycles == old.model.connection.cycles
            &&& new.model.connection.navigations == old.model.connection.navigations
        },
        Work::WebEvent(event) => {
            &&& keeps_scene(old, new)
            &&& keeps_queues(old, new)
            &&& web_step(old.model.connection, new.model.connection, event, now, effect)
        },
        Work::Shutdown => effect is Stop && keeps_scene(old, new) && keeps_queues(old, new)
            && keeps_connection(old, new),
    }
}

pub open spec fn deferred_more(old: Loop, new: Loop, request: Deferred, effect: Effect) -> bool {
    &&& effect is Nothing
    &&& keeps_scene(old, new)
    &&& keeps_connection(old, new)
    &&& new.events@ == old.events@
    &&& new.queued@ == old.queued@
    &&& new.deferred@ == old.deferred@.push(request)
}

/// The window's extent at startup: the reported one, else the fallback.
pub fn initial_extent(reported: Option<WindowExtent>, fallback: Option<WindowExtent>) -> (r: Option<
    WindowExtent,
>)
    ensures
        r == (if reported is Some {
            reported
        } else {
            fallback
        }),
{
    match reported {
        Some(extent) => Some(extent),
        None => fallback,
    }
}

/// The deadline for the connection's own clock.
pub open spec fn with_due(
    pending: Option<Instant>,
    phase: crate::shell::connection::Phase,
) -> Option<Instant> {
    earlier(pending, crate::shell::connection::due(phase))
}

/// The overlay's event can be counted.
pub open spec fn event_fits(c: Connection, event: WebEvent, now: Instant) -> bool {
    match event {
        WebEvent::ProbeFinished { cycle, base } => if base is Some {
            crate::shell::connection::resolution_fits(c, cycle)
        } else {
            crate::shell::connection::failure_fits(c, cycle, now)
        },
        _ => true,
    }
}

impl Loop {
    /// Brings the loop up. `extent` counts only once there is a GPU, and
    /// `painter` only once there is an extent. A fresh loop probes the
    /// configured server, has lost the widgets' state and has drawn nothing.
    pub fn start(
        gpu_available: bool,
        extent: Option<WindowExtent>,
        painter: Result<(), SurfaceLost>,
        server_url: &str,
        inputs: ChromeInputs,
        chrome_background: Color,
        now: Instant,
    ) -> (r: Result<Loop, LoopStartError>)
        ensures
            !gpu_available ==> r is Err && r->Err_0 == LoopStartError::NoGpu,
            gpu_available && extent is None ==> r is Err && r->Err_0 == LoopStartError::NoExtent,
            gpu_available && extent is Some ==> (painter matches Err(lost) ==> r is Err && r->Err_0
                == LoopStartError::Painter(lost)),
            r is Ok <==> gpu_available && extent is Some && painter is Ok,
            r matches Ok(l) ==> {
                &&& l.current == extent->0
                &&& l.model.inputs == inputs
                &&& l.model.chrome_background == chrome_background
                &&& l.model.screen == crate::shell::connection::phase_screen(l.model.connection.phase)
                &&& crate::shell::connection::fresh_connection(
                    l.model.connection,
                    server_url@,
                    now,
                )
                &&& l.focus == (FocusMemory {
                    modal_identity: None,
                    modal_tab: None,
                    prior: None,
                    cache_lost: true,
                    pending_move: None,
                    settings_chain: false,
                })
                &&& l.events@.len() == 0 && l.batch@.len() == 0 && l.queued@.len() == 0
                    && l.deferred@.len() == 0
                &&& l.cursor == Cursor::Unavailable
                &&& l.pending.when is None
                &&& !l.immediate
                &&& l.last_primary is None
                &&& l.drew_nothing_yet
            },
    {
        if !gpu_available {
            return Err(LoopStartError::NoGpu);
        }
        let current = match extent {
            None => return Err(LoopStartError::NoExtent),
            Some(e) => e,
        };
        match painter {
            Err(lost) => return Err(LoopStartError::Painter(lost)),
            Ok(()) => {},
        }
        let connection = Connection::new(server_url.to_owned(), now, server_url);
        let screen = connection.screen();
        let mut focus = FocusMemory::default();
        focus.cache_lost = true;
        Ok(
            Loop {
                model: Model { connection, screen, inputs, chrome_background },
                events: Vec::new(),
                cursor: Cursor::Unavailable,
                current,
                focus,
                pending: Deadline::none(),
                immediate: false,
                batch: Vec::new(),
                queued: Vec::new(),
                deferred: Vec::new(),
                last_primary: None,
                drew_nothing_yet: true,
            },
        )
    }

    /// Takes over the work that came in while the window was waited for. The
    /// first pass comes at once.
    pub fn adopt(&mut self, pending: Vec<Work>)
        ensures
            *final(self) == (Loop { batch: pending, immediate: true, ..*old(self) }),
    {
        self.batch = pending;
        self.immediate = true;
    }

    /// How to wait for the next work, given the deadline of the modal stack.
    pub fn wait(&self, stack_deadline: Deadline, now: Instant) -> (r: Wait)
        ensures
            r == ({
                let d = earlier(self.pending.when, stack_deadline.when);
                if self.immediate {
                    Wait::Proceed
                } else {
                    match d {
                        Some(at) => if now.nanos >= at.nanos {
                            Wait::Proceed
                        } else {
                            Wait::Timeout(Duration { nanos: (at.nanos - now.nanos) as u64 })
                        },
                        None => Wait::Block,
                    }
                }
            }),
    {
        if self.immediate {
            return Wait::Proceed;
        }
        let deadline = self.pending.merge(stack_deadline);
        if deadline.elapsed(now) {
            return Wait::Proceed;
        }
        match deadline.wait_for(now) {
            Some(timeout) => Wait::Timeout(timeout),
            None => Wait::Block,
        }
    }

    /// The wait is over.
    pub fn on_received(&mut self, received: Received) -> (r: Flow)
        ensures
            r == (if received is Disconnected {
                Flow::Stop
            } else {
                Flow::Continue
            }),
            final(self).batch@ == (match received {
                Received::Work(work) => old(self).batch@.push(work),
                _ => old(self).batch@,
            }),
            keeps_scene(*old(self), *final(self)),
            keeps_queues(*old(self), *final(self)),
            keeps_connection(*old(self), *final(self)),
            final(self).pending == old(self).pending,
            final(self).immediate == old(self).immediate,
            final(self).last_primary == old(self).last_primary,
            final(self).drew_nothing_yet == old(self).drew_nothing_yet,
    {
        match received {
            Received::Work(work) => {
                self.batch.push(work);
                Flow::Continue
            },
            Received::TimedOut => Flow::Continue,
            Received::Disconnected => Flow::Stop,
        }
    }

    /// Starts a turn: the deadline that woke the loop is spent, and the work
    /// that has come in is taken out to be absorbed.
    pub fn begin_turn(&mut self) -> (batch: Vec<Work>)
        ensures
            batch@ == old(self).batch@,
            final(self).batch@.len() == 0,
            final(self).pending.when is None,
            !final(self).immediate,
            keeps_scene(*old(self), *final(self)),
            keeps_queues(*old(self), *final(self)),
            keeps_connection(*old(self), *final(self)),
            final(self).last_primary == old(self).last_primary,
            final(self).drew_nothing_yet == old(self).drew_nothing_yet,
    {
        self.pending = Deadline::none();
        self.immediate = false;
        let mut batch: Vec<Work> = Vec::new();
        batch.append(&mut self.batch);
        assert(batch@ =~= old(self).batch@);
        batch
    }

    /// Takes in one piece of work.
    pub fn absorb(&mut self, work: Work, now: Instant) -> (effect: Effect)
        requires
            work matches Work::WebEvent(event) ==> event_fits(
                old(self).model.connection,
                event,
                now,
            ),
        ensures
            absorbed(*old(self), *final(self), work, now, effect),
            old(self).model.connection.wf() ==> final(self).model.connection.wf(),
    {
        match work {
            Work::Event(event) => {
                match &event {
                    ShellEvent::CursorMoved { position } => {
                        self.cursor = Cursor::Available(*position);
                    },
                    ShellEvent::CursorLeft => {
                        self.cursor = Cursor::Unavailable;
                    },
                    _ => {},
                }
                self.events.push(event);
                Effect::Nothing
            },
            Work::Resize { extent } => {
                self.current = extent;
                self.discard_cache();
                Effect::ResizePainter(extent)
            },
            Work::Redraw => Effect::Nothing,
            Work::OpenAbout => {
                self.discard_cache();
                Effect::Transition(Transition::OpenAbout)
            },
            Work::OpenClientSettings => {
                self.discard_cache();
                Effect::Transition(Transition::OpenClientSettings)
            },
            Work::Chrome(inputs) => {
                self.model.inputs = inputs;
                Effect::Nothing
            },
            Work::ChromeBackground(color) => {
                self.model.chrome_background = color;
                Effect::Nothing
            },
            Work::SelectionText { reader, text } => {
                match (reader, text) {
                    (Reader::Iced, Some(text)) => {
                        self.events.push(ShellEvent::ClipboardText(text));
                    },
                    (Reader::Field(field), Some(text)) => {
                        self.queued.push(Apply::Act { field, act: Act::Paste(text) });
                    },
                    (_, None) => {},
                }
                Effect::Nothing
            },
            Work::ContextMenu(p) => {
                self.deferred.push(Deferred::ContextMenu(p));
                Effect::Nothing
            },
            Work::EditMenuAtCaret => {
                self.deferred.push(Deferred::EditMenuAtCaret);
                Effect::Nothing
            },
            Work::PrimaryPaste(p) => {
                self.deferred.push(Deferred::PrimaryPaste(p));
                Effect::Nothing
            },
            Work::EditAt { field, command } => {
                self.deferred.push(Deferred::Edit(field, command));
                Effect::Nothing
            },
            Work::WebAttached => {
                self.model.connection.attach();
                let requests = self.model.connection.flush_requests();
                Effect::Deliver { requests, save_server: None, connect_dismissed: false }
            },
            Work::WebEvent(event) => self.on_web_event(event, now),
            Work::Shutdown => Effect::Stop,
        }
    }

    fn on_web_event(&mut self, event: WebEvent, now: Instant) -> (effect: Effect)
        requires
            event_fits(old(self).model.connection, event, now),
        ensures
            web_step(old(self).model.connection, final(self).model.connection, event, now, effect),
            old(self).model.connection.wf() ==> final(self).model.connection.wf(),
            keeps_bookkeeping(*old(self), *final(self)),
            keeps_scene(*old(self), *final(self)),
            keeps_queues(*old(self), *final(self)),
    {
        let ghost given = event;
        let mut save_server: Option<String> = None;
        let mut connect_dismissed = false;
        match event {
            WebEvent::ProbeFinished { cycle, base } => match base {
                Some(base) => {
                    let saved = base.clone();
                    if self.model.connection.probe_resolved(cycle, base, now) {
                        save_server = Some(saved);
                    }
                },
                None => self.model.connection.probe_failed(cycle, now),
            },
            WebEvent::NavigationFailed(navigation) => self.model.connection.navigation_failed(navigation),
            WebEvent::FramePresented(presented) => {
                connect_dismissed = self.model.connection.frame_presented(presented, now);
            },
        }
        let ghost mid = self.model.connection;
        assert(web_answer(old(self).model.connection, mid, given, now));
        let requests = self.model.connection.flush_requests();
        Effect::Deliver { requests, save_server, connect_dismissed }
    }

    fn discard_cache(&mut self)
        ensures
            *final(self) == (Loop {
                focus: FocusMemory { cache_lost: true, ..old(self).focus },
                ..*old(self)
            }),
    {
        self.focus.cache_lost = true;
    }

    /// Starts a pass: the connection's clock moves on, the screen follows it,
    /// and the loop will wake for the connection's next deadline.
    pub fn begin_pass(&mut self, now: Instant) -> (requests: Vec<Request>)
        requires
            crate::shell::connection::tick_fits(old(self).model.connection, now),
            crate::shell::connection::due_fits(old(self).model.connection.phase),
        ensures
            exists|mid: Connection|
                #[trigger] crate::shell::connection::ticked(old(self).model.connection, mid, now)
                    && crate::shell::connection::flushed(
                    mid,
                    final(self).model.connection,
                    requests@,
                ),
            old(self).model.connection.wf() ==> final(self).model.connection.wf(),
            final(self).model.screen == crate::shell::connection::phase_screen(
                final(self).model.connection.phase,
            ),
            final(self).pending.when == with_due(
                old(self).pending.when,
                final(self).model.connection.phase,
            ),
            keeps_queues(*old(self), *final(self)),
            final(self).cursor == old(self).cursor,
            final(self).current == old(self).current,
            final(self).focus == old(self).focus,
            final(self).model.inputs == old(self).model.inputs,
            final(self).model.chrome_background == old(self).model.chrome_background,
            final(self).immediate == old(self).immediate,
            final(self).batch@ == old(self).batch@,
            final(self).last_primary == old(self).last_primary,
            final(self).drew_nothing_yet == old(self).drew_nothing_yet,
    {
        self.model.connection.tick(now);
        let ghost mid = self.model.connection;
        let requests = self.model.connection.flush_requests();
        assert(crate::shell::connection::ticked(old(self).model.connection, mid, now));
        self.model.screen = self.model.connection.screen();
        let due = match self.model.connection.deadline() {
            Some(at) => Deadline::at(at),
            None => Deadline::none(),
        };
        self.pending = self.pending.merge(due);
        requests
    }

    /// The widgets have been updated: the loop wakes for the redraw they ask
    /// for, and remembers who has the focus.
    pub fn after_update(&mut self, redraw: Deadline, focused: Option<Id>)
        ensures
            *final(self) == (Loop {
                pending: Deadline { when: earlier(old(self).pending.when, redraw.when) },
                focus: FocusMemory { prior: focused, ..old(self).focus },
                ..*old(self)
            }),
    {
        self.pending = self.pending.merge(redraw);
        self.focus.prior = focused;
    }

    /// The overlay is about to be painted. `true` the first time: the fonts
    /// have to be there.
    pub fn first_paint(&mut self) -> (r: bool)
        ensures
            r == old(self).drew_nothing_yet,
            *final(self) == (Loop { drew_nothing_yet: false, ..*old(self) }),
    {
        let first = self.drew_nothing_yet;
        self.drew_nothing_yet = false;
        first
    }

    /// The overlay was painted, or could not be yet: then the loop wakes to try
    /// again.
    pub fn on_painted(&mut self, painted: Painted)
        ensures
            *final(self) == (Loop {
                pending: Deadline {
                    when: match painted {
                        Painted::Deferred(at) => earlier(old(self).pending.when, Some(at)),
                        _ => old(self).pending.when,
                    },
                },
                ..*old(self)
            }),
    {
        match painted {
            Painted::Deferred(retry_at) => {
                self.pending = self.pending.merge(Deadline::at(retry_at));
            },
            Painted::Shown | Painted::Hidden | Painted::Requested => {},
        }
    }

    /// Ends a pass that left something to do: the messages are to be applied
    /// in the order returned, and the next pass comes at once.
    pub fn unsettled(&mut self, messages: Vec<Message>) -> (ordered: Vec<Message>)
        ensures
            ordered@ == crate::shell::messages::dismissals_last(messages@),
            *final(self) == (Loop { immediate: true, ..*old(self) }),
    {
        self.immediate = true;
        settings_overlay_dismiss_last(messages)
    }

    /// The widgets have been updated: what the pass does now. A settled pass
    /// is painted. Any other one is followed by the next at once, after its
    /// messages and the keys that no widget took.
    pub fn pass(
        &mut self,
        updated: Updated,
        focused: Option<Id>,
        occupied: bool,
        identity: Option<Identity>,
    ) -> (r: PassEnd)
        ensures
            ({
                let settles = is_settled(updated, occupied, identity);
                &&& *final(self) == (Loop {
                    pending: Deadline { when: earlier(old(self).pending.when, updated.redraw.when) },
                    focus: FocusMemory { prior: focused, ..old(self).focus },
                    drew_nothing_yet: old(self).drew_nothing_yet && !settles,
                    immediate: old(self).immediate || !settles,
                    ..*old(self)
                })
                &&& if settles {
                    r == (PassEnd::Paint { wait_for_fonts: old(self).drew_nothing_yet })
                } else {
                    r matches PassEnd::Again { messages, ignored } && messages@
                        == crate::shell::messages::dismissals_last(updated.messages@) && ignored@
                        == updated.ignored@
                }
            }),
    {
        self.after_update(updated.redraw, focused);
        if settled(&updated, occupied, identity) {
            return PassEnd::Paint { wait_for_fonts: self.first_paint() };
        }
        let ignored = updated.ignored;
        PassEnd::Again { messages: self.unsettled(updated.messages), ignored }
    }

    /// A key that no widget took, under the modal view as it is by now. An
    /// Escape moves the modal stack; a Tab moves the focus in the next pass.
    pub fn on_ignored(
        &mut self,
        event: &ShellEvent,
        occupied: bool,
        identity: Option<Identity>,
    ) -> (r: Option<Transition>)
        ensures
            match event_meaning(*event, occupied, identity) {
                Some(IgnoredKey::Escape) => r == Some(Transition::Escape) && *final(self)
                    == *old(self),
                Some(IgnoredKey::Focus(direction)) => r is None && *final(self) == (Loop {
                    focus: FocusMemory { pending_move: Some(direction), ..old(self).focus },
                    ..*old(self)
                }),
                None => r is None && *final(self) == *old(self),
            },
    {
        match ignored_key(event, occupied, identity) {
            Some(IgnoredKey::Escape) => Some(Transition::Escape),
            Some(IgnoredKey::Focus(direction)) => {
                self.focus.pending_move = Some(direction);
                None
            },
            None => None,
        }
    }
}

/// What an ignored event means under the modal view `identity`.
pub open spec fn event_meaning(
    event: ShellEvent,
    occupied: bool,
    identity: Option<Identity>,
) -> Option<IgnoredKey> {
    match event {
        ShellEvent::KeyPressed { key, shift } => crate::shell::focus::key_meaning(
            occupied,
            identity,
            key,
            shift,
        ),
        _ => None,
    }
}

pub fn ignored_key(event: &ShellEvent, occupied: bool, identity: Option<Identity>) -> (r: Option<
    IgnoredKey,
>)
    ensures
        r == event_meaning(*event, occupied, identity),
{
    match event {
        ShellEvent::KeyPressed { key, shift } => ignored_press(occupied, identity, *key, *shift),
        _ => None,
    }
}

/// What one update of the widgets came to.
#[derive(Debug)]
pub struct Updated {
    pub messages: Vec<Message>,
    pub ignored: Vec<ShellEvent>,
    pub outdated: bool,
    pub redraw: Deadline,
    pub interaction: u32,
    /// Text for the clipboard.
    pub copied: Option<String>,
    /// A widget wants the clipboard's text.
    pub wants_clipboard: bool,
}

/// What a pass does once the widgets have been updated.
#[derive(Debug)]
pub enum PassEnd {
    /// Paint the overlay. The first time the fonts have to be there.
    Paint { wait_for_fonts: bool },
    /// Apply the messages in this order, then look at the keys that no widget
    /// took.
    Again { messages: Vec<Message>, ignored: Vec<ShellEvent> },
}

/// When the widgets want to be drawn again.
#[derive(Clone, Copy, Debug, PartialEq, Eq, Structural)]
pub enum RedrawRequest {
    NextFrame,
    At(Instant),
    Wait,
}

/// The widgets' answer to an update. Outdated widgets are rebuilt, and answer
/// nothing.
#[derive(Debug)]
pub enum UiState {
    Outdated,
    Updated { interaction: u32, redraw: RedrawRequest, copied: Option<String>, wants_clipboard: bool },
}

pub open spec fn redraw_deadline(request: RedrawRequest, now: Instant) -> Option<Instant> {
    match request {
        RedrawRequest::NextFrame => Some(now),
        RedrawRequest::At(at) => Some(at),
        RedrawRequest::Wait => None,
    }
}

/// The events among the first `taken.len()` that no widget took, in order.
pub open spec fn left_over(events: Seq<ShellEvent>, taken: Seq<bool>) -> Seq<ShellEvent>
    decreases events.len(),
{
    if events.len() == 0 {
        seq![]
    } else {
        let front = left_over(events.drop_last(), taken);
        if events.len() <= taken.len() && !taken[events.len() - 1] {
            front.push(events.last())
        } else {
            front
        }
    }
}

/// The cursor of outdated widgets.
pub const INTERACTION_NONE: u32 = 0;

/// Every update ends with the event that asks the widgets to redraw.
pub fn begin_update(events: &mut Vec<ShellEvent>, now: Instant)
    ensures
        final(events)@ == old(events)@.push(ShellEvent::RedrawRequested { at: now }),
{
    events.push(ShellEvent::RedrawRequested { at: now });
}

/// Gathers what an update of the widgets came to, and uses the events up.
/// `taken` tells of each event whether a widget took it.
pub fn update_ui(
    events: &mut Vec<ShellEvent>,
    taken: &Vec<bool>,
    messages: Vec<Message>,
    state: UiState,
    now: Instant,
) -> (r: Updated)
    ensures
        final(events)@.len() == 0,
        r.messages@ == messages@,
        r.ignored@ == left_over(old(events)@, taken@),
        match state {
            UiState::Outdated => {
                &&& r.outdated
                &&& r.redraw.when is None
                &&& r.interaction == INTERACTION_NONE
                &&& r.copied is None
                &&& !r.wants_clipboard
            },
            UiState::Updated { interaction, redraw, copied, wants_clipboard } => {
                &&& !r.outdated
                &&& r.redraw.when == redraw_deadline(redraw, now)
                &&& r.interaction == interaction
                &&& r.copied == copied
                &&& r.wants_clipboard == wants_clipboard
            },
        },
{
    let mut ignored: Vec<ShellEvent> = Vec::new();
    let mut i: usize = 0;
    assert(events@.take(0) =~= seq![]);
    while i < events.len()
        invariant
            i <= events@.len(),
            events@ == old(events)@,
            ignored@ == left_over(events@.take(i as int), taken@),
        decreases events@.len() - i,
    {
        proof {
            assert(events@.take(i + 1).drop_last() =~= events@.take(i as int));
        }
        if i < taken.len() && !taken[i] {
            ignored.push(events[i].clone());
        }
        i += 1;
    }
    assert(events@.take(i as int) =~= old(events)@);
    events.clear();
    match state {
        UiState::Outdated => Updated {
            messages,
            ignored,
            outdated: true,
            redraw: Deadline::none(),
            interaction: INTERACTION_NONE,
            copied: None,
            wants_clipboard: false,
        },
        UiState::Updated { interaction, redraw, copied, wants_clipboard } => {
            let redraw = match redraw {
                RedrawRequest::NextFrame => Deadline::at(now),
                RedrawRequest::At(at) => Deadline::at(at),
                RedrawRequest::Wait => Deadline::none(),
            };
            Updated {
                messages,
                ignored,
                outdated: false,
                redraw,
                interaction,
                copied,
                wants_clipboard,
            }
        },
    }
}

/// Nothing is left to do: no message, no ignored key with a meaning, and the
/// widgets are current.
pub open spec fn is_settled(
    updated: Updated,
    occupied: bool,
    identity: Option<Identity>,
) -> bool {
    &&& updated.messages@.len() == 0
    &&& forall|i: int|
        0 <= i < updated.ignored@.len() ==> event_meaning(
            #[trigger] updated.ignored@[i],
            occupied,
            identity,
        ) is None
    &&& !updated.outdated
}

/// Whether the pass is settled, so that the overlay is painted.
pub fn settled(updated: &Updated, occupied: bool, identity: Option<Identity>) -> (r: bool)
    ensures
        r == is_settled(*updated, occupied, identity),
{
    if updated.messages.len() > 0 || updated.outdated {
        return false;
    }
    let mut i: usize = 0;
    while i < updated.ignored.len()
        invariant
            i <= updated.ignored@.len(),
            forall|j: int|
                0 <= j < i ==> event_meaning(#[trigger] updated.ignored@[j], occupied, identity)
                    is None,
        decreases updated.ignored@.len() - i,
    {
        if ignored_key(&updated.ignored[i], occupied, identity).is_some() {
            assert(event_meaning(updated.ignored@[i as int], occupied, identity) is Some);
            return false;
        }
        i += 1;
    }
    true
}

#[derive(Clone, Copy, Debug, PartialEq, Eq, Structural)]
pub enum Painted {
    Shown,
    Hidden,
    Deferred(Instant),
    Requested,
}

/// What the painter had for a frame.
#[derive(Clone, Copy, Debug, PartialEq, Eq, Structural)]
pub enum AcquireOutcome {
    Frame,
    /// No frame yet; the instant to try again, where one is known.
    Deferred(Option<Instant>),
}

/// What painting came to. A hidden overlay is not painted; a frame that is not
/// there yet is tried again at its instant, or asked for where none is known.
pub fn paint(visibility: Visibility, acquired: AcquireOutcome) -> (r: Painted)
    ensures
        r == (match visibility {
            Visibility::Hidden => Painted::Hidden,
            Visibility::Shown => match acquired {
                AcquireOutcome::Frame => Painted::Shown,
                AcquireOutcome::Deferred(Some(at)) => Painted::Deferred(at),
                AcquireOutcome::Deferred(None) => Painted::Requested,
            },
        }),
{
    match visibility {
        Visibility::Hidden => Painted::Hidden,
        Visibility::Shown => match acquired {
            AcquireOutcome::Frame => Painted::Shown,
            AcquireOutcome::Deferred(retry) => match retry {
                Some(at) => Painted::Deferred(at),
                None => Painted::Requested,
            },
        },
    }
}

/// What the overlay shows.
#[derive(Clone, Copy, Debug, PartialEq, Eq, Structural)]
pub enum Scene {
    Modal,
    Titlebar,
    Nothing,
}

pub open spec fn scene_of(occupied: bool, titlebar_shown: bool) -> Scene {
    if occupied {
        Scene::Modal
    } else if titlebar_shown {
        Scene::Titlebar
    } else {
        Scene::Nothing
    }
}

impl Model {
    pub fn titlebar_shown(&self) -> (r: bool)
        ensures
            r == self.inputs.titlebar_shown,
    {
        self.inputs.titlebar_shown
    }

    /// What to show while the modal stack is `occupied` or is not: a modal view
    /// covers the titlebar.
    pub fn scene(&self, occupied: bool) -> (r: Scene)
        ensures
            r == scene_of(occupied, self.inputs.titlebar_shown),
    {
        if occupied {
            return Scene::Modal;
        }
        if self.titlebar_shown() {
            return Scene::Titlebar;
        }
        Scene::Nothing
    }

    /// The overlay is shown exactly while it has something to show.
    pub fn visibility(&self, occupied: bool) -> (r: Visibility)
        ensures
            r == Visibility::Shown <==> scene_of(occupied, self.inputs.titlebar_shown)
                != Scene::Nothing,
    {
        Visibility::shown(occupied || self.titlebar_shown())
    }
}

/// The settings' focus and scroll offset, to be kept for when they show again.
/// Only the settings tab has them, and only once it has been laid out.
pub fn retained_settings(
    tab: Option<Tab>,
    focused: Option<Id>,
    offset: Option<ScrollOffset>,
) -> (r: Option<(Option<Id>, ScrollOffset)>)
    ensures
        r == (match (tab, offset) {
            (Some(Tab::Settings), Some(at)) => Some((focused, at)),
            _ => None,
        }),
{
    match (tab, offset) {
        (Some(Tab::Settings), Some(at)) => Some((focused, at)),
        _ => None,
    }
}

/// What to do while the window is waited for at startup.
#[derive(Clone, Copy, Debug, PartialEq, Eq, Structural)]
pub enum TargetWait {
    Found,
    GiveUp,
    WaitFor(Duration),
}

/// The window is asked for first, even at the deadline.
pub fn await_target(ready: bool, now: Instant, deadline: Instant) -> (r: TargetWait)
    ensures
        r == (if ready {
            TargetWait::Found
        } else if now.nanos >= deadline.nanos {
            TargetWait::GiveUp
        } else {
            TargetWait::WaitFor(Duration { nanos: (deadline.nanos - now.nanos) as u64 })
        }),
{
    if ready {
        return TargetWait::Found;
    }
    if now.nanos >= deadline.nanos {
        return TargetWait::GiveUp;
    }
    TargetWait::WaitFor(deadline.duration_since(now))
}

/// Work that comes in meanwhile is kept for the loop. A shutdown, the end of
/// the channel or the end of the wait ends it.
pub fn await_received(pending: &mut Vec<Work>, received: Received) -> (r: Flow)
    ensures
        match received {
            Received::Work(work) => if work is Shutdown {
                r == Flow::Stop && final(pending)@ == old(pending)@
            } else {
                r == Flow::Continue && final(pending)@ == old(pending)@.push(work)
            },
            _ => r == Flow::Stop && final(pending)@ == old(pending)@,
        },
{
    match received {
        Received::Work(work) => match work {
            Work::Shutdown => Flow::Stop,
            other => {
                pending.push(other);
                Flow::Continue
            },
        },
        Received::TimedOut | Received::Disconnected => Flow::Stop,
    }
}

/// A settled pass leaves nothing behind: no ignored key of it asks for another
/// pass.
pub proof fn settled_pass_asks_for_nothing(
    updated: Updated,
    occupied: bool,
    identity: Option<Identity>,
    i: int,
)
    requires
        is_settled(updated, occupied, identity),
        0 <= i < updated.ignored@.len(),
    ensures
        event_meaning(updated.ignored@[i], occupied, identity) is None,
        crate::shell::messages::dismissals_last(updated.messages@).len() == 0,
{
    crate::shell::messages::reordering_keeps_every_message(updated.messages@);
}

/// A deadline has elapsed from its instant on; without one, never. The earlier
/// of two deadlines is one of the two.
pub proof fn deadlines_elapse_from_their_instant(a: Deadline, b: Deadline, now: Instant)
    ensures
        a.when matches Some(at) ==> (a.has_elapsed(now) <==> at.nanos <= now.nanos),
        a.when is None ==> !a.has_elapsed(now),
        earlier(a.when, b.when) == a.when || earlier(a.when, b.when) == b.when,
        earlier(a.when, b.when) is None <==> a.when is None && b.when is None,
        a.when matches Some(x) ==> (earlier(a.when, b.when) matches Some(e) && e.nanos <= x.nanos),
        b.when matches Some(y) ==> (earlier(a.when, b.when) matches Some(e) && e.nanos <= y.nanos),
{
}

/// The loop wakes no later than the connection's own clock asks for.
pub proof fn the_loop_wakes_for_the_connection(
    pending: Option<Instant>,
    phase: crate::shell::connection::Phase,
)
    ensures
        crate::shell::connection::due(phase) matches Some(at) ==> (with_due(
            pending,
            phase,
        ) matches Some(e) && e.nanos <= at.nanos),
        pending matches Some(p) ==> (with_due(pending, phase) matches Some(e) && e.nanos
            <= p.nanos),
        crate::shell::connection::due(phase) is None ==> with_due(pending, phase) == pending,
{
}

/// An event for the widgets is kept behind those before it, and the cursor is
/// where it was last seen.
pub proof fn events_wait_for_the_widgets(
    old: Loop,
    new: Loop,
    event: ShellEvent,
    now: Instant,
    effect: Effect,
)
    requires
        absorbed(old, new, Work::Event(event), now, effect),
    ensures
        effect is Nothing,
        new.events@.len() == old.events@.len() + 1,
        new.events@.last() == event,
        new.events@.drop_last() == old.events@,
        event matches ShellEvent::CursorMoved { position } ==> new.cursor == Cursor::Available(
            position,
        ),
        event is CursorLeft ==> new.cursor == Cursor::Unavailable,
        !(event is CursorMoved) && !(event is CursorLeft) ==> new.cursor == old.cursor,
        new.queued@ == old.queued@ && new.deferred@ == old.deferred@,
        new.current == old.current && new.focus == old.focus && new.model.inputs
            == old.model.inputs && new.model.screen == old.model.screen,
        new.model.connection.phase == old.model.connection.phase,
        new.model.connection.requests@ == old.model.connection.requests@,
{
    assert(new.events@.drop_last() =~= old.events@);
}

/// A window of another size has its painter resized to it, and its widgets
/// built anew.
pub proof fn resizes_reach_the_painter(
    old: Loop,
    new: Loop,
    extent: WindowExtent,
    now: Instant,
    effect: Effect,
)
    requires
        absorbed(old, new, Work::Resize { extent }, now, effect),
    ensures
        effect == Effect::ResizePainter(extent),
        new.current == extent,
        new.focus.cache_lost,
        new.focus.prior == old.focus.prior && new.focus.modal_identity == old.focus.modal_identity
            && new.focus.modal_tab == old.focus.modal_tab && new.focus.pending_move
            == old.focus.pending_move && new.focus.settings_chain == old.focus.settings_chain,
        new.events@ == old.events@ && new.queued@ == old.queued@ && new.deferred@ == old.deferred@,
        new.cursor == old.cursor && new.model.inputs == old.model.inputs,
        new.model.connection.phase == old.model.connection.phase,
        new.model.connection.requests@ == old.model.connection.requests@,
{
}

/// Asking for a view opens that view; asking for a redraw changes nothing, and
/// a shutdown stops the loop.
pub proof fn views_open_as_asked(old: Loop, new: Loop, work: Work, now: Instant, effect: Effect)
    requires
        absorbed(old, new, work, now, effect),
    ensures
        work is OpenAbout ==> effect == Effect::Transition(Transition::OpenAbout)
            && new.focus.cache_lost,
        work is OpenClientSettings ==> effect == Effect::Transition(Transition::OpenClientSettings)
            && new.focus.cache_lost,
        work is Redraw ==> effect is Nothing && new.focus == old.focus,
        work is Shutdown <==> effect is Stop,
        work is OpenAbout || work is OpenClientSettings || work is Redraw || work is Shutdown ==> {
            &&& new.events@ == old.events@ && new.queued@ == old.queued@ && new.deferred@
                == old.deferred@
            &&& new.cursor == old.cursor && new.current == old.current && new.model.inputs
                == old.model.inputs && new.model.chrome_background == old.model.chrome_background
                && new.model.screen == old.model.screen
            &&& crate::shell::connection::unchanged(old.model.connection, new.model.connection)
        },
{
}

/// The titlebar follows what it is told: its inputs and its colour, each alone.
pub proof fn titlebars_follow_their_inputs(
    old: Loop,
    new: Loop,
    work: Work,
    now: Instant,
    effect: Effect,
)
    requires
        absorbed(old, new, work, now, effect),
    ensures
        work matches Work::Chrome(inputs) ==> new.model.inputs == inputs
            && new.model.chrome_background == old.model.chrome_background && effect is Nothing,
        work matches Work::ChromeBackground(color) ==> new.model.chrome_background == color
            && new.model.inputs == old.model.inputs && effect is Nothing,
        !(work is Chrome) ==> new.model.inputs == old.model.inputs,
        !(work is ChromeBackground) ==> new.model.chrome_background == old.model.chrome_background,
        new.model.screen == old.model.screen,
{
}

/// Text that was read goes to the one who asked for it: to the widgets as an
/// event, or pasted into the field. Nothing that was read goes to nobody.
pub proof fn read_text_goes_to_its_reader(
    old: Loop,
    new: Loop,
    reader: Reader,
    text: Option<String>,
    now: Instant,
    effect: Effect,
)
    requires
        absorbed(old, new, Work::SelectionText { reader, text }, now, effect),
    ensures
        effect is Nothing && new.deferred@ == old.deferred@,
        text is None ==> new.events@ == old.events@ && new.queued@ == old.queued@,
        text matches Some(t) ==> {
            &&& reader is Iced ==> new.queued@ == old.queued@ && new.events@.len()
                == old.events@.len() + 1 && new.events@.last() == ShellEvent::ClipboardText(t)
            &&& reader matches Reader::Field(id) ==> new.events@ == old.events@
                && new.queued@.len() == old.queued@.len() + 1 && (
            new.queued@.last() matches Apply::Act { field, act } && field == id && (
            act matches Act::Paste(pasted) && pasted == t))
        },
{
}

/// What needs the widgets waits for them, in order: a menu at its point or at
/// the caret, a paste at its point, an edit for its field.
pub proof fn requests_wait_for_the_widgets(
    old: Loop,
    new: Loop,
    work: Work,
    now: Instant,
    effect: Effect,
)
    requires
        absorbed(old, new, work, now, effect),
    ensures
        work is ContextMenu || work is EditMenuAtCaret || work is PrimaryPaste || work is EditAt
            ==> effect is Nothing && new.deferred@.len() == old.deferred@.len() + 1
            && new.deferred@.drop_last() == old.deferred@ && new.events@ == old.events@
            && new.queued@ == old.queued@,
        work matches Work::ContextMenu(p) ==> new.deferred@.last() == Deferred::ContextMenu(p),
        work is EditMenuAtCaret ==> new.deferred@.last() is EditMenuAtCaret,
        work matches Work::PrimaryPaste(p) ==> new.deferred@.last() == Deferred::PrimaryPaste(p),
        work matches Work::EditAt { field, command } ==> new.deferred@.last() == Deferred::Edit(
            field,
            command,
        ),
        !(work is ContextMenu || work is EditMenuAtCaret || work is PrimaryPaste || work is EditAt)
            ==> new.deferred@ == old.deferred@,
{
    if new.deferred@.len() > old.deferred@.len() {
        assert(new.deferred@.drop_last() =~= old.deferred@);
    }
}

/// What the overlay was waiting to be asked is handed over when it comes up.
pub proof fn overlays_are_asked_when_they_come_up(
    old: Loop,
    new: Loop,
    now: Instant,
    effect: Effect,
)
    requires
        absorbed(old, new, Work::WebAttached, now, effect),
    ensures
        effect matches Effect::Deliver { requests, save_server, connect_dismissed } && requests@
            == old.model.connection.requests@ && save_server is None && !connect_dismissed,
        new.model.connection.attached && new.model.connection.requests@.len() == 0,
        new.model.connection.phase == old.model.connection.phase,
        new.model.connection.cycles == old.model.connection.cycles,
        new.model.connection.navigations == old.model.connection.navigations,
        new.events@ == old.events@ && new.queued@ == old.queued@ && new.deferred@ == old.deferred@,
{
}

/// The overlay's answers move the connection on. A probe that found its server
/// has it saved and loaded, if it is the one waited for; one that found nothing
/// fails the attempt; the awaited document, once it is seen, dismisses the
/// connect screen. Answers to anything else save, load and dismiss nothing.
pub proof fn answers_move_the_connection_on(
    old: Loop,
    new: Loop,
    event: WebEvent,
    now: Instant,
    effect: Effect,
)
    requires
        absorbed(old, new, Work::WebEvent(event), now, effect),
        old.model.connection.navigations < u64::MAX,
    ensures
        effect matches Effect::Deliver { requests, save_server, connect_dismissed } && match event {
            WebEvent::ProbeFinished { cycle, base: Some(base) } => {
                let awaited = old.model.connection.phase.probe() == Some(cycle);
                &&& !connect_dismissed
                &&& save_server is Some <==> awaited
                &&& save_server matches Some(saved) ==> saved@ == base@
                &&& awaited ==> (new.model.connection.phase matches crate::shell::connection::Phase::Loading {
                    base: b,
                    ..
                } && b@ == base@)
                &&& !awaited ==> new.model.connection.phase == old.model.connection.phase
            },
            WebEvent::ProbeFinished { cycle, base: None } => {
                &&& !connect_dismissed && save_server is None
                &&& old.model.connection.phase.probe() != Some(cycle)
                    ==> new.model.connection.phase == old.model.connection.phase
                &&& old.model.connection.phase matches crate::shell::connection::Phase::Probing {
                    url,
                    cycle: live,
                    since,
                    ..
                } ==> (live == cycle && now.nanos >= since.nanos + 1_000_000_000
                    ==> new.model.connection.phase == (crate::shell::connection::Phase::Failed {
                    url,
                }))
            },
            WebEvent::NavigationFailed(n) => {
                &&& !connect_dismissed && save_server is None
                &&& !crate::shell::connection::loads(old.model.connection, n)
                    ==> new.model.connection.phase == old.model.connection.phase
                &&& crate::shell::connection::loads(old.model.connection, n)
                    ==> new.model.connection.phase is Failed
            },
            WebEvent::FramePresented(p) => {
                let awaited = crate::shell::connection::loads(old.model.connection, p.of());
                &&& save_server is None
                &&& connect_dismissed == awaited
                &&& awaited ==> new.model.connection.phase == (
                crate::shell::connection::Phase::Retiring { navigation: p.of(), fade_from: now })
                &&& !awaited ==> new.model.connection.phase == old.model.connection.phase
            },
        },
        effect matches Effect::Deliver { requests, .. } && (!old.model.connection.attached
            ==> requests@.len() == 0),
        old.model.connection.attached ==> new.model.connection.requests@.len() == 0,
        new.events@ == old.events@ && new.queued@ == old.queued@ && new.deferred@ == old.deferred@,
{
}

/// No work that is taken in touches when the loop wakes, the work that waits,
/// the published selection or whether anything has been drawn.
pub proof fn work_leaves_the_books_alone(
    old: Loop,
    new: Loop,
    work: Work,
    now: Instant,
    effect: Effect,
)
    requires
        absorbed(old, new, work, now, effect),
    ensures
        new.pending == old.pending && new.immediate == old.immediate && new.batch@ == old.batch@
            && new.last_primary == old.last_primary && new.drew_nothing_yet
            == old.drew_nothing_yet,
{
}

/// Kept parts are kept one by one.
pub proof fn kept_parts_are_kept(old: Loop, new: Loop)
    ensures
        keeps_scene(old, new) ==> new.model.screen == old.model.screen && new.cursor == old.cursor
            && new.current == old.current && new.focus == old.focus && new.model.inputs
            == old.model.inputs && new.model.chrome_background == old.model.chrome_background,
        keeps_queues(old, new) ==> new.events@ == old.events@ && new.queued@ == old.queued@
            && new.deferred@ == old.deferred@,
        keeps_connection(old, new) ==> new.model.connection.phase == old.model.connection.phase
            && new.model.connection.requests@ == old.model.connection.requests@,
        keeps_bookkeeping(old, new) ==> new.pending == old.pending && new.immediate
            == old.immediate && new.batch@ == old.batch@,
{
}

/// A key that no widget took leaves a view or moves the focus; no other event
/// means anything to the overlay.
pub proof fn only_keys_mean_anything(
    event: ShellEvent,
    occupied: bool,
    identity: Option<Identity>,
)
    ensures
        !(event is KeyPressed) ==> event_meaning(event, occupied, identity) is None,
        event matches ShellEvent::KeyPressed { key, shift } ==> {
            &&& key is Escape && occupied ==> event_meaning(event, occupied, identity) == Some(
                IgnoredKey::Escape,
            )
            &&& key is Escape && !occupied ==> event_meaning(event, occupied, identity) is None
            &&& key is Tab && identity == Some(Identity::SettingsOverlay) ==> (event_meaning(
                event,
                occupied,
                identity,
            ) matches Some(IgnoredKey::Focus(d)) && (d is Backward <==> shift))
            &&& key is Tab && identity != Some(Identity::SettingsOverlay) ==> event_meaning(
                event,
                occupied,
                identity,
            ) is None
            &&& key is Other ==> event_meaning(event, occupied, identity) is None
        },
{
}

/// Widgets that want to be drawn with the next frame wake the loop at once,
/// those that name an instant wake it then, and the others do not wake it.
pub proof fn redraws_wake_the_loop(request: RedrawRequest, now: Instant)
    ensures
        request is NextFrame ==> redraw_deadline(request, now) == Some(now),
        request matches RedrawRequest::At(at) ==> redraw_deadline(request, now) == Some(at),
        request is Wait ==> redraw_deadline(request, now) is None,
{
}

/// What is left over is what no widget took: of one event more, that event,
/// behind the others, exactly where it is known not to have been taken.
pub proof fn untaken_events_are_left_over(
    events: Seq<ShellEvent>,
    taken: Seq<bool>,
    event: ShellEvent,
)
    ensures
        left_over(seq![], taken).len() == 0,
        events.len() < taken.len() && !taken[events.len() as int] ==> left_over(
            events.push(event),
            taken,
        ) == left_over(events, taken).push(event),
        events.len() < taken.len() && taken[events.len() as int] ==> left_over(
            events.push(event),
            taken,
        ) == left_over(events, taken),
        events.len() >= taken.len() ==> left_over(events.push(event), taken) == left_over(
            events,
            taken,
        ),
{
    assert(events.push(event).drop_last() =~= events);
}

/// A pass is settled where it has no message, its widgets are current, and no
/// key is left that means anything: one of these alone unsettles it.
pub proof fn anything_left_unsettles_a_pass(
    updated: Updated,
    occupied: bool,
    identity: Option<Identity>,
    i: int,
)
    ensures
        updated.messages@.len() > 0 ==> !is_settled(updated, occupied, identity),
        updated.outdated ==> !is_settled(updated, occupied, identity),
        0 <= i < updated.ignored@.len() && event_meaning(
            updated.ignored@[i],
            occupied,
            identity,
        ) is Some ==> !is_settled(updated, occupied, identity),
        updated.messages@.len() == 0 && !updated.outdated && updated.ignored@.len() == 0
            ==> is_settled(updated, occupied, identity),
        updated.messages@.len() == 0 && !updated.outdated && (forall|k: int|
            0 <= k < updated.ignored@.len() ==> event_meaning(
                #[trigger] updated.ignored@[k],
                occupied,
                identity,
            ) is None) ==> is_settled(updated, occupied, identity),
{
}

/// A modal view covers the titlebar, and without either there is nothing to
/// show.
pub proof fn views_cover_the_titlebar(titlebar_shown: bool)
    ensures
        scene_of(true, titlebar_shown) is Modal,
        scene_of(false, true) is Titlebar,
        scene_of(false, false) is Nothing,
{
}

/// The loop waits for nothing while something is due at once, for as long as its
/// nearest deadline is away, and for work alone where it has none.
pub proof fn the_loop_waits_for_its_deadline(
    l: Loop,
    stack_deadline: Deadline,
    now: Instant,
    r: Wait,
)
    requires
        call_ensures(Loop::wait, (&l, stack_deadline, now), r),
    ensures
        l.immediate ==> r is Proceed,
        !l.immediate && (l.pending.has_elapsed(now) || stack_deadline.has_elapsed(now))
            ==> r is Proceed,
        r is Block <==> !l.immediate && l.pending.when is None && stack_deadline.when is None,
        r matches Wait::Timeout(d) ==> d.nanos > 0 && (l.pending.when matches Some(at)
            ==> now.nanos + d.nanos <= at.nanos) && (stack_deadline.when matches Some(at)
            ==> now.nanos + d.nanos <= at.nanos) && (l.pending.when == Some(
            Instant { nanos: (now.nanos + d.nanos) as u64 },
        ) || stack_deadline.when == Some(Instant { nanos: (now.nanos + d.nanos) as u64 })),
{
}

/// Work that was received is taken out in the order it came in, and once.
pub proof fn received_work_is_taken_once(
    l: &mut Loop,
    work: Work,
    flow: Flow,
    turn: &mut Loop,
    batch: Vec<Work>,
    next: &mut Loop,
    rest: Vec<Work>,
)
    requires
        call_ensures(Loop::on_received, (l, Received::Work(work)), flow),
        *old(turn) == *final(l),
        call_ensures(Loop::begin_turn, (turn,), batch),
        *old(next) == *final(turn),
        call_ensures(Loop::begin_turn, (next,), rest),
    ensures
        flow is Continue,
        batch@ == old(l).batch@.push(work),
        rest@.len() == 0,
        final(turn).pending.when is None && !final(turn).immediate,
{
}

/// The loop stops where nobody can send it work any more, and goes on
/// otherwise.
pub proof fn the_loop_stops_when_it_is_left(
    l: &mut Loop,
    left: Flow,
    m: &mut Loop,
    timed_out: Flow,
)
    requires
        call_ensures(Loop::on_received, (l, Received::Disconnected), left),
        call_ensures(Loop::on_received, (m, Received::TimedOut), timed_out),
    ensures
        left is Stop,
        timed_out is Continue,
        final(l).batch@ == old(l).batch@ && final(m).batch@ == old(m).batch@,
{
}

/// The fonts are waited for before the first paint and never again.
pub proof fn fonts_are_waited_for_once(l: &mut Loop, first: bool, m: &mut Loop, second: bool)
    requires
        call_ensures(Loop::first_paint, (l,), first),
        *old(m) == *final(l),
        call_ensures(Loop::first_paint, (m,), second),
    ensures
        first == old(l).drew_nothing_yet,
        !second,
{
}

/// A pass that settles is painted; one that does not is followed by another at
/// once, with its messages in order and the keys that nobody took.
pub proof fn passes_paint_or_go_on(
    l: &mut Loop,
    updated: Updated,
    focused: Option<Id>,
    occupied: bool,
    identity: Option<Identity>,
    r: PassEnd,
)
    requires
        call_ensures(Loop::pass, (l, updated, focused, occupied, identity), r),
    ensures
        r is Paint <==> is_settled(updated, occupied, identity),
        r matches PassEnd::Paint { wait_for_fonts } ==> wait_for_fonts == old(l).drew_nothing_yet
            && !final(l).drew_nothing_yet && final(l).immediate == old(l).immediate,
        r matches PassEnd::Again { messages, ignored } ==> final(l).immediate && messages@.len()
            == updated.messages@.len() && ignored@ == updated.ignored@,
        final(l).focus.prior == focused,
        updated.redraw.when matches Some(at) ==> (final(l).pending.when matches Some(e) && e.nanos
            <= at.nanos),
{
    crate::shell::messages::reordering_keeps_every_message(updated.messages@);
}

/// Escape leaves the view; Tab moves the focus ahead, and back under Shift.
pub proof fn untaken_keys_leave_or_move(
    l: &mut Loop,
    key: Key,
    shift: bool,
    occupied: bool,
    identity: Option<Identity>,
    r: Option<Transition>,
)
    requires
        call_ensures(
            Loop::on_ignored,
            (l, &ShellEvent::KeyPressed { key, shift }, occupied, identity),
            r,
        ),
    ensures
        r is Some <==> key is Escape && occupied,
        r matches Some(t) ==> t is Escape,
        key is Tab && identity == Some(Identity::SettingsOverlay) ==> (
        final(l).focus.pending_move matches Some(d) && (d is Backward <==> shift)),
        !(key is Tab) || identity != Some(Identity::SettingsOverlay) ==> final(l).focus
            == old(l).focus,
{
}

/// A frame that could not be painted yet is painted when it can be; nothing is
/// painted while the overlay is hidden.
pub proof fn frames_are_painted_when_they_can_be(
    visibility: Visibility,
    acquired: AcquireOutcome,
    painted: Painted,
    l: &mut Loop,
)
    requires
        call_ensures(paint, (visibility, acquired), painted),
        call_ensures(Loop::on_painted, (l, painted), ()),
    ensures
        visibility is Hidden <==> painted is Hidden,
        painted is Shown <==> visibility is Shown && acquired is Frame,
        visibility is Shown ==> (acquired matches AcquireOutcome::Deferred(Some(at)) ==> painted
            == Painted::Deferred(at) && (final(l).pending.when matches Some(e) && e.nanos
            <= at.nanos)),
        visibility is Shown ==> (acquired matches AcquireOutcome::Deferred(None)
            ==> painted is Requested),
        !(painted is Deferred) ==> final(l).pending == old(l).pending,
{
}

/// The overlay shows exactly what it has to show: the modal view first.
pub proof fn overlays_show_what_they_have(m: Model, occupied: bool, scene: Scene, v: Visibility)
    requires
        call_ensures(Model::scene, (&m, occupied), scene),
        call_ensures(Model::visibility, (&m, occupied), v),
    ensures
        scene is Modal <==> occupied,
        scene is Titlebar <==> !occupied && m.inputs.titlebar_shown,
        v is Shown <==> occupied || m.inputs.titlebar_shown,
{
}

/// Work that comes in while the window is waited for is kept in order, until a
/// shutdown ends the wait.
pub proof fn early_work_is_kept(
    pending: &mut Vec<Work>,
    work: Work,
    flow: Flow,
    ready: bool,
    now: Instant,
    deadline: Instant,
    waited: TargetWait,
)
    requires
        call_ensures(await_received, (pending, Received::Work(work)), flow),
        call_ensures(await_target, (ready, now, deadline), waited),
    ensures
        work is Shutdown <==> flow is Stop,
        !(work is Shutdown) ==> final(pending)@ == old(pending)@.push(work),
        work is Shutdown ==> final(pending)@ == old(pending)@,
        ready <==> waited is Found,
        waited is GiveUp <==> !ready && now.nanos >= deadline.nanos,
        waited matches TargetWait::WaitFor(d) ==> now.nanos + d.nanos == deadline.nanos,
{
}

/// A deadline is the instant it was made for, or none.
pub proof fn deadlines_are_as_made(when: Instant, at: Deadline, none: Deadline)
    requires
        call_ensures(Deadline::at, (when,), at),
        call_ensures(Deadline::none, (), none),
    ensures
        at.when == Some(when),
        none.when is None,
{
}

/// A thread is known to be gone where its end was seen, clean or not, and by
/// nothing else.
pub proof fn threads_are_gone_once_seen_to_end(
    spawned: bool,
    joined: Option<bool>,
    r: JoinOutcome,
    gone: bool,
)
    requires
        call_ensures(join_outcome, (spawned, joined), r),
        call_ensures(JoinOutcome::terminated, (r,), gone),
    ensures
        gone <==> spawned && joined is Some,
        r is Terminated <==> spawned && joined == Some(true),
        r is Panicked <==> spawned && joined == Some(false),
        r is JoinerUnavailable <==> !spawned,
{
}

/// The size that the window reported goes before the one it is expected to have.
pub proof fn reported_extents_go_first(
    reported: Option<WindowExtent>,
    fallback: Option<WindowExtent>,
    r: Option<WindowExtent>,
)
    requires
        call_ensures(initial_extent, (reported, fallback), r),
    ensures
        reported is Some ==> r == reported,
        reported is None ==> r == fallback,
{
}

/// Work that came in while the window was waited for is the first turn's, in its
/// order, and the first pass comes at once.
pub proof fn adopted_work_is_done_first(
    l: &mut Loop,
    m: &mut Loop,
    pending: Vec<Work>,
    batch: Vec<Work>,
)
    requires
        call_ensures(Loop::adopt, (l, pending), ()),
        *old(m) == *final(l),
        call_ensures(Loop::begin_turn, (m,), batch),
    ensures
        final(l).immediate,
        batch@ == pending@,
        final(l).model == old(l).model && final(l).focus == old(l).focus && final(l).pending
            == old(l).pending,
{
}

/// The redraw is asked for behind what the widgets are told, and nothing of that
/// is lost.
pub proof fn redraws_are_asked_for_last(events: &mut Vec<ShellEvent>, now: Instant)
    requires
        call_ensures(begin_update, (events, now), ()),
    ensures
        final(events)@.len() == old(events)@.len() + 1,
        final(events)@.last() == (ShellEvent::RedrawRequested { at: now }),
        final(events)@.drop_last() == old(events)@,
{
    assert(final(events)@.drop_last() =~= old(events)@);
}

/// Only the settings keep their place, with the widget that had the focus and
/// the offset they were scrolled to.
pub proof fn settings_keep_their_place(
    tab: Option<Tab>,
    focused: Option<Id>,
    offset: Option<ScrollOffset>,
    r: Option<(Option<Id>, ScrollOffset)>,
)
    requires
        call_ensures(retained_settings, (tab, focused, offset), r),
    ensures
        r is Some <==> tab == Some(Tab::Settings) && offset is Some,
        r matches Some((widget, at)) ==> widget == focused && Some(at) == offset,
{
}

/// A loop starts with a GPU, a size and a painter, and fails by the first of
/// them that is missing; a loop that starts shows what it was started with.
pub proof fn loops_start_with_what_they_need(
    gpu: bool,
    extent: Option<WindowExtent>,
    painter: Result<(), SurfaceLost>,
    url: &str,
    inputs: ChromeInputs,
    background: Color,
    now: Instant,
    r: Result<Loop, LoopStartError>,
)
    requires
        call_ensures(Loop::start, (gpu, extent, painter, url, inputs, background, now), r),
    ensures
        r is Err <==> !gpu || extent is None || painter is Err,
        r matches Err(e) ==> (e is NoGpu <==> !gpu),
        r matches Err(e) ==> (e is NoExtent <==> gpu && extent is None),
        r matches Err(e) ==> gpu && extent is Some ==> (painter matches Err(lost)
            ==> e == LoopStartError::Painter(lost)),
        r matches Ok(l) ==> Some(l.current) == extent && l.model.inputs == inputs
            && l.model.chrome_background == background && l.drew_nothing_yet && !l.immediate
            && l.focus.cache_lost && l.cursor is Unavailable && l.pending.when is None
            && l.batch@.len() == 0 && l.events@.len() == 0,
{
}

/// After an update the loop remembers what had the focus, and wakes for the
/// redraw at the latest.
pub proof fn updates_leave_their_focus(l: &mut Loop, redraw: Deadline, focused: Option<Id>)
    requires
        call_ensures(Loop::after_update, (l, redraw, focused), ()),
    ensures
        final(l).focus.prior == focused,
        redraw.when matches Some(at) ==> (final(l).pending.when matches Some(when) && when.nanos
            <= at.nanos),
        old(l).pending.when matches Some(at) ==> (final(l).pending.when matches Some(when)
            && when.nanos <= at.nanos),
        redraw.when is None ==> final(l).pending.when == old(l).pending.when,
        old(l).pending.when is None ==> final(l).pending.when == redraw.when,
        final(l).focus.cache_lost == old(l).focus.cache_lost && final(l).focus.modal_tab
            == old(l).focus.modal_tab && final(l).focus.modal_identity
            == old(l).focus.modal_identity,
        final(l).batch == old(l).batch && final(l).model == old(l).model && final(l).immediate
            == old(l).immediate,
{
}

/// Messages that are left over are taken at once, with everything in the loop as
/// it was.
pub proof fn unsettled_widgets_are_updated_at_once(
    l: &mut Loop,
    messages: Vec<Message>,
    ordered: Vec<Message>,
)
    requires
        call_ensures(Loop::unsettled, (l, messages), ordered),
    ensures
        final(l).immediate,
        ordered@.to_multiset() == messages@.to_multiset(),
        *final(l) == (Loop { immediate: final(l).immediate, ..*old(l) }),
{
    crate::shell::messages::reordering_keeps_every_message(messages@);
}

/// An update takes all the events and hands on every message; outdated widgets
/// say nothing, and the others are taken at their word.
pub proof fn updates_say_what_the_widgets_said(
    events: &mut Vec<ShellEvent>,
    taken: Vec<bool>,
    messages: Vec<Message>,
    state: UiState,
    now: Instant,
    r: Updated,
)
    requires
        call_ensures(update_ui, (events, &taken, messages, state, now), r),
    ensures
        final(events)@.len() == 0,
        r.messages@ == messages@,
        r.outdated <==> state is Outdated,
        r.outdated ==> r.copied is None && !r.wants_clipboard && r.redraw.when is None
            && r.interaction == INTERACTION_NONE,
        state matches UiState::Updated { interaction, redraw, copied, wants_clipboard } ==> {
            &&& r.interaction == interaction && r.copied == copied
            &&& r.wants_clipboard == wants_clipboard
            &&& redraw is NextFrame ==> r.redraw.when == Some(now)
            &&& redraw is Wait ==> r.redraw.when is None
            &&& redraw matches RedrawRequest::At(at) ==> r.redraw.when == Some(at)
        },
{
}

/// A wait lasts until its deadline and no longer: none is left once it has
/// elapsed, and without a deadline there is none to wait for.
pub proof fn waits_last_until_their_deadline(
    d: Deadline,
    now: Instant,
    r: Option<Duration>,
    over: bool,
)
    requires
        call_ensures(Deadline::wait_for, (d, now), r),
        call_ensures(Deadline::elapsed, (d, now), over),
    ensures
        r is Some <==> d.when is Some,
        over <==> (d.when matches Some(at) && now.nanos >= at.nanos),
        over ==> r == Some(Duration { nanos: 0 }),
        r is Some && !over ==> now.nanos + r->0.nanos == d.when->0.nanos,
{
}

/// Of two deadlines the earlier counts, in whichever order they come.
pub proof fn the_earlier_deadline_counts(a: Deadline, b: Deadline, r: Deadline, s: Deadline)
    requires
        call_ensures(Deadline::merge, (a, b), r),
        call_ensures(Deadline::merge, (b, a), s),
    ensures
        r == s,
        r.when is None <==> a.when is None && b.when is None,
        r.when == a.when || r.when == b.when,
        r.when matches Some(at) ==> (a.when matches Some(x) ==> at.nanos <= x.nanos),
        r.when matches Some(at) ==> (b.when matches Some(x) ==> at.nanos <= x.nanos),
{
}

/// Each piece of work moves its own part of the loop: only events move the
/// cursor, only a new size changes the size, only what rebuilds the widgets
/// touches their focus, and only the overlay moves the connection. None shows
/// anything by itself or wakes the loop.
pub proof fn work_moves_its_own_part(old: Loop, new: Loop, work: Work, now: Instant, effect: Effect)
    requires
        absorbed(old, new, work, now, effect),
    ensures
        !(work is Event) ==> new.cursor == old.cursor,
        !(work is Resize) ==> new.current == old.current,
        !(work is Resize || work is OpenAbout || work is OpenClientSettings) ==> new.focus
            == old.focus,
        new.focus.prior == old.focus.prior && new.focus.modal_identity == old.focus.modal_identity
            && new.focus.modal_tab == old.focus.modal_tab,
        !(work is Event || work is SelectionText) ==> new.events@ == old.events@,
        !(work is SelectionText) ==> new.queued@ == old.queued@,
        !(work is WebAttached || work is WebEvent) ==> new.model.connection.phase
            == old.model.connection.phase && new.model.connection.cycles
            == old.model.connection.cycles && new.model.connection.navigations
            == old.model.connection.navigations && new.model.connection.attached
            == old.model.connection.attached && new.model.connection.requests@
            == old.model.connection.requests@,
        new.pending == old.pending && new.immediate == old.immediate && new.batch@ == old.batch@,
        new.last_primary == old.last_primary && new.drew_nothing_yet == old.drew_nothing_yet,
{
}

/// The window is waited for no longer than five seconds, and the end of the
/// loop's thread no longer than two.
pub proof fn waits_are_bounded()
    ensures
        TARGET_WAIT == 5_000_000_000,
        SHUTDOWN_TIMEOUT == 2_000_000_000,
{
}

} // verus!
