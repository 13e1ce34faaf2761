//! The browser behind the web overlay: which document its pixels show, what
//! size it has, and where it is in its life.

use vstd::prelude::*;

use crate::web::navigation::Navigation;
use crate::web::size::ViewSize;

verus! {

/// The document that a browser is left showing once its navigation is
/// abandoned.
pub const BLANK: &'static str = "about:blank";

/// Which navigation the browser's pixels belong to.
#[derive(Debug)]
pub enum Painting {
    /// No navigation has been issued.
    Nothing,
    /// `navigation` was issued for `base`, and no page of `base` has finished
    /// loading: the pixels are another document's.
    Awaiting { navigation: Navigation, base: String },
    /// A page of `base` finished loading: every frame from here on is that
    /// navigation's.
    Loaded { navigation: Navigation, base: String },
}

impl Painting {
    pub open spec fn current(self) -> Option<Navigation> {
        match self {
            Painting::Nothing => None,
            Painting::Awaiting { navigation, .. } => Some(navigation),
            Painting::Loaded { navigation, .. } => Some(navigation),
        }
    }

    pub open spec fn after_load(self, is_page: bool) -> Painting {
        match self {
            Painting::Awaiting { navigation, base } => if is_page {
                Painting::Loaded { navigation, base }
            } else {
                self
            },
            other => other,
        }
    }

    pub open spec fn witnessed(self) -> Option<Navigation> {
        match self {
            Painting::Loaded { navigation, .. } => Some(navigation),
            _ => None,
        }
    }

    /// The base that a finished load is held against.
    pub fn base(&self) -> (r: Option<&str>)
        ensures
            match *self {
                Painting::Nothing => r is None,
                Painting::Awaiting { base, .. } => r matches Some(b) && b@ == base@,
                Painting::Loaded { base, .. } => r matches Some(b) && b@ == base@,
            },
    {
        match self {
            Painting::Nothing => None,
            Painting::Awaiting { base, .. } => Some(base.as_str()),
            Painting::Loaded { base, .. } => Some(base.as_str()),
        }
    }

    /// The state after a main-frame load finished. `is_page` tells whether it
    /// was a page of the base: such a load fulfils an awaited navigation, and
    /// every other one leaves the state alone.
    pub fn loaded(self, is_page: bool) -> (r: Painting)
        ensures
            r == self.after_load(is_page),
    {
        match self {
            Painting::Awaiting { navigation, base } => {
                if is_page {
                    Painting::Loaded { navigation, base }
                } else {
                    Painting::Awaiting { navigation, base }
                }
            },
            other => other,
        }
    }

    /// The navigation that a main-frame load belongs to. `is_page` tells
    /// whether it is a page of the base.
    pub fn navigation_of(&self, is_page: bool) -> (r: Option<Navigation>)
        ensures
            r == (if is_page {
                self.current()
            } else {
                None
            }),
    {
        if !is_page {
            return None;
        }
        match self {
            Painting::Awaiting { navigation, .. } => Some(*navigation),
            Painting::Loaded { navigation, .. } => Some(*navigation),
            Painting::Nothing => None,
        }
    }

    /// Whether the browser is painting `navigation`.
    pub fn names(&self, navigation: Navigation) -> (r: bool)
        ensures
            r == (self.current() == Some(navigation)),
    {
        match self {
            Painting::Awaiting { navigation: live, .. } => *live == navigation,
            Painting::Loaded { navigation: live, .. } => *live == navigation,
            Painting::Nothing => false,
        }
    }

    /// The navigation that a frame produced now can witness.
    pub fn witness(&self) -> (r: Option<Navigation>)
        ensures
            r == self.witnessed(),
    {
        match self {
            Painting::Loaded { navigation, .. } => Some(*navigation),
            Painting::Nothing | Painting::Awaiting { .. } => None,
        }
    }
}

/// Where the browser is in its life.
#[derive(Clone, Copy, Debug, PartialEq, Eq, Structural)]
pub enum Lifecycle {
    Normal,
    /// A reset was asked for: the browser is closed as soon as it is there.
    PendingReset,
    /// The browser that a reset closed is being made anew.
    Recreating,
}

/// What is done with an address.
#[derive(Debug)]
pub enum LoadAction {
    Load(String),
    /// Kept until there is a browser to load it.
    Queued,
}

/// What is done with a browser that has just come up.
#[derive(Debug)]
pub enum CreatedPlan {
    /// The client is shutting down: close it.
    Close,
    /// Tell it its size, then close it: a reset is due.
    ResizeThenClose,
    /// Tell it its size, announce it, and load the address that waited.
    Run { load: Option<String> },
}

/// What a closed browser leaves to do.
#[derive(Clone, Copy, Debug, PartialEq, Eq, Structural)]
pub struct ClosedPlan {
    /// Make the browser anew.
    pub recreate: bool,
}

#[derive(Debug)]
pub struct Client {
    pub painting: Painting,
    pub browser: bool,
    pub applied: Option<ViewSize>,
    pub closed: bool,
    pub state: Lifecycle,
    pub pending_url: String,
    pub has_browser: bool,
    pub pending_internal_reset: bool,
    pub menu_open: bool,
}

/// The browser can be told to load an address.
pub open spec fn ready(c: Client) -> bool {
    c.state == Lifecycle::Normal && c.has_browser
}

/// `new` is `old` after it was told to load `url`.
pub open spec fn loading(old: Client, new: Client, url: Seq<char>, r: LoadAction) -> bool {
    &&& new.painting == old.painting
    &&& new.browser == old.browser
    &&& new.applied == old.applied
    &&& new.closed == old.closed
    &&& new.state == old.state
    &&& new.has_browser == old.has_browser
    &&& new.pending_internal_reset == old.pending_internal_reset
    &&& new.menu_open == old.menu_open
    &&& if ready(old) {
        (r matches LoadAction::Load(u) && u@ == url) && new.pending_url == old.pending_url
    } else {
        r is Queued && new.pending_url@ == url
    }
}

/// The lifecycle step of a browser that has come up: the next state, and
/// whether the browser is closed for a reset.
pub open spec fn created_step(state: Lifecycle) -> (Lifecycle, bool) {
    match state {
        Lifecycle::PendingReset => (Lifecycle::Recreating, true),
        Lifecycle::Recreating => (Lifecycle::Normal, false),
        Lifecycle::Normal => (Lifecycle::Normal, false),
    }
}

/// `new` is `old` after its browser has come up, and `r` is what is done with
/// it. An address that waited is loaded, and waits no longer.
pub open spec fn came_up(old: Client, new: Client, shutting_down: bool, r: CreatedPlan) -> bool {
    let (state, close) = created_step(old.state);
    &&& new.browser
    &&& !new.closed
    &&& new.painting == old.painting
    &&& new.applied == old.applied
    &&& new.pending_internal_reset == old.pending_internal_reset
    &&& new.menu_open == old.menu_open
    &&& if shutting_down {
        &&& r is Close
        &&& new.state == old.state
        &&& new.has_browser == old.has_browser
        &&& new.pending_url == old.pending_url
    } else if close {
        &&& r is ResizeThenClose
        &&& new.state == state
        &&& new.has_browser
        &&& new.pending_url == old.pending_url
    } else {
        &&& r matches CreatedPlan::Run { load }
        &&& load == (if old.pending_url@.len() > 0 {
            Some(old.pending_url)
        } else {
            None
        })
        &&& new.state == state
        &&& new.has_browser
        &&& new.pending_url@.len() == 0
    }
}

/// Nothing has happened yet: there is no browser, and nothing waits for one.
pub open spec fn fresh_client(c: Client) -> bool {
    &&& c.painting is Nothing
    &&& !c.browser
    &&& c.applied is None
    &&& !c.closed
    &&& c.state == Lifecycle::Normal
    &&& c.pending_url@.len() == 0
    &&& !c.has_browser
    &&& !c.pending_internal_reset
    &&& !c.menu_open
}

impl Client {
    pub fn new() -> (r: Self)
        ensures
            fresh_client(r),
    {
        Client {
            painting: Painting::Nothing,
            browser: false,
            applied: None,
            closed: false,
            state: Lifecycle::Normal,
            pending_url: String::new(),
            has_browser: false,
            pending_internal_reset: false,
            menu_open: false,
        }
    }

    /// The strip that the view was sized below, zero until a size has been
    /// applied to a live browser.
    pub fn view_top(&self) -> (r: i32)
        ensures
            r == (match self.applied {
                Some(size) => size.logical_top,
                None => 0,
            }),
    {
        match self.applied {
            Some(size) => size.logical_top,
            None => 0,
        }
    }

    /// Hands a size over. `true` where the surface and the browser are to be
    /// resized. A size that no browser took is never taken for applied.
    pub fn apply_view_size(&mut self, size: ViewSize) -> (resize: bool)
        ensures
            resize == !(old(self).browser && old(self).applied == Some(size)),
            *final(self) == (Client {
                applied: if old(self).browser {
                    Some(size)
                } else {
                    None
                },
                ..*old(self)
            }),
    {
        if !self.browser {
            self.applied = None;
            return true;
        }
        let same = match self.applied {
            Some(applied) => applied == size,
            None => false,
        };
        if same {
            return false;
        }
        self.applied = Some(size);
        true
    }

    /// A navigation was issued for `base`, which is kept as it is.
    pub fn set_navigation(&mut self, navigation: Navigation, base: &str)
        ensures
            final(self).painting matches Painting::Awaiting { navigation: n, base: b } && n
                == navigation && b@ == base@,
            *final(self) == (Client { painting: final(self).painting, ..*old(self) }),
    {
        self.painting = Painting::Awaiting { navigation, base: base.to_owned() };
    }

    /// A main-frame load finished.
    pub fn note_main_frame_loaded(&mut self, is_page: bool)
        ensures
            *final(self) == (Client {
                painting: old(self).painting.after_load(is_page),
                ..*old(self)
            }),
    {
        let mut previous = Painting::Nothing;
        std::mem::swap(&mut previous, &mut self.painting);
        self.painting = previous.loaded(is_page);
    }

    /// A navigation was abandoned: frames are no longer its, and the browser is
    /// left blank. Nothing happens while another one is painted.
    pub fn abandon_navigation(&mut self, navigation: Navigation) -> (r: Option<LoadAction>)
        ensures
            old(self).painting.current() != Some(navigation) ==> r is None && *final(self)
                == *old(self),
            old(self).painting.current() == Some(navigation) ==> {
                &&& r matches Some(action)
                &&& loading(
                    Client { painting: Painting::Nothing, ..*old(self) },
                    *final(self),
                    "about:blank"@,
                    action,
                )
            },
    {
        if !self.painting.names(navigation) {
            return None;
        }
        self.painting = Painting::Nothing;
        Some(self.load_url(BLANK))
    }

    pub fn witness_navigation(&self) -> (r: Option<Navigation>)
        ensures
            r == self.painting.witnessed(),
    {
        self.painting.witness()
    }

    pub fn load_navigation(&self, is_page: bool) -> (r: Option<Navigation>)
        ensures
            r == (if is_page {
                self.painting.current()
            } else {
                None
            }),
    {
        self.painting.navigation_of(is_page)
    }

    /// Loads an address now, or as soon as there is a browser. Of several that
    /// wait, the last one counts.
    pub fn load_url(&mut self, url: &str) -> (r: LoadAction)
        ensures
            loading(*old(self), *final(self), url@, r),
    {
        if self.state != Lifecycle::Normal || !self.has_browser {
            self.pending_url = url.to_owned();
            return LoadAction::Queued;
        }
        LoadAction::Load(url.to_owned())
    }

    fn take_pending_url(&mut self) -> (r: Option<String>)
        ensures
            old(self).pending_url@.len() == 0 ==> r is None && *final(self) == *old(self),
            old(self).pending_url@.len() > 0 ==> {
                &&& r == Some(old(self).pending_url)
                &&& final(self).pending_url@.len() == 0
                &&& *final(self) == (Client { pending_url: final(self).pending_url, ..*old(self) })
            },
    {
        if self.pending_url.as_str().is_empty() {
            None
        } else {
            let mut taken = String::new();
            std::mem::swap(&mut taken, &mut self.pending_url);
            Some(taken)
        }
    }

    /// The lifecycle step of a browser that has come up; `true` where it is to
    /// be closed for a reset.
    pub fn on_after_created(&mut self) -> (close: bool)
        ensures
            close == created_step(old(self).state).1,
            *final(self) == (Client {
                has_browser: true,
                state: created_step(old(self).state).0,
                ..*old(self)
            }),
    {
        self.has_browser = true;
        match self.state {
            Lifecycle::PendingReset => {
                self.state = Lifecycle::Recreating;
                true
            },
            Lifecycle::Recreating => {
                self.state = Lifecycle::Normal;
                false
            },
            Lifecycle::Normal => false,
        }
    }

    /// The browser has come up.
    pub fn handle_on_after_created(&mut self, shutting_down: bool) -> (r: CreatedPlan)
        ensures
            came_up(*old(self), *final(self), shutting_down, r),
    {
        self.browser = true;
        self.closed = false;
        if shutting_down {
            return CreatedPlan::Close;
        }
        if self.on_after_created() {
            return CreatedPlan::ResizeThenClose;
        }
        CreatedPlan::Run { load: self.take_pending_url() }
    }

    /// The browser is gone. What it was sized to is forgotten, its menu session
    /// ends, and where a reset closed it, it is made anew.
    pub fn handle_on_before_close(&mut self) -> (r: ClosedPlan)
        ensures
            r.recreate == old(self).pending_internal_reset,
            *final(self) == (Client {
                browser: false,
                applied: None,
                closed: true,
                has_browser: false,
                pending_internal_reset: false,
                menu_open: false,
                ..*old(self)
            }),
    {
        self.browser = false;
        self.applied = None;
        self.closed = true;
        self.has_browser = false;
        let recreate = self.pending_internal_reset;
        self.pending_internal_reset = false;
        self.menu_open = false;
        ClosedPlan { recreate }
    }
}

/// Making a browser while the client shuts down hangs the shutdown, so a reset
/// then ends with the browser gone.
pub fn recreates(plan: ClosedPlan, shutting_down: bool) -> (r: bool)
    ensures
        r == (plan.recreate && !shutting_down),
{
    plan.recreate && !shutting_down
}

/// What asking the browser for a frame comes to.
#[derive(Clone, Copy, Debug, PartialEq, Eq, Structural)]
pub enum FrameRequest {
    Nothing,
    Invalidate,
    /// The host drives the frames: the next one is asked for, too.
    InvalidateAndBegin,
}

pub fn request_frame(browser_alive: bool, external_begin_frame: bool) -> (r: FrameRequest)
    ensures
        r == (if !browser_alive {
            FrameRequest::Nothing
        } else if external_begin_frame {
            FrameRequest::InvalidateAndBegin
        } else {
            FrameRequest::Invalidate
        }),
{
    if !browser_alive {
        return FrameRequest::Nothing;
    }
    if external_begin_frame {
        FrameRequest::InvalidateAndBegin
    } else {
        FrameRequest::Invalidate
    }
}

/// The address that a page's popup is opened at outside the client. None for an
/// empty one, and none for one that starts like a command-line option.
pub fn on_before_popup(url: &str) -> (r: Option<String>)
    ensures
        r is Some <==> url@.len() > 0 && url@[0] != '-',
        r matches Some(u) ==> u@ == url@,
{
    if url.is_empty() || url.get_char(0) == '-' {
        return None;
    }
    Some(url.to_owned())
}

/// A step through the history.
#[derive(Clone, Copy, Debug, PartialEq, Eq, Structural)]
pub enum HistoryStep {
    Forward,
    Back,
}

/// The step that is taken, where there is somewhere to go.
pub fn navigate_history(forward: bool, can_go_forward: bool, can_go_back: bool) -> (r: Option<
    HistoryStep,
>)
    ensures
        r == (if forward && can_go_forward {
            Some(HistoryStep::Forward)
        } else if !forward && can_go_back {
            Some(HistoryStep::Back)
        } else {
            None
        }),
{
    if forward {
        if can_go_forward {
            Some(HistoryStep::Forward)
        } else {
            None
        }
    } else if can_go_back {
        Some(HistoryStep::Back)
    } else {
        None
    }
}

/// The script that inserts pasted text, given as a JSON string. Text that has
/// no such form inserts nothing.
pub fn paste_script(text_json: Option<&str>) -> (r: String)
    ensures
        r@ == "document.execCommand('insertText',false,"@ + (match text_json {
            Some(t) => t@,
            None => "\"\""@,
        }) + ");"@,
{
    let mut s = String::new();
    s.append("document.execCommand('insertText',false,");
    match text_json {
        Some(t) => s.append(t),
        None => s.append("\"\""),
    }
    s.append(");");
    assert(s@ =~= "document.execCommand('insertText',false,"@ + (match text_json {
        Some(t) => t@,
        None => "\"\""@,
    }) + ");"@);
    s
}

/// Frames witness a navigation only between the load of its own page and its
/// end: a fresh navigation, a foreign page and an abandoned navigation each
/// leave nothing to witness.
pub proof fn only_loaded_pages_are_witnessed(p: Painting, navigation: Navigation, base: String)
    ensures
        (Painting::Awaiting { navigation, base }).witnessed() is None,
        (Painting::Awaiting { navigation, base }).after_load(false).witnessed() is None,
        (Painting::Awaiting { navigation, base }).after_load(true).witnessed() == Some(navigation),
        Painting::Nothing.witnessed() is None,
        p.after_load(true).current() == p.current(),
        p.after_load(false) == p,
{
}

/// A reset runs its course: the browser that comes up is closed, the one made
/// in its place stays, and no third one is closed.
pub proof fn reset_replaces_the_browser_once()
    ensures
        created_step(Lifecycle::PendingReset).1,
        !created_step(created_step(Lifecycle::PendingReset).0).1,
        created_step(created_step(Lifecycle::PendingReset).0).0 == Lifecycle::Normal,
{
}

/// An address that had to wait is loaded by the browser that comes up and
/// stays, and only once: the next one that comes up loads nothing of its own.
pub proof fn queued_address_is_loaded_once(
    old: Client,
    queued: Client,
    running: Client,
    again: Client,
    url: Seq<char>,
    action: LoadAction,
    first: CreatedPlan,
    second: CreatedPlan,
)
    requires
        !ready(old),
        old.state != Lifecycle::PendingReset,
        url.len() > 0,
        loading(old, queued, url, action),
        came_up(queued, running, false, first),
        came_up(running, again, false, second),
    ensures
        action is Queued,
        first matches CreatedPlan::Run { load: Some(u) } && u@ == url,
        second matches CreatedPlan::Run { load: None },
{
}

/// The browser that a reset closes leaves a waiting address to the one made in
/// its place.
pub proof fn reset_keeps_the_queued_address(
    old: Client,
    closing: Client,
    running: Client,
    first: CreatedPlan,
    second: CreatedPlan,
)
    requires
        old.state == Lifecycle::PendingReset,
        old.pending_url@.len() > 0,
        came_up(old, closing, false, first),
        came_up(closing, running, false, second),
    ensures
        first is ResizeThenClose,
        second == (CreatedPlan::Run { load: Some(old.pending_url) }),
        running.state == Lifecycle::Normal,
{
}

/// A browser paints for the navigation that was issued last, from its issue to
/// its end; once its page has loaded, every frame is its own, whatever loads
/// later.
pub proof fn paintings_follow_their_navigation(navigation: Navigation, base: String, is_page: bool)
    ensures
        Painting::Nothing.current() is None,
        Painting::Nothing.after_load(is_page) is Nothing,
        (Painting::Awaiting { navigation, base }).current() == Some(navigation),
        (Painting::Loaded { navigation, base }).current() == Some(navigation),
        (Painting::Loaded { navigation, base }).witnessed() == Some(navigation),
        (Painting::Loaded { navigation, base }).after_load(is_page) == (Painting::Loaded {
            navigation,
            base,
        }),
        (Painting::Awaiting { navigation, base }).after_load(true) == (Painting::Loaded {
            navigation,
            base,
        }),
{
}

/// An address is loaded at once by a browser that is there and not being reset,
/// and is kept for the next one otherwise. Nothing but the kept address
/// changes.
pub proof fn addresses_are_loaded_or_kept(
    old: Client,
    new: Client,
    url: Seq<char>,
    action: LoadAction,
)
    requires
        loading(old, new, url, action),
    ensures
        old.has_browser && old.state is Normal ==> (action matches LoadAction::Load(u) && u@ == url)
            && new.pending_url == old.pending_url,
        !old.has_browser || !(old.state is Normal) ==> action is Queued && new.pending_url@ == url,
        new.painting == old.painting && new.browser == old.browser && new.applied == old.applied
            && new.closed == old.closed && new.state == old.state && new.has_browser
            == old.has_browser && new.pending_internal_reset == old.pending_internal_reset
            && new.menu_open == old.menu_open,
{
}

/// A browser that comes up is closed where the client shuts down, closed after
/// it was told its size where a reset is due, and runs otherwise, with the
/// address that waited.
pub proof fn browsers_that_come_up_run(
    old: Client,
    new: Client,
    shutting_down: bool,
    plan: CreatedPlan,
)
    requires
        came_up(old, new, shutting_down, plan),
    ensures
        plan is Close <==> shutting_down,
        plan is ResizeThenClose <==> !shutting_down && old.state is PendingReset,
        plan is Run <==> !shutting_down && !(old.state is PendingReset),
        plan matches CreatedPlan::Run { load } ==> (load is Some <==> old.pending_url@.len() > 0)
            && (load matches Some(u) ==> u == old.pending_url) && new.pending_url@.len() == 0,
        !(plan is Run) ==> new.pending_url == old.pending_url,
        new.browser && !new.closed,
        !shutting_down ==> new.has_browser,
        !shutting_down && old.state is PendingReset ==> new.state is Recreating,
        !shutting_down && !(old.state is PendingReset) ==> new.state is Normal,
        shutting_down ==> new.state == old.state && new.has_browser == old.has_browser,
        new.painting == old.painting && new.applied == old.applied && new.pending_internal_reset
            == old.pending_internal_reset && new.menu_open == old.menu_open,
{
}

/// A browser is closed for a reset that was asked for, and never otherwise;
/// after the reset life is normal again.
pub proof fn only_resets_close_a_browser(state: Lifecycle)
    ensures
        created_step(state).1 <==> state is PendingReset,
        state is PendingReset <==> created_step(state).0 is Recreating,
        !(state is PendingReset) <==> created_step(state).0 is Normal,
{
}

/// A fresh client has nothing to show, to load or to wait for.
pub proof fn fresh_clients_have_nothing(c: Client)
    requires
        fresh_client(c),
    ensures
        c.painting.current() is None && c.painting.witnessed() is None,
        !ready(c),
        !c.browser && !c.has_browser && !c.closed && !c.menu_open && !c.pending_internal_reset,
        c.applied is None && c.state is Normal && c.pending_url@.len() == 0,
{
}

/// Back goes back and forward forward, each only where there is somewhere to
/// go.
pub proof fn history_steps_go_where_asked(
    forward: bool,
    can_go_forward: bool,
    can_go_back: bool,
    r: Option<HistoryStep>,
)
    requires
        call_ensures(navigate_history, (forward, can_go_forward, can_go_back), r),
    ensures
        r matches Some(HistoryStep::Forward) <==> forward && can_go_forward,
        r matches Some(HistoryStep::Back) <==> !forward && can_go_back,
{
}

/// A popup is opened at its own address, unless that is empty or could be taken
/// for an option.
pub proof fn popups_open_at_their_address(url: &str, r: Option<String>)
    requires
        call_ensures(on_before_popup, (url,), r),
    ensures
        url@.len() == 0 ==> r is None,
        url@.len() > 0 && url@[0] == '-' ==> r is None,
        url@.len() > 0 && url@[0] != '-' ==> (r matches Some(u) && u@ == url@),
{
}

/// A navigation is witnessed once a page of its own has loaded, and no more once
/// it is abandoned: the browser is then left blank.
pub proof fn navigations_are_witnessed_until_abandoned(
    c: &mut Client,
    navigation: Navigation,
    base: &str,
    early: Option<Navigation>,
    d: &mut Client,
    seen: Option<Navigation>,
    e: &mut Client,
    action: Option<LoadAction>,
    late: Option<Navigation>,
)
    requires
        call_ensures(Client::set_navigation, (c, navigation, base), ()),
        call_ensures(Client::witness_navigation, (&*final(c),), early),
        *old(d) == *final(c),
        call_ensures(Client::note_main_frame_loaded, (d, true), ()),
        call_ensures(Client::witness_navigation, (&*final(d),), seen),
        *old(e) == *final(d),
        call_ensures(Client::abandon_navigation, (e, navigation), action),
        call_ensures(Client::witness_navigation, (&*final(e),), late),
    ensures
        early is None,
        seen == Some(navigation),
        late is None,
        action matches Some(LoadAction::Load(u)) ==> u@ == "about:blank"@,
        action matches Some(LoadAction::Queued) ==> final(e).pending_url@ == "about:blank"@,
        action is Some,
        final(c).painting matches Painting::Awaiting { base: b, .. } && b@ == base@,
{
}

/// A size is handed to a browser once: only another size, or another browser,
/// makes it resize again.
pub proof fn sizes_are_handed_over_once(
    c: &mut Client,
    size: ViewSize,
    first: bool,
    d: &mut Client,
    second: bool,
    top: i32,
)
    requires
        old(c).browser,
        call_ensures(Client::apply_view_size, (c, size), first),
        *old(d) == *final(c),
        call_ensures(Client::apply_view_size, (d, size), second),
        call_ensures(Client::view_top, (&*final(c),), top),
    ensures
        !second,
        first <==> old(c).applied != Some(size),
        top == size.logical_top,
{
}

/// A browser that goes takes its size and its menu with it; a reset has it made
/// anew, once, and not while the client shuts down.
pub proof fn closed_browsers_are_made_anew_for_a_reset(
    c: &mut Client,
    first: ClosedPlan,
    d: &mut Client,
    second: ClosedPlan,
    shutting_down: bool,
    made: bool,
)
    requires
        call_ensures(Client::handle_on_before_close, (c,), first),
        *old(d) == *final(c),
        call_ensures(Client::handle_on_before_close, (d,), second),
        call_ensures(recreates, (first, shutting_down), made),
    ensures
        first.recreate == old(c).pending_internal_reset,
        !second.recreate,
        made <==> old(c).pending_internal_reset && !shutting_down,
        !final(c).browser && !final(c).has_browser && final(c).closed && !final(c).menu_open
            && final(c).applied is None,
        final(c).pending_url == old(c).pending_url,
{
}

/// A frame is asked of a live browser alone, and its start where the host drives
/// the frames.
pub proof fn frames_are_asked_of_live_browsers(alive: bool, external: bool, r: FrameRequest)
    requires
        call_ensures(request_frame, (alive, external), r),
    ensures
        r is Nothing <==> !alive,
        r is InvalidateAndBegin <==> alive && external,
{
}

/// A load is held against the base that the navigation went to, before and after
/// it is through, and against none without a navigation.
pub proof fn loads_are_held_against_their_base(p: Painting, r: Option<&str>)
    requires
        call_ensures(Painting::base, (&p,), r),
    ensures
        r is None <==> p is Nothing,
        p matches Painting::Awaiting { base, .. } ==> r->0@ == base@,
        p matches Painting::Loaded { base, .. } ==> r->0@ == base@,
{
}

/// Only a page is taken for the navigation it was loaded by.
pub proof fn only_pages_load_a_navigation(
    c: Client,
    page: Option<Navigation>,
    other: Option<Navigation>,
)
    requires
        call_ensures(Client::load_navigation, (&c, true), page),
        call_ensures(Client::load_navigation, (&c, false), other),
    ensures
        other is None,
        page == c.painting.current(),
        page is None <==> c.painting is Nothing,
{
}

/// A browser that was made is there, and everything but its life goes on.
pub proof fn made_browsers_are_there(c: &mut Client, close: bool)
    requires
        call_ensures(Client::on_after_created, (c,), close),
    ensures
        final(c).has_browser,
        final(c).pending_url == old(c).pending_url && final(c).painting == old(c).painting
            && final(c).browser == old(c).browser && final(c).applied == old(c).applied,
{
}

/// A pasted text is put between the call's brackets, and an empty one where
/// there is none.
pub proof fn pasted_texts_are_inserted(text: &str, r: String, nothing: String)
    requires
        call_ensures(paste_script, (Some(text),), r),
        call_ensures(paste_script, (None,), nothing),
    ensures
        r@.len() == 42 + text@.len(),
        r@.subrange(40, 40 + text@.len() as int) == text@,
        nothing@.len() == 44,
        nothing@[40] == '"' && nothing@[41] == '"',
{
    reveal_strlit("document.execCommand('insertText',false,");
    reveal_strlit("\"\"");
    reveal_strlit(");");
    assert(r@.subrange(40, 40 + text@.len() as int) =~= text@);
}

} // verus!
