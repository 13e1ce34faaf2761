//! What the client decides for itself on macOS: which frames reach a surface,
//! how surfaces are stacked, what its menus hold and what drives its frames.

use vstd::prelude::*;

use crate::compositor::stack::SurfaceStack;
use crate::compositor::transition::TransitionGate;
use crate::discord::socket::join_path;
use crate::menu::engine::MENU_DISMISSED;
use crate::paths::directory_of;
use crate::time::{Duration, Instant};
use crate::web::init::CefPaths;

verus! {

/// The surfaces of the window, by their addresses, and what holds frames back
/// while the window changes size.
#[derive(Debug)]
pub struct MacCompositor {
    pub stack: SurfaceStack<u64>,
    pub gate: TransitionGate,
    /// Surfaces that somebody else paints.
    pub external: Vec<u64>,
}

/// What becomes of a frame.
#[derive(Clone, Copy, Debug, PartialEq, Eq, Structural)]
pub enum FrameGate {
    Drop,
    Present { main: bool },
}

fn holds(handles: &[u64], h: u64) -> (r: bool)
    ensures
        r == handles@.contains(h),
{
    let mut i: usize = 0;
    while i < handles.len()
        invariant
            i <= handles@.len(),
            forall|j: int| 0 <= j < i ==> handles@[j] != h,
        decreases handles@.len() - i,
    {
        if handles[i] == h {
            assert(handles@[i as int] == h);
            return true;
        }
        i += 1;
    }
    false
}

/// The main surface of a stack.
pub open spec fn is_main_of(c: MacCompositor, h: u64) -> bool {
    c.stack.main_handle() == Some(h)
}

/// A frame reaches a surface that lives, that the client itself paints and,
/// where it is the main one, only while the window keeps its size.
pub open spec fn frame_gate(c: MacCompositor, h: u64) -> FrameGate {
    if h == 0 || !c.stack.live_handles().contains(h) {
        FrameGate::Drop
    } else if is_main_of(c, h) && c.gate@.in_transition {
        FrameGate::Drop
    } else if c.external@.contains(h) {
        FrameGate::Drop
    } else {
        FrameGate::Present { main: is_main_of(c, h) }
    }
}

impl MacCompositor {
    pub open spec fn wf(self) -> bool {
        self.stack.wf()
    }

    pub fn new() -> (r: Self)
        ensures
            r.wf(),
            r.stack.live_handles().len() == 0,
            r.stack.stacked().len() == 0,
            r.stack.main_handle() is None,
            r.gate@ == crate::compositor::transition::idle(),
            r.external@.len() == 0,
    {
        MacCompositor {
            stack: SurfaceStack::new(),
            gate: TransitionGate::new(),
            external: Vec::new(),
        }
    }
}

/// A surface was made.
pub fn macos_alloc_surface(c: &mut MacCompositor, h: u64)
    requires
        old(c).wf(),
    ensures
        final(c).wf(),
        final(c).stack.live_handles() == old(c).stack.live_handles().push(h),
        final(c).stack.stacked() == old(c).stack.stacked(),
        final(c).gate == old(c).gate,
        final(c).external@ == old(c).external@,
{
    c.stack.register(h);
}

/// A surface goes. `false` for no surface at all.
pub fn macos_free_surface(c: &mut MacCompositor, h: u64) -> (r: bool)
    requires
        old(c).wf(),
    ensures
        final(c).wf(),
        r == (h != 0),
        h == 0 ==> *final(c) == *old(c),
        h != 0 ==> {
            &&& final(c).stack.live_handles() == crate::compositor::stack::without(
                old(c).stack.live_handles(),
                h,
            )
            &&& final(c).stack.stacked() == crate::compositor::stack::without(
                old(c).stack.stacked(),
                h,
            )
            &&& final(c).gate == old(c).gate
            &&& final(c).external@ == old(c).external@.filter(|x: u64| x != h)
        },
{
    if h == 0 {
        return false;
    }
    c.stack.deregister(h);
    let ghost keep = |x: u64| x != h;
    let ghost before = c.external@;
    let mut external: Vec<u64> = Vec::new();
    let mut i: usize = 0;
    proof {
        reveal(Seq::filter);
        assert(before.take(0) =~= seq![]);
    }
    while i < c.external.len()
        invariant
            i <= c.external@.len(),
            c.external@ == before,
            keep == (|x: u64| x != h),
            external@ == before.take(i as int).filter(keep),
        decreases c.external@.len() - i,
    {
        proof {
            reveal(Seq::filter);
            assert(before.take(i + 1).drop_last() =~= before.take(i as int));
        }
        if c.external[i] != h {
            external.push(c.external[i]);
        }
        i += 1;
    }
    assert(before.take(i as int) =~= before);
    c.external = external;
    true
}

/// Whether a frame may be painted on a surface.
pub fn present_frame(c: &MacCompositor, h: u64) -> (r: FrameGate)
    requires
        c.wf(),
    ensures
        r == frame_gate(*c, h),
{
    if h == 0 {
        return FrameGate::Drop;
    }
    if !holds(c.stack.live(), h) {
        return FrameGate::Drop;
    }
    let main = c.stack.is_main(h);
    if main && c.gate.in_transition() {
        return FrameGate::Drop;
    }
    if holds(c.external.as_slice(), h) {
        return FrameGate::Drop;
    }
    FrameGate::Present { main }
}

/// A frame of the main surface was painted: the expected size ends the
/// transition.
pub fn frame_presented(c: &mut MacCompositor, main: bool, w: i32, h: i32)
    requires
        old(c).wf(),
    ensures
        final(c).wf(),
        final(c).stack == old(c).stack,
        final(c).external@ == old(c).external@,
        !main ==> final(c).gate@ == old(c).gate@,
        main ==> final(c).gate@ == (if old(c).gate@.expected == Some((w, h)) && w > 0 {
            crate::compositor::transition::GateView {
                expected: None,
                in_transition: false,
                ..old(c).gate@
            }
        } else {
            old(c).gate@
        }),
{
    if main {
        let _ended = c.gate.note_present_size((w, h));
    }
}

/// Somebody else takes over painting a surface. `false` where it does not
/// live.
pub fn macos_surface_window_target(c: &mut MacCompositor, h: u64) -> (r: bool)
    requires
        old(c).wf(),
    ensures
        final(c).wf(),
        r == (h != 0 && old(c).stack.live_handles().contains(h)),
        final(c).stack == old(c).stack,
        final(c).gate == old(c).gate,
        !r ==> final(c).external@ == old(c).external@,
        r ==> final(c).external@ == old(c).external@.push(h) && frame_gate(
            *final(c),
            h,
        ) == FrameGate::Drop,
{
    if h == 0 || !holds(c.stack.live(), h) {
        return false;
    }
    c.external.push(h);
    assert(c.external@[c.external@.len() - 1] == h);
    true
}

/// Restacks the surfaces, bottom first, leaving out those that are gone.
pub fn macos_apply_stack(c: &mut MacCompositor, ordered: &[u64]) -> (r: Vec<u64>)
    requires
        old(c).wf(),
    ensures
        final(c).wf(),
        r@ == ordered@.filter(|h: u64| old(c).stack.live_handles().contains(h)),
        final(c).stack.stacked() == r@,
        final(c).stack.live_handles() == old(c).stack.live_handles(),
        final(c).gate == old(c).gate,
        final(c).external@ == old(c).external@,
{
    let ghost keep = |h: u64| old(c).stack.live_handles().contains(h);
    let mut r: Vec<u64> = Vec::new();
    let mut i: usize = 0;
    proof {
        reveal(Seq::filter);
        assert(ordered@.take(0) =~= seq![]);
    }
    while i < ordered.len()
        invariant
            i <= ordered@.len(),
            *c == *old(c),
            keep == (|h: u64| old(c).stack.live_handles().contains(h)),
            r@ == ordered@.take(i as int).filter(keep),
        decreases ordered@.len() - i,
    {
        proof {
            reveal(Seq::filter);
            assert(ordered@.take(i + 1).drop_last() =~= ordered@.take(i as int));
        }
        if holds(c.stack.live(), ordered[i]) {
            r.push(ordered[i]);
        }
        i += 1;
    }
    assert(ordered@.take(i as int) =~= ordered@);
    c.stack.replace_stack(r.as_slice());
    r
}

/// The window goes: the surfaces still stacked are to be torn down, and
/// nothing is held back any more.
pub fn jfn_macos_compositor_cleanup(c: &mut MacCompositor) -> (r: Vec<u64>)
    requires
        old(c).wf(),
    ensures
        final(c).wf(),
        r@ == old(c).stack.stacked().filter(|h: u64| h != 0),
        final(c).stack.stacked().len() == 0,
        final(c).stack.live_handles() == old(c).stack.live_handles(),
        final(c).gate@ == crate::compositor::transition::idle(),
        final(c).external@ == old(c).external@,
{
    let stragglers = c.stack.take_stack();
    let ghost keep = |h: u64| h != 0;
    let mut r: Vec<u64> = Vec::new();
    let mut i: usize = 0;
    proof {
        reveal(Seq::filter);
        assert(stragglers@.take(0) =~= seq![]);
    }
    while i < stragglers.len()
        invariant
            i <= stragglers@.len(),
            keep == (|h: u64| h != 0),
            r@ == stragglers@.take(i as int).filter(keep),
        decreases stragglers@.len() - i,
    {
        proof {
            reveal(Seq::filter);
            assert(stragglers@.take(i + 1).drop_last() =~= stragglers@.take(i as int));
        }
        if stragglers[i] != 0 {
            r.push(stragglers[i]);
        }
        i += 1;
    }
    assert(stragglers@.take(i as int) =~= stragglers@);
    c.gate.end();
    r
}

/// A software frame that can be painted.
pub fn software_frame_usable(pixels_len: usize, w: i32, h: i32) -> (r: bool)
    ensures
        r == (pixels_len > 0 && w > 0 && h > 0),
{
    pixels_len > 0 && w > 0 && h > 0
}

/// What keeps the machine awake: nothing, the system, or the display too.
pub open spec fn assertion_type(level: i32) -> Option<Seq<char>> {
    if level == 2 {
        Some("PreventUserIdleDisplaySleep"@)
    } else if level == 1 {
        Some("PreventUserIdleSystemSleep"@)
    } else {
        None
    }
}

/// The name of an idle assertion that has not been made.
pub const NULL_ASSERTION: u32 = 0;

/// What setting the idle level asks of the system: release the assertion that
/// is held, then make a new one.
#[derive(Debug)]
pub struct IdlePlan {
    pub release: Option<u32>,
    pub create: Option<&'static str>,
}

/// Sets the idle level. Whatever assertion was held is given up.
pub fn macos_set_idle_inhibit(held: &mut u32, level: i32) -> (r: IdlePlan)
    ensures
        *final(held) == NULL_ASSERTION,
        r.release == (if *old(held) != NULL_ASSERTION {
            Some(*old(held))
        } else {
            None
        }),
        match r.create {
            Some(t) => assertion_type(level) == Some(t@),
            None => assertion_type(level) is None,
        },
{
    let previous: u32 = *held;
    *held = NULL_ASSERTION;
    let release: Option<u32> = if previous != NULL_ASSERTION { Some(previous) } else { None };
    let create: Option<&'static str> = if level == 2 {
        Some("PreventUserIdleDisplaySleep")
    } else if level == 1 {
        Some("PreventUserIdleSystemSleep")
    } else {
        None
    };
    IdlePlan { release, create }
}

/// The new assertion was made, or was not.
pub fn idle_assertion_made(held: &mut u32, succeeded: bool, id: u32)
    ensures
        *final(held) == (if succeeded && id != NULL_ASSERTION {
            id
        } else {
            *old(held)
        }),
{
    if succeeded && id != NULL_ASSERTION {
        *held = id;
    }
}

/// One item of a menu to show.
#[derive(Debug)]
pub struct MenuItem {
    pub id: i32,
    pub label: String,
    pub enabled: bool,
    pub separator: bool,
}

/// One entry of a native menu.
#[derive(Debug)]
pub struct MenuEntry {
    pub checked: bool,
    pub title: String,
    pub tag: i32,
    pub enabled: bool,
    pub separator: bool,
}

#[derive(Debug)]
pub struct MenuSpec {
    pub entries: Vec<MenuEntry>,
    pub x: i32,
    pub y: i32,
    pub positioning_tag: Option<i32>,
    pub min_width: Option<i32>,
}

/// The native entry for an item: checked where it is the initial choice.
pub open spec fn entry_of(item: MenuItem, initial: i32) -> MenuEntry {
    MenuEntry {
        checked: item.id == initial && !item.separator,
        title: item.label,
        tag: item.id,
        enabled: item.enabled,
        separator: item.separator,
    }
}

/// The native menu for a request, opened over its initial choice. A menu
/// without items is not shown: it is answered as dismissed.
pub fn menu_spec(items: &Vec<MenuItem>, x: i32, y: i32, width: i32, initial: i32) -> (r: Result<
    MenuSpec,
    i32,
>)
    ensures
        items@.len() == 0 ==> r == Err::<MenuSpec, i32>(MENU_DISMISSED),
        items@.len() > 0 ==> {
            &&& r matches Ok(spec)
            &&& spec.entries@ == Seq::new(items@.len(), |i: int| entry_of(items@[i], initial))
            &&& spec.x == x && spec.y == y
            &&& spec.positioning_tag == (if initial >= 0 {
                Some(initial)
            } else {
                None
            })
            &&& spec.min_width == (if width > 0 {
                Some(width)
            } else {
                None
            })
        },
{
    if items.len() == 0 {
        return Err(MENU_DISMISSED);
    }
    let ghost all = Seq::new(items@.len(), |i: int| entry_of(items@[i], initial));
    let mut entries: Vec<MenuEntry> = Vec::new();
    let mut i: usize = 0;
    while i < items.len()
        invariant
            i <= items@.len(),
            all == Seq::new(items@.len(), |i: int| entry_of(items@[i], initial)),
            entries@ == all.take(i as int),
        decreases items@.len() - i,
    {
        let item = &items[i];
        entries.push(
            MenuEntry {
                checked: item.id == initial && !item.separator,
                title: item.label.clone(),
                tag: item.id,
                enabled: item.enabled,
                separator: item.separator,
            },
        );
        assert(entries@ =~= all.take(i + 1));
        i += 1;
    }
    assert(all.take(i as int) =~= all);
    Ok(
        MenuSpec {
            entries,
            x,
            y,
            positioning_tag: if initial >= 0 { Some(initial) } else { None },
            min_width: if width > 0 { Some(width) } else { None },
        },
    )
}

/// The display link and what it drives.
#[derive(Clone, Copy, Debug, PartialEq, Eq, Structural)]
pub struct LinkState {
    pub window: bool,
    /// The running link, by number.
    pub link: Option<u64>,
    pub driver: bool,
}

/// What starting the frames comes to.
#[derive(Clone, Copy, Debug, PartialEq, Eq, Structural)]
pub enum LinkStart {
    /// The link already runs.
    Running,
    /// A link is to be built.
    Build,
}

impl LinkState {
    /// Frames are to be driven from now on.
    pub fn start_frame_driver(&mut self) -> (r: LinkStart)
        ensures
            *final(self) == (LinkState { driver: true, ..*old(self) }),
            r == (if old(self).link is Some {
                LinkStart::Running
            } else {
                LinkStart::Build
            }),
    {
        self.driver = true;
        if self.link.is_some() {
            LinkStart::Running
        } else {
            LinkStart::Build
        }
    }

    /// The link was built, or could not be. The value tells whether frames are
    /// driven.
    pub fn link_built(&mut self, built: Option<u64>) -> (r: bool)
        ensures
            r == (built is Some),
            *final(self) == (LinkState {
                link: if built is Some {
                    built
                } else {
                    old(self).link
                },
                ..*old(self)
            }),
    {
        match built {
            Some(link) => {
                self.link = Some(link);
                true
            },
            None => false,
        }
    }

    /// Whether a wake or a change of screens restarts the link: with a window,
    /// and not while shutting down.
    pub fn wants_restart(&self, shutting_down: bool) -> (r: bool)
        ensures
            r == (!shutting_down && self.window),
    {
        !shutting_down && self.window
    }

    /// A new link takes the old one's place, which is to be released. Where
    /// none could be built, the old one stays.
    pub fn restarted(&mut self, built: Option<u64>) -> (release: Option<u64>)
        ensures
            built is None ==> release is None && *final(self) == *old(self),
            built is Some ==> release == old(self).link && *final(self) == (LinkState {
                link: built,
                ..*old(self)
            }),
    {
        match built {
            None => None,
            Some(link) => {
                let old_link = self.link;
                self.link = Some(link);
                old_link
            },
        }
    }

    /// Frames are no longer driven; the link is to be released.
    pub fn stop_frame_driver(&mut self) -> (release: Option<u64>)
        ensures
            release == old(self).link,
            *final(self) == (LinkState { link: None, driver: false, ..*old(self) }),
    {
        let link = self.link;
        self.link = None;
        self.driver = false;
        link
    }

    /// Whether a tick of the link drives a frame.
    pub fn ticks(&self, shutting_down: bool) -> (r: bool)
        ensures
            r == (self.driver && !shutting_down),
    {
        self.driver && !shutting_down
    }
}

/// The first of the flagged windows: the visible one to take, or the minimised
/// one to restore.
pub fn first_flagged(windows: &Vec<bool>) -> (r: Option<usize>)
    ensures
        match r {
            Some(i) => i < windows@.len() && windows@[i as int] && forall|j: int|
                0 <= j < i ==> !(#[trigger] windows@[j]),
            None => forall|j: int| 0 <= j < windows@.len() ==> !(#[trigger] windows@[j]),
        },
        r is Some <==> windows@.contains(true),
{
    let mut i: usize = 0;
    while i < windows.len()
        invariant
            i <= windows@.len(),
            forall|j: int| 0 <= j < i ==> !(#[trigger] windows@[j]),
        decreases windows@.len() - i,
    {
        if windows[i] {
            assert(windows@[i as int] == true);
            return Some(i);
        }
        i += 1;
    }
    None
}

/// Nanoseconds that a visible window is waited for.
pub const WINDOW_WAIT: u64 = 5_000_000_000;

/// What waiting for a window comes to.
#[derive(Clone, Copy, Debug, PartialEq, Eq, Structural)]
pub enum WindowWait {
    /// The window is there.
    Adopt,
    /// None came in time.
    GiveUp,
    /// Run the system's loop, for this long at most, and look again.
    Pump(Duration),
}

pub fn window_wait(found: bool, now: Instant, deadline: Instant) -> (r: WindowWait)
    ensures
        r == (if found {
            WindowWait::Adopt
        } else if now.nanos >= deadline.nanos {
            WindowWait::GiveUp
        } else {
            WindowWait::Pump(Duration { nanos: (deadline.nanos - now.nanos) as u64 })
        }),
{
    if found {
        return WindowWait::Adopt;
    }
    if now.nanos >= deadline.nanos {
        return WindowWait::GiveUp;
    }
    WindowWait::Pump(deadline.duration_since(now))
}

/// The red, green and blue of a colour written as `0xRRGGBB`.
pub fn color_channels(rgb: u32) -> (r: (u8, u8, u8))
    ensures
        r.0 == rgb / 65536 % 256,
        r.1 == rgb / 256 % 256,
        r.2 == rgb % 256,
{
    ((rgb / 65536 % 256) as u8, (rgb / 256 % 256) as u8, (rgb % 256) as u8)
}

/// Where the browser engine's files are: in the application bundle, whose
/// contents directory is two levels above the program.
pub fn cef_paths(exe: &str) -> (r: CefPaths)
    requires
        crate::paths::resolved(exe@),
    ensures
        ({
            let contents = bundle_contents(exe@);
            &&& r.browser_subprocess_path matches Some(p) && p@ == exe@
            &&& r.framework_dir_path matches Some(f) && f@ == crate::discord::socket::path_join(
                crate::discord::socket::path_join(contents, "Frameworks"@),
                "Chromium Embedded Framework.framework"@,
            )
            &&& r.resources_dir_path is None
            &&& r.locales_dir_path is None
        }),
{
    proof {
        crate::paths::directories_are_resolved(exe@);
    }
    let contents: String = match directory_of(exe) {
        Some(dir) => match directory_of(dir.as_str()) {
            Some(contents) => contents,
            None => exe.to_owned(),
        },
        None => exe.to_owned(),
    };
    let framework = join_path(
        join_path(contents.as_str(), "Frameworks").as_str(),
        "Chromium Embedded Framework.framework",
    );
    CefPaths {
        browser_subprocess_path: Some(exe.to_owned()),
        framework_dir_path: Some(framework),
        resources_dir_path: None,
        locales_dir_path: None,
    }
}

/// Two levels above the program, or the program itself where there are none.
pub open spec fn bundle_contents(exe: Seq<char>) -> Seq<char> {
    match crate::paths::directory(exe) {
        Some(dir) => match crate::paths::directory(dir) {
            Some(contents) => contents,
            None => exe,
        },
        None => exe,
    }
}

/// A frame never shows on a surface that is gone.
pub proof fn freed_surfaces_show_nothing(c: MacCompositor, h: u64)
    requires
        !c.stack.live_handles().contains(h),
    ensures
        frame_gate(c, h) == FrameGate::Drop,
{
}

/// While the window changes size, the main surface shows nothing and the others
/// are not held back.
pub proof fn only_the_main_surface_waits(c: MacCompositor, h: u64)
    requires
        c.gate@.in_transition,
        h != 0,
        c.stack.live_handles().contains(h),
        !c.external@.contains(h),
    ensures
        frame_gate(c, h) == FrameGate::Drop <==> is_main_of(c, h),
{
}

/// A frame reaches the surface it is for exactly where that lives, nobody else
/// paints it, and it is not the main one of a window that changes its size.
pub proof fn frames_reach_living_surfaces(c: MacCompositor, h: u64)
    ensures
        frame_gate(c, h) is Present <==> h != 0 && c.stack.live_handles().contains(h)
            && !c.external@.contains(h) && !(c.stack.main_handle() == Some(h)
            && c.gate@.in_transition),
        frame_gate(c, h) matches FrameGate::Present { main } ==> (main <==> c.stack.main_handle()
            == Some(h)),
        is_main_of(c, h) <==> c.stack.main_handle() == Some(h),
{
}

/// The display is kept on at the highest level alone, the system awake at the
/// one below, and neither at any other.
pub proof fn levels_keep_what_they_name_awake(level: i32)
    ensures
        level == 2 ==> assertion_type(level) == Some("PreventUserIdleDisplaySleep"@),
        level == 1 ==> assertion_type(level) == Some("PreventUserIdleSystemSleep"@),
        level != 1 && level != 2 ==> assertion_type(level) is None,
{
}

/// An entry is its item: under its label, chosen by its number, and open to
/// choice as it is. The initial choice is checked, and no separator is.
pub proof fn entries_are_their_items(item: MenuItem, initial: i32)
    ensures
        ({
            let e = entry_of(item, initial);
            &&& e.title@ == item.label@
            &&& e.tag == item.id
            &&& e.enabled == item.enabled
            &&& e.separator == item.separator
            &&& e.checked ==> item.id == initial && !item.separator
            &&& item.id == initial && !item.separator ==> e.checked
        }),
{
}

/// A native menu has an entry for each item, in order, and opens at the point it
/// was asked for.
pub proof fn native_menus_open_where_asked(
    items: Vec<MenuItem>,
    x: i32,
    y: i32,
    width: i32,
    initial: i32,
    r: Result<MenuSpec, i32>,
    i: int,
)
    requires
        call_ensures(menu_spec, (&items, x, y, width, initial), r),
        0 <= i < items@.len(),
    ensures
        r matches Ok(spec) && spec.x == x && spec.y == y && spec.entries@.len() == items@.len()
            && spec.entries@[i].tag == items@[i].id && spec.entries@[i].title@ == items@[i].label@
            && (spec.positioning_tag matches Some(t) ==> t == initial) && (spec.min_width matches Some(
            w,
        ) ==> w == width && w > 0),
{
}

/// A bundle's contents lie two levels above its program.
pub proof fn contents_lie_two_levels_up(contents: Seq<char>, dir: Seq<char>, name: Seq<char>)
    requires
        contents.len() > 0,
        dir.len() > 0,
        name.len() > 0,
        forall|i: int| 0 <= i < dir.len() ==> #[trigger] dir[i] != '/',
        forall|i: int| 0 <= i < name.len() ==> #[trigger] name[i] != '/',
    ensures
        bundle_contents(contents + seq!['/'] + dir + seq!['/'] + name) == contents,
{
    let above = contents + seq!['/'] + dir;
    crate::paths::directory_and_name_make_the_path(above, name);
    crate::paths::directory_and_name_make_the_path(contents, dir);
}

/// The three channels of a colour make it up again, red highest.
pub proof fn channels_make_up_the_colour(rgb: u32, r: (u8, u8, u8))
    requires
        call_ensures(color_channels, (rgb,), r),
        rgb < 0x100_0000,
    ensures
        rgb == r.0 as int * 65536 + r.1 as int * 256 + r.2 as int,
{
}

/// A window is adopted as soon as it is there, even at the deadline; without
/// one the wait goes on for exactly the time that is left.
pub proof fn windows_are_waited_for(
    found: bool,
    now: Instant,
    deadline: Instant,
    r: WindowWait,
)
    requires
        call_ensures(window_wait, (found, now, deadline), r),
    ensures
        r is Adopt <==> found,
        r is GiveUp <==> !found && now.nanos >= deadline.nanos,
        r matches WindowWait::Pump(d) ==> now.nanos + d.nanos == deadline.nanos,
        WINDOW_WAIT == 5_000_000_000,
{
}

/// A surface shows frames while it lives and the client paints it: from the
/// moment it is made until somebody else takes it over.
pub proof fn surfaces_show_until_taken_over(
    c: &mut MacCompositor,
    h: u64,
    shown: FrameGate,
    d: &mut MacCompositor,
    taken: bool,
    gone: FrameGate,
)
    requires
        old(c).wf(),
        h != 0,
        !old(c).external@.contains(h),
        !old(c).gate@.in_transition,
        call_ensures(macos_alloc_surface, (c, h), ()),
        call_ensures(present_frame, (&*final(c), h), shown),
        *old(d) == *final(c),
        call_ensures(macos_surface_window_target, (d, h), taken),
        call_ensures(present_frame, (&*final(d), h), gone),
    ensures
        shown is Present,
        taken,
        gone is Drop,
{
    assert(final(c).stack.live_handles()[old(c).stack.live_handles().len() as int] == h);
    assert(final(c).gate@ == old(c).gate@);
}

/// The system is kept awake by one assertion at a time: the one that is held is
/// given up before another is made, and an assertion that was made is held.
pub proof fn one_assertion_is_held(
    held: &mut u32,
    level: i32,
    plan: IdlePlan,
    made: &mut u32,
    id: u32,
    again: &mut u32,
    released: IdlePlan,
)
    requires
        call_ensures(macos_set_idle_inhibit, (held, level), plan),
        *old(made) == *final(held),
        id != 0,
        call_ensures(idle_assertion_made, (made, true, id), ()),
        *old(again) == *final(made),
        call_ensures(macos_set_idle_inhibit, (again, 0i32), released),
    ensures
        *old(held) != 0 ==> plan.release == Some(*old(held)),
        *old(held) == 0 ==> plan.release is None,
        plan.create is Some <==> level == 1 || level == 2,
        *final(made) == id,
        released.release == Some(id) && released.create is None,
        *final(again) == 0,
{
}

/// A link that was built runs until it is stopped, and is released then; one
/// that takes its place has it released at once.
pub proof fn links_are_released(
    l: &mut LinkState,
    first: u64,
    built: bool,
    m: &mut LinkState,
    second: u64,
    replaced: Option<u64>,
    n: &mut LinkState,
    stopped: Option<u64>,
    ticks: bool,
)
    requires
        call_ensures(LinkState::link_built, (l, Some(first)), built),
        *old(m) == *final(l),
        call_ensures(LinkState::restarted, (m, Some(second)), replaced),
        *old(n) == *final(m),
        call_ensures(LinkState::stop_frame_driver, (n,), stopped),
        call_ensures(LinkState::ticks, (&*final(n), false), ticks),
    ensures
        built,
        replaced == Some(first),
        stopped == Some(second),
        !ticks,
        final(n).link is None,
        final(n).window == old(l).window,
{
}

/// A software frame is painted where it has pixels and a size; without any of
/// the three it is not.
pub proof fn empty_software_frames_are_not_painted(len: usize, w: i32, h: i32, r: bool)
    requires
        call_ensures(software_frame_usable, (len, w, h), r),
    ensures
        len == 0 ==> !r,
        w <= 0 ==> !r,
        h <= 0 ==> !r,
        len > 0 && w > 0 && h > 0 ==> r,
{
}

/// The link is restarted for a window alone, and never once the shutdown began.
pub proof fn links_are_restarted_for_a_window(l: LinkState, shutting_down: bool, r: bool)
    requires
        call_ensures(LinkState::wants_restart, (&l, shutting_down), r),
    ensures
        shutting_down ==> !r,
        !l.window ==> !r,
        !shutting_down ==> r == l.window,
{
}

/// The window that is taken is flagged, and none before it is; where none is
/// taken, none is flagged.
pub proof fn the_first_flagged_window_is_taken(windows: Vec<bool>, r: Option<usize>, k: int)
    requires
        call_ensures(first_flagged, (&windows,), r),
        0 <= k < windows@.len(),
    ensures
        windows@[k] ==> (r matches Some(i) && i <= k),
        r matches Some(i) ==> i < windows@.len() && windows@[i as int],
{
    if windows@[k] {
        assert(windows@[k] == true);
        assert(windows@.contains(true));
    }
}

/// A surface that is freed is gone from wherever it was, and the others stay.
pub proof fn freed_surfaces_are_gone(c: &mut MacCompositor, h: u64, other: u64, r: bool)
    requires
        old(c).wf(),
        call_ensures(macos_free_surface, (c, h), r),
        other != h,
    ensures
        r <==> h != 0,
        r ==> !final(c).external@.contains(h),
        r ==> (final(c).external@.contains(other) <==> old(c).external@.contains(other)),
        !r ==> *final(c) == *old(c),
        final(c).gate == old(c).gate,
{
    let before = old(c).external@;
    let after = final(c).external@;
    broadcast use Seq::lemma_filter_contains_rev;
    if r {
        let keep = |x: u64| x != h;
        assert(after == before.filter(keep));
        assert forall|x: u64| after.contains(x) <==> before.contains(x) && x != h by {
            if before.contains(x) && x != h {
                let i = choose|i: int| 0 <= i < before.len() && before[i] == x;
                before.lemma_filter_contains(keep, i);
            }
            if after.contains(x) {
                let i = choose|i: int| 0 <= i < after.len() && after[i] == x;
                before.lemma_filter_pred(keep, i);
            }
        }
    }
}

/// What is stacked are the surfaces that were given and live, and the clean-up
/// takes them all down again and lets frames through.
pub proof fn stacked_surfaces_are_taken_down(
    c: &mut MacCompositor,
    d: &mut MacCompositor,
    ordered: &[u64],
    stacked: Vec<u64>,
    down: Vec<u64>,
)
    requires
        old(c).wf(),
        call_ensures(macos_apply_stack, (c, ordered), stacked),
        *old(d) == *final(c),
        call_ensures(jfn_macos_compositor_cleanup, (d,), down),
    ensures
        final(c).stack.stacked() == stacked@,
        down@ == stacked@.filter(|h: u64| h != 0),
        final(d).stack.stacked().len() == 0,
        final(d).stack.live_handles() == old(c).stack.live_handles(),
        !final(d).gate@.in_transition,
        final(d).external@ == old(c).external@,
{
}

/// Starting the driver builds a link where there is none, and uses the one that
/// is there.
pub proof fn drivers_build_one_link(l: &mut LinkState, r: LinkStart)
    requires
        call_ensures(LinkState::start_frame_driver, (l,), r),
    ensures
        final(l).driver,
        r is Build <==> old(l).link is None,
        r is Running <==> old(l).link is Some,
        final(l).link == old(l).link && final(l).window == old(l).window,
{
}

/// The engine runs the client's own executable, with the framework that lies in
/// the bundle.
pub proof fn engines_lie_in_the_bundle(
    contents: Seq<char>,
    dir: Seq<char>,
    name: Seq<char>,
    exe: &str,
    r: CefPaths,
)
    requires
        contents.len() > 0,
        dir.len() > 0,
        name.len() > 0,
        forall|i: int| 0 <= i < dir.len() ==> #[trigger] dir[i] != '/',
        forall|i: int| 0 <= i < name.len() ==> #[trigger] name[i] != '/',
        exe@ == contents + seq!['/'] + dir + seq!['/'] + name,
        call_ensures(cef_paths, (exe,), r),
    ensures
        r.browser_subprocess_path is Some && r.browser_subprocess_path->0@ == exe@,
        r.framework_dir_path is Some && r.framework_dir_path->0@
            == crate::discord::socket::path_join(
            crate::discord::socket::path_join(contents, "Frameworks"@),
            "Chromium Embedded Framework.framework"@,
        ),
        r.resources_dir_path is None && r.locales_dir_path is None,
{
    contents_lie_two_levels_up(contents, dir, name);
}

} // verus!
