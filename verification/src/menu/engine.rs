//! The life of a popup menu: armed on the press, filled when its items come,
//! shaped, painted, scrolled and closed. Each popup has a generation, so that
//! late answers about an old one are told apart.

use vstd::prelude::*;

verus! {

/// The answer of a menu that was closed without a choice.
pub const MENU_DISMISSED: i32 = -1;

#[derive(Clone, Copy, Debug, PartialEq, Eq, Structural)]
pub enum Phase {
    Idle,
    /// The popup is being created, empty.
    AwaitPlaceholder,
    /// The popup is there, empty.
    Placeholder,
    /// The popup is being given the menu's size.
    AwaitMenu,
    Shown,
}

/// What the renderer is to do next. Shaping includes painting.
#[derive(Clone, Copy, Debug, PartialEq, Eq, PartialOrd, Ord, Structural)]
pub enum RenderJob {
    Paint,
    Shape,
}

/// Why a popup is closed.
#[derive(Clone, Copy, Debug, PartialEq, Eq, Structural)]
pub enum MenuClose {
    /// It was armed for a press that opened no menu.
    Speculative,
    /// The window system closed it.
    External,
    Finished,
}

#[derive(Clone, Copy, Debug, PartialEq, Eq, Structural)]
pub struct Row {
    pub item: usize,
    pub y: i32,
    pub h: i32,
    pub separator: bool,
}

/// The menu's rows, in physical pixels.
#[derive(Debug)]
pub struct Layout {
    pub rows: Vec<Row>,
    pub width: i32,
    pub height: i32,
}

/// The display scale, held as the bits of an IEEE 754 single, and the height of
/// the window that menus are kept inside, where there is one.
#[derive(Clone, Copy, Debug, PartialEq, Eq, Structural)]
pub struct MenuMetrics {
    pub scale_bits: u32,
    pub clamp_ph: Option<i32>,
}

#[derive(Debug)]
pub struct Menu {
    /// The number that the items are kept under.
    pub items: u64,
    pub layout: Option<Layout>,
    /// The highlighted item.
    pub active: i32,
    pub pw: i32,
    /// The height of the content, in physical pixels.
    pub ph: i32,
    /// The height that shows, in physical pixels.
    pub view_ph: i32,
    /// How far the content is scrolled, in physical pixels.
    pub scroll: i32,
    pub metrics: MenuMetrics,
    /// The logical width asked for; content-sized where it is not positive.
    pub width: i32,
    /// The number that the waiting callback is kept under.
    pub on_selected: Option<u64>,
    pub mapped: bool,
    pub anchor_x: i32,
    pub anchor_y: i32,
}

/// A menu to open.
#[derive(Clone, Copy, Debug, PartialEq, Eq, Structural)]
pub struct MenuRequest {
    pub items: u64,
    pub on_selected: u64,
    pub x: i32,
    pub y: i32,
    pub width: i32,
    pub initial: i32,
}

#[derive(Debug)]
pub struct MenuState {
    pub phase: Phase,
    pub generation: Option<u64>,
    pub next_generation: u64,
    pub active: bool,
    pub engaged: bool,
    pub menu: Option<Menu>,
    pub job: Option<RenderJob>,
    pub shutdown: bool,
}

/// A popup's place: its corner in logical pixels, its size in physical ones,
/// and the scale between them. A scale of zero stands for one.
#[derive(Clone, Copy, Debug, PartialEq, Eq, Structural)]
pub struct MenuPlacement {
    pub x: i32,
    pub y: i32,
    pub pw: i32,
    pub ph: i32,
    pub scale_bits: u32,
}

/// A picture for the popup: the whole content, and the part that shows.
#[derive(Debug)]
pub struct MenuPaint {
    pub generation: u64,
    pub pixels: Vec<u8>,
    pub pw: i32,
    pub ph: i32,
    pub scroll: i32,
    pub view_ph: i32,
    pub scale_bits: u32,
}

#[derive(Debug)]
pub enum SurfaceOp {
    /// Create the popup. A serial of zero stands for whichever press is still
    /// known.
    Create { generation: u64, place: MenuPlacement, serial: u32 },
    Reposition { generation: u64, place: MenuPlacement },
    Present(MenuPaint),
    Destroy { generation: u64, reason: MenuClose },
}

/// What a step gives rise to: operations on the popup, in order, and then a
/// callback to call with an item.
#[derive(Debug)]
pub struct Outbox {
    pub ops: Vec<SurfaceOp>,
    pub fire: Option<(u64, i32)>,
}

#[derive(Clone, Copy, Debug, PartialEq, Eq, Structural)]
pub enum MenuEvent {
    Motion { x: i32, y: i32 },
    Press { x: i32, y: i32 },
    Key(u32),
    Dismiss,
}

#[derive(Clone, Copy, Debug, PartialEq, Eq, Structural)]
pub enum MenuEffect {
    Redraw,
    /// Close the menu with this item.
    Close(i32),
}

/// A piece of work for the renderer.
#[derive(Clone, Copy, Debug, PartialEq, Eq, Structural)]
pub enum Job {
    Shape { generation: u64, items: u64, width: i32 },
    Paint { generation: u64, items: u64, active: i32 },
}

impl Menu {
    /// The part that shows fits the content, and the scroll position keeps it
    /// inside.
    pub open spec fn wf(self) -> bool {
        &&& self.view_ph <= self.ph
        &&& self.view_ph < self.ph ==> self.view_ph >= 1
        &&& 0 <= self.scroll <= self.ph - self.view_ph
    }
}

impl MenuState {
    pub open spec fn wf(self) -> bool {
        // A popup or a menu has a generation, and nothing else has.
        &&& self.generation is Some <==> (self.phase != Phase::Idle || self.menu is Some)
        &&& self.engaged <==> self.generation is Some
        // The menu itself takes part from the moment it has its place.
        &&& self.active <==> (self.phase is AwaitMenu || self.phase is Shown)
        &&& self.active ==> self.menu is Some
        &&& self.job is Some ==> self.menu is Some
        &&& self.menu matches Some(m) ==> m.wf()
    }

    /// A menu that is on the screen.
    pub open spec fn mapped_menu(self) -> bool {
        self.menu matches Some(m) && m.mapped
    }
}

/// The generation of the popup that the window system holds, as far as the
/// state knows.
pub open spec fn popup(s: MenuState) -> Option<u64> {
    if s.phase == Phase::Idle {
        None
    } else {
        s.generation
    }
}

/// The popup after an operation: creating one replaces the one before.
pub open spec fn popup_after_op(open: Option<u64>, op: SurfaceOp) -> Option<u64> {
    match op {
        SurfaceOp::Create { generation, .. } => Some(generation),
        SurfaceOp::Destroy { generation, .. } => if open == Some(generation) {
            None
        } else {
            open
        },
        _ => open,
    }
}

pub open spec fn popup_after(open: Option<u64>, ops: Seq<SurfaceOp>) -> Option<u64>
    decreases ops.len(),
{
    if ops.len() == 0 {
        open
    } else {
        popup_after_op(popup_after(open, ops.drop_last()), ops.last())
    }
}

/// The operations leave the window system with the popup that the new state
/// has: none is forgotten on the screen, and none is used that is not there.
pub open spec fn in_step(old: MenuState, new: MenuState, out: Outbox) -> bool {
    popup_after(popup(old), out.ops@) == popup(new)
}

pub open spec fn silent(out: Outbox) -> bool {
    out.ops@.len() == 0 && out.fire is None
}

/// `s` without its menu.
pub open spec fn cleared(s: MenuState) -> MenuState {
    MenuState {
        active: false,
        engaged: false,
        phase: Phase::Idle,
        generation: None,
        job: None,
        menu: None,
        ..s
    }
}

/// The callback that waits for the menu's answer.
pub open spec fn waiting(s: MenuState) -> Option<u64> {
    match s.menu {
        Some(m) => m.on_selected,
        None => None,
    }
}

pub open spec fn fired(callback: Option<u64>, item: i32) -> Option<(u64, i32)> {
    match callback {
        Some(f) => Some((f, item)),
        None => None,
    }
}

/// The generation after `n`: counting up, past the end from one again.
pub open spec fn generation_after(n: u64) -> u64 {
    if n == u64::MAX {
        1
    } else {
        (n + 1) as u64
    }
}

pub open spec fn counter_after(n: u64) -> u64 {
    if n == u64::MAX {
        0
    } else {
        (n + 1) as u64
    }
}

pub open spec fn place_of(m: Menu) -> MenuPlacement {
    MenuPlacement {
        x: m.anchor_x,
        y: m.anchor_y,
        pw: m.pw,
        ph: m.view_ph,
        scale_bits: m.metrics.scale_bits,
    }
}

/// A paint is asked for, unless a shape is: that includes it.
pub open spec fn job_with_paint(job: Option<RenderJob>) -> Option<RenderJob> {
    if job == Some(RenderJob::Shape) {
        job
    } else {
        Some(RenderJob::Paint)
    }
}

impl Default for MenuState {
    fn default() -> (r: Self)
        ensures
            r.wf(),
            r.phase == Phase::Idle,
            r.generation is None,
            r.next_generation == 0,
            r.menu is None,
            r.job is None,
            !r.shutdown,
    {
        MenuState {
            phase: Phase::Idle,
            generation: None,
            next_generation: 0,
            active: false,
            engaged: false,
            menu: None,
            job: None,
            shutdown: false,
        }
    }
}

impl Outbox {
    pub fn empty() -> (r: Outbox)
        ensures
            silent(r),
    {
        Outbox { ops: Vec::new(), fire: None }
    }
}

pub fn request_paint(s: &mut MenuState)
    ensures
        *final(s) == (MenuState { job: job_with_paint(old(s).job), ..*old(s) }),
{
    let shaping = match s.job {
        Some(RenderJob::Shape) => true,
        _ => false,
    };
    if !shaping {
        s.job = Some(RenderJob::Paint);
    }
}

pub fn next_generation(s: &mut MenuState) -> (r: u64)
    ensures
        r == generation_after(old(s).next_generation),
        r >= 1,
        *final(s) == (MenuState {
            next_generation: counter_after(old(s).next_generation),
            ..*old(s)
        }),
{
    let v: u64 = if s.next_generation == u64::MAX { 0 } else { s.next_generation + 1 };
    s.next_generation = v;
    if v == 0 {
        1
    } else {
        v
    }
}

fn clear_menu(s: &mut MenuState) -> (r: Option<u64>)
    ensures
        r == waiting(*old(s)),
        *final(s) == cleared(*old(s)),
{
    s.active = false;
    s.engaged = false;
    s.phase = Phase::Idle;
    s.generation = None;
    s.job = None;
    let menu = s.menu.take();
    match menu {
        Some(m) => m.on_selected,
        None => None,
    }
}

fn answer(callback: Option<u64>, item: i32) -> (r: Option<(u64, i32)>)
    ensures
        r == fired(callback, item),
{
    match callback {
        Some(f) => Some((f, item)),
        None => None,
    }
}

fn destroying(generation: Option<u64>, reason: MenuClose) -> (ops: Vec<SurfaceOp>)
    ensures
        ops@ == (match generation {
            Some(generation) => seq![SurfaceOp::Destroy { generation, reason }],
            None => seq![],
        }),
{
    let mut ops: Vec<SurfaceOp> = Vec::new();
    match generation {
        Some(generation) => ops.push(SurfaceOp::Destroy { generation, reason }),
        None => {},
    }
    assert(ops@ =~= (match generation {
        Some(generation) => seq![SurfaceOp::Destroy { generation, reason }],
        None => seq![],
    }));
    ops
}

fn placement(menu: &Menu) -> (r: MenuPlacement)
    ensures
        r == place_of(*menu),
{
    MenuPlacement {
        x: menu.anchor_x,
        y: menu.anchor_y,
        pw: menu.pw,
        ph: menu.view_ph,
        scale_bits: menu.metrics.scale_bits,
    }
}

/// The first row that is not a separator.
pub open spec fn first_item(rows: Seq<Row>) -> Option<Row>
    decreases rows.len(),
{
    if rows.len() == 0 {
        None
    } else if !rows[0].separator {
        Some(rows[0])
    } else {
        first_item(rows.drop_first())
    }
}

/// The height of a row: the first item's, and at least one pixel.
pub open spec fn row_height_of(layout: Option<Layout>) -> i32 {
    match layout {
        Some(l) => match first_item(l.rows@) {
            Some(r) => if r.h < 1 {
                1
            } else {
                r.h
            },
            None => 1,
        },
        None => 1,
    }
}

pub fn row_height(menu: &Menu) -> (r: i32)
    ensures
        r == row_height_of(menu.layout),
        r >= 1,
{
    match &menu.layout {
        None => 1,
        Some(l) => {
            let mut i: usize = 0;
            assert(l.rows@.skip(0) =~= l.rows@);
            while i < l.rows.len()
                invariant
                    i <= l.rows@.len(),
                    menu.layout == Some(*l),
                    first_item(l.rows@) == first_item(l.rows@.skip(i as int)),
                decreases l.rows@.len() - i,
            {
                assert(l.rows@.skip(i as int).drop_first() =~= l.rows@.skip(i + 1));
                assert(l.rows@.skip(i as int)[0] == l.rows@[i as int]);
                if !l.rows[i].separator {
                    let h: i32 = l.rows[i].h;
                    return if h < 1 { 1 } else { h };
                }
                i += 1;
            }
            assert(l.rows@.skip(i as int) =~= seq![]);
            1
        },
    }
}

/// The first row of the item numbered `active`.
pub open spec fn active_row(rows: Seq<Row>, active: i32) -> Option<Row>
    decreases rows.len(),
{
    if rows.len() == 0 {
        None
    } else if rows[0].item as i32 == active {
        Some(rows[0])
    } else {
        active_row(rows.drop_first(), active)
    }
}

/// The scroll position from which `row` shows: unchanged where it already does,
/// else the nearest one.
pub open spec fn scroll_to(scroll: int, row: Row, ph: int, view_ph: int) -> int {
    let wanted = if row.y < scroll {
        row.y as int
    } else if row.y + row.h > scroll + view_ph {
        row.y + row.h - view_ph
    } else {
        scroll
    };
    if wanted < 0 {
        0
    } else if wanted > ph - view_ph {
        ph - view_ph
    } else {
        wanted
    }
}

/// The scroll position from which the highlighted item shows.
pub open spec fn scroll_for_active(m: Menu) -> int {
    if m.view_ph >= m.ph {
        m.scroll as int
    } else {
        match m.layout {
            Some(l) => match active_row(l.rows@, m.active) {
                Some(row) => scroll_to(m.scroll as int, row, m.ph as int, m.view_ph as int),
                None => m.scroll as int,
            },
            None => m.scroll as int,
        }
    }
}

/// Bringing the highlighted item into view forms no sum beyond 32 bits: where
/// not all of the menu shows and the row does not start above what does, its
/// bottom edge is within them.
pub open spec fn active_row_fits(m: Menu) -> bool {
    m.view_ph < m.ph ==> (m.layout matches Some(l) ==> (active_row(l.rows@, m.active) matches Some(
        row,
    ) ==> (row.y >= m.scroll ==> i32::MIN <= row.y + row.h <= i32::MAX)))
}

fn find_active(rows: &Vec<Row>, active: i32) -> (r: Option<Row>)
    ensures
        r == active_row(rows@, active),
{
    let mut i: usize = 0;
    assert(rows@.skip(0) =~= rows@);
    while i < rows.len()
        invariant
            i <= rows@.len(),
            active_row(rows@, active) == active_row(rows@.skip(i as int), active),
        decreases rows@.len() - i,
    {
        assert(rows@.skip(i as int).drop_first() =~= rows@.skip(i + 1));
        assert(rows@.skip(i as int)[0] == rows@[i as int]);
        if rows[i].item as i32 == active {
            return Some(rows[i]);
        }
        i += 1;
    }
    assert(rows@.skip(i as int) =~= seq![]);
    None
}

fn scroll_active_into_view(menu: &mut Menu)
    requires
        old(menu).wf(),
        active_row_fits(*old(menu)),
    ensures
        final(menu).wf(),
        *final(menu) == (Menu { scroll: scroll_for_active(*old(menu)) as i32, ..*old(menu) }),
{
    if menu.view_ph >= menu.ph {
        return;
    }
    let row = match &menu.layout {
        None => return,
        Some(l) => match find_active(&l.rows, menu.active) {
            None => return,
            Some(row) => row,
        },
    };
    let wanted: i32 = if row.y < menu.scroll {
        row.y
    } else if row.y + row.h > menu.scroll + menu.view_ph {
        row.y + row.h - menu.view_ph
    } else {
        menu.scroll
    };
    let max: i32 = menu.ph - menu.view_ph;
    menu.scroll = if wanted < 0 {
        0
    } else if wanted > max {
        max
    } else {
        wanted
    };
}

/// How much of a menu shows. A content-sized one shows whole; one of a given
/// width is kept above the window's lower edge, but never below one row.
pub open spec fn shown_height(
    ph: int,
    row_h: int,
    width: int,
    clamp_ph: Option<i32>,
    anchor_ph_y: int,
) -> int {
    match clamp_ph {
        Some(clamp) => if width > 0 {
            let room = if clamp - anchor_ph_y < row_h {
                row_h
            } else {
                clamp - anchor_ph_y
            };
            if ph < room {
                ph
            } else {
                room
            }
        } else {
            ph
        },
        None => ph,
    }
}

pub fn view_ph(ph: i32, row_h: i32, width: i32, clamp_ph: Option<i32>, anchor_ph_y: i32) -> (r: i32)
    requires
        width > 0 ==> (clamp_ph matches Some(clamp) ==> i32::MIN <= clamp - anchor_ph_y
            <= i32::MAX),
    ensures
        r == shown_height(
            ph as int,
            row_h as int,
            width as int,
            clamp_ph,
            anchor_ph_y as int,
        ),
{
    let clamp: i32 = match clamp_ph {
        None => return ph,
        Some(c) => c,
    };
    if width <= 0 {
        return ph;
    }
    let room: i32 = if clamp - anchor_ph_y < row_h { row_h } else { clamp - anchor_ph_y };
    if ph < room {
        ph
    } else {
        room
    }
}

/// The picture that maps the popup before the menu has one.
pub open spec fn blank_paint(p: MenuPaint, generation: u64) -> bool {
    &&& p.generation == generation
    &&& p.pixels@ == seq![0u8, 0u8, 0u8, 0u8]
    &&& p.pw == 1 && p.ph == 1 && p.scroll == 0 && p.view_ph == 1 && p.scale_bits == 0
}

/// The operations that turn an empty popup into the menu's.
pub open spec fn begins_menu(ops: Seq<SurfaceOp>, generation: u64, menu: Menu) -> bool {
    &&& ops.len() == 2
    &&& ops[0] matches SurfaceOp::Present(p) && blank_paint(p, generation)
    &&& ops[1] == (SurfaceOp::Reposition { generation, place: place_of(menu) })
}

fn begin_menu(s: &mut MenuState) -> (out: Outbox)
    requires
        old(s).wf(),
        old(s).generation is Some,
        old(s).menu is Some,
        old(s).phase != Phase::Idle,
    ensures
        final(s).wf(),
        in_step(*old(s), *final(s), out),
        out.fire is None,
        begins_menu(out.ops@, old(s).generation->0, old(s).menu->0),
        *final(s) == (MenuState {
            active: true,
            engaged: true,
            phase: Phase::AwaitMenu,
            ..*old(s)
        }),
{
    let generation: u64 = match s.generation {
        None => return Outbox::empty(),
        Some(g) => g,
    };
    let place = match &s.menu {
        None => return Outbox::empty(),
        Some(menu) => placement(menu),
    };
    s.active = true;
    s.engaged = true;
    s.phase = Phase::AwaitMenu;
    let mut pixels: Vec<u8> = Vec::new();
    pixels.push(0);
    pixels.push(0);
    pixels.push(0);
    pixels.push(0);
    assert(pixels@ =~= seq![0u8, 0u8, 0u8, 0u8]);
    let mut ops: Vec<SurfaceOp> = Vec::new();
    ops.push(
        SurfaceOp::Present(
            MenuPaint { generation, pixels, pw: 1, ph: 1, scroll: 0, view_ph: 1, scale_bits: 0 },
        ),
    );
    ops.push(SurfaceOp::Reposition { generation, place });
    proof {
        reveal_with_fuel(popup_after, 3);
    }
    Outbox { ops, fire: None }
}

/// The operation that puts a menu in its place, once it has a layout.
pub open spec fn repositions(s: MenuState) -> Seq<SurfaceOp> {
    match (s.generation, s.menu) {
        (Some(generation), Some(m)) => if m.layout is Some {
            seq![SurfaceOp::Reposition { generation, place: place_of(m) }]
        } else {
            seq![]
        },
        _ => seq![],
    }
}

fn refresh_shown(s: &mut MenuState) -> (out: Outbox)
    requires
        old(s).wf(),
        old(s).generation is Some,
        old(s).menu is Some,
    ensures
        final(s).wf(),
        in_step(*old(s), *final(s), out),
        out.fire is None,
        out.ops@ == repositions(*old(s)),
        *final(s) == (MenuState { job: job_with_paint(old(s).job), ..*old(s) }),
{
    let generation: u64 = match s.generation {
        None => return Outbox::empty(),
        Some(g) => g,
    };
    let place: Option<MenuPlacement> = match &s.menu {
        Some(menu) => {
            if menu.layout.is_some() {
                Some(placement(menu))
            } else {
                None
            }
        },
        None => None,
    };
    request_paint(s);
    let mut ops: Vec<SurfaceOp> = Vec::new();
    match place {
        Some(place) => ops.push(SurfaceOp::Reposition { generation, place }),
        None => {},
    }
    proof {
        reveal_with_fuel(popup_after, 2);
        assert(ops@ =~= repositions(*old(s)));
    }
    Outbox { ops, fire: None }
}

impl MenuState {
    /// A press that may open a menu: an empty popup is created at once, while
    /// the press still counts. A menu that was there is dismissed.
    pub fn arm(&mut self, x: i32, y: i32, serial: u32) -> (out: Outbox)
        requires
            old(self).wf(),
        ensures
            final(self).wf(),
            in_step(*old(self), *final(self), out),
            out.fire == fired(waiting(*old(self)), MENU_DISMISSED),
            out.ops@ == seq![
                SurfaceOp::Create {
                    generation: generation_after(old(self).next_generation),
                    place: MenuPlacement { x, y, pw: 1, ph: 1, scale_bits: 0 },
                    serial,
                },
            ],
            *final(self) == (MenuState {
                next_generation: counter_after(old(self).next_generation),
                generation: Some(generation_after(old(self).next_generation)),
                engaged: true,
                phase: Phase::AwaitPlaceholder,
                ..cleared(*old(self))
            }),
    {
        let fire = clear_menu(self);
        let generation: u64 = next_generation(self);
        self.generation = Some(generation);
        self.engaged = true;
        self.phase = Phase::AwaitPlaceholder;
        let mut ops: Vec<SurfaceOp> = Vec::new();
        ops.push(
            SurfaceOp::Create {
                generation,
                place: MenuPlacement { x, y, pw: 1, ph: 1, scale_bits: 0 },
                serial,
            },
        );
        proof {
            reveal_with_fuel(popup_after, 2);
        }
        Outbox { ops, fire: answer(fire, MENU_DISMISSED) }
    }

    /// The press opened no menu: the empty popup goes.
    pub fn dismiss_if_speculative(&mut self) -> (out: Outbox)
        requires
            old(self).wf(),
        ensures
            final(self).wf(),
            in_step(*old(self), *final(self), out),
            old(self).menu is Some || old(self).phase == Phase::Idle ==> silent(out)
                && *final(self) == *old(self),
            !(old(self).menu is Some || old(self).phase == Phase::Idle) ==> {
                &&& out.fire is None
                &&& out.ops@ == seq![
                    SurfaceOp::Destroy {
                        generation: old(self).generation->0,
                        reason: MenuClose::Speculative,
                    },
                ]
                &&& *final(self) == cleared(*old(self))
            },
    {
        proof {
            reveal_with_fuel(popup_after, 2);
        }
        if self.menu.is_some() || self.phase == Phase::Idle {
            return Outbox::empty();
        }
        let generation = self.generation;
        let fire = clear_menu(self);
        Outbox {
            ops: destroying(generation, MenuClose::Speculative),
            fire: answer(fire, MENU_DISMISSED),
        }
    }

    /// The window system made the popup ready.
    pub fn on_ready(&mut self, generation: u64) -> (out: Outbox)
        requires
            old(self).wf(),
        ensures
            final(self).wf(),
            in_step(*old(self), *final(self), out),
            out.fire is None,
            forall|i: int|
                0 <= i < out.ops@.len() ==> match #[trigger] out.ops@[i] {
                    SurfaceOp::Create { place, .. } | SurfaceOp::Reposition { place, .. } => (
                    old(self).menu matches Some(m) && place.x == m.anchor_x && place.y == m.anchor_y),
                    _ => true,
                },
            final(self).menu == old(self).menu,
            old(self).generation != Some(generation) ==> silent(out) && *final(self) == *old(self),
            old(self).generation == Some(generation) ==> match old(self).phase {
                Phase::AwaitPlaceholder => if old(self).menu matches Some(m) && m.layout is Some {
                    &&& begins_menu(out.ops@, generation, old(self).menu->0)
                    &&& *final(self) == (MenuState {
                        active: true,
                        engaged: true,
                        phase: Phase::AwaitMenu,
                        ..*old(self)
                    })
                } else {
                    silent(out) && *final(self) == (MenuState {
                        phase: Phase::Placeholder,
                        ..*old(self)
                    })
                },
                Phase::AwaitMenu => {
                    &&& out.ops@ == repositions(*old(self))
                    &&& *final(self) == (MenuState {
                        phase: Phase::Shown,
                        job: job_with_paint(old(self).job),
                        ..*old(self)
                    })
                },
                _ => silent(out) && *final(self) == *old(self),
            },
    {
        proof {
            reveal_with_fuel(popup_after, 2);
        }
        let current = match self.generation {
            Some(g) => g == generation,
            None => false,
        };
        if !current {
            return Outbox::empty();
        }
        match self.phase {
            Phase::AwaitPlaceholder => {
                let shaped = match &self.menu {
                    Some(m) => m.layout.is_some(),
                    None => false,
                };
                if shaped {
                    begin_menu(self)
                } else {
                    self.phase = Phase::Placeholder;
                    Outbox::empty()
                }
            },
            Phase::AwaitMenu => {
                self.phase = Phase::Shown;
                refresh_shown(self)
            },
            Phase::Idle | Phase::Placeholder | Phase::Shown => Outbox::empty(),
        }
    }

    /// The window system closed the popup.
    pub fn on_done(&mut self, generation: u64) -> (out: Outbox)
        requires
            old(self).wf(),
        ensures
            final(self).wf(),
            in_step(*old(self), *final(self), out),
            old(self).generation != Some(generation) ==> silent(out) && *final(self) == *old(self),
            old(self).generation == Some(generation) ==> {
                &&& out.fire == fired(waiting(*old(self)), MENU_DISMISSED)
                &&& out.ops@ == seq![
                    SurfaceOp::Destroy { generation, reason: MenuClose::External },
                ]
                &&& *final(self) == cleared(*old(self))
            },
    {
        proof {
            reveal_with_fuel(popup_after, 2);
        }
        let current = match self.generation {
            Some(g) => g == generation,
            None => false,
        };
        if !current {
            return Outbox::empty();
        }
        let fire = clear_menu(self);
        Outbox {
            ops: destroying(Some(generation), MenuClose::External),
            fire: answer(fire, MENU_DISMISSED),
        }
    }

    /// The event for a pointer at a point of the popup, already scaled to
    /// physical pixels. None while no menu is on the screen.
    pub fn pointer(&self, x: i32, y: i32, press: bool) -> (r: Option<MenuEvent>)
        requires
            self.menu matches Some(m) ==> m.mapped ==> y + m.scroll <= i32::MAX && m.scroll >= 0,
        ensures
            r == (match self.menu {
                Some(m) => if m.mapped {
                    let at = (y + m.scroll) as i32;
                    Some(
                        if press {
                            MenuEvent::Press { x, y: at }
                        } else {
                            MenuEvent::Motion { x, y: at }
                        },
                    )
                } else {
                    None
                },
                None => None,
            }),
    {
        match &self.menu {
            Some(m) => {
                if !m.mapped {
                    return None;
                }
                let at: i32 = y + m.scroll;
                if press {
                    Some(MenuEvent::Press { x, y: at })
                } else {
                    Some(MenuEvent::Motion { x, y: at })
                }
            },
            None => None,
        }
    }

    /// The pointer moved over the popup.
    pub fn motion(&self, x: i32, y: i32) -> (r: Option<MenuEvent>)
        requires
            self.menu matches Some(m) ==> m.mapped ==> y + m.scroll <= i32::MAX && m.scroll >= 0,
        ensures
            r == (match self.menu {
                Some(m) => if m.mapped {
                    Some(MenuEvent::Motion { x, y: (y + m.scroll) as i32 })
                } else {
                    None
                },
                None => None,
            }),
    {
        self.pointer(x, y, false)
    }

    /// A button went down over the popup.
    pub fn press(&self, x: i32, y: i32) -> (r: Option<MenuEvent>)
        requires
            self.menu matches Some(m) ==> m.mapped ==> y + m.scroll <= i32::MAX && m.scroll >= 0,
        ensures
            r == (match self.menu {
                Some(m) => if m.mapped {
                    Some(MenuEvent::Press { x, y: (y + m.scroll) as i32 })
                } else {
                    None
                },
                None => None,
            }),
    {
        self.pointer(x, y, true)
    }

    /// A key was pressed. None while no menu is on the screen.
    pub fn key(&self, keysym: u32) -> (r: Option<MenuEvent>)
        ensures
            r == (if self.mapped_menu() {
                Some(MenuEvent::Key(keysym))
            } else {
                None
            }),
    {
        if self.takes_input() {
            Some(MenuEvent::Key(keysym))
        } else {
            None
        }
    }

    /// The menu is to go unanswered. None while no menu is on the screen.
    pub fn dismiss(&self) -> (r: Option<MenuEvent>)
        ensures
            r == (if self.mapped_menu() {
                Some(MenuEvent::Dismiss)
            } else {
                None
            }),
    {
        if self.takes_input() {
            Some(MenuEvent::Dismiss)
        } else {
            None
        }
    }

    /// Whether keys and dismissals reach a menu.
    pub fn takes_input(&self) -> (r: bool)
        ensures
            r == self.mapped_menu(),
    {
        match &self.menu {
            Some(m) => m.mapped,
            None => false,
        }
    }

    /// The popup was uncovered: it is painted again.
    pub fn expose(&mut self)
        requires
            old(self).wf(),
        ensures
            final(self).wf(),
            *final(self) == (if old(self).mapped_menu() {
                MenuState { job: job_with_paint(old(self).job), ..*old(self) }
            } else {
                *old(self)
            }),
    {
        if self.takes_input() {
            request_paint(self);
        }
    }

    /// The wheel moved the content down by `step` pixels.
    pub fn scroll(&mut self, step: i32)
        requires
            old(self).wf(),
        ensures
            final(self).wf(),
            match old(self).menu {
                Some(m) => {
                    let wanted = m.scroll - step;
                    let max = m.ph - m.view_ph;
                    let scroll = if wanted < 0 {
                        0
                    } else if wanted > max {
                        max
                    } else {
                        wanted
                    };
                    if m.mapped && m.view_ph < m.ph && scroll != m.scroll {
                        *final(self) == (MenuState {
                            menu: Some(Menu { scroll: scroll as i32, ..m }),
                            job: job_with_paint(old(self).job),
                            ..*old(self)
                        })
                    } else {
                        *final(self) == *old(self)
                    }
                },
                None => *final(self) == *old(self),
            },
    {
        if !self.takes_input() {
            return;
        }
        match self.menu.take() {
            None => {},
            Some(mut menu) => {
                if menu.view_ph >= menu.ph {
                    self.menu = Some(menu);
                    return;
                }
                let max: i64 = menu.ph as i64 - menu.view_ph as i64;
                let wanted: i64 = menu.scroll as i64 - step as i64;
                let scroll: i64 = if wanted < 0 {
                    0
                } else if wanted > max {
                    max
                } else {
                    wanted
                };
                let moved = scroll != menu.scroll as i64;
                menu.scroll = scroll as i32;
                self.menu = Some(menu);
                if moved {
                    request_paint(self);
                }
            },
        }
    }

    pub fn is_active(&self) -> (r: bool)
        ensures
            r == self.active,
    {
        self.active
    }

    pub fn is_engaged(&self) -> (r: bool)
        ensures
            r == self.engaged,
    {
        self.engaged
    }

    pub fn has_menu(&self) -> (r: bool)
        ensures
            r == (self.menu is Some),
    {
        self.menu.is_some()
    }

    /// Where the menu is anchored.
    pub fn anchor(&self) -> (r: Option<(i32, i32)>)
        ensures
            r == (match self.menu {
                Some(m) => Some((m.anchor_x, m.anchor_y)),
                None => None,
            }),
    {
        match &self.menu {
            Some(m) => Some((m.anchor_x, m.anchor_y)),
            None => None,
        }
    }

    /// The menu's items are there. A menu that was there is dismissed, and the
    /// new one is shaped; without a popup it gets a generation of its own.
    pub fn open(&mut self, req: MenuRequest) -> (out: Outbox)
        requires
            old(self).wf(),
        ensures
            final(self).wf(),
            in_step(*old(self), *final(self), out),
            out.ops@.len() == 0,
            out.fire == fired(waiting(*old(self)), MENU_DISMISSED),
            final(self).menu == Some(
                Menu {
                    items: req.items,
                    layout: None,
                    active: req.initial,
                    pw: 0,
                    ph: 0,
                    view_ph: 0,
                    scroll: 0,
                    metrics: MenuMetrics { scale_bits: 0x3F80_0000, clamp_ph: None },
                    width: req.width,
                    on_selected: Some(req.on_selected),
                    mapped: false,
                    anchor_x: req.x,
                    anchor_y: req.y,
                },
            ),
            final(self).job == Some(RenderJob::Shape),
            final(self).phase == old(self).phase,
            final(self).active == old(self).active,
            final(self).shutdown == old(self).shutdown,
            old(self).phase == Phase::Idle ==> final(self).generation == Some(
                generation_after(old(self).next_generation),
            ) && final(self).next_generation == counter_after(old(self).next_generation),
            old(self).phase != Phase::Idle ==> final(self).generation == old(self).generation
                && final(self).next_generation == old(self).next_generation,
    {
        let replaced = self.menu.take();
        let fire = match replaced {
            Some(m) => m.on_selected,
            None => None,
        };
        self.menu = Some(
            Menu {
                items: req.items,
                layout: None,
                active: req.initial,
                pw: 0,
                ph: 0,
                view_ph: 0,
                scroll: 0,
                metrics: MenuMetrics { scale_bits: 0x3F80_0000, clamp_ph: None },
                width: req.width,
                on_selected: Some(req.on_selected),
                mapped: false,
                anchor_x: req.x,
                anchor_y: req.y,
            },
        );
        if self.phase == Phase::Idle {
            let generation: u64 = next_generation(self);
            self.generation = Some(generation);
            self.engaged = true;
        }
        self.job = Some(RenderJob::Shape);
        Outbox { ops: Vec::new(), fire: answer(fire, MENU_DISMISSED) }
    }

    /// The menu's owner takes it back: it closes without an answer. A popup
    /// armed since for a new press stays.
    pub fn hide_menu(&mut self) -> (out: Outbox)
        requires
            old(self).wf(),
        ensures
            final(self).wf(),
            in_step(*old(self), *final(self), out),
            out.fire is None,
            old(self).menu is None ==> silent(out) && *final(self) == *old(self),
            old(self).menu is Some ==> {
                &&& out.ops@ == seq![
                    SurfaceOp::Destroy {
                        generation: old(self).generation->0,
                        reason: MenuClose::Finished,
                    },
                ]
                &&& *final(self) == cleared(*old(self))
            },
    {
        proof {
            reveal_with_fuel(popup_after, 2);
        }
        if self.menu.is_none() {
            return Outbox::empty();
        }
        let generation = self.generation;
        let _dropped = clear_menu(self);
        Outbox { ops: destroying(generation, MenuClose::Finished), fire: None }
    }

    /// The client shuts down: the menu closes, and the renderer stops.
    pub fn shut_down(&mut self) -> (out: Outbox)
        requires
            old(self).wf(),
        ensures
            final(self).wf(),
            in_step(*old(self), *final(self), out),
            out.fire == fired(waiting(*old(self)), MENU_DISMISSED),
            out.ops@ == (match old(self).generation {
                Some(generation) => seq![
                    SurfaceOp::Destroy { generation, reason: MenuClose::Finished },
                ],
                None => seq![],
            }),
            *final(self) == (MenuState { shutdown: true, ..cleared(*old(self)) }),
    {
        proof {
            reveal_with_fuel(popup_after, 2);
        }
        self.shutdown = true;
        let generation = self.generation;
        let fire = clear_menu(self);
        Outbox {
            ops: destroying(generation, MenuClose::Finished),
            fire: answer(fire, MENU_DISMISSED),
        }
    }
}

/// What the renderer is to do: the waiting job, taken out. A paint needs a
/// layout.
pub fn take_job(s: &mut MenuState) -> (r: Option<Job>)
    requires
        old(s).wf(),
    ensures
        final(s).wf(),
        *final(s) == (MenuState { job: None, ..*old(s) }),
        r == (match (old(s).job, old(s).generation, old(s).menu) {
            (Some(RenderJob::Shape), Some(generation), Some(m)) => Some(
                Job::Shape { generation, items: m.items, width: m.width },
            ),
            (Some(RenderJob::Paint), Some(generation), Some(m)) => if m.layout is Some {
                Some(Job::Paint { generation, items: m.items, active: m.active })
            } else {
                None
            },
            _ => None,
        }),
{
    let job: RenderJob = match s.job.take() {
        None => return None,
        Some(job) => job,
    };
    let generation: u64 = match s.generation {
        None => return None,
        Some(g) => g,
    };
    match &s.menu {
        None => None,
        Some(menu) => match job {
            RenderJob::Shape => Some(
                Job::Shape { generation, items: menu.items, width: menu.width },
            ),
            RenderJob::Paint => {
                if menu.layout.is_some() {
                    Some(Job::Paint { generation, items: menu.items, active: menu.active })
                } else {
                    None
                }
            },
        },
    }
}

/// A menu given its layout: sized and unscrolled.
pub open spec fn sized(m: Menu, layout: Layout, metrics: MenuMetrics, anchor_ph_y: int) -> Menu {
    Menu {
        metrics,
        pw: layout.width,
        ph: layout.height,
        view_ph: shown_height(
            layout.height as int,
            row_height_of(Some(layout)) as int,
            m.width as int,
            metrics.clamp_ph,
            anchor_ph_y,
        ) as i32,
        layout: Some(layout),
        scroll: 0,
        ..m
    }
}

/// A menu given its layout, scrolled to the highlighted item.
pub open spec fn laid_out(m: Menu, layout: Layout, metrics: MenuMetrics, anchor_ph_y: int) -> Menu {
    let unscrolled = sized(m, layout, metrics, anchor_ph_y);
    Menu { scroll: scroll_for_active(unscrolled) as i32, ..unscrolled }
}

/// Laying a menu out forms no number beyond 32 bits: neither the room above the
/// window's lower edge, which a menu of given width is kept to, nor the bottom
/// edge of the highlighted row.
pub open spec fn layout_fits(
    m: Menu,
    layout: Layout,
    metrics: MenuMetrics,
    anchor_ph_y: int,
) -> bool {
    &&& m.width > 0 ==> (metrics.clamp_ph matches Some(clamp) ==> i32::MIN <= clamp - anchor_ph_y
        <= i32::MAX)
    &&& active_row_fits(sized(m, layout, metrics, anchor_ph_y))
}

/// The renderer shaped the menu. `anchor_ph_y` is the anchor's height in
/// physical pixels. A layout for another generation is dropped.
pub fn on_layout(
    s: &mut MenuState,
    generation: u64,
    layout: Layout,
    metrics: MenuMetrics,
    anchor_ph_y: i32,
) -> (out: Outbox)
    requires
        old(s).wf(),
        old(s).generation == Some(generation) ==> (old(s).menu matches Some(m) ==> layout_fits(
            m,
            layout,
            metrics,
            anchor_ph_y as int,
        )),
    ensures
        final(s).wf(),
        in_step(*old(s), *final(s), out),
        out.fire is None,
        forall|i: int|
            0 <= i < out.ops@.len() ==> match #[trigger] out.ops@[i] {
                SurfaceOp::Create { place, .. } | SurfaceOp::Reposition { place, .. } => (
                old(s).menu matches Some(m) && place.x == m.anchor_x && place.y == m.anchor_y),
                _ => true,
            },
        final(s).menu is Some <==> old(s).menu is Some,
        old(s).menu matches Some(m) ==> final(s).menu->0.anchor_x == m.anchor_x
            && final(s).menu->0.anchor_y == m.anchor_y,
        old(s).generation != Some(generation) || old(s).menu is None ==> silent(out) && *final(s)
            == *old(s),
        old(s).generation == Some(generation) && old(s).menu is Some ==> {
            let menu = laid_out(old(s).menu->0, layout, metrics, anchor_ph_y as int);
            let shaped = MenuState { menu: Some(menu), ..*old(s) };
            match old(s).phase {
                Phase::Placeholder => {
                    &&& begins_menu(out.ops@, generation, menu)
                    &&& *final(s) == (MenuState {
                        active: true,
                        engaged: true,
                        phase: Phase::AwaitMenu,
                        ..shaped
                    })
                },
                Phase::Idle => {
                    &&& out.ops@ == seq![
                        SurfaceOp::Create { generation, place: place_of(menu), serial: 0 },
                    ]
                    &&& *final(s) == (MenuState {
                        active: true,
                        engaged: true,
                        phase: Phase::AwaitMenu,
                        ..shaped
                    })
                },
                Phase::Shown => {
                    &&& out.ops@ == repositions(shaped)
                    &&& *final(s) == (MenuState { job: job_with_paint(old(s).job), ..shaped })
                },
                _ => silent(out) && *final(s) == shaped,
            }
        },
{
    proof {
        reveal_with_fuel(popup_after, 2);
    }
    let current = match s.generation {
        Some(g) => g == generation,
        None => false,
    };
    if !current {
        return Outbox::empty();
    }
    let ghost given = layout;
    let mut menu = match s.menu.take() {
        None => {
            return Outbox::empty();
        },
        Some(menu) => menu,
    };
    menu.metrics = metrics;
    menu.pw = layout.width;
    menu.ph = layout.height;
    menu.layout = Some(layout);
    let row_h: i32 = row_height(&menu);
    menu.view_ph = view_ph(menu.ph, row_h, menu.width, metrics.clamp_ph, anchor_ph_y);
    menu.scroll = 0;
    scroll_active_into_view(&mut menu);
    let place = placement(&menu);
    assert(menu == laid_out(old(s).menu->0, given, metrics, anchor_ph_y as int));
    s.menu = Some(menu);
    match s.phase {
        Phase::Placeholder => begin_menu(s),
        Phase::Idle => {
            s.active = true;
            s.engaged = true;
            s.phase = Phase::AwaitMenu;
            let mut ops: Vec<SurfaceOp> = Vec::new();
            ops.push(SurfaceOp::Create { generation, place, serial: 0 });
            Outbox { ops, fire: None }
        },
        Phase::Shown => refresh_shown(s),
        Phase::AwaitPlaceholder | Phase::AwaitMenu => Outbox::empty(),
    }
}

/// The renderer painted the menu: it shows from now on. A picture for another
/// generation is dropped.
pub fn on_pixels(s: &mut MenuState, generation: u64, pixels: Vec<u8>) -> (out: Outbox)
    requires
        old(s).wf(),
    ensures
        final(s).wf(),
        in_step(*old(s), *final(s), out),
        out.fire is None,
        old(s).generation != Some(generation) || old(s).menu is None ==> silent(out) && *final(s)
            == *old(s),
        old(s).generation == Some(generation) && old(s).menu is Some ==> {
            let m = old(s).menu->0;
            &&& out.ops@ == seq![
                SurfaceOp::Present(
                    MenuPaint {
                        generation,
                        pixels,
                        pw: m.pw,
                        ph: m.ph,
                        scroll: m.scroll,
                        view_ph: m.view_ph,
                        scale_bits: m.metrics.scale_bits,
                    },
                ),
            ]
            &&& *final(s) == (MenuState { menu: Some(Menu { mapped: true, ..m }), ..*old(s) })
        },
{
    proof {
        reveal_with_fuel(popup_after, 2);
    }
    let current = match s.generation {
        Some(g) => g == generation,
        None => false,
    };
    if !current {
        return Outbox::empty();
    }
    match s.menu.take() {
        None => Outbox::empty(),
        Some(mut menu) => {
            menu.mapped = true;
            let paint = MenuPaint {
                generation,
                pixels,
                pw: menu.pw,
                ph: menu.ph,
                scroll: menu.scroll,
                view_ph: menu.view_ph,
                scale_bits: menu.metrics.scale_bits,
            };
            s.menu = Some(menu);
            let mut ops: Vec<SurfaceOp> = Vec::new();
            ops.push(SurfaceOp::Present(paint));
            Outbox { ops, fire: None }
        },
    }
}

/// The first item among `effects` that closes the menu.
pub open spec fn closing_item(effects: Seq<MenuEffect>) -> Option<i32>
    decreases effects.len(),
{
    if effects.len() == 0 {
        None
    } else {
        match effects[0] {
            MenuEffect::Close(id) => Some(id),
            MenuEffect::Redraw => closing_item(effects.drop_first()),
        }
    }
}

/// An input event moved the highlight to `active` and had `effects`. A key
/// scrolls the highlight into view. Closing answers the waiting callback and
/// ends the step.
pub fn step(s: &mut MenuState, ev: MenuEvent, active: i32, effects: &Vec<MenuEffect>) -> (out: Outbox)
    requires
        old(s).wf(),
        ev is Key ==> (old(s).menu matches Some(m) ==> active_row_fits(Menu { active, ..m })),
    ensures
        final(s).wf(),
        in_step(*old(s), *final(s), out),
        !(old(s).menu matches Some(m) && m.layout is Some) ==> silent(out) && *final(s) == *old(s),
        old(s).menu matches Some(m) && m.layout is Some ==> match closing_item(effects@) {
            Some(id) => {
                &&& out.fire == fired(waiting(*old(s)), id)
                &&& out.ops@ == seq![
                    SurfaceOp::Destroy {
                        generation: old(s).generation->0,
                        reason: MenuClose::Finished,
                    },
                ]
                &&& *final(s) == cleared(*old(s))
            },
            None => {
                let m = old(s).menu->0;
                let moved = Menu { active, ..m };
                &&& silent(out)
                &&& *final(s) == (MenuState {
                    menu: Some(
                        if ev is Key {
                            Menu { scroll: scroll_for_active(moved) as i32, ..moved }
                        } else {
                            moved
                        },
                    ),
                    job: if effects@.len() > 0 {
                        job_with_paint(old(s).job)
                    } else {
                        old(s).job
                    },
                    ..*old(s)
                })
            },
        },
{
    proof {
        reveal_with_fuel(popup_after, 2);
    }
    let shaped = match &s.menu {
        Some(m) => m.layout.is_some(),
        None => false,
    };
    if !shaped {
        return Outbox::empty();
    }
    let callback: Option<u64>;
    match s.menu.take() {
        None => {
            return Outbox::empty();
        },
        Some(mut menu) => {
            menu.active = active;
            let keyed = match ev {
                MenuEvent::Key(_) => true,
                _ => false,
            };
            if keyed {
                scroll_active_into_view(&mut menu);
            }
            callback = menu.on_selected;
            s.menu = Some(menu);
        },
    }
    let ghost before = *s;
    let mut i: usize = 0;
    assert(effects@.skip(0) =~= effects@);
    while i < effects.len()
        invariant
            i <= effects@.len(),
            closing_item(effects@) == closing_item(effects@.skip(i as int)),
            before.wf(),
            before.menu is Some,
            cleared(before) == cleared(*old(s)),
            before.generation == old(s).generation,
            before.generation is Some,
            before.phase == old(s).phase,
            callback == waiting(before),
            callback == waiting(*old(s)),
            old(s).menu matches Some(m) && m.layout is Some,
            *s == (MenuState {
                job: if i > 0 {
                    job_with_paint(before.job)
                } else {
                    before.job
                },
                ..before
            }),
        decreases effects@.len() - i,
    {
        proof {
            reveal_with_fuel(popup_after, 2);
            assert(effects@.skip(i as int).drop_first() =~= effects@.skip(i + 1));
            assert(effects@.skip(i as int)[0] == effects@[i as int]);
        }
        match effects[i] {
            MenuEffect::Redraw => request_paint(s),
            MenuEffect::Close(id) => {
                let generation = s.generation;
                let fire = clear_menu(s);
                return Outbox {
                    ops: destroying(generation, MenuClose::Finished),
                    fire: answer(fire, id),
                };
            },
        }
        i += 1;
    }
    assert(effects@.skip(i as int) =~= seq![]);
    Outbox::empty()
}

/// Generations count up from one; zero is skipped where the count starts over.
pub proof fn generations_are_fresh(n: u64)
    ensures
        generation_after(n) >= 1,
        n < u64::MAX ==> generation_after(n) == n + 1 && counter_after(n) == generation_after(n),
{
}

/// A scrolled row is visible: where it fits the part that shows, all of it.
pub proof fn scrolled_row_shows(scroll: int, row: Row, ph: int, view_ph: int)
    requires
        1 <= view_ph < ph,
        0 <= scroll <= ph - view_ph,
        0 <= row.y,
        0 <= row.h <= view_ph,
        row.y + row.h <= ph,
    ensures
        ({
            let to = scroll_to(scroll, row, ph, view_ph);
            to <= row.y && row.y + row.h <= to + view_ph && 0 <= to <= ph - view_ph
        }),
{
}

/// A menu of given width never reaches below the window, unless that would
/// leave less than a row.
pub proof fn clamped_menu_stays_inside(ph: int, row_h: int, width: int, clamp: i32, anchor_ph_y: int)
    requires
        width > 0,
        row_h >= 1,
    ensures
        ({
            let shown = shown_height(ph, row_h, width, Some(clamp), anchor_ph_y);
            &&& shown <= ph
            &&& anchor_ph_y + shown <= clamp || shown <= row_h
        }),
{
}

/// A menu shows where it was asked for: from the moment it is opened at a point,
/// through being laid out, whatever creates its popup or moves it puts the
/// popup's corner at that point.
pub proof fn menus_show_where_they_were_asked_for(
    req: MenuRequest,
    m: Menu,
    layout: Layout,
    metrics: MenuMetrics,
    anchor_ph_y: int,
    s: MenuState,
    generation: u64,
    ops: Seq<SurfaceOp>,
)
    requires
        m.anchor_x == req.x,
        m.anchor_y == req.y,
    ensures
        ({
            let laid = laid_out(m, layout, metrics, anchor_ph_y);
            &&& laid.anchor_x == req.x && laid.anchor_y == req.y
            &&& place_of(laid).x == req.x && place_of(laid).y == req.y
            &&& place_of(m).x == req.x && place_of(m).y == req.y
            &&& s.menu == Some(m) || s.menu == Some(laid) ==> forall|i: int|
                0 <= i < repositions(s).len() ==> (#[trigger] repositions(
                    s,
                )[i] matches SurfaceOp::Reposition { place, .. } && place.x == req.x && place.y
                    == req.y)
            &&& begins_menu(ops, generation, m) || begins_menu(ops, generation, laid) ==> forall|
                i: int,
            |
                0 <= i < ops.len() ==> match #[trigger] ops[i] {
                    SurfaceOp::Create { place, .. } | SurfaceOp::Reposition { place, .. } => place.x
                        == req.x && place.y == req.y,
                    _ => true,
                }
        }),
{
}

/// A menu's popup is as wide as its layout and no higher, at the scale that it
/// was laid out for, and the layout is the one it was given.
pub proof fn menus_take_the_size_of_their_layout(
    m: Menu,
    layout: Layout,
    metrics: MenuMetrics,
    anchor_ph_y: int,
)
    ensures
        ({
            let laid = laid_out(m, layout, metrics, anchor_ph_y);
            let place = place_of(laid);
            &&& laid.layout == Some(layout)
            &&& laid.pw == layout.width && laid.ph == layout.height
            &&& laid.metrics == metrics
            &&& place.pw == layout.width
            &&& place.ph == laid.view_ph
            &&& place.scale_bits == metrics.scale_bits
            &&& m.width <= 0 || metrics.clamp_ph is None ==> place.ph == layout.height
                && laid.scroll == 0
            // What the menu is for stays as it was.
            &&& laid.items == m.items && laid.active == m.active && laid.width == m.width
                && laid.on_selected == m.on_selected && laid.mapped == m.mapped
        }),
{
}

/// The part of a menu that shows is the most that fits: any height that would
/// fit as well, above the window's lower edge or in a single row, is no
/// greater.
pub proof fn as_much_shows_as_fits(
    ph: int,
    row_h: int,
    width: int,
    clamp: i32,
    anchor_ph_y: int,
    other: int,
)
    ensures
        ({
            let shown = shown_height(ph, row_h, width, Some(clamp), anchor_ph_y);
            &&& width > 0 && other <= ph && (anchor_ph_y + other <= clamp || other <= row_h)
                ==> other <= shown
            &&& width > 0 ==> shown <= ph && (anchor_ph_y + shown <= clamp || shown <= row_h)
            &&& width <= 0 ==> shown == ph
        }),
        shown_height(ph, row_h, width, None, anchor_ph_y) == ph,
{
}

/// Scrolling to a row moves no further than needed: a row that shows leaves the
/// content where it is, and no nearer position shows one that does not.
pub proof fn scrolling_moves_no_further_than_needed(
    scroll: int,
    row: Row,
    ph: int,
    view_ph: int,
    other: int,
)
    requires
        1 <= view_ph < ph,
        0 <= scroll <= ph - view_ph,
        0 <= row.y,
        0 <= row.h <= view_ph,
        row.y + row.h <= ph,
        0 <= other <= ph - view_ph,
        other <= row.y && row.y + row.h <= other + view_ph,
    ensures
        ({
            let to = scroll_to(scroll, row, ph, view_ph);
            &&& scroll <= row.y && row.y + row.h <= scroll + view_ph ==> to == scroll
            &&& scroll <= other ==> scroll <= to <= other
            &&& other <= scroll ==> other <= to <= scroll
        }),
{
}

/// A menu scrolls to the row of its highlighted item, and only where not all of
/// it shows.
pub proof fn menus_scroll_to_the_highlight(m: Menu, layout: Layout, k: int)
    requires
        m.layout == Some(layout),
        0 <= k < layout.rows@.len(),
        layout.rows@[k].item as i32 == m.active,
        forall|i: int| 0 <= i < k ==> #[trigger] layout.rows@[i].item as i32 != m.active,
    ensures
        m.view_ph >= m.ph ==> scroll_for_active(m) == m.scroll,
        m.view_ph < m.ph ==> scroll_for_active(m) == scroll_to(
            m.scroll as int,
            layout.rows@[k],
            m.ph as int,
            m.view_ph as int,
        ),
{
    active_rows_are_the_first(layout.rows@, m.active, k);
}

/// The highlighted row is the first of the highlighted item; there is none
/// where no row is the item's.
pub proof fn active_rows_are_the_first(rows: Seq<Row>, active: i32, k: int)
    requires
        0 <= k <= rows.len(),
        k < rows.len() ==> rows[k].item as i32 == active,
        forall|i: int| 0 <= i < k ==> #[trigger] rows[i].item as i32 != active,
    ensures
        k < rows.len() ==> active_row(rows, active) == Some(rows[k]),
        k == rows.len() ==> active_row(rows, active) is None,
    decreases rows.len(),
{
    if rows.len() > 0 && k > 0 {
        let rest = rows.drop_first();
        assert forall|i: int| 0 <= i < k - 1 implies #[trigger] rest[i].item as i32 != active by {
            assert(rest[i] == rows[i + 1]);
        }
        active_rows_are_the_first(rest, active, k - 1);
    }
}

/// A row is as high as the first item's, separators aside, and never lower than
/// a pixel.
pub proof fn rows_are_as_high_as_the_first_item(layout: Layout, k: int)
    requires
        0 <= k <= layout.rows@.len(),
        k < layout.rows@.len() ==> !layout.rows@[k].separator,
        forall|i: int| 0 <= i < k ==> #[trigger] layout.rows@[i].separator,
    ensures
        k < layout.rows@.len() && layout.rows@[k].h >= 1 ==> row_height_of(Some(layout))
            == layout.rows@[k].h,
        k == layout.rows@.len() || layout.rows@[k].h < 1 ==> row_height_of(Some(layout)) == 1,
        row_height_of(None) == 1,
{
    lemma_first_item(layout.rows@, k);
}

proof fn lemma_first_item(rows: Seq<Row>, k: int)
    requires
        0 <= k <= rows.len(),
        k < rows.len() ==> !rows[k].separator,
        forall|i: int| 0 <= i < k ==> #[trigger] rows[i].separator,
    ensures
        k < rows.len() ==> first_item(rows) == Some(rows[k]),
        k == rows.len() ==> first_item(rows) is None,
    decreases rows.len(),
{
    if rows.len() > 0 && k > 0 {
        let rest = rows.drop_first();
        assert forall|i: int| 0 <= i < k - 1 implies #[trigger] rest[i].separator by {
            assert(rest[i] == rows[i + 1]);
        }
        lemma_first_item(rest, k - 1);
    }
}

/// The first effect that closes the menu decides its answer; where none does,
/// the menu stays.
pub proof fn the_first_choice_closes(effects: Seq<MenuEffect>, k: int, id: i32)
    requires
        0 <= k <= effects.len(),
        k < effects.len() ==> effects[k] == MenuEffect::Close(id),
        forall|i: int| 0 <= i < k ==> #[trigger] effects[i] == MenuEffect::Redraw,
    ensures
        k < effects.len() ==> closing_item(effects) == Some(id),
        k == effects.len() ==> closing_item(effects) is None,
    decreases effects.len(),
{
    if effects.len() > 0 && k > 0 {
        let rest = effects.drop_first();
        assert forall|i: int| 0 <= i < k - 1 implies #[trigger] rest[i] == MenuEffect::Redraw by {
            assert(rest[i] == effects[i + 1]);
        }
        the_first_choice_closes(rest, k - 1, id);
    }
}

/// An answer goes to the callback that waits for it, with the item chosen; a
/// menu without one, or none at all, answers nobody.
pub proof fn answers_reach_the_waiting_callback(s: MenuState, callback: u64, item: i32)
    ensures
        s.menu is None ==> waiting(s) is None && fired(waiting(s), item) is None,
        s.menu matches Some(m) ==> (m.on_selected == Some(callback) ==> fired(waiting(s), item)
            == Some((callback, item))),
        s.menu matches Some(m) ==> (m.on_selected is None ==> fired(waiting(s), item) is None),
        MENU_DISMISSED == -1,
{
}

/// A cleared state has neither popup nor menu nor anything left to render, and
/// forgets neither the count of popups nor that the client shuts down.
pub proof fn nothing_is_left_of_a_cleared_menu(s: MenuState)
    ensures
        cleared(s).menu is None && cleared(s).job is None,
        cleared(s).phase is Idle && cleared(s).generation is None,
        popup(cleared(s)) is None,
        !cleared(s).active && !cleared(s).engaged,
        cleared(s).next_generation == s.next_generation,
        cleared(s).shutdown == s.shutdown,
{
}

/// A paint that is asked for is never lost, and never takes the place of a
/// shape.
pub proof fn paints_do_not_replace_shapes(job: Option<RenderJob>)
    ensures
        job == Some(RenderJob::Shape) ==> job_with_paint(job) == Some(RenderJob::Shape),
        job != Some(RenderJob::Shape) ==> job_with_paint(job) == Some(RenderJob::Paint),
{
}

/// Past its largest number the count starts over, and zero is no popup's
/// number.
pub proof fn counts_start_over(n: u64)
    ensures
        n == u64::MAX ==> generation_after(n) == 1 && counter_after(n) == 0,
        generation_after(n) != n,
        generation_after(n) != 0,
{
}

/// The window system holds the popup that was created last, until that popup
/// itself is destroyed.
pub proof fn popups_live_until_destroyed(s: MenuState, open: Option<u64>, op: SurfaceOp)
    ensures
        s.phase is Idle ==> popup(s) is None,
        !(s.phase is Idle) ==> popup(s) == s.generation,
        op matches SurfaceOp::Create { generation, .. } ==> popup_after(open, seq![op]) == Some(
            generation,
        ),
        op matches SurfaceOp::Destroy { generation, .. } ==> popup_after(open, seq![op]) == (
        if open == Some(generation) {
            None::<u64>
        } else {
            open
        }),
        op is Present || op is Reposition ==> popup_after(open, seq![op]) == open,
        popup_after(open, seq![]) == open,
{
    reveal_with_fuel(popup_after, 2);
    assert(seq![op].drop_last() =~= seq![]);
}

/// The operations of a step are those of its parts, one after the other.
pub proof fn popups_follow_the_operations(open: Option<u64>, ops: Seq<SurfaceOp>, op: SurfaceOp)
    ensures
        popup_after(open, ops.push(op)) == popup_after(popup_after(open, ops), seq![op]),
{
    reveal_with_fuel(popup_after, 2);
    assert(ops.push(op).drop_last() =~= ops);
    assert(seq![op].drop_last() =~= seq![]);
}

/// An empty popup is mapped by one transparent pixel, before it is moved; both
/// are done to the menu's own popup.
pub proof fn empty_popups_are_mapped_first(ops: Seq<SurfaceOp>, generation: u64, menu: Menu)
    requires
        begins_menu(ops, generation, menu),
    ensures
        ops.len() == 2,
        ops[0] matches SurfaceOp::Present(p) && p.generation == generation && p.pw == 1 && p.ph == 1
            && p.view_ph == 1 && p.scroll == 0 && p.scale_bits == 0 && p.pixels@.len() == 4 && (
        forall|i: int|
            0 <= i < 4 ==> #[trigger] p.pixels@[i] == 0),
        ops[1] matches SurfaceOp::Reposition { generation: g, place } && g == generation && place.pw
            == menu.pw && place.ph == menu.view_ph,
{
}

/// A menu is moved to its place exactly where there is one that has a layout.
pub proof fn laid_out_menus_are_moved(s: MenuState)
    ensures
        s.generation matches Some(g) ==> (s.menu matches Some(m) ==> {
            &&& m.layout is Some ==> repositions(s).len() == 1 && (repositions(
                s,
            )[0] matches SurfaceOp::Reposition { generation, .. } && generation == g)
            &&& m.layout is None ==> repositions(s).len() == 0
        }),
        s.menu is None || s.generation is None ==> repositions(s).len() == 0,
{
}

/// A silent step touches no popup and answers nobody.
pub proof fn silent_steps_do_nothing(s: MenuState, out: Outbox)
    ensures
        silent(out) <==> out.ops@ =~= Seq::<SurfaceOp>::empty() && out.fire == None::<(u64, i32)>,
        silent(out) ==> in_step(s, s, out),
        s.mapped_menu() ==> s.menu is Some,
        s.menu matches Some(m) ==> (s.mapped_menu() <==> m.mapped),
{
}

/// From its opening to its layout a menu keeps its place: whatever the layout
/// creates or moves is at the point that the menu was opened at, on whichever
/// axis.
pub proof fn opened_menus_are_laid_out_in_place(
    s: &mut MenuState,
    req: MenuRequest,
    opened: Outbox,
    t: &mut MenuState,
    generation: u64,
    layout: Layout,
    metrics: MenuMetrics,
    anchor_ph_y: i32,
    out: Outbox,
    i: int,
)
    requires
        old(s).wf(),
        call_ensures(MenuState::open, (s, req), opened),
        *old(t) == *final(s),
        call_ensures(on_layout, (t, generation, layout, metrics, anchor_ph_y), out),
        0 <= i < out.ops@.len(),
    ensures
        match out.ops@[i] {
            SurfaceOp::Create { place, .. } | SurfaceOp::Reposition { place, .. } => place.x
                == req.x && place.y == req.y && place.pw == layout.width,
            _ => true,
        },
        final(t).menu matches Some(m) && m.anchor_x == req.x && m.anchor_y == req.y && m.items
            == req.items && m.active == req.initial && m.on_selected == Some(req.on_selected),
{
}

/// A press creates its popup where it was, for itself: at its point, under its
/// serial, one pixel large, and under a number of its own.
pub proof fn presses_arm_a_popup_in_place(
    s: &mut MenuState,
    x: i32,
    y: i32,
    serial: u32,
    out: Outbox,
)
    requires
        old(s).wf(),
        call_ensures(MenuState::arm, (s, x, y, serial), out),
    ensures
        out.ops@.len() == 1,
        out.ops@[0] matches SurfaceOp::Create { generation, place, serial: n } && place.x == x
            && place.y == y && place.pw == 1 && place.ph == 1 && n == serial && popup(*final(s))
            == Some(generation),
        final(s).menu is None && final(s).job is None,
{
}

/// A pointer over the popup is told in the content's coordinates: moved down by
/// as much as the content is scrolled, and not aside. A press is a press.
pub proof fn pointers_are_told_in_the_content(
    s: MenuState,
    x: i32,
    y: i32,
    moved: Option<MenuEvent>,
    pressed: Option<MenuEvent>,
)
    requires
        s.menu matches Some(m) ==> m.mapped ==> y + m.scroll <= i32::MAX && m.scroll >= 0,
        call_ensures(MenuState::motion, (&s, x, y), moved),
        call_ensures(MenuState::press, (&s, x, y), pressed),
    ensures
        moved is Some <==> s.mapped_menu(),
        pressed is Some <==> s.mapped_menu(),
        moved matches Some(ev) ==> (ev matches MenuEvent::Motion { x: ex, y: ey } && ex == x && ey
            == y + s.menu->0.scroll),
        pressed matches Some(ev) ==> (ev matches MenuEvent::Press { x: ex, y: ey } && ex == x && ey
            == y + s.menu->0.scroll),
{
}

/// A key or a dismissal is for the menu that is on the screen.
pub proof fn keys_are_for_the_shown_menu(
    s: MenuState,
    keysym: u32,
    key: Option<MenuEvent>,
    dismissed: Option<MenuEvent>,
)
    requires
        call_ensures(MenuState::key, (&s, keysym), key),
        call_ensures(MenuState::dismiss, (&s,), dismissed),
    ensures
        s.mapped_menu() ==> key == Some(MenuEvent::Key(keysym)) && dismissed == Some(
            MenuEvent::Dismiss,
        ),
        !s.mapped_menu() ==> key is None && dismissed is None,
{
}

/// The wheel moves the content with it, as far as there is content: up by a
/// negative step, down by a positive one, and never past an end.
pub proof fn wheels_move_the_content(s: &mut MenuState, step: i32)
    requires
        old(s).wf(),
        old(s).mapped_menu(),
        call_ensures(MenuState::scroll, (s, step), ()),
    ensures
        ({
            let before = old(s).menu->0;
            let after = final(s).menu->0;
            &&& final(s).menu is Some
            &&& step >= 0 ==> after.scroll <= before.scroll
            &&& step <= 0 ==> after.scroll >= before.scroll
            &&& 0 <= after.scroll <= before.ph - before.view_ph
            &&& before.view_ph < before.ph && 0 <= before.scroll - step <= before.ph
                - before.view_ph ==> after.scroll == before.scroll - step
            &&& after.scroll != before.scroll ==> final(s).job is Some
            &&& after.active == before.active && after.anchor_x == before.anchor_x
                && after.anchor_y == before.anchor_y
        }),
{
}

/// The renderer is given each piece of work once: the items, width and highlight
/// of the menu that is there, for its own popup.
pub proof fn work_is_given_out_once(
    s: &mut MenuState,
    first: Option<Job>,
    t: &mut MenuState,
    second: Option<Job>,
)
    requires
        old(s).wf(),
        call_ensures(take_job, (s,), first),
        *old(t) == *final(s),
        call_ensures(take_job, (t,), second),
    ensures
        second is None,
        first matches Some(Job::Shape { generation, items, width }) ==> (
        old(s).menu matches Some(m) && items == m.items && width == m.width && old(s).generation
            == Some(generation)),
        first matches Some(Job::Paint { generation, items, active }) ==> (
        old(s).menu matches Some(m) && items == m.items && active == m.active && old(s).generation
            == Some(generation)),
        old(s).job == Some(RenderJob::Shape) ==> (first matches Some(j) && j is Shape),
{
}

/// A picture goes onto the popup it was painted for, as the menu is sized and
/// scrolled, and from then on the menu takes input.
pub proof fn pictures_show_the_menu(
    s: &mut MenuState,
    generation: u64,
    pixels: Vec<u8>,
    out: Outbox,
)
    requires
        old(s).wf(),
        old(s).generation == Some(generation),
        old(s).menu is Some,
        call_ensures(on_pixels, (s, generation, pixels), out),
    ensures
        out.ops@.len() == 1,
        out.ops@[0] matches SurfaceOp::Present(p) && p.generation == generation && p.pixels
            == pixels && p.pw == old(s).menu->0.pw && p.ph == old(s).menu->0.ph && p.scroll
            == old(s).menu->0.scroll && p.view_ph == old(s).menu->0.view_ph && p.scale_bits
            == old(s).menu->0.metrics.scale_bits,
        final(s).mapped_menu(),
{
}

/// A choice is answered once, with the item chosen, to the callback that the
/// menu was opened with; its popup is gone, and nothing answers again.
pub proof fn choices_are_answered_once(
    s: &mut MenuState,
    ev: MenuEvent,
    active: i32,
    effects: Vec<MenuEffect>,
    id: i32,
    chosen: Outbox,
    t: &mut MenuState,
    ended: Outbox,
)
    requires
        old(s).wf(),
        old(s).menu matches Some(m) && m.layout is Some,
        closing_item(effects@) == Some(id),
        call_ensures(step, (s, ev, active, &effects), chosen),
        *old(t) == *final(s),
        call_ensures(MenuState::shut_down, (t,), ended),
    ensures
        old(s).menu->0.on_selected matches Some(callback) ==> chosen.fire == Some((callback, id)),
        chosen.ops@.len() == 1 && (chosen.ops@[0] matches SurfaceOp::Destroy { generation, .. }
            && old(s).generation == Some(generation)),
        final(s).menu is None && popup(*final(s)) is None,
        ended.fire is None && ended.ops@.len() == 0,
{
}

/// A menu that ends without a choice answers that it was dismissed, unless its
/// owner took it back: then it answers nothing.
pub proof fn unanswered_menus_are_dismissed(
    closed: &mut MenuState,
    generation: u64,
    on_close: Outbox,
    pressed: &mut MenuState,
    on_press: Outbox,
    ended: &mut MenuState,
    on_end: Outbox,
    hidden: &mut MenuState,
    on_hide: Outbox,
    callback: u64,
)
    requires
        old(closed).wf(),
        old(closed).generation == Some(generation),
        old(closed).menu matches Some(m) && m.on_selected == Some(callback),
        *old(pressed) == *old(closed) && *old(ended) == *old(closed) && *old(hidden)
            == *old(closed),
        call_ensures(MenuState::on_done, (closed, generation), on_close),
        call_ensures(MenuState::arm, (pressed, 0i32, 0i32, 0u32), on_press),
        call_ensures(MenuState::shut_down, (ended,), on_end),
        call_ensures(MenuState::hide_menu, (hidden,), on_hide),
    ensures
        on_close.fire == Some((callback, -1i32)),
        on_press.fire == Some((callback, -1i32)),
        on_end.fire == Some((callback, -1i32)),
        on_hide.fire is None,
        final(closed).menu is None && final(pressed).menu is None && final(ended).menu is None
            && final(hidden).menu is None,
        final(ended).shutdown,
{
}

/// A menu that was asked for is there, anchored where it was asked for.
pub proof fn menus_are_anchored_where_asked(
    s: &mut MenuState,
    req: MenuRequest,
    opened: Outbox,
    there: bool,
    anchor: Option<(i32, i32)>,
    engaged: bool,
    active: bool,
)
    requires
        old(s).wf(),
        call_ensures(MenuState::open, (s, req), opened),
        call_ensures(MenuState::has_menu, (&*final(s),), there),
        call_ensures(MenuState::anchor, (&*final(s),), anchor),
        call_ensures(MenuState::is_engaged, (&*final(s),), engaged),
        call_ensures(MenuState::is_active, (&*final(s),), active),
    ensures
        there,
        anchor == Some((req.x, req.y)),
        engaged == final(s).engaged,
        active == final(s).active,
{
}

/// The pointer is told to a menu that is on the screen, in its content's rows:
/// across as it is and down by what is scrolled away. A press stays a press.
pub proof fn pointers_are_told_to_menus_on_screen(
    s: MenuState,
    x: i32,
    y: i32,
    press: bool,
    r: Option<MenuEvent>,
)
    requires
        call_ensures(MenuState::pointer, (&s, x, y, press), r),
        s.menu matches Some(m) ==> i32::MIN <= y + m.scroll <= i32::MAX,
    ensures
        r is Some <==> (s.menu matches Some(m) && m.mapped),
        r is Some && press ==> r->0 is Press,
        r is Some && !press ==> r->0 is Motion,
        r matches Some(MenuEvent::Press { x: at, y: down }) ==> at == x && down - y
            == s.menu->0.scroll,
        r matches Some(MenuEvent::Motion { x: at, y: down }) ==> at == x && down - y
            == s.menu->0.scroll,
{
}

/// A menu that shows is painted anew when it is exposed; without one nothing is
/// done.
pub proof fn exposed_menus_are_painted(s: &mut MenuState, shows: bool)
    requires
        old(s).wf(),
        call_ensures(MenuState::takes_input, (&*old(s),), shows),
        call_ensures(MenuState::expose, (s,), ()),
    ensures
        !shows ==> *final(s) == *old(s),
        shows ==> final(s).job is Some,
        shows <==> (old(s).menu matches Some(m) && m.mapped),
        final(s).menu == old(s).menu && final(s).phase == old(s).phase && final(s).generation
            == old(s).generation,
{
}

} // verus!
