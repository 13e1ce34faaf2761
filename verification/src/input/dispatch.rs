//! Platform events as calls on the consumer that routing names: jellyfin-web's
//! browser or the shell overlay.

use vstd::prelude::*;

use crate::input::sink::EditCommand;
use crate::platform::LogicalPoint;
use crate::text::chars_of;

verus! {

pub const KEYEVENT_RAWKEYDOWN: i32 = 0;

pub const KEYEVENT_KEYUP: i32 = 2;

pub const KEYEVENT_CHAR: i32 = 3;

pub const MBT_LEFT: i32 = 0;

pub const MBT_MIDDLE: i32 = 1;

pub const MBT_RIGHT: i32 = 2;

pub const BTN_LEFT: u32 = 0x110;

pub const BTN_RIGHT: u32 = 0x111;

pub const BTN_MIDDLE: u32 = 0x112;

/// The consumer of an event.
#[derive(Clone, Copy, Debug, PartialEq, Eq, Structural)]
pub enum Target {
    Shell,
    Web,
    Nobody,
}

/// The part of the shell overlay under a point.
#[derive(Clone, Copy, Debug, PartialEq, Eq, Structural)]
pub enum ShellHit {
    /// The point belongs to jellyfin-web.
    Miss,
    /// A titlebar by which the window is moved.
    Drag,
    /// A window edge, by number.
    Grip(u32),
    /// Anything else of the overlay.
    Widget,
}

/// What routing says of a point, under the published shell state.
#[derive(Clone, Copy, Debug, PartialEq, Eq, Structural)]
pub struct PointRoute {
    pub target: Target,
    pub hit: ShellHit,
    /// The point in jellyfin-web's coordinates.
    pub web_point: LogicalPoint,
}

/// A call on jellyfin-web's browser.
#[derive(Clone, Copy, Debug, PartialEq, Eq, Structural)]
pub enum WebCall {
    KeyEvent {
        event_type: i32,
        modifiers: u32,
        windows_key_code: i32,
        native_key_code: i32,
        is_system_key: bool,
        character: u16,
        unmodified_character: u16,
    },
    MouseClick { at: LogicalPoint, modifiers: u32, button: i32, mouse_up: bool, click_count: i32 },
    MouseMove { at: LogicalPoint, modifiers: u32, leave: bool },
    MouseWheel { at: LogicalPoint, modifiers: u32, delta_x: i32, delta_y: i32 },
    SetFocus { focus: bool },
    NavigateHistory { forward: bool },
    Edit { command: EditCommand },
}

/// A call on the shell overlay.
#[derive(Clone, Copy, Debug, PartialEq, Eq, Structural)]
pub enum ShellCall {
    WindowGesture { hit: ShellHit },
    ContextMenu { at: LogicalPoint },
    Key { pressed: bool, modifiers: u32, windows_key_code: i32, character: u16 },
    Character { ch: char },
    MouseMove { at: LogicalPoint, modifiers: u32, leave: bool },
    MouseClick { at: LogicalPoint, modifiers: u32, button: i32, mouse_up: bool, click_count: i32 },
    MouseWheel { at: LogicalPoint, modifiers: u32, delta_x: i32, delta_y: i32 },
    SetFocus { focus: bool },
    Edit { command: EditCommand },
}

/// One event, delivered.
#[derive(Clone, Copy, Debug, PartialEq, Eq, Structural)]
pub enum Delivery {
    Nobody,
    Web(WebCall),
    Shell(ShellCall),
}

/// A pointer event, delivered, and whose cursor shows from now on.
#[derive(Clone, Copy, Debug, PartialEq, Eq, Structural)]
pub struct PointerDelivery {
    pub cursor_owner: Target,
    pub delivery: Delivery,
}

/// The browser's number for an evdev button.
pub open spec fn button_number(button_code: u32) -> Option<i32> {
    if button_code == BTN_LEFT {
        Some(MBT_LEFT)
    } else if button_code == BTN_RIGHT {
        Some(MBT_RIGHT)
    } else if button_code == BTN_MIDDLE {
        Some(MBT_MIDDLE)
    } else {
        None
    }
}

pub fn cef_button(button_code: u32) -> (r: Option<i32>)
    ensures
        r == button_number(button_code),
{
    if button_code == BTN_LEFT {
        Some(MBT_LEFT)
    } else if button_code == BTN_RIGHT {
        Some(MBT_RIGHT)
    } else if button_code == BTN_MIDDLE {
        Some(MBT_MIDDLE)
    } else {
        None
    }
}

/// The owner of a point: nobody while no shell state is published.
pub open spec fn point_owner(route: Option<PointRoute>) -> Target {
    match route {
        Some(r) => r.target,
        None => Target::Nobody,
    }
}

/// A pointer that moved, delivered.
pub open spec fn moved(
    route: Option<PointRoute>,
    at: LogicalPoint,
    mods: u32,
    leave: bool,
) -> PointerDelivery {
    PointerDelivery {
        cursor_owner: point_owner(route),
        delivery: match route {
            None => Delivery::Nobody,
            Some(to) => match to.target {
                Target::Shell => Delivery::Shell(
                    ShellCall::MouseMove { at, modifiers: mods, leave },
                ),
                Target::Web => Delivery::Web(
                    WebCall::MouseMove { at: to.web_point, modifiers: mods, leave },
                ),
                Target::Nobody => Delivery::Nobody,
            },
        },
    }
}

/// `route` is what routing says of the point, `None` while no shell state is
/// published.
pub fn jfn_input_dispatch_mouse_move(
    route: Option<PointRoute>,
    x: i32,
    y: i32,
    mods: u32,
    leave: bool,
) -> (r: PointerDelivery)
    ensures
        r == moved(route, LogicalPoint { x, y }, mods, leave),
{
    match route {
        None => PointerDelivery { cursor_owner: Target::Nobody, delivery: Delivery::Nobody },
        Some(to) => {
            let delivery = match to.target {
                Target::Shell => Delivery::Shell(
                    ShellCall::MouseMove { at: LogicalPoint { x, y }, modifiers: mods, leave },
                ),
                Target::Web => Delivery::Web(
                    WebCall::MouseMove { at: to.web_point, modifiers: mods, leave },
                ),
                Target::Nobody => Delivery::Nobody,
            };
            PointerDelivery { cursor_owner: to.target, delivery }
        },
    }
}

/// A button on the shell overlay: a right press raises the menu wherever it
/// lands, a left press on the titlebar or an edge starts a window gesture, and
/// everything else is a click for the widgets.
pub open spec fn shell_button(
    hit: ShellHit,
    button: i32,
    pressed: bool,
    at: LogicalPoint,
    mods: u32,
) -> ShellCall {
    if pressed && button == MBT_RIGHT {
        ShellCall::ContextMenu { at }
    } else if pressed && button == MBT_LEFT && (hit is Drag || hit is Grip) {
        ShellCall::WindowGesture { hit }
    } else {
        ShellCall::MouseClick { at, modifiers: mods, button, mouse_up: !pressed, click_count: 1 }
    }
}

/// A button with a number, delivered.
pub open spec fn pressed_at(
    route: Option<PointRoute>,
    button: i32,
    pressed: bool,
    at: LogicalPoint,
    mods: u32,
) -> PointerDelivery {
    match route {
        None => PointerDelivery { cursor_owner: Target::Nobody, delivery: Delivery::Nobody },
        Some(to) => if to.hit is Miss {
            PointerDelivery {
                cursor_owner: Target::Web,
                delivery: Delivery::Web(
                    WebCall::MouseClick {
                        at: to.web_point,
                        modifiers: mods,
                        button,
                        mouse_up: !pressed,
                        click_count: 1,
                    },
                ),
            }
        } else {
            PointerDelivery {
                cursor_owner: Target::Shell,
                delivery: Delivery::Shell(shell_button(to.hit, button, pressed, at, mods)),
            }
        },
    }
}

/// A mouse button. A button that the browser has no number for reaches nobody
/// and leaves the cursor alone (`None`).
pub fn jfn_input_dispatch_mouse_button(
    route: Option<PointRoute>,
    button_code: u32,
    pressed: bool,
    x: i32,
    y: i32,
    mods: u32,
) -> (r: Option<PointerDelivery>)
    ensures
        r == (match button_number(button_code) {
            Some(button) => Some(pressed_at(route, button, pressed, LogicalPoint { x, y }, mods)),
            None => None,
        }),
{
    let button: i32 = match cef_button(button_code) {
        None => return None,
        Some(b) => b,
    };
    let at = LogicalPoint { x, y };
    let to = match route {
        None => return Some(
            PointerDelivery { cursor_owner: Target::Nobody, delivery: Delivery::Nobody },
        ),
        Some(to) => to,
    };
    let target = match to.hit {
        ShellHit::Miss => Target::Web,
        _ => Target::Shell,
    };
    if target == Target::Web {
        return Some(
            PointerDelivery {
                cursor_owner: target,
                delivery: Delivery::Web(
                    WebCall::MouseClick {
                        at: to.web_point,
                        modifiers: mods,
                        button,
                        mouse_up: !pressed,
                        click_count: 1,
                    },
                ),
            },
        );
    }
    let gesture = match to.hit {
        ShellHit::Drag | ShellHit::Grip(_) => true,
        _ => false,
    };
    let call = if pressed && button == MBT_RIGHT {
        ShellCall::ContextMenu { at }
    } else if pressed && button == MBT_LEFT && gesture {
        ShellCall::WindowGesture { hit: to.hit }
    } else {
        ShellCall::MouseClick { at, modifiers: mods, button, mouse_up: !pressed, click_count: 1 }
    };
    Some(PointerDelivery { cursor_owner: target, delivery: Delivery::Shell(call) })
}

/// The modifier bit that marks a trackpad's deltas.
pub const EVENTFLAG_PRECISION_SCROLLING_DELTA: u32 = 0x4000;

pub open spec fn scrolled(
    route: Option<PointRoute>,
    at: LogicalPoint,
    dx: i32,
    dy: i32,
    mods: u32,
) -> PointerDelivery {
    PointerDelivery {
        cursor_owner: point_owner(route),
        delivery: match route {
            None => Delivery::Nobody,
            Some(to) => match to.target {
                Target::Shell => Delivery::Shell(
                    ShellCall::MouseWheel { at, modifiers: mods, delta_x: dx, delta_y: dy },
                ),
                Target::Web => Delivery::Web(
                    WebCall::MouseWheel {
                        at: to.web_point,
                        modifiers: mods,
                        delta_x: dx,
                        delta_y: dy,
                    },
                ),
                Target::Nobody => Delivery::Nobody,
            },
        },
    }
}

pub fn jfn_input_dispatch_scroll(
    route: Option<PointRoute>,
    x: i32,
    y: i32,
    dx: i32,
    dy: i32,
    mods: u32,
) -> (r: PointerDelivery)
    ensures
        r == scrolled(route, LogicalPoint { x, y }, dx, dy, mods),
{
    let at = LogicalPoint { x, y };
    match route {
        None => PointerDelivery { cursor_owner: Target::Nobody, delivery: Delivery::Nobody },
        Some(to) => {
            let delivery = match to.target {
                Target::Shell => Delivery::Shell(
                    ShellCall::MouseWheel { at, modifiers: mods, delta_x: dx, delta_y: dy },
                ),
                Target::Web => Delivery::Web(
                    WebCall::MouseWheel {
                        at: to.web_point,
                        modifiers: mods,
                        delta_x: dx,
                        delta_y: dy,
                    },
                ),
                Target::Nobody => Delivery::Nobody,
            };
            PointerDelivery { cursor_owner: to.target, delivery }
        },
    }
}

/// A scroll whose deltas may come from a trackpad.
pub fn jfn_input_dispatch_scroll_precise(
    route: Option<PointRoute>,
    x: i32,
    y: i32,
    dx: i32,
    dy: i32,
    mods: u32,
    precise: bool,
) -> (r: PointerDelivery)
    ensures
        r == scrolled(
            route,
            LogicalPoint { x, y },
            dx,
            dy,
            if precise {
                mods | EVENTFLAG_PRECISION_SCROLLING_DELTA
            } else {
                mods
            },
        ),
{
    let mods: u32 = if precise { mods | EVENTFLAG_PRECISION_SCROLLING_DELTA } else { mods };
    jfn_input_dispatch_scroll(route, x, y, dx, dy, mods)
}

/// Back or forward. `target` is the consumer of keys. Dropped unless that is
/// jellyfin-web.
pub fn jfn_input_dispatch_history_nav(target: Target, forward: bool) -> (r: Delivery)
    ensures
        r == (if target == Target::Web {
            Delivery::Web(WebCall::NavigateHistory { forward })
        } else {
            Delivery::Nobody
        }),
{
    if target == Target::Web {
        Delivery::Web(WebCall::NavigateHistory { forward })
    } else {
        Delivery::Nobody
    }
}

/// The window's keyboard focus. `target` is the consumer of keys.
pub fn jfn_input_dispatch_keyboard_focus(target: Target, gained: bool) -> (r: Delivery)
    ensures
        r == (match target {
            Target::Shell => Delivery::Shell(ShellCall::SetFocus { focus: gained }),
            Target::Web => Delivery::Web(WebCall::SetFocus { focus: gained }),
            Target::Nobody => Delivery::Nobody,
        }),
{
    match target {
        Target::Shell => Delivery::Shell(ShellCall::SetFocus { focus: gained }),
        Target::Web => Delivery::Web(WebCall::SetFocus { focus: gained }),
        Target::Nobody => Delivery::Nobody,
    }
}

/// A code point that a character event may carry.
pub open spec fn typed(codepoint: u32) -> bool {
    0 < codepoint < 0x10FFFF
}

/// A typed code point, delivered: jellyfin-web takes a character event cut to
/// its low sixteen bits; the shell overlay takes whole characters that are text.
pub open spec fn typed_delivery(
    target: Target,
    codepoint: u32,
    mods: u32,
    native_code: u32,
    is_system_key: bool,
    is_text: bool,
) -> Delivery {
    if !typed(codepoint) {
        Delivery::Nobody
    } else {
        match target {
            Target::Shell => if crate::input::key::scalar_value(codepoint) && is_text {
                Delivery::Shell(ShellCall::Character { ch: codepoint as char })
            } else {
                Delivery::Nobody
            },
            Target::Web => Delivery::Web(
                WebCall::KeyEvent {
                    event_type: KEYEVENT_CHAR,
                    modifiers: mods,
                    windows_key_code: codepoint as i32,
                    native_key_code: native_code as i32,
                    is_system_key,
                    character: (codepoint % 65536) as u16,
                    unmodified_character: (codepoint % 65536) as u16,
                },
            ),
            Target::Nobody => Delivery::Nobody,
        }
    }
}

/// A character event. `is_text` is what routing says of the character under
/// these modifiers.
pub fn jfn_input_dispatch_char_sys(
    target: Target,
    codepoint: u32,
    mods: u32,
    native_code: u32,
    is_system_key: bool,
    is_text: bool,
) -> (r: Delivery)
    ensures
        r == typed_delivery(target, codepoint, mods, native_code, is_system_key, is_text),
{
    if codepoint == 0 || codepoint >= 0x10_FFFF {
        return Delivery::Nobody;
    }
    match target {
        Target::Shell => shell_text(codepoint, is_text),
        Target::Web => {
            let cp16: u16 = (codepoint % 65536) as u16;
            Delivery::Web(
                WebCall::KeyEvent {
                    event_type: KEYEVENT_CHAR,
                    modifiers: mods,
                    windows_key_code: codepoint as i32,
                    native_key_code: native_code as i32,
                    is_system_key,
                    character: cp16,
                    unmodified_character: cp16,
                },
            )
        },
        Target::Nobody => Delivery::Nobody,
    }
}

/// The shell overlay inserts whole characters; a lone surrogate is half of one.
fn shell_text(codepoint: u32, is_text: bool) -> (r: Delivery)
    ensures
        r == (if crate::input::key::scalar_value(codepoint) && is_text {
            Delivery::Shell(ShellCall::Character { ch: codepoint as char })
        } else {
            Delivery::Nobody
        }),
{
    match char::from_u32(codepoint) {
        Some(ch) => {
            if is_text {
                Delivery::Shell(ShellCall::Character { ch })
            } else {
                Delivery::Nobody
            }
        },
        None => Delivery::Nobody,
    }
}

/// A character event that no system key caused.
pub fn jfn_input_dispatch_char(
    target: Target,
    codepoint: u32,
    mods: u32,
    native_code: u32,
    is_text: bool,
) -> (r: Delivery)
    ensures
        r == typed_delivery(target, codepoint, mods, native_code, false, is_text),
{
    jfn_input_dispatch_char_sys(target, codepoint, mods, native_code, false, is_text)
}

/// Composed text, delivered.
#[derive(Debug)]
pub enum TextDelivery {
    Nobody,
    /// The shell overlay takes the text as it is.
    Shell(String),
    /// jellyfin-web takes one event per character.
    Web(Vec<Delivery>),
}

/// The events that spell `text` for jellyfin-web.
pub open spec fn web_text(text: Seq<char>, mods: u32) -> Seq<Delivery> {
    Seq::new(
        text.len(),
        |i: int| typed_delivery(Target::Web, text[i] as u32, mods, 0, false, false),
    )
}

/// Text from a compose sequence or a dead key: text, never a synthetic key.
pub fn jfn_input_dispatch_text(target: Target, text: &str, mods: u32) -> (r: TextDelivery)
    ensures
        match target {
            Target::Shell => r matches TextDelivery::Shell(s) && s@ == text@,
            Target::Web => r matches TextDelivery::Web(d) && d@ == web_text(text@, mods),
            Target::Nobody => r is Nobody,
        },
{
    match target {
        Target::Shell => TextDelivery::Shell(text.to_owned()),
        Target::Web => {
            let chars: Vec<char> = chars_of(text);
            let mut out: Vec<Delivery> = Vec::new();
            let mut i: usize = 0;
            while i < chars.len()
                invariant
                    i <= chars@.len(),
                    chars@ == text@,
                    out@ == web_text(text@, mods).take(i as int),
                decreases chars@.len() - i,
            {
                out.push(jfn_input_dispatch_char(Target::Web, chars[i] as u32, mods, 0, false));
                assert(out@ =~= web_text(text@, mods).take(i + 1));
                i += 1;
            }
            assert(web_text(text@, mods).take(i as int) =~= web_text(text@, mods));
            TextDelivery::Web(out)
        },
        Target::Nobody => TextDelivery::Nobody,
    }
}

/// What a key does: one of two hotkeys, or a key for the consumer.
#[derive(Clone, Copy, Debug, PartialEq, Eq, Structural)]
pub enum KeyOutcome {
    Shutdown,
    ToggleFullscreen,
    Deliver(Delivery),
}

pub open spec fn key_delivery(
    target: Target,
    pressed: bool,
    modifiers: u32,
    windows_key_code: i32,
    native_key_code: i32,
    is_system_key: bool,
    character: u16,
    unmodified_character: u16,
) -> Delivery {
    match target {
        Target::Shell => Delivery::Shell(
            ShellCall::Key { pressed, modifiers, windows_key_code, character },
        ),
        Target::Web => Delivery::Web(
            WebCall::KeyEvent {
                event_type: if pressed {
                    KEYEVENT_RAWKEYDOWN
                } else {
                    KEYEVENT_KEYUP
                },
                modifiers,
                windows_key_code,
                native_key_code,
                is_system_key,
                character,
                unmodified_character,
            },
        ),
        Target::Nobody => Delivery::Nobody,
    }
}

/// A key. `hotkey` is the class of its press: 1 quits, 2 toggles fullscreen,
/// anything else is an ordinary key. Releases are never hotkeys.
pub fn jfn_input_dispatch_key_full(
    target: Target,
    hotkey: i32,
    pressed: bool,
    windows_key_code: i32,
    native_key_code: i32,
    modifiers: u32,
    character: u16,
    unmodified_character: u16,
    is_system_key: bool,
) -> (r: KeyOutcome)
    ensures
        r == (if pressed && hotkey == 1 {
            KeyOutcome::Shutdown
        } else if pressed && hotkey == 2 {
            KeyOutcome::ToggleFullscreen
        } else {
            KeyOutcome::Deliver(
                key_delivery(
                    target,
                    pressed,
                    modifiers,
                    windows_key_code,
                    native_key_code,
                    is_system_key,
                    character,
                    unmodified_character,
                ),
            )
        }),
{
    if pressed {
        if hotkey == 1 {
            return KeyOutcome::Shutdown;
        }
        if hotkey == 2 {
            return KeyOutcome::ToggleFullscreen;
        }
    }
    KeyOutcome::Deliver(
        key_event(
            target,
            pressed,
            modifiers,
            windows_key_code,
            native_key_code,
            is_system_key,
            character,
            unmodified_character,
        ),
    )
}

fn key_event(
    target: Target,
    pressed: bool,
    modifiers: u32,
    windows_key_code: i32,
    native_key_code: i32,
    is_system_key: bool,
    character: u16,
    unmodified_character: u16,
) -> (r: Delivery)
    ensures
        r == key_delivery(
            target,
            pressed,
            modifiers,
            windows_key_code,
            native_key_code,
            is_system_key,
            character,
            unmodified_character,
        ),
{
    match target {
        Target::Shell => Delivery::Shell(
            ShellCall::Key { pressed, modifiers, windows_key_code, character },
        ),
        Target::Web => Delivery::Web(
            WebCall::KeyEvent {
                event_type: if pressed { KEYEVENT_RAWKEYDOWN } else { KEYEVENT_KEYUP },
                modifiers,
                windows_key_code,
                native_key_code,
                is_system_key,
                character,
                unmodified_character,
            },
        ),
        Target::Nobody => Delivery::Nobody,
    }
}

pub open spec fn edit_delivery(target: Target, command: EditCommand) -> Delivery {
    match target {
        Target::Shell => Delivery::Shell(ShellCall::Edit { command }),
        Target::Web => Delivery::Web(WebCall::Edit { command }),
        Target::Nobody => Delivery::Nobody,
    }
}

fn edit(target: Target, command: EditCommand) -> (r: Delivery)
    ensures
        r == edit_delivery(target, command),
{
    match target {
        Target::Shell => Delivery::Shell(ShellCall::Edit { command }),
        Target::Web => Delivery::Web(WebCall::Edit { command }),
        Target::Nobody => Delivery::Nobody,
    }
}

pub fn jfn_input_undo(target: Target) -> (r: Delivery)
    ensures
        r == edit_delivery(target, EditCommand::Undo),
{
    edit(target, EditCommand::Undo)
}

pub fn jfn_input_redo(target: Target) -> (r: Delivery)
    ensures
        r == edit_delivery(target, EditCommand::Redo),
{
    edit(target, EditCommand::Redo)
}

pub fn jfn_input_cut(target: Target) -> (r: Delivery)
    ensures
        r == edit_delivery(target, EditCommand::Cut),
{
    edit(target, EditCommand::Cut)
}

pub fn jfn_input_copy(target: Target) -> (r: Delivery)
    ensures
        r == edit_delivery(target, EditCommand::Copy),
{
    edit(target, EditCommand::Copy)
}

pub fn jfn_input_paste(target: Target) -> (r: Delivery)
    ensures
        r == edit_delivery(target, EditCommand::Paste),
{
    edit(target, EditCommand::Paste)
}

pub fn jfn_input_select_all(target: Target) -> (r: Delivery)
    ensures
        r == edit_delivery(target, EditCommand::SelectAll),
{
    edit(target, EditCommand::SelectAll)
}

/// While no shell state is published, no pointer event reaches anybody.
pub proof fn unrouted_pointer_reaches_nobody(
    at: LogicalPoint,
    dx: i32,
    dy: i32,
    mods: u32,
    button: i32,
    pressed: bool,
    leave: bool,
)
    ensures
        ({
            let nobody = PointerDelivery {
                cursor_owner: Target::Nobody,
                delivery: Delivery::Nobody,
            };
            &&& moved(None, at, mods, leave) == nobody
            &&& pressed_at(None, button, pressed, at, mods) == nobody
            &&& scrolled(None, at, dx, dy, mods) == nobody
        }),
{
}

/// A right press on the overlay raises the menu from every part of it.
pub proof fn right_press_always_raises_the_menu(hit: ShellHit, at: LogicalPoint, mods: u32)
    ensures
        shell_button(hit, MBT_RIGHT, true, at, mods) == (ShellCall::ContextMenu { at }),
{
}

/// Window gestures are press gestures: a release is always a click.
pub proof fn releases_are_clicks(hit: ShellHit, button: i32, at: LogicalPoint, mods: u32)
    ensures
        shell_button(hit, button, false, at, mods) is MouseClick,
{
}

/// A button event keeps what it is, whoever takes it: where it arrives as a
/// click, the click is a release exactly where the button was released, of the
/// same button, under the same modifiers, at the point in its taker's own
/// coordinates, and counts once.
pub proof fn clicks_keep_their_direction(
    to: PointRoute,
    button: i32,
    pressed: bool,
    at: LogicalPoint,
    mods: u32,
)
    ensures
        match pressed_at(Some(to), button, pressed, at, mods).delivery {
            Delivery::Web(
                WebCall::MouseClick { at: p, modifiers, button: b, mouse_up, click_count },
            ) => mouse_up == !pressed && b == button && modifiers == mods && p == to.web_point
                && click_count == 1,
            Delivery::Shell(
                ShellCall::MouseClick { at: p, modifiers, button: b, mouse_up, click_count },
            ) => mouse_up == !pressed && b == button && modifiers == mods && p == at && click_count
                == 1,
            Delivery::Shell(ShellCall::ContextMenu { at: p }) => p == at && pressed && button == 2,
            Delivery::Shell(ShellCall::WindowGesture { hit }) => hit == to.hit && pressed && button
                == 0 && (hit is Drag || hit is Grip),
            _ => false,
        },
{
}

/// A press and its release go to the same taker, which owns the cursor: to
/// jellyfin-web where the overlay has nothing under the point, and to the
/// overlay everywhere else.
pub proof fn buttons_go_to_what_is_under_them(
    to: PointRoute,
    button: i32,
    pressed: bool,
    at: LogicalPoint,
    mods: u32,
)
    ensures
        ({
            let r = pressed_at(Some(to), button, pressed, at, mods);
            &&& to.hit is Miss ==> r.cursor_owner is Web && (r.delivery matches Delivery::Web(c)
                && c is MouseClick)
            &&& !(to.hit is Miss) ==> r.cursor_owner is Shell && r.delivery is Shell
            &&& !(to.hit is Miss) && pressed && button == 2 ==> r.delivery == Delivery::Shell(
                ShellCall::ContextMenu { at },
            )
            &&& (to.hit is Drag || to.hit is Grip) && pressed && button == 0 ==> r.delivery
                == Delivery::Shell(ShellCall::WindowGesture { hit: to.hit })
            &&& to.hit is Widget && !(pressed && button == 2) ==> (
            r.delivery matches Delivery::Shell(c) && c is MouseClick)
            &&& !(to.hit is Miss) && (!pressed || button == 1) ==> (
            r.delivery matches Delivery::Shell(c) && c is MouseClick)
        }),
{
}

/// The browser's buttons are left, middle and right, in this order; no two of
/// the mouse's buttons share a number, and no other has one.
pub proof fn buttons_have_their_own_numbers(a: u32, b: u32)
    ensures
        button_number(0x110) == Some(0i32),
        button_number(0x111) == Some(2i32),
        button_number(0x112) == Some(1i32),
        button_number(a) is Some <==> 0x110 <= a <= 0x112,
        a != b && button_number(a) is Some ==> button_number(a) != button_number(b),
        MBT_LEFT == 0 && MBT_MIDDLE == 1 && MBT_RIGHT == 2,
        BTN_LEFT == 0x110 && BTN_RIGHT == 0x111 && BTN_MIDDLE == 0x112,
{
}

/// A moving pointer is told to the owner of its point, in that owner's
/// coordinates: where it is, under which modifiers, and whether it left. The
/// cursor is the owner's.
pub proof fn moves_go_to_the_points_owner(
    to: PointRoute,
    at: LogicalPoint,
    mods: u32,
    leave: bool,
)
    ensures
        ({
            let r = moved(Some(to), at, mods, leave);
            &&& r.cursor_owner == to.target
            &&& to.target is Shell <==> r.delivery is Shell
            &&& to.target is Web <==> r.delivery is Web
            &&& match r.delivery {
                Delivery::Web(WebCall::MouseMove { at: p, modifiers, leave: l }) => p
                    == to.web_point && modifiers == mods && l == leave,
                Delivery::Shell(ShellCall::MouseMove { at: p, modifiers, leave: l }) => p == at
                    && modifiers == mods && l == leave,
                Delivery::Nobody => to.target is Nobody,
                _ => false,
            }
        }),
{
}

/// A turned wheel is told to the owner of its point, in that owner's
/// coordinates, by the same amount along each axis.
pub proof fn scrolls_go_to_the_points_owner(
    to: PointRoute,
    at: LogicalPoint,
    dx: i32,
    dy: i32,
    mods: u32,
)
    ensures
        ({
            let r = scrolled(Some(to), at, dx, dy, mods);
            &&& r.cursor_owner == to.target
            &&& to.target is Shell <==> r.delivery is Shell
            &&& to.target is Web <==> r.delivery is Web
            &&& match r.delivery {
                Delivery::Web(WebCall::MouseWheel { at: p, modifiers, delta_x, delta_y }) => p
                    == to.web_point && modifiers == mods && delta_x == dx && delta_y == dy,
                Delivery::Shell(ShellCall::MouseWheel { at: p, modifiers, delta_x, delta_y }) => p
                    == at && modifiers == mods && delta_x == dx && delta_y == dy,
                Delivery::Nobody => to.target is Nobody,
                _ => false,
            }
        }),
{
}

/// A key arrives at its target with its direction, its codes and its
/// characters: a press as a press, and a release as a release.
pub proof fn keys_keep_their_direction(
    target: Target,
    pressed: bool,
    modifiers: u32,
    windows_key_code: i32,
    native_key_code: i32,
    is_system_key: bool,
    character: u16,
    unmodified_character: u16,
)
    ensures
        match key_delivery(
            target,
            pressed,
            modifiers,
            windows_key_code,
            native_key_code,
            is_system_key,
            character,
            unmodified_character,
        ) {
            Delivery::Shell(ShellCall::Key { pressed: p, modifiers: m, windows_key_code: w, character: c }) =>
                target is Shell && p == pressed && m == modifiers && w == windows_key_code && c
                == character,
            Delivery::Web(
                WebCall::KeyEvent {
                    event_type,
                    modifiers: m,
                    windows_key_code: w,
                    native_key_code: n,
                    is_system_key: s,
                    character: c,
                    unmodified_character: u,
                },
            ) => target is Web && (pressed ==> event_type == 0) && (!pressed ==> event_type == 2)
                && m == modifiers && w == windows_key_code && n == native_key_code && s
                == is_system_key && c == character && u == unmodified_character,
            Delivery::Nobody => target is Nobody,
            _ => false,
        },
{
}

/// A typed character arrives as itself: whole at the overlay, where it is text,
/// and by its low sixteen bits in jellyfin-web, with the modifiers and codes of
/// its key. Nothing is typed by a zero, nor from the last code point on.
pub proof fn typed_characters_arrive_as_themselves(
    target: Target,
    codepoint: u32,
    mods: u32,
    native_code: u32,
    is_system_key: bool,
    is_text: bool,
)
    ensures
        ({
            let r = typed_delivery(target, codepoint, mods, native_code, is_system_key, is_text);
            let none = codepoint == 0 || codepoint >= 0x10FFFF;
            &&& none || target is Nobody ==> r is Nobody
            &&& !none && target is Web ==> (r matches Delivery::Web(
                WebCall::KeyEvent {
                    event_type,
                    modifiers,
                    windows_key_code,
                    native_key_code,
                    is_system_key: s,
                    character,
                    unmodified_character,
                },
            ) && event_type == 3 && modifiers == mods && windows_key_code == codepoint
                && native_key_code == native_code as i32 && s == is_system_key && character
                == unmodified_character && character as int == codepoint as int % 0x10000)
            &&& !none && target is Shell && is_text && !(0xD800 <= codepoint <= 0xDFFF) ==> (
            r matches Delivery::Shell(ShellCall::Character { ch }) && ch as int == codepoint as int)
            &&& target is Shell && (!is_text || 0xD800 <= codepoint <= 0xDFFF) ==> r is Nobody
        }),
{
}

/// Composed text is spelled for jellyfin-web character by character, in order,
/// and by no key.
pub proof fn composed_text_is_spelled_out(text: Seq<char>, mods: u32, i: int)
    requires
        0 <= i < text.len(),
        0 < text[i] as u32 <= 0xFFFF,
    ensures
        web_text(text, mods).len() == text.len(),
        web_text(text, mods)[i] matches Delivery::Web(
            WebCall::KeyEvent {
                event_type,
                modifiers,
                windows_key_code,
                native_key_code,
                is_system_key,
                character,
                unmodified_character,
            },
        ) && event_type == 3 && modifiers == mods && windows_key_code == text[i] as u32
            && native_key_code == 0 && !is_system_key && character == text[i] as u32
            && unmodified_character == text[i] as u32,
{
}

/// An edit command reaches its target under its own name.
pub proof fn edit_commands_keep_their_name(target: Target, command: EditCommand)
    ensures
        target is Shell ==> edit_delivery(target, command) == Delivery::Shell(
            ShellCall::Edit { command },
        ),
        target is Web ==> edit_delivery(target, command) == Delivery::Web(WebCall::Edit { command }),
        target is Nobody ==> edit_delivery(target, command) is Nobody,
{
}

/// Each of the menu's edits makes the edit it is named after, and no two make
/// the same.
pub proof fn edits_are_what_they_are_called(
    target: Target,
    undo: Delivery,
    redo: Delivery,
    cut: Delivery,
    copy: Delivery,
    paste: Delivery,
    select_all: Delivery,
)
    requires
        call_ensures(jfn_input_undo, (target,), undo),
        call_ensures(jfn_input_redo, (target,), redo),
        call_ensures(jfn_input_cut, (target,), cut),
        call_ensures(jfn_input_copy, (target,), copy),
        call_ensures(jfn_input_paste, (target,), paste),
        call_ensures(jfn_input_select_all, (target,), select_all),
        target is Web,
    ensures
        undo == Delivery::Web(WebCall::Edit { command: EditCommand::Undo }),
        redo == Delivery::Web(WebCall::Edit { command: EditCommand::Redo }),
        cut == Delivery::Web(WebCall::Edit { command: EditCommand::Cut }),
        copy == Delivery::Web(WebCall::Edit { command: EditCommand::Copy }),
        paste == Delivery::Web(WebCall::Edit { command: EditCommand::Paste }),
        select_all == Delivery::Web(WebCall::Edit { command: EditCommand::SelectAll }),
{
}

/// What a platform event comes to is decided by the point it was at: the two
/// coordinates are never exchanged on the way to the overlay.
pub proof fn points_reach_the_overlay_unchanged(
    to: PointRoute,
    x: i32,
    y: i32,
    dx: i32,
    dy: i32,
    mods: u32,
    leave: bool,
    pressed: bool,
    moved_there: PointerDelivery,
    scrolled_there: PointerDelivery,
    clicked_there: Option<PointerDelivery>,
)
    requires
        to.target is Shell,
        to.hit is Widget,
        call_ensures(jfn_input_dispatch_mouse_move, (Some(to), x, y, mods, leave), moved_there),
        call_ensures(jfn_input_dispatch_scroll, (Some(to), x, y, dx, dy, mods), scrolled_there),
        call_ensures(
            jfn_input_dispatch_mouse_button,
            (Some(to), 0x110u32, pressed, x, y, mods),
            clicked_there,
        ),
    ensures
        moved_there.delivery matches Delivery::Shell(ShellCall::MouseMove { at, .. }) && at.x == x
            && at.y == y,
        scrolled_there.delivery matches Delivery::Shell(
            ShellCall::MouseWheel { at, delta_x, delta_y, .. },
        ) && at.x == x && at.y == y && delta_x == dx && delta_y == dy,
        clicked_there matches Some(c) && (c.delivery matches Delivery::Shell(
            ShellCall::MouseClick { at, mouse_up, .. },
        ) && at.x == x && at.y == y && mouse_up == !pressed),
{
}

/// A trackpad's scroll is the wheel's, marked by one bit more among the
/// modifiers.
pub proof fn precise_scrolls_are_marked(
    to: PointRoute,
    x: i32,
    y: i32,
    dx: i32,
    dy: i32,
    mods: u32,
    precise: PointerDelivery,
    coarse: PointerDelivery,
)
    requires
        call_ensures(
            jfn_input_dispatch_scroll_precise,
            (Some(to), x, y, dx, dy, mods, true),
            precise,
        ),
        call_ensures(
            jfn_input_dispatch_scroll_precise,
            (Some(to), x, y, dx, dy, mods, false),
            coarse,
        ),
    ensures
        call_ensures(jfn_input_dispatch_scroll, (Some(to), x, y, dx, dy, mods), coarse)
            ==> precise.cursor_owner == coarse.cursor_owner,
        coarse.delivery matches Delivery::Web(WebCall::MouseWheel { modifiers, delta_x, delta_y, .. })
            ==> modifiers == mods && delta_x == dx && delta_y == dy,
        precise.delivery matches Delivery::Web(
            WebCall::MouseWheel { modifiers, delta_x, delta_y, .. },
        ) ==> modifiers == mods | 0x4000 && delta_x == dx && delta_y == dy,
        to.target is Web ==> coarse.delivery is Web && precise.delivery is Web,
        to.target is Shell ==> coarse.delivery is Shell && precise.delivery is Shell,
{
}

/// Back goes back and forward goes forward, in jellyfin-web alone.
pub proof fn history_keeps_its_direction(target: Target, forward: bool, r: Delivery)
    requires
        call_ensures(jfn_input_dispatch_history_nav, (target, forward), r),
    ensures
        target is Web <==> r is Web,
        !(target is Web) ==> r is Nobody,
        r matches Delivery::Web(call) ==> (call matches WebCall::NavigateHistory { forward: f } && f
            == forward),
{
}

/// The consumer of keys is told that the window gained the focus where it did,
/// and that it lost it where it did not.
pub proof fn focus_is_told_as_it_is(target: Target, gained: bool, r: Delivery)
    requires
        call_ensures(jfn_input_dispatch_keyboard_focus, (target, gained), r),
    ensures
        match r {
            Delivery::Web(WebCall::SetFocus { focus }) => target is Web && focus == gained,
            Delivery::Shell(ShellCall::SetFocus { focus }) => target is Shell && focus == gained,
            Delivery::Nobody => target is Nobody,
            _ => false,
        },
{
}

/// The two hotkeys act on their press and reach nobody; every release, and
/// every other key, is delivered.
pub proof fn hotkeys_act_on_their_press(
    target: Target,
    hotkey: i32,
    pressed: bool,
    code: i32,
    native: i32,
    mods: u32,
    character: u16,
    unmodified: u16,
    system: bool,
    r: KeyOutcome,
)
    requires
        call_ensures(
            jfn_input_dispatch_key_full,
            (target, hotkey, pressed, code, native, mods, character, unmodified, system),
            r,
        ),
    ensures
        r is Shutdown <==> pressed && hotkey == 1,
        r is ToggleFullscreen <==> pressed && hotkey == 2,
        r matches KeyOutcome::Deliver(d) ==> match d {
            Delivery::Shell(ShellCall::Key { pressed: p, modifiers, windows_key_code, character: c }) =>
                target is Shell && p == pressed && modifiers == mods && windows_key_code == code
                && c == character,
            Delivery::Web(
                WebCall::KeyEvent {
                    event_type,
                    modifiers,
                    windows_key_code,
                    native_key_code,
                    is_system_key,
                    character: c,
                    unmodified_character,
                },
            ) => target is Web && event_type == (if pressed {
                0i32
            } else {
                2
            }) && modifiers == mods && windows_key_code == code && native_key_code == native
                && is_system_key == system && c == character && unmodified_character == unmodified,
            Delivery::Nobody => target is Nobody,
            _ => false,
        },
{
}

/// A typed character goes where the keyboard goes, as itself: to the page with
/// its number and its modifiers, and to the shell where it is text.
pub proof fn typed_characters_go_to_the_keyboard(
    codepoint: u32,
    mods: u32,
    native: u32,
    system: bool,
    is_text: bool,
    to_web: Delivery,
    plain: Delivery,
    to_shell: Delivery,
    to_nobody: Delivery,
)
    requires
        32 <= codepoint < 127,
        native <= i32::MAX,
        call_ensures(
            jfn_input_dispatch_char_sys,
            (Target::Web, codepoint, mods, native, system, is_text),
            to_web,
        ),
        call_ensures(
            jfn_input_dispatch_char,
            (Target::Web, codepoint, mods, native, is_text),
            plain,
        ),
        call_ensures(
            jfn_input_dispatch_char_sys,
            (Target::Shell, codepoint, mods, native, system, is_text),
            to_shell,
        ),
        call_ensures(
            jfn_input_dispatch_char_sys,
            (Target::Nobody, codepoint, mods, native, system, is_text),
            to_nobody,
        ),
    ensures
        to_web matches Delivery::Web(WebCall::KeyEvent {
            event_type,
            modifiers,
            windows_key_code,
            native_key_code,
            is_system_key,
            character,
            unmodified_character,
        }) && event_type == KEYEVENT_CHAR && modifiers == mods && windows_key_code == codepoint
            && native_key_code == native && is_system_key == system && character == codepoint
            && unmodified_character == codepoint,
        !system ==> plain == to_web,
        system ==> plain != to_web,
        is_text ==> to_shell == Delivery::Shell(
            ShellCall::Character { ch: codepoint as char },
        ),
        !is_text ==> to_shell is Nobody,
        to_nobody is Nobody,
{
}

/// Composed text reaches the shell in one piece, the page character by
/// character, and whoever else not at all.
pub proof fn composed_text_goes_to_the_keyboard(
    text: &str,
    mods: u32,
    to_shell: TextDelivery,
    to_web: TextDelivery,
    to_nobody: TextDelivery,
)
    requires
        call_ensures(jfn_input_dispatch_text, (Target::Shell, text, mods), to_shell),
        call_ensures(jfn_input_dispatch_text, (Target::Web, text, mods), to_web),
        call_ensures(jfn_input_dispatch_text, (Target::Nobody, text, mods), to_nobody),
    ensures
        to_shell matches TextDelivery::Shell(s) && s@ == text@,
        to_web matches TextDelivery::Web(d) && d@.len() == text@.len(),
        to_nobody is Nobody,
{
}

} // verus!
