//! The client's own entries in every context menu.

use vstd::prelude::*;

verus! {

/// The first command number that is free for the client.
pub const MENU_ID_USER_FIRST: i32 = 26500;

pub const MENU_ID_TOGGLE_FULLSCREEN: i32 = 26500;

pub const MENU_ID_ABOUT: i32 = 26501;

pub const MENU_ID_EXIT: i32 = 26502;

#[derive(Clone, Copy, Debug, PartialEq, Eq, Structural)]
pub enum Command {
    ToggleFullscreen,
    About,
    Exit,
}

pub struct MenuEntry {
    pub id: i32,
    pub label: &'static str,
}

/// The command behind a menu entry.
pub open spec fn command_of(id: int) -> Option<Command> {
    if id == MENU_ID_TOGGLE_FULLSCREEN {
        Some(Command::ToggleFullscreen)
    } else if id == MENU_ID_ABOUT {
        Some(Command::About)
    } else if id == MENU_ID_EXIT {
        Some(Command::Exit)
    } else {
        None
    }
}

/// The entries, in order.
pub fn entries() -> (r: Vec<MenuEntry>)
    ensures
        r@.len() == 3,
        r@[0].id == MENU_ID_TOGGLE_FULLSCREEN && r@[0].label@ == "Toggle Fullscreen"@,
        r@[1].id == MENU_ID_ABOUT && r@[1].label@ == "About"@,
        r@[2].id == MENU_ID_EXIT && r@[2].label@ == "Exit"@,
        forall|i: int| 0 <= i < 3 ==> command_of((#[trigger] r@[i]).id as int) is Some,
{
    let mut r: Vec<MenuEntry> = Vec::new();
    r.push(MenuEntry { id: MENU_ID_TOGGLE_FULLSCREEN, label: "Toggle Fullscreen" });
    r.push(MenuEntry { id: MENU_ID_ABOUT, label: "About" });
    r.push(MenuEntry { id: MENU_ID_EXIT, label: "Exit" });
    r
}

/// The command that a chosen entry runs. A number that is none of the client's
/// is left to others.
pub fn dispatch(cmd: i32) -> (r: Option<Command>)
    ensures
        r == command_of(cmd as int),
{
    if cmd == MENU_ID_TOGGLE_FULLSCREEN {
        Some(Command::ToggleFullscreen)
    } else if cmd == MENU_ID_ABOUT {
        Some(Command::About)
    } else if cmd == MENU_ID_EXIT {
        Some(Command::Exit)
    } else {
        None
    }
}

/// The client's entries have numbers of their own, one after the other from the
/// first that is free, and each runs its own command.
pub proof fn entries_run_their_own_command(a: int, b: int)
    ensures
        command_of(26500) == Some(Command::ToggleFullscreen),
        command_of(26501) == Some(Command::About),
        command_of(26502) == Some(Command::Exit),
        command_of(a) is Some <==> 26500 <= a <= 26502,
        a != b && command_of(a) is Some ==> command_of(a) != command_of(b),
        MENU_ID_USER_FIRST == 26500,
{
}

/// What an entry says is what choosing it does.
pub proof fn entries_do_what_they_say(entries_made: Vec<MenuEntry>, i: int)
    requires
        call_ensures(entries, (), entries_made),
        0 <= i < entries_made@.len(),
    ensures
        entries_made@.len() == 3,
        entries_made@[i].label@ == (match command_of(entries_made@[i].id as int) {
            Some(Command::ToggleFullscreen) => "Toggle Fullscreen"@,
            Some(Command::About) => "About"@,
            Some(Command::Exit) => "Exit"@,
            None => ""@,
        }),
        i == 0 ==> command_of(entries_made@[i].id as int) == Some(Command::ToggleFullscreen),
        i == 1 ==> command_of(entries_made@[i].id as int) == Some(Command::About),
        i == 2 ==> command_of(entries_made@[i].id as int) == Some(Command::Exit),
{
}

} // verus!
