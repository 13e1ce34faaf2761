//! A key as the platform reports it and as the shell overlay takes it.

use vstd::prelude::*;

use crate::text::is_control;

verus! {

/// A number that is a Unicode scalar value.
pub open spec fn scalar_value(codepoint: u32) -> bool {
    codepoint <= 0x10FFFF && !(0xD800 <= codepoint <= 0xDFFF)
}

/// `char::from_u32` gives the character with the given number, and `None` for a
/// number that is no Unicode scalar value.
pub assume_specification[ char::from_u32 ](i: u32) -> (r: Option<char>)
    ensures
        r is Some <==> scalar_value(i),
        r matches Some(c) ==> c == i as char,
;

/// The first character of `c`'s lowercase mapping.
pub uninterp spec fn lowercase(c: char) -> char;

pub open spec fn ascii_lowercase(c: char) -> char {
    if 'A' <= c <= 'Z' {
        (c as u32 + 32) as char
    } else {
        c
    }
}

/// `char::to_lowercase`, of which the first character is taken: every character
/// has a lowercase mapping of one character or more, the same wherever it is
/// computed. Within ASCII it maps the capital letters to the small ones and
/// leaves the rest.
#[verifier::external_body]
fn first_lowercase(c: char) -> (r: Option<char>)
    ensures
        r == Some(lowercase(c)),
        c <= '\u{7f}' ==> r == Some(ascii_lowercase(c)),
{
    c.to_lowercase().next()
}

#[derive(Clone, Copy, Debug, PartialEq, Eq, Structural)]
pub enum PhysicalKey {
    Xkb(u16),
    Windows(u16),
    MacOS(u16),
}

#[derive(Clone, Copy, Debug, PartialEq, Eq, Structural)]
pub struct KeyReport {
    pub pressed: bool,
    pub modifiers: u32,
    pub windows_key_code: i32,
    pub native_key_code: i32,
    pub is_system_key: bool,
    pub character: u16,
    pub unmodified_character: u16,
    pub logical: Option<char>,
    pub physical: PhysicalKey,
}

#[derive(Clone, Copy, Debug, PartialEq, Eq, Structural)]
pub struct ShellKey {
    pub pressed: bool,
    pub modifiers: u32,
    pub windows_key_code: i32,
    pub logical: Option<char>,
    pub physical: PhysicalKey,
}

impl KeyReport {
    pub fn shell_key(&self) -> (r: ShellKey)
        ensures
            r == (ShellKey {
                pressed: self.pressed,
                modifiers: self.modifiers,
                windows_key_code: self.windows_key_code,
                logical: self.logical,
                physical: self.physical,
            }),
    {
        ShellKey {
            pressed: self.pressed,
            modifiers: self.modifiers,
            windows_key_code: self.windows_key_code,
            logical: self.logical,
            physical: self.physical,
        }
    }
}

/// The character a key stands for: lowercase, and none for a control code or
/// for a number that is no character.
pub fn logical_char(codepoint: u32) -> (r: Option<char>)
    ensures
        r is Some <==> scalar_value(codepoint) && !crate::text::control(codepoint as char),
        r matches Some(c) ==> c == lowercase(codepoint as char),
        r matches Some(c) ==> codepoint <= 0x7f ==> c == ascii_lowercase(codepoint as char),
{
    match char::from_u32(codepoint) {
        Some(c) => {
            if is_control(c) {
                None
            } else {
                first_lowercase(c)
            }
        },
        None => None,
    }
}

/// The surrogates are no characters, and nothing lies beyond the last code
/// point; every other number is one.
pub proof fn surrogates_are_no_characters(codepoint: u32)
    ensures
        0xD800 <= codepoint < 0xE000 ==> !scalar_value(codepoint),
        codepoint > 0x10FFFF ==> !scalar_value(codepoint),
        codepoint < 0xD800 ==> scalar_value(codepoint),
        0xE000 <= codepoint <= 0x10FFFF ==> scalar_value(codepoint),
{
}

/// Within ASCII the capitals become the small letters, 32 codes on, and
/// everything else stays.
pub proof fn capitals_become_small(c: char)
    ensures
        65 <= c as int <= 90 ==> ascii_lowercase(c) as int == c as int + 32,
        !(65 <= c as int <= 90) ==> ascii_lowercase(c) == c,
{
}

/// The shell is told of a key what the platform said of it.
pub proof fn keys_reach_the_shell_as_reported(k: KeyReport, r: ShellKey)
    requires
        call_ensures(KeyReport::shell_key, (&k,), r),
    ensures
        r.pressed == k.pressed,
        r.modifiers == k.modifiers,
        r.windows_key_code == k.windows_key_code,
        r.logical == k.logical,
        r.physical == k.physical,
{
}

/// A key stands for a character unless its number is none or is a control code;
/// a capital letter and its small one stand for the same.
pub proof fn keys_stand_for_small_letters(codepoint: u32, r: Option<char>)
    requires
        call_ensures(logical_char, (codepoint,), r),
    ensures
        codepoint < 32 || 127 <= codepoint < 160 ==> r is None,
        0xD800 <= codepoint < 0xE000 || codepoint > 0x10FFFF ==> r is None,
        32 <= codepoint < 127 ==> r is Some,
        65 <= codepoint <= 90 ==> r->0 as int == codepoint + 32,
        32 <= codepoint < 127 && !(65 <= codepoint <= 90) ==> r->0 as int == codepoint,
        160 <= codepoint < 0xD800 || 0xE000 <= codepoint <= 0x10FFFF ==> r == Some(
            lowercase(codepoint as char),
        ),
{
}

} // verus!
