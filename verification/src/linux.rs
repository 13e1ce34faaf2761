//! What the client decides for itself on Linux.

use vstd::prelude::*;

use crate::paths::directory_of;
use crate::text::{chars_of, joined};
use crate::web::init::CefPaths;

verus! {

/// Who draws the window's frame.
#[derive(Clone, Copy, Debug, PartialEq, Eq, Structural)]
pub enum WindowDecorations {
    /// The client itself.
    Csd,
    ServerThemed,
}

/// `c` without regard to ASCII case.
pub open spec fn folded(c: char) -> char {
    crate::input::key::ascii_lowercase(c)
}

pub open spec fn is_kde(s: Seq<char>) -> bool {
    s.len() == 3 && folded(s[0]) == 'k' && folded(s[1]) == 'd' && folded(s[2]) == 'e'
}

/// One of the names in a list that colons separate is KDE. `current` is the
/// name that the list is in the middle of.
pub open spec fn names_kde(list: Seq<char>, current: Seq<char>) -> bool
    decreases list.len(),
{
    if list.len() == 0 {
        is_kde(current)
    } else if list[0] == ':' {
        is_kde(current) || names_kde(list.drop_first(), seq![])
    } else {
        names_kde(list.drop_first(), current.push(list[0]))
    }
}

fn letter(c: char, small: char, capital: char) -> (r: bool)
    requires
        'a' <= small <= 'z',
        capital as u32 + 32 == small as u32,
    ensures
        r == (folded(c) == small),
{
    c == small || c == capital
}

fn spells_kde(v: &Vec<char>, from: usize, to: usize) -> (r: bool)
    requires
        from <= to <= v@.len(),
    ensures
        r == is_kde(v@.subrange(from as int, to as int)),
{
    to - from == 3 && letter(v[from], 'k', 'K') && letter(v[from + 1], 'd', 'D') && letter(
        v[from + 2],
        'e',
        'E',
    )
}

/// The decorations to use where none are configured. `desktop` is the session's
/// list of desktop names: KDE draws frames that fit, other desktops leave it to
/// the client.
pub fn default_window_decorations(desktop: Option<&str>) -> (r: WindowDecorations)
    ensures
        r == (match desktop {
            Some(list) => if names_kde(list@, seq![]) {
                WindowDecorations::ServerThemed
            } else {
                WindowDecorations::Csd
            },
            None => WindowDecorations::Csd,
        }),
{
    let list: &str = match desktop {
        None => return WindowDecorations::Csd,
        Some(list) => list,
    };
    let v: Vec<char> = chars_of(list);
    let mut start: usize = 0;
    let mut i: usize = 0;
    assert(v@.skip(0) =~= v@);
    assert(v@.subrange(0, 0) =~= seq![]);
    while i < v.len()
        invariant
            start <= i <= v@.len(),
            v@ == list@,
            desktop matches Some(l) && l@ == list@,
            names_kde(list@, seq![]) == names_kde(
                v@.skip(i as int),
                v@.subrange(start as int, i as int),
            ),
        decreases v@.len() - i,
    {
        proof {
            assert(v@.skip(i as int).drop_first() =~= v@.skip(i + 1));
            assert(v@.skip(i as int)[0] == v@[i as int]);
            assert(v@.subrange(start as int, i as int).push(v@[i as int]) =~= v@.subrange(
                start as int,
                i + 1,
            ));
            assert(v@.subrange(i + 1, i + 1) =~= seq![]);
        }
        if v[i] == ':' {
            if spells_kde(&v, start, i) {
                return WindowDecorations::ServerThemed;
            }
            start = i + 1;
        }
        i += 1;
    }
    assert(v@.skip(i as int) =~= seq![]);
    if spells_kde(&v, start, v.len()) {
        WindowDecorations::ServerThemed
    } else {
        WindowDecorations::Csd
    }
}

/// Where the browser engine's files are: beside the program, unless the build
/// fixed a place for them.
pub fn cef_paths(exe: &str, resources_dir: Option<&str>) -> (r: CefPaths)
    requires
        crate::paths::resolved(exe@),
    ensures
        ({
            let dir = match resources_dir {
                Some(d) => d@,
                None => match crate::paths::directory(exe@) {
                    Some(d) => d,
                    None => ""@,
                },
            };
            &&& r.browser_subprocess_path matches Some(p) && p@ == exe@
            &&& r.framework_dir_path is None
            &&& r.resources_dir_path matches Some(d) && d@ == dir
            &&& r.locales_dir_path matches Some(l) && l@ == dir + "/locales"@
        }),
{
    let dir: String = match resources_dir {
        Some(d) => d.to_owned(),
        None => match directory_of(exe) {
            Some(d) => d,
            None => "".to_owned(),
        },
    };
    let locales = joined(dir.as_str(), "/locales");
    CefPaths {
        browser_subprocess_path: Some(exe.to_owned()),
        framework_dir_path: None,
        resources_dir_path: Some(dir),
        locales_dir_path: Some(locales),
    }
}

/// A session is KDE's where one of its desktop names is `KDE`, in any case: a
/// name stands alone or between colons.
pub proof fn desktops_are_listed_between_colons(name: Seq<char>, rest: Seq<char>)
    requires
        forall|i: int| 0 <= i < name.len() ==> #[trigger] name[i] != ':',
    ensures
        names_kde(name, seq![]) <==> is_kde(name),
        names_kde(name + seq![':'] + rest, seq![]) <==> is_kde(name) || names_kde(rest, seq![]),
{
    lemma_one_name(name, seq![], rest);
    assert(seq![] + name =~= name);
}

proof fn lemma_one_name(name: Seq<char>, current: Seq<char>, rest: Seq<char>)
    requires
        forall|i: int| 0 <= i < name.len() ==> #[trigger] name[i] != ':',
    ensures
        names_kde(name, current) <==> is_kde(current + name),
        names_kde(name + seq![':'] + rest, current) <==> is_kde(current + name) || names_kde(
            rest,
            seq![],
        ),
    decreases name.len(),
{
    let list = name + seq![':'] + rest;
    if name.len() == 0 {
        assert(current + name =~= current);
        assert(list.drop_first() =~= rest);
    } else {
        let shorter = name.drop_first();
        assert forall|i: int| 0 <= i < shorter.len() implies #[trigger] shorter[i] != ':' by {
            assert(shorter[i] == name[i + 1]);
        }
        lemma_one_name(shorter, current.push(name[0]), rest);
        assert(current.push(name[0]) + shorter =~= current + name);
        assert(list.drop_first() =~= shorter + seq![':'] + rest);
        assert(list[0] == name[0]);
    }
}

/// The name has three letters, and no case.
pub proof fn kde_is_three_letters(s: Seq<char>)
    ensures
        is_kde(s) <==> s.len() == 3 && (s[0] == 'K' || s[0] == 'k') && (s[1] == 'D' || s[1] == 'd')
            && (s[2] == 'E' || s[2] == 'e'),
{
}

/// KDE draws the frames, and no other desktop does.
pub proof fn kde_draws_the_frames(list: &str, r: WindowDecorations, unknown: WindowDecorations)
    requires
        call_ensures(default_window_decorations, (Some(list),), r),
        call_ensures(default_window_decorations, (None,), unknown),
    ensures
        r is ServerThemed <==> names_kde(list@, seq![]),
        unknown is Csd,
{
}

/// The engine runs the client's own executable, and looks for its resources
/// where it is told to, else beside it; the locales lie below them.
pub proof fn engines_lie_beside_the_executable(
    exe: &str,
    dir: &str,
    beside: CefPaths,
    told: CefPaths,
)
    requires
        call_ensures(cef_paths, (exe, None), beside),
        call_ensures(cef_paths, (exe, Some(dir)), told),
    ensures
        beside.browser_subprocess_path is Some && beside.browser_subprocess_path->0@ == exe@,
        told.browser_subprocess_path is Some && told.browser_subprocess_path->0@ == exe@,
        told.resources_dir_path is Some && told.resources_dir_path->0@ == dir@,
        crate::paths::directory(exe@) matches Some(d) ==> beside.resources_dir_path->0@ == d,
        beside.locales_dir_path is Some && told.locales_dir_path is Some,
        told.locales_dir_path->0@ == dir@ + "/locales"@,
        beside.locales_dir_path->0@ == beside.resources_dir_path->0@ + "/locales"@,
        beside.framework_dir_path is None && told.framework_dir_path is None,
{
}

} // verus!
