//! Which pages get the user's script, and what the script says there.

use vstd::prelude::*;

use crate::text::{chars_of, same_text, text_of, trim};

verus! {

/// Where the server's address goes in the script.
pub const SERVER_URL_MARK: &'static str = "__SERVER_URL__";

/// `://` stands at `i`.
pub open spec fn scheme_end_at(s: Seq<char>, i: int) -> bool {
    0 <= i && i + 3 <= s.len() && s[i] == ':' && s[i + 1] == '/' && s[i + 2] == '/'
}

/// `s` behind its first `://`, or all of it where there is none.
pub open spec fn after_scheme(s: Seq<char>) -> Seq<char> {
    if exists|i: int| scheme_end_at(s, i) {
        s.skip(first_scheme_end(s, 0) + 3)
    } else {
        s
    }
}

pub open spec fn first_scheme_end(s: Seq<char>, from: int) -> int
    decreases s.len() - from,
{
    if from >= s.len() || scheme_end_at(s, from) {
        from
    } else {
        first_scheme_end(s, from + 1)
    }
}

/// A character that a host ends before.
pub open spec fn ends_host(c: char) -> bool {
    c == '/' || c == '?' || c == '#' || c == ':'
}

/// How many characters of `s` come before the host ends.
pub open spec fn host_len(s: Seq<char>) -> nat
    decreases s.len(),
{
    if s.len() == 0 || ends_host(s[0]) {
        0
    } else {
        1 + host_len(s.drop_first())
    }
}

pub open spec fn lowered(s: Seq<char>) -> Seq<char> {
    Seq::new(s.len(), |i: int| crate::input::key::ascii_lowercase(s[i]))
}

/// The host that an address names, in lower case: between the scheme and the
/// first of port, path, query and fragment.
pub open spec fn host(url: Seq<char>) -> Option<Seq<char>> {
    let rest = after_scheme(url);
    let name = rest.take(host_len(rest) as int);
    if name.len() == 0 {
        None
    } else {
        Some(lowered(name))
    }
}

proof fn lemma_host_len(s: Seq<char>, n: int)
    requires
        0 <= n <= s.len(),
        forall|i: int| 0 <= i < n ==> !ends_host(#[trigger] s[i]),
        n == s.len() || ends_host(s[n]),
    ensures
        host_len(s) == n,
    decreases n,
{
    if n > 0 {
        let t = s.drop_first();
        assert forall|i: int| 0 <= i < n - 1 implies !ends_host(#[trigger] t[i]) by {
            assert(t[i] == s[i + 1]);
        }
        lemma_host_len(t, n - 1);
    }
}

proof fn lemma_no_scheme_before(s: Seq<char>, from: int, to: int)
    requires
        0 <= from <= to <= s.len(),
        forall|i: int| from <= i < to ==> !(#[trigger] scheme_end_at(s, i)),
    ensures
        first_scheme_end(s, from) == first_scheme_end(s, to),
    decreases to - from,
{
    if from < to {
        lemma_no_scheme_before(s, from + 1, to);
    }
}

fn lower(c: char) -> (r: char)
    ensures
        r == crate::input::key::ascii_lowercase(c),
{
    if 'A' <= c && c <= 'Z' {
        let n: u8 = c as u8;
        (n + 32) as char
    } else {
        c
    }
}

/// Where the part behind the scheme starts.
fn scheme_skip(v: &Vec<char>) -> (start: usize)
    ensures
        start <= v@.len(),
        v@.skip(start as int) == after_scheme(v@),
{
    let mut i: usize = 0;
    while i < v.len()
        invariant
            i <= v@.len(),
            forall|j: int| 0 <= j < i ==> !(#[trigger] scheme_end_at(v@, j)),
        decreases v@.len() - i,
    {
        if v.len() - i >= 3 && v[i] == ':' && v[i + 1] == '/' && v[i + 2] == '/' {
            proof {
                assert(scheme_end_at(v@, i as int));
                lemma_no_scheme_before(v@, 0, i as int);
            }
            return i + 3;
        }
        assert(!scheme_end_at(v@, i as int));
        i += 1;
    }
    assert forall|j: int| !scheme_end_at(v@, j) by {}
    assert(v@.skip(0) =~= v@);
    0
}

pub fn host_of(url: &str) -> (r: Option<String>)
    ensures
        match r {
            Some(h) => host(url@) == Some(h@),
            None => host(url@) is None,
        },
{
    let v: Vec<char> = chars_of(url);
    let start: usize = scheme_skip(&v);
    let ghost rest = v@.skip(start as int);
    let mut lowered_chars: Vec<char> = Vec::new();
    let mut i: usize = start;
    while i < v.len() && v[i] != '/' && v[i] != '?' && v[i] != '#' && v[i] != ':'
        invariant
            start <= i <= v@.len(),
            rest == v@.skip(start as int),
            forall|j: int| 0 <= j < i - start ==> !ends_host(#[trigger] rest[j]),
            lowered_chars@ == lowered(rest.take(i - start)),
        decreases v@.len() - i,
    {
        assert(rest[i - start] == v@[i as int]);
        lowered_chars.push(lower(v[i]));
        assert(lowered_chars@ =~= lowered(rest.take(i + 1 - start)));
        i += 1;
    }
    proof {
        if i < v@.len() {
            assert(rest[i - start] == v@[i as int]);
        }
        lemma_host_len(rest, i - start);
        assert(rest.take(i - start).len() == i - start);
    }
    if i == start {
        None
    } else {
        let text = text_of(&lowered_chars, 0, lowered_chars.len());
        assert(lowered_chars@.subrange(0, lowered_chars@.len() as int) =~= lowered_chars@);
        Some(text)
    }
}

/// The page is one of the configured server's: it has the server's host.
pub fn is_jellyfin_host(page_host: &str, server_url: &str) -> (r: bool)
    ensures
        r == (host(server_url@) == Some(page_host@)),
{
    match host_of(server_url) {
        Some(server_host) => same_text(server_host.as_str(), page_host),
        None => false,
    }
}

/// Whether a page gets the user's script: any page that names a host, but the
/// server's own.
pub fn wants_script(page_url: &str, server_url: &str) -> (r: bool)
    ensures
        r == (host(page_url@) is Some && host(page_url@) != host(server_url@)),
{
    match host_of(page_url) {
        None => false,
        Some(page_host) => !is_jellyfin_host(page_host.as_str(), server_url),
    }
}

pub open spec fn starts_with(s: Seq<char>, p: Seq<char>) -> bool {
    p.len() <= s.len() && s.take(p.len() as int) == p
}

/// `s` with every `mark` replaced by `with`, from left to right.
pub open spec fn replaced(s: Seq<char>, mark: Seq<char>, with: Seq<char>) -> Seq<char>
    decreases s.len(),
{
    if s.len() == 0 || mark.len() == 0 {
        s
    } else if starts_with(s, mark) {
        with + replaced(s.skip(mark.len() as int), mark, with)
    } else {
        seq![s[0]] + replaced(s.drop_first(), mark, with)
    }
}

fn mark_at(v: &Vec<char>, at: usize, mark: &Vec<char>) -> (r: bool)
    requires
        at <= v@.len(),
    ensures
        r == starts_with(v@.skip(at as int), mark@),
{
    if mark.len() > v.len() - at {
        return false;
    }
    let ghost rest = v@.skip(at as int);
    let mut i: usize = 0;
    while i < mark.len()
        invariant
            i <= mark@.len(),
            at + mark@.len() <= v.len(),
            rest == v@.skip(at as int),
            rest.take(i as int) == mark@.take(i as int),
        decreases mark@.len() - i,
    {
        if v[at + i] != mark[i] {
            assert(rest[i as int] == v@[at + i]);
            assert(rest.take(mark@.len() as int)[i as int] != mark@[i as int]);
            return false;
        }
        assert(rest.take(i + 1) =~= rest.take(i as int).push(v@[at + i]));
        assert(mark@.take(i + 1) =~= mark@.take(i as int).push(mark@[i as int]));
        i += 1;
    }
    assert(mark@.take(i as int) =~= mark@);
    true
}

fn replace(s: &str, mark: &str, with: &str) -> (r: String)
    requires
        mark@.len() > 0,
    ensures
        r@ == replaced(s@, mark@, with@),
{
    let v: Vec<char> = chars_of(s);
    let m: Vec<char> = chars_of(mark);
    let mut out = String::new();
    let mut i: usize = 0;
    assert(v@.skip(0) =~= v@);
    assert(out@ + replaced(v@.skip(0), m@, with@) =~= replaced(v@, m@, with@));
    while i < v.len()
        invariant
            i <= v@.len(),
            m@ == mark@,
            m@.len() > 0,
            out@ + replaced(v@.skip(i as int), m@, with@) == replaced(v@, m@, with@),
        decreases v@.len() - i,
    {
        let ghost rest = v@.skip(i as int);
        if mark_at(&v, i, &m) {
            out.append(with);
            assert(rest.skip(m@.len() as int) =~= v@.skip(i + m@.len()));
            i += m.len();
        } else {
            out.push(v[i]);
            assert(rest.drop_first() =~= v@.skip(i + 1));
            assert(rest[0] == v@[i as int]);
            i += 1;
        }
        assert(out@ + replaced(v@.skip(i as int), m@, with@) =~= replaced(v@, m@, with@));
    }
    assert(v@.skip(i as int) =~= seq![]);
    assert(out@ =~= replaced(v@, m@, with@));
    out
}

/// The script as it runs on a page: with the server's address filled in. A
/// blank script does not run.
pub fn injected_script(code: &str, server_url: &str) -> (r: Option<String>)
    ensures
        r is Some <==> crate::text::trimmed(code@).len() > 0,
        r matches Some(s) ==> s@ == replaced(code@, "__SERVER_URL__"@, server_url@),
{
    if trim(code).as_str().is_empty() {
        return None;
    }
    proof {
        reveal_strlit("__SERVER_URL__");
    }
    Some(replace(code, SERVER_URL_MARK, server_url))
}

/// A host is a name and nothing more: not empty, without port, path, query or
/// fragment, and in lower case, so that two spellings of one host are equal.
pub proof fn host_is_a_bare_name(url: Seq<char>)
    ensures
        host(url) matches Some(h) ==> h.len() > 0 && forall|i: int|
            0 <= i < h.len() ==> !ends_host(#[trigger] h[i]) && !('A' <= h[i] <= 'Z'),
{
    let rest = after_scheme(url);
    lemma_before_end(rest);
}

proof fn lemma_before_end(s: Seq<char>)
    ensures
        host_len(s) <= s.len(),
        forall|i: int| 0 <= i < host_len(s) ==> !ends_host(#[trigger] s[i]),
    decreases s.len(),
{
    if s.len() > 0 && !ends_host(s[0]) {
        let t = s.drop_first();
        lemma_before_end(t);
        assert forall|i: int| 0 <= i < host_len(s) implies !ends_host(#[trigger] s[i]) by {
            if i > 0 {
                assert(t[i - 1] == s[i]);
            }
        }
    }
}

/// An address names the host that stands between its scheme and whatever
/// follows it: a port, a path, a query or a fragment. Case does not count.
pub proof fn addresses_name_their_host(scheme: Seq<char>, name: Seq<char>, tail: Seq<char>)
    requires
        name.len() > 0,
        forall|i: int| 0 <= i < name.len() ==> !ends_host(#[trigger] name[i]),
        tail.len() > 0 ==> ends_host(tail[0]),
        forall|i: int| 0 <= i < scheme.len() ==> #[trigger] scheme[i] != ':',
    ensures
        host(scheme + seq![':', '/', '/'] + name + tail) matches Some(h) && h.len() == name.len()
            && (forall|i: int|
            0 <= i < h.len() ==> #[trigger] h[i] == crate::input::key::ascii_lowercase(name[i])),
        host(scheme + seq![':', '/', '/'] + name + tail) == host(
            scheme + seq![':', '/', '/'] + lowered(name),
        ),
        host(scheme + seq![':', '/', '/']) is None,
{
    let url = scheme + seq![':', '/', '/'] + name + tail;
    lemma_behind_scheme(scheme, name + tail);
    assert(scheme + seq![':', '/', '/'] + (name + tail) =~= url);
    let rest = name + tail;
    lemma_host_len(rest, name.len() as int);
    assert(rest.take(name.len() as int) =~= name);
    let small = lowered(name);
    lemma_behind_scheme(scheme, small);
    assert forall|i: int| 0 <= i < small.len() implies !ends_host(#[trigger] small[i]) by {
        assert(!ends_host(name[i]));
    }
    lemma_host_len(small, small.len() as int);
    assert(small.take(small.len() as int) =~= small);
    assert(lowered(small) =~= small);
    lemma_behind_scheme(scheme, seq![]);
    assert(scheme + seq![':', '/', '/'] + seq![] =~= scheme + seq![':', '/', '/']);
}

proof fn lemma_behind_scheme(scheme: Seq<char>, rest: Seq<char>)
    requires
        forall|i: int| 0 <= i < scheme.len() ==> #[trigger] scheme[i] != ':',
    ensures
        after_scheme(scheme + seq![':', '/', '/'] + rest) == rest,
{
    let s = scheme + seq![':', '/', '/'] + rest;
    let n = scheme.len() as int;
    assert(scheme_end_at(s, n));
    assert forall|i: int| 0 <= i < n implies !(#[trigger] scheme_end_at(s, i)) by {
        assert(s[i] == scheme[i]);
    }
    lemma_no_scheme_before(s, 0, n);
    assert(s.skip(n + 3) =~= rest);
}

/// An address without a scheme starts with its host.
pub proof fn bare_addresses_start_with_their_host(name: Seq<char>)
    requires
        name.len() > 0,
        forall|i: int| 0 <= i < name.len() ==> !ends_host(#[trigger] name[i]),
    ensures
        host(name) == Some(lowered(name)),
        host(seq![]) is None,
        forall|c: char| ends_host(c) <==> (c == '/' || c == ':' || c == '#' || c == '?'),
{
    assert forall|i: int| !(#[trigger] scheme_end_at(name, i)) by {
        if 0 <= i && i + 3 <= name.len() {
            assert(!ends_host(name[i]));
        }
    }
    lemma_host_len(name, name.len() as int);
    assert(name.take(name.len() as int) =~= name);
    let empty = Seq::<char>::empty();
    assert forall|i: int| !(#[trigger] scheme_end_at(empty, i)) by {}
    assert(empty.take(host_len(empty) as int).len() == 0);
}

/// A page gets the user's script where it names a host that is not the
/// server's.
pub proof fn scripts_run_on_other_hosts(page: &str, server: &str, r: bool)
    requires
        call_ensures(wants_script, (page, server), r),
    ensures
        host(page@) is None ==> !r,
        host(page@) is Some && host(page@) == host(server@) ==> !r,
        host(page@) is Some && host(page@) != host(server@) ==> r,
{
}

/// Filling a mark in with itself changes nothing, and a text without the mark
/// stays as it is.
pub proof fn marks_filled_with_themselves_stay(s: Seq<char>, mark: Seq<char>, with: Seq<char>)
    requires
        mark.len() > 0,
    ensures
        replaced(s, mark, mark) == s,
        (forall|i: int| 0 <= i < s.len() ==> #[trigger] s[i] != mark[0]) ==> replaced(s, mark, with)
            == s,
    decreases s.len(),
{
    if s.len() > 0 {
        if starts_with(s, mark) {
            let rest = s.skip(mark.len() as int);
            marks_filled_with_themselves_stay(rest, mark, with);
            assert(s.take(mark.len() as int) + rest =~= s);
            assert(s[0] == s.take(mark.len() as int)[0]);
        } else {
            let rest = s.drop_first();
            marks_filled_with_themselves_stay(rest, mark, with);
            assert(seq![s[0]] + rest =~= s);
            if forall|i: int| 0 <= i < s.len() ==> #[trigger] s[i] != mark[0] {
                assert forall|i: int| 0 <= i < rest.len() implies #[trigger] rest[i] != mark[0] by {
                    assert(rest[i] == s[i + 1]);
                }
            }
        }
    }
}

/// Every mark is filled in where it stands, with the text around it left alone.
pub proof fn marks_are_filled_in_where_they_stand(
    before: Seq<char>,
    mark: Seq<char>,
    after: Seq<char>,
    with: Seq<char>,
)
    requires
        mark.len() > 0,
        forall|i: int| 0 <= i < before.len() ==> #[trigger] before[i] != mark[0],
    ensures
        replaced(before + mark + after, mark, with) == before + with + replaced(after, mark, with),
    decreases before.len(),
{
    let s = before + mark + after;
    if before.len() == 0 {
        assert(s.take(mark.len() as int) =~= mark);
        assert(s.skip(mark.len() as int) =~= after);
        assert(before + with + replaced(after, mark, with) =~= with + replaced(after, mark, with));
    } else {
        let shorter = before.drop_first();
        assert(s[0] == before[0]);
        if starts_with(s, mark) {
            assert(s.take(mark.len() as int)[0] == s[0]);
        }
        assert(s.drop_first() =~= shorter + mark + after);
        assert forall|i: int| 0 <= i < shorter.len() implies #[trigger] shorter[i] != mark[0] by {
            assert(shorter[i] == before[i + 1]);
        }
        marks_are_filled_in_where_they_stand(shorter, mark, after, with);
        assert(seq![s[0]] + (shorter + with + replaced(after, mark, with)) =~= before + with
            + replaced(after, mark, with));
    }
}

/// A page is on the server's host where the server's address names it.
pub proof fn the_servers_host_is_recognised(
    name: &str,
    server: &str,
    other: &str,
    own: bool,
    foreign: bool,
)
    requires
        call_ensures(is_jellyfin_host, (name, server), own),
        call_ensures(is_jellyfin_host, (other, server), foreign),
        host(server@) == Some(name@),
        other@ != name@,
    ensures
        own,
        !foreign,
{
}

/// A script that is not blank is injected with the server's address in place of
/// its mark, and without a mark as it stands.
pub proof fn scripts_are_injected_with_the_address(code: &str, server: &str, r: Option<String>)
    requires
        call_ensures(injected_script, (code, server), r),
    ensures
        crate::text::trimmed(code@).len() == 0 ==> r is None,
        crate::text::trimmed(code@).len() > 0 ==> r is Some,
        r is Some && server@ == "__SERVER_URL__"@ ==> r->0@ == code@,
{
    reveal_strlit("__SERVER_URL__");
    marks_filled_with_themselves_stay(code@, "__SERVER_URL__"@, server@);
}

} // verus!
