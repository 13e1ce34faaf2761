//! Where Discord's local socket may be.

use vstd::prelude::*;

use crate::text::{chars_of, decimal_text, joined, same_text};

verus! {

/// The sandboxed installations that keep their sockets one level deeper.
pub const NESTED_FLATPAK: &'static str = "app/com.discordapp.Discord";

pub const NESTED_CANARY: &'static str = "app/com.discordapp.DiscordCanary";

pub const NESTED_PTB: &'static str = "app/com.discordapp.DiscordPTB";

pub const NESTED_SNAP: &'static str = "snap.discord";

/// The runtime directories the environment names, in the order they are tried.
#[derive(Debug)]
pub struct RuntimeDirs {
    pub xdg_runtime_dir: Option<String>,
    pub tmpdir: Option<String>,
    pub tmp: Option<String>,
    pub temp: Option<String>,
}

/// A path component that counts: neither empty nor `.`.
pub open spec fn significant(part: Seq<char>) -> bool {
    part.len() > 0 && part != seq!['.']
}

pub open spec fn finished(parts: Seq<Seq<char>>, current: Seq<char>) -> Seq<Seq<char>> {
    if significant(current) {
        parts.push(current)
    } else {
        parts
    }
}

/// The components that `path` has closed with a slash, and the text after the
/// last slash.
pub open spec fn scanned(path: Seq<char>) -> (Seq<Seq<char>>, Seq<char>)
    decreases path.len(),
{
    if path.len() == 0 {
        (seq![], seq![])
    } else {
        let (parts, current) = scanned(path.drop_last());
        if path.last() == '/' {
            (finished(parts, current), seq![])
        } else {
            (parts, current.push(path.last()))
        }
    }
}

/// The components of a Unix path, without the ones that do not count.
pub open spec fn components(path: Seq<char>) -> Seq<Seq<char>> {
    finished(scanned(path).0, scanned(path).1)
}

pub open spec fn absolute(path: Seq<char>) -> bool {
    path.len() > 0 && path[0] == '/'
}

/// A relative path that starts at `.`: the one place where the dot counts.
pub open spec fn starts_at_dot(path: Seq<char>) -> bool {
    path.len() > 0 && path[0] == '.' && (path.len() == 1 || path[1] == '/')
}

/// Two spellings of one Unix path.
pub open spec fn same_path_spec(a: Seq<char>, b: Seq<char>) -> bool {
    &&& absolute(a) == absolute(b)
    &&& starts_at_dot(a) == starts_at_dot(b)
    &&& components(a) == components(b)
}

/// `name` inside the directory `base`.
pub open spec fn path_join(base: Seq<char>, name: Seq<char>) -> Seq<char> {
    if base.len() > 0 && base.last() != '/' {
        base + "/"@ + name
    } else {
        base + name
    }
}

/// `paths` without those that spell the path just before them again.
pub open spec fn deduped(paths: Seq<Seq<char>>) -> Seq<Seq<char>>
    decreases paths.len(),
{
    if paths.len() == 0 {
        paths
    } else {
        let kept = deduped(paths.drop_last());
        if kept.len() > 0 && same_path_spec(kept.last(), paths.last()) {
            kept
        } else {
            kept.push(paths.last())
        }
    }
}

pub open spec fn named_dir(dir: Option<String>) -> Seq<Seq<char>> {
    match dir {
        Some(d) => if d@.len() > 0 {
            seq![d@]
        } else {
            seq![]
        },
        None => seq![],
    }
}

/// The directories to look in: those the environment names, then `/tmp`.
pub open spec fn base_dirs(dirs: RuntimeDirs) -> Seq<Seq<char>> {
    deduped(
        named_dir(dirs.xdg_runtime_dir) + named_dir(dirs.tmpdir) + named_dir(dirs.tmp) + named_dir(
            dirs.temp,
        ) + seq!["/tmp"@],
    )
}

/// The directory that the `group`th run of ten sockets lies in.
pub open spec fn socket_dir(base: Seq<char>, group: int) -> Seq<char> {
    if group == 0 {
        base
    } else if group == 1 {
        path_join(base, "app/com.discordapp.Discord"@)
    } else if group == 2 {
        path_join(base, "app/com.discordapp.DiscordCanary"@)
    } else if group == 3 {
        path_join(base, "app/com.discordapp.DiscordPTB"@)
    } else {
        path_join(base, "snap.discord"@)
    }
}

/// The `n`th of the fifty sockets under `base`: ten in each directory.
pub open spec fn socket_path(base: Seq<char>, n: int) -> Seq<char> {
    path_join(
        socket_dir(base, n / 10),
        "discord-ipc-"@ + crate::text::decimal((n % 10) as nat),
    )
}

/// Every socket under `bases`, base by base.
pub open spec fn socket_paths(bases: Seq<Seq<char>>) -> Seq<Seq<char>> {
    Seq::new(bases.len() * 50, |k: int| socket_path(bases[k / 50], k % 50))
}

pub open spec fn texts(v: Seq<String>) -> Seq<Seq<char>> {
    Seq::new(v.len(), |i: int| v[i]@)
}

fn push_text(v: &mut Vec<String>, s: String)
    ensures
        texts(final(v)@) == texts(old(v)@).push(s@),
{
    v.push(s);
    assert(texts(v@) =~= texts(old(v)@).push(s@));
}

fn finish(parts: &mut Vec<String>, current: String)
    ensures
        texts(final(parts)@) == finished(texts(old(parts)@), current@),
{
    proof {
        reveal_strlit(".");
        assert("."@ =~= seq!['.']);
    }
    if current.as_str().unicode_len() > 0 && !same_text(current.as_str(), ".") {
        push_text(parts, current);
    }
}

fn path_components(path: &Vec<char>) -> (parts: Vec<String>)
    ensures
        texts(parts@) == components(path@),
{
    let mut parts: Vec<String> = Vec::new();
    let mut current = String::new();
    assert(texts(parts@) =~= seq![]);
    assert(path@.take(0) =~= seq![]);
    let mut i: usize = 0;
    while i < path.len()
        invariant
            i <= path@.len(),
            (texts(parts@), current@) == scanned(path@.take(i as int)),
        decreases path@.len() - i,
    {
        let c: char = path[i];
        proof {
            assert(path@.take(i + 1).drop_last() =~= path@.take(i as int));
        }
        if c == '/' {
            finish(&mut parts, current);
            current = String::new();
            assert(current@ =~= seq![]);
        } else {
            current.push(c);
        }
        i += 1;
    }
    assert(path@.take(i as int) =~= path@);
    finish(&mut parts, current);
    parts
}

fn same_texts(a: &Vec<String>, b: &Vec<String>) -> (r: bool)
    ensures
        r == (texts(a@) == texts(b@)),
{
    if a.len() != b.len() {
        assert(texts(a@).len() != texts(b@).len());
        return false;
    }
    let mut i: usize = 0;
    while i < a.len()
        invariant
            i <= a@.len(),
            a@.len() == b@.len(),
            forall|j: int| 0 <= j < i ==> #[trigger] a@[j]@ == b@[j]@,
        decreases a@.len() - i,
    {
        if !same_text(a[i].as_str(), b[i].as_str()) {
            assert(texts(a@)[i as int] != texts(b@)[i as int]);
            return false;
        }
        i += 1;
    }
    assert(texts(a@) =~= texts(b@));
    true
}

/// Whether two texts spell one Unix path.
pub fn same_path(a: &str, b: &str) -> (r: bool)
    ensures
        r == same_path_spec(a@, b@),
{
    let a: Vec<char> = chars_of(a);
    let b: Vec<char> = chars_of(b);
    let a_absolute = a.len() > 0 && a[0] == '/';
    let b_absolute = b.len() > 0 && b[0] == '/';
    let a_dot = a.len() > 0 && a[0] == '.' && (a.len() == 1 || a[1] == '/');
    let b_dot = b.len() > 0 && b[0] == '.' && (b.len() == 1 || b[1] == '/');
    a_absolute == b_absolute && a_dot == b_dot && same_texts(
        &path_components(&a),
        &path_components(&b),
    )
}

/// `name` inside the directory `base`.
pub fn join_path(base: &str, name: &str) -> (r: String)
    ensures
        r@ == path_join(base@, name@),
{
    let chars: Vec<char> = chars_of(base);
    if chars.len() > 0 && chars[chars.len() - 1] != '/' {
        joined(joined(base, "/").as_str(), name)
    } else {
        joined(base, name)
    }
}

fn push_base(bases: &mut Vec<String>, Ghost(given): Ghost<Seq<Seq<char>>>, dir: &str)
    requires
        texts(old(bases)@) == deduped(given),
    ensures
        texts(final(bases)@) == deduped(given.push(dir@)),
{
    assert(given.push(dir@).drop_last() =~= given);
    if bases.len() > 0 {
        assert(texts(bases@).last() == bases@[bases@.len() - 1]@);
        if same_path(bases[bases.len() - 1].as_str(), dir) {
            return;
        }
    }
    push_text(bases, dir.to_owned());
}

fn push_named(bases: &mut Vec<String>, Ghost(given): Ghost<Seq<Seq<char>>>, dir: &Option<String>)
    requires
        texts(old(bases)@) == deduped(given),
    ensures
        texts(final(bases)@) == deduped(given + named_dir(*dir)),
{
    match dir {
        Some(d) => {
            if d.as_str().unicode_len() > 0 {
                assert(given + named_dir(*dir) =~= given.push(d@));
                push_base(bases, Ghost(given), d.as_str());
            } else {
                assert(given + named_dir(*dir) =~= given);
            }
        },
        None => {
            assert(given + named_dir(*dir) =~= given);
        },
    }
}

fn bases_of(dirs: &RuntimeDirs) -> (bases: Vec<String>)
    ensures
        texts(bases@) == base_dirs(*dirs),
        bases@.len() <= 5,
{
    let mut bases: Vec<String> = Vec::new();
    assert(texts(bases@) =~= deduped(seq![]));
    let ghost none: Seq<Seq<char>> = seq![];
    push_named(&mut bases, Ghost(none), &dirs.xdg_runtime_dir);
    let ghost g1 = none + named_dir(dirs.xdg_runtime_dir);
    assert(g1 =~= named_dir(dirs.xdg_runtime_dir));
    push_named(&mut bases, Ghost(g1), &dirs.tmpdir);
    let ghost g2 = g1 + named_dir(dirs.tmpdir);
    push_named(&mut bases, Ghost(g2), &dirs.tmp);
    let ghost g3 = g2 + named_dir(dirs.tmp);
    push_named(&mut bases, Ghost(g3), &dirs.temp);
    let ghost g4 = g3 + named_dir(dirs.temp);
    push_base(&mut bases, Ghost(g4), "/tmp");
    proof {
        assert(g4.push("/tmp"@) =~= g4 + seq!["/tmp"@]);
        lemma_deduped_len(g4.push("/tmp"@));
        assert(texts(bases@).len() == bases@.len());
    }
    bases
}

proof fn lemma_deduped_len(paths: Seq<Seq<char>>)
    ensures
        deduped(paths).len() <= paths.len(),
        paths.len() > 0 ==> deduped(paths).len() > 0,
    decreases paths.len(),
{
    if paths.len() > 0 {
        lemma_deduped_len(paths.drop_last());
    }
}

proof fn lemma_deduped_first(paths: Seq<Seq<char>>)
    requires
        paths.len() > 0,
    ensures
        deduped(paths).len() > 0,
        deduped(paths)[0] == paths[0],
    decreases paths.len(),
{
    if paths.len() > 1 {
        lemma_deduped_first(paths.drop_last());
    } else {
        assert(deduped(paths.drop_last()) == paths.drop_last());
    }
}

fn socket_at(base: &str, n: u64) -> (r: String)
    requires
        n < 50,
    ensures
        r@ == socket_path(base@, n as int),
{
    let group: u64 = n / 10;
    let dir: String = if group == 0 {
        base.to_owned()
    } else if group == 1 {
        join_path(base, NESTED_FLATPAK)
    } else if group == 2 {
        join_path(base, NESTED_CANARY)
    } else if group == 3 {
        join_path(base, NESTED_PTB)
    } else {
        join_path(base, NESTED_SNAP)
    };
    join_path(dir.as_str(), joined("discord-ipc-", decimal_text(n % 10).as_str()).as_str())
}

/// The sockets to try, in order.
pub fn candidates(dirs: &RuntimeDirs) -> (out: Vec<String>)
    ensures
        texts(out@) == socket_paths(base_dirs(*dirs)),
{
    let bases: Vec<String> = bases_of(dirs);
    let ghost base_texts = texts(bases@);
    let total: usize = bases.len() * 50;
    let mut out: Vec<String> = Vec::new();
    assert(texts(out@) =~= socket_paths(base_texts).take(0));
    let mut k: usize = 0;
    while k < total
        invariant
            k <= total,
            total == bases@.len() * 50,
            bases@.len() <= 5,
            base_texts == texts(bases@),
            texts(out@) == socket_paths(base_texts).take(k as int),
        decreases total - k,
    {
        let base: &String = &bases[k / 50];
        push_text(&mut out, socket_at(base.as_str(), (k % 50) as u64));
        assert(texts(out@) =~= socket_paths(base_texts).take(k + 1));
        k += 1;
    }
    assert(socket_paths(base_texts).take(k as int) =~= socket_paths(base_texts));
    out
}

pub open spec fn pipe_path(n: int) -> Seq<char> {
    "\\\\.\\pipe\\discord-ipc-"@ + crate::text::decimal(n as nat)
}

/// The named pipes to try on Windows, in order.
pub fn pipe_candidates() -> (out: Vec<String>)
    ensures
        texts(out@) == Seq::new(10, |i: int| pipe_path(i)),
{
    let mut out: Vec<String> = Vec::new();
    assert(texts(out@) =~= Seq::new(10, |i: int| pipe_path(i)).take(0));
    let mut i: u64 = 0;
    while i < 10
        invariant
            i <= 10,
            texts(out@) == Seq::new(10, |i: int| pipe_path(i)).take(i as int),
        decreases 10 - i,
    {
        push_text(&mut out, joined("\\\\.\\pipe\\discord-ipc-", decimal_text(i).as_str()));
        assert(texts(out@) =~= Seq::new(10, |i: int| pipe_path(i)).take(i + 1));
        i += 1;
    }
    assert(texts(out@) =~= Seq::new(10, |i: int| pipe_path(i)));
    out
}

/// The first socket tried is number zero, directly under the first base: the
/// first directory that the environment names, and `/tmp` where it names none.
pub proof fn first_candidate(dirs: RuntimeDirs)
    ensures
        ({
            let named = named_dir(dirs.xdg_runtime_dir) + named_dir(dirs.tmpdir) + named_dir(
                dirs.tmp,
            ) + named_dir(dirs.temp) + seq!["/tmp"@];
            &&& socket_paths(base_dirs(dirs)).len() > 0
            &&& socket_paths(base_dirs(dirs))[0] == path_join(named[0], "discord-ipc-0"@)
        }),
{
    let named = named_dir(dirs.xdg_runtime_dir) + named_dir(dirs.tmpdir) + named_dir(dirs.tmp)
        + named_dir(dirs.temp) + seq!["/tmp"@];
    lemma_deduped_first(named);
    reveal_strlit("discord-ipc-");
    reveal_strlit("discord-ipc-0");
    assert("discord-ipc-"@ + crate::text::decimal(0) =~= "discord-ipc-0"@);
}

/// Every directory is probed in index order: within one run of ten, the socket
/// numbers count up from zero.
pub proof fn candidates_in_index_order(dirs: RuntimeDirs, k: int)
    requires
        0 <= k < socket_paths(base_dirs(dirs)).len(),
    ensures
        ({
            let base = base_dirs(dirs)[k / 50];
            socket_paths(base_dirs(dirs))[k] == path_join(
                socket_dir(base, k % 50 / 10),
                "discord-ipc-"@ + crate::text::decimal((k % 10) as nat),
            )
        }),
{
    assert(k % 50 % 10 == k % 10);
}

proof fn lemma_scan_on(a: Seq<char>, b: Seq<char>)
    ensures
        ({
            let s = scanned(a + seq!['/'] + b);
            &&& s.0 == components(a) + scanned(b).0
            &&& s.1 == scanned(b).1
        }),
    decreases b.len(),
{
    let whole = a + seq!['/'] + b;
    if b.len() == 0 {
        assert(whole.drop_last() =~= a);
        assert(whole.last() == '/');
        assert(components(a) + Seq::<Seq<char>>::empty() =~= components(a));
    } else {
        let shorter = b.drop_last();
        lemma_scan_on(a, shorter);
        assert(whole.drop_last() =~= a + seq!['/'] + shorter);
        assert(whole.last() == b.last());
        let (parts, current) = scanned(shorter);
        if b.last() == '/' {
            assert(finished(components(a) + parts, current) =~= components(a) + finished(
                parts,
                current,
            ));
        }
    }
}

/// A path's components are those of its parts, in order; a name without a slash
/// is one, unless it is empty or a dot.
pub proof fn paths_are_made_of_their_parts(a: Seq<char>, b: Seq<char>, name: Seq<char>)
    requires
        forall|i: int| 0 <= i < name.len() ==> #[trigger] name[i] != '/',
    ensures
        components(a + seq!['/'] + b) == components(a) + components(b),
        name.len() > 0 && name != seq!['.'] ==> components(name) == seq![name],
        name.len() == 0 || name == seq!['.'] ==> components(name).len() == 0,
{
    lemma_scan_on(a, b);
    let (parts, current) = scanned(b);
    assert(finished(components(a) + parts, current) =~= components(a) + finished(parts, current));
    lemma_scan_name(name);
}

proof fn lemma_scan_name(name: Seq<char>)
    requires
        forall|i: int| 0 <= i < name.len() ==> #[trigger] name[i] != '/',
    ensures
        scanned(name) == (Seq::<Seq<char>>::empty(), name),
    decreases name.len(),
{
    if name.len() > 0 {
        let shorter = name.drop_last();
        assert forall|i: int| 0 <= i < shorter.len() implies #[trigger] shorter[i] != '/' by {
            assert(shorter[i] == name[i]);
        }
        lemma_scan_name(shorter);
        assert(shorter.push(name.last()) =~= name);
        assert(name.last() != '/');
    }
}

/// Two spellings are one path where only repeated slashes, a slash at the end or
/// a dot between slashes tells them apart; an absolute path is never a relative
/// one.
pub proof fn spellings_of_one_path(a: Seq<char>, b: Seq<char>)
    requires
        a.len() > 0,
    ensures
        same_path_spec(a, a),
        same_path_spec(a, b) <==> same_path_spec(b, a),
        same_path_spec(a + seq!['/'], a),
        same_path_spec(a + seq!['/'] + (seq!['/'] + b), a + seq!['/'] + b),
        same_path_spec(a + seq!['/'] + (seq!['.', '/'] + b), a + seq!['/'] + b),
        a[0] == '/' && b.len() > 0 && b[0] != '/' ==> !same_path_spec(a, b),
        same_path_spec(a, b) ==> components(a) == components(b),
{
    let slash = a + seq!['/'];
    paths_are_made_of_their_parts(a, seq![], seq![]);
    assert(a + seq!['/'] + seq![] =~= slash);
    assert(components(a) + Seq::<Seq<char>>::empty() =~= components(a));
    let plain = a + seq!['/'] + b;
    paths_are_made_of_their_parts(a, b, seq![]);
    let double = a + seq!['/'] + (seq!['/'] + b);
    paths_are_made_of_their_parts(a, seq!['/'] + b, seq![]);
    paths_are_made_of_their_parts(seq![], b, seq![]);
    assert(seq![] + seq!['/'] + b =~= seq!['/'] + b);
    assert(Seq::<Seq<char>>::empty() + components(b) =~= components(b));
    let dotted = a + seq!['/'] + (seq!['.', '/'] + b);
    paths_are_made_of_their_parts(a, seq!['.', '/'] + b, seq![]);
    paths_are_made_of_their_parts(seq!['.'], b, seq!['.']);
    assert(seq!['.'] + seq!['/'] + b =~= seq!['.', '/'] + b);
    assert(plain[0] == a[0] && double[0] == a[0] && dotted[0] == a[0] && slash[0] == a[0]);
    if a.len() > 1 {
        assert(plain[1] == a[1] && double[1] == a[1] && dotted[1] == a[1] && slash[1] == a[1]);
    }
}

/// A name in a directory is the directory's path and then the name, with one
/// slash between them where the directory does not end in one.
pub proof fn names_stand_behind_their_directory(base: Seq<char>, name: Seq<char>)
    ensures
        base.len() > 0 && base.last() != '/' ==> path_join(base, name) == base + seq!['/'] + name,
        base.len() > 0 && base.last() == '/' ==> path_join(base, name) == base + name,
        base.len() == 0 ==> path_join(base, name) == name,
{
    reveal_strlit("/");
    assert("/"@ =~= seq!['/']);
    assert(Seq::<char>::empty() + name =~= name);
    if base.len() == 0 {
        assert(base + name =~= name);
    }
}

/// No path is tried again right after itself, none is made up, and the first is
/// always tried.
pub proof fn repeated_directories_are_tried_once(paths: Seq<Seq<char>>, i: int)
    ensures
        0 <= i < deduped(paths).len() - 1 ==> !same_path_spec(
            deduped(paths)[i],
            deduped(paths)[i + 1],
        ),
        0 <= i < deduped(paths).len() ==> paths.contains(deduped(paths)[i]),
        paths.len() > 0 ==> deduped(paths).len() > 0 && deduped(paths)[0] == paths[0]
            && same_path_spec(deduped(paths).last(), paths.last()),
    decreases paths.len(),
{
    if paths.len() > 0 {
        let front = paths.drop_last();
        repeated_directories_are_tried_once(front, i);
        lemma_deduped_first(paths);
        let kept = deduped(front);
        if 0 <= i < kept.len() {
            let k = choose|k: int| 0 <= k < front.len() && front[k] == kept[i];
            assert(paths[k] == kept[i]);
        }
        assert(paths[paths.len() - 1] == paths.last());
        if kept.len() > 0 && same_path_spec(kept.last(), paths.last()) {
        } else {
            assert(deduped(paths) == kept.push(paths.last()));
        }
    }
}

/// The directories that the environment names are tried in their order, the
/// empty ones left out, and the shared one last.
pub proof fn named_directories_come_first(dirs: RuntimeDirs)
    ensures
        dirs.xdg_runtime_dir matches Some(d) ==> (d@.len() > 0 ==> base_dirs(dirs)[0] == d@),
        named_dir(dirs.xdg_runtime_dir).len() == 0 ==> (dirs.tmpdir matches Some(d) ==> (d@.len()
            > 0 ==> base_dirs(dirs)[0] == d@)),
        named_dir(dirs.xdg_runtime_dir).len() == 0 && named_dir(dirs.tmpdir).len() == 0 ==> (
        dirs.tmp matches Some(d) ==> (d@.len() > 0 ==> base_dirs(dirs)[0] == d@)),
        named_dir(dirs.xdg_runtime_dir).len() == 0 && named_dir(dirs.tmpdir).len() == 0
            && named_dir(dirs.tmp).len() == 0 ==> (dirs.temp matches Some(d) ==> (d@.len() > 0
            ==> base_dirs(dirs)[0] == d@)),
        base_dirs(dirs).len() > 0,
        same_path_spec(base_dirs(dirs).last(), "/tmp"@),
        dirs.xdg_runtime_dir is None && dirs.tmpdir is None && dirs.tmp is None && dirs.temp is None
            ==> base_dirs(dirs) == seq!["/tmp"@],
        forall|d: String| d@.len() == 0 ==> (#[trigger] named_dir(Some(d))).len() == 0,
        named_dir(None).len() == 0,
{
    let all = named_dir(dirs.xdg_runtime_dir) + named_dir(dirs.tmpdir) + named_dir(dirs.tmp)
        + named_dir(dirs.temp) + seq!["/tmp"@];
    repeated_directories_are_tried_once(all, 0);
    if dirs.xdg_runtime_dir is None && dirs.tmpdir is None && dirs.tmp is None && dirs.temp is None {
        assert(all =~= seq!["/tmp"@]);
        reveal_with_fuel(deduped, 2);
        assert(all.drop_last() =~= seq![]);
        assert(deduped(all) =~= seq!["/tmp"@]);
    }
}

/// Under each base the plain directory is tried first, then those of the
/// sandboxed installations, ten sockets in each, by number.
pub proof fn sandboxes_are_tried_behind_the_plain_directory(base: Seq<char>, n: int)
    requires
        0 <= n < 10,
    ensures
        socket_path(base, n) == path_join(
            base,
            "discord-ipc-"@ + crate::text::decimal(n as nat),
        ),
        socket_path(base, 10 + n) == path_join(
            path_join(base, "app/com.discordapp.Discord"@),
            "discord-ipc-"@ + crate::text::decimal(n as nat),
        ),
        socket_path(base, 20 + n) == path_join(
            path_join(base, "app/com.discordapp.DiscordCanary"@),
            "discord-ipc-"@ + crate::text::decimal(n as nat),
        ),
        socket_path(base, 30 + n) == path_join(
            path_join(base, "app/com.discordapp.DiscordPTB"@),
            "discord-ipc-"@ + crate::text::decimal(n as nat),
        ),
        socket_path(base, 40 + n) == path_join(
            path_join(base, "snap.discord"@),
            "discord-ipc-"@ + crate::text::decimal(n as nat),
        ),
{
}

/// Bases are tried one after the other, fifty sockets each.
pub proof fn bases_are_tried_in_turn(bases: Seq<Seq<char>>, b: int, n: int)
    requires
        0 <= b < bases.len(),
        0 <= n < 50,
    ensures
        socket_paths(bases).len() == 50 * bases.len(),
        0 <= 50 * b + n < socket_paths(bases).len(),
        socket_paths(bases)[50 * b + n] == socket_path(bases[b], n),
{
    assert((50 * b + n) / 50 == b);
    assert((50 * b + n) % 50 == n);
}

/// On Windows the pipes are told apart by their number alone.
pub proof fn pipes_are_numbered(a: nat, b: nat)
    ensures
        pipe_path(a as int) == "\\\\.\\pipe\\discord-ipc-"@ + crate::text::decimal(a),
        a != b ==> pipe_path(a as int) != pipe_path(b as int),
{
    let prefix = "\\\\.\\pipe\\discord-ipc-"@;
    if pipe_path(a as int) == pipe_path(b as int) {
        assert(pipe_path(a as int).skip(prefix.len() as int) =~= crate::text::decimal(a));
        assert(pipe_path(b as int).skip(prefix.len() as int) =~= crate::text::decimal(b));
        crate::text::numerals_tell_numbers_apart(a, b);
    }
}

/// Texts are viewed in their order.
pub proof fn texts_are_viewed_in_order(v: Seq<String>, i: int)
    requires
        0 <= i < v.len(),
    ensures
        texts(v).len() == v.len(),
        texts(v)[i] == v[i]@,
{
}

} // verus!
