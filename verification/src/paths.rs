//! Unix paths as texts.

use vstd::prelude::*;

use crate::text::{chars_of, text_of};

verus! {

/// Where the last slash of `path` is.
pub open spec fn last_slash(path: Seq<char>) -> Option<int>
    decreases path.len(),
{
    if path.len() == 0 {
        None
    } else if path.last() == '/' {
        Some(path.len() - 1)
    } else {
        last_slash(path.drop_last())
    }
}

/// A path that nothing is left to be tidied of: it starts at the root, no
/// component is empty and none is a dot. The empty path stands for a path that
/// could not be resolved.
pub open spec fn resolved(path: Seq<char>) -> bool {
    &&& path.len() > 0 ==> path[0] == '/'
    &&& path.len() > 1 ==> path.last() != '/'
    &&& forall|i: int|
        0 <= i < path.len() - 1 ==> !(#[trigger] path[i] == '/' && path[i + 1] == '/')
    &&& forall|i: int|
        0 <= i < path.len() - 1 ==> !(#[trigger] path[i] == '/' && path[i + 1] == '.' && (i + 2
            == path.len() || path[i + 2] == '/'))
}

/// The directory that a resolved path lies in. The root and the empty path lie
/// in none.
pub open spec fn directory(path: Seq<char>) -> Option<Seq<char>> {
    match last_slash(path) {
        None => None,
        Some(i) => if path.len() <= 1 {
            None
        } else if i == 0 {
            Some(path.take(1))
        } else {
            Some(path.take(i))
        },
    }
}

/// The directory of a resolved path is resolved itself.
pub proof fn directories_are_resolved(path: Seq<char>)
    requires
        resolved(path),
    ensures
        directory(path) matches Some(d) ==> resolved(d) && d.len() < path.len(),
{
    lemma_last_slash(path);
    if let Some(i) = last_slash(path) {
        if path.len() > 1 && i > 0 {
            let d = path.take(i);
            assert(path[i - 1] != '/') by {
                assert(!(path[i - 1] == '/' && path[i] == '/'));
            }
            assert forall|k: int| 0 <= k < d.len() - 1 implies !(#[trigger] d[k] == '/' && d[k + 1]
                == '.' && (k + 2 == d.len() || d[k + 2] == '/')) by {
                assert(d[k] == path[k]);
                if k + 2 == d.len() {
                    assert(path[k + 2] == '/');
                }
            }
            assert forall|k: int| 0 <= k < d.len() - 1 implies !(#[trigger] d[k] == '/' && d[k + 1]
                == '/') by {
                assert(d[k] == path[k]);
            }
        }
    }
}

proof fn lemma_last_slash(path: Seq<char>)
    ensures
        last_slash(path) matches Some(i) ==> 0 <= i < path.len() && path[i] == '/',
    decreases path.len(),
{
    if path.len() > 0 && path.last() != '/' {
        lemma_last_slash(path.drop_last());
    }
}

/// The directory that a resolved path lies in.
pub fn directory_of(path: &str) -> (r: Option<String>)
    requires
        resolved(path@),
    ensures
        match r {
            Some(d) => directory(path@) == Some(d@),
            None => directory(path@) is None,
        },
{
    let v: Vec<char> = chars_of(path);
    if v.len() <= 1 {
        return None;
    }
    let mut i: usize = v.len();
    assert(v@.take(i as int) =~= v@);
    while i > 0
        invariant
            i <= v@.len(),
            v@ == path@,
            v@.len() > 1,
            last_slash(path@) == last_slash(v@.take(i as int)),
        decreases i,
    {
        assert(v@.take(i as int).drop_last() =~= v@.take(i - 1));
        assert(v@.take(i as int).last() == v@[i - 1]);
        if v[i - 1] == '/' {
            let to: usize = if i == 1 { 1 } else { i - 1 };
            let r = text_of(&v, 0, to);
            assert(v@.subrange(0, to as int) =~= path@.take(to as int));
            return Some(r);
        }
        i -= 1;
    }
    assert(v@.take(0) =~= seq![]);
    None
}

/// A file's directory and its name make up its path: what lies behind the
/// directory is one slash and a name without any.
pub proof fn directory_and_name_make_the_path(dir: Seq<char>, name: Seq<char>)
    requires
        name.len() > 0,
        forall|i: int| 0 <= i < name.len() ==> #[trigger] name[i] != '/',
    ensures
        dir.len() > 0 ==> directory(dir + seq!['/'] + name) == Some(dir),
        directory(seq!['/'] + name) == Some(seq!['/']),
        directory(seq!['/']) is None,
        directory(seq![]) is None,
{
    let root = seq!['/'] + name;
    lemma_slash_before_name(seq![], name);
    assert(seq![] + seq!['/'] + name =~= root);
    assert(root.take(1) =~= seq!['/']);
    lemma_slash_before_name(dir, name);
    let whole = dir + seq!['/'] + name;
    assert(whole.take(dir.len() as int) =~= dir);
}

proof fn lemma_slash_before_name(dir: Seq<char>, name: Seq<char>)
    requires
        forall|i: int| 0 <= i < name.len() ==> #[trigger] name[i] != '/',
    ensures
        last_slash(dir + seq!['/'] + name) == Some(dir.len() as int),
    decreases name.len(),
{
    let whole = dir + seq!['/'] + name;
    if name.len() > 0 {
        let shorter = name.drop_last();
        assert(whole.drop_last() =~= dir + seq!['/'] + shorter);
        assert(whole.last() == name.last());
        lemma_slash_before_name(dir, shorter);
    }
}

} // verus!
