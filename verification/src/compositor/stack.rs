//! The surfaces of a window: those that live, and the order they are stacked
//! in. The bottom of the stack is the main surface.

use vstd::prelude::*;
use vstd::std_specs::cmp::PartialEqSpec;

verus! {

#[derive(Debug)]
pub struct SurfaceStack<T: Copy + PartialEq> {
    live: Vec<T>,
    stack: Vec<T>,
    main: Option<T>,
}

/// `s` without the handles equal to `h`.
pub open spec fn without<T: Copy + PartialEq>(s: Seq<T>, h: T) -> Seq<T>
    decreases s.len(),
{
    if s.len() == 0 {
        s
    } else if s.last().eq_spec(&h) {
        without(s.drop_last(), h)
    } else {
        without(s.drop_last(), h).push(s.last())
    }
}

pub open spec fn first<T>(s: Seq<T>) -> Option<T> {
    if s.len() > 0 {
        Some(s[0])
    } else {
        None
    }
}

proof fn lemma_without_first<T: Copy + PartialEq>(s: Seq<T>, h: T)
    requires
        s.len() > 0,
        !s[0].eq_spec(&h),
    ensures
        without(s, h).len() > 0,
        without(s, h)[0] == s[0],
    decreases s.len(),
{
    if s.len() > 1 {
        lemma_without_first(s.drop_last(), h);
    } else {
        assert(without(s.drop_last(), h) =~= seq![]);
    }
}

fn removed<T: Copy + PartialEq>(v: &Vec<T>, h: T) -> (r: Vec<T>)
    ensures
        T::obeys_eq_spec() ==> r@ == without(v@, h),
{
    let mut r: Vec<T> = Vec::new();
    let mut i: usize = 0;
    assert(v@.take(0) =~= seq![]);
    while i < v.len()
        invariant
            i <= v@.len(),
            T::obeys_eq_spec() ==> r@ == without(v@.take(i as int), h),
        decreases v@.len() - i,
    {
        proof {
            assert(v@.take(i + 1).drop_last() =~= v@.take(i as int));
        }
        let x = v[i];
        if x != h {
            r.push(x);
        }
        i += 1;
    }
    assert(v@.take(i as int) =~= v@);
    r
}

impl<T: Copy + PartialEq> SurfaceStack<T> {
    pub closed spec fn live_handles(&self) -> Seq<T> {
        self.live@
    }

    pub closed spec fn stacked(&self) -> Seq<T> {
        self.stack@
    }

    pub closed spec fn main_handle(&self) -> Option<T> {
        self.main
    }

    /// The main surface is the bottom of the stack, for handles whose `==` is
    /// what it is specified to be.
    pub open spec fn wf(&self) -> bool {
        T::obeys_eq_spec() ==> self.main_handle() == first(self.stacked())
    }

    pub fn new() -> (r: Self)
        ensures
            r.wf(),
            r.live_handles() == Seq::<T>::empty(),
            r.stacked() == Seq::<T>::empty(),
            r.main_handle() is None,
    {
        SurfaceStack { live: Vec::new(), stack: Vec::new(), main: None }
    }

    pub fn register(&mut self, h: T)
        requires
            old(self).wf(),
        ensures
            final(self).wf(),
            final(self).live_handles() == old(self).live_handles().push(h),
            final(self).stacked() == old(self).stacked(),
            final(self).main_handle() == old(self).main_handle(),
    {
        self.live.push(h);
    }

    /// The surface is gone: it neither lives nor stacks, and where it was the
    /// main one the next on the stack takes its place.
    pub fn deregister(&mut self, h: T)
        requires
            old(self).wf(),
        ensures
            final(self).wf(),
            T::obeys_eq_spec() ==> {
                &&& final(self).live_handles() == without(old(self).live_handles(), h)
                &&& final(self).stacked() == without(old(self).stacked(), h)
                &&& final(self).main_handle() == first(without(old(self).stacked(), h))
            },
    {
        let live = removed(&self.live, h);
        let stack = removed(&self.stack, h);
        self.live = live;
        self.stack = stack;
        if self.is_main(h) {
            self.main = if self.stack.len() > 0 { Some(self.stack[0]) } else { None };
        } else {
            proof {
                if T::obeys_eq_spec() && old(self).stacked().len() > 0 {
                    lemma_without_first(old(self).stacked(), h);
                }
            }
        }
    }

    /// Restacks the surfaces, bottom first.
    pub fn replace_stack(&mut self, ordered: &[T])
        requires
            old(self).wf(),
        ensures
            final(self).wf(),
            final(self).live_handles() == old(self).live_handles(),
            final(self).stacked() == ordered@,
            final(self).main_handle() == first(ordered@),
    {
        let mut stack: Vec<T> = Vec::new();
        let mut i: usize = 0;
        while i < ordered.len()
            invariant
                i <= ordered@.len(),
                stack@ == ordered@.take(i as int),
            decreases ordered@.len() - i,
        {
            stack.push(ordered[i]);
            i += 1;
        }
        assert(ordered@.take(i as int) =~= ordered@);
        self.main = if stack.len() > 0 { Some(stack[0]) } else { None };
        self.stack = stack;
    }

    pub fn is_main(&self, h: T) -> (r: bool)
        ensures
            T::obeys_eq_spec() ==> r == (self.main_handle() matches Some(m) && m.eq_spec(&h)),
            self.main_handle() is None ==> !r,
    {
        match self.main {
            Some(m) => m == h,
            None => false,
        }
    }

    pub fn stack(&self) -> (r: &[T])
        ensures
            r@ == self.stacked(),
    {
        self.stack.as_slice()
    }

    pub fn live(&self) -> (r: &[T])
        ensures
            r@ == self.live_handles(),
    {
        self.live.as_slice()
    }

    /// Takes the stack apart: nothing is stacked any more.
    pub fn take_stack(&mut self) -> (r: Vec<T>)
        ensures
            final(self).wf(),
            r@ == old(self).stacked(),
            final(self).stacked() == Seq::<T>::empty(),
            final(self).main_handle() is None,
            final(self).live_handles() == old(self).live_handles(),
    {
        self.main = None;
        let mut taken: Vec<T> = Vec::new();
        taken.append(&mut self.stack);
        assert(taken@ =~= old(self).stacked());
        taken
    }
}

fn copied<T: Copy>(v: &Vec<T>) -> (r: Vec<T>)
    ensures
        r@ == v@,
{
    let mut r: Vec<T> = Vec::new();
    let mut i: usize = 0;
    while i < v.len()
        invariant
            i <= v@.len(),
            r@ == v@.take(i as int),
        decreases v@.len() - i,
    {
        r.push(v[i]);
        i += 1;
    }
    assert(v@.take(i as int) =~= v@);
    r
}

impl<T: Copy + PartialEq> Clone for SurfaceStack<T> {
    fn clone(&self) -> (r: Self)
        ensures
            r.live_handles() == self.live_handles(),
            r.stacked() == self.stacked(),
            r.main_handle() == self.main_handle(),
    {
        SurfaceStack { live: copied(&self.live), stack: copied(&self.stack), main: self.main }
    }
}

impl<T: Copy + PartialEq> Default for SurfaceStack<T> {
    fn default() -> (r: Self)
        ensures
            r.wf(),
            r.live_handles() == Seq::<T>::empty(),
            r.stacked() == Seq::<T>::empty(),
            r.main_handle() is None,
    {
        SurfaceStack::new()
    }
}

/// A surface that is gone never comes back by itself: no handle equal to it is
/// left, and the handles that are left keep their order.
pub proof fn deregistered_handles_are_gone<T: Copy + PartialEq>(s: Seq<T>, h: T)
    ensures
        forall|i: int| 0 <= i < without(s, h).len() ==> !(#[trigger] without(s, h)[i]).eq_spec(&h),
        without(s, h) == s.filter(|x: T| !x.eq_spec(&h)),
        without(without(s, h), h) == without(s, h),
    decreases s.len(),
{
    reveal(Seq::filter);
    if s.len() > 0 {
        deregistered_handles_are_gone(s.drop_last(), h);
        if !s.last().eq_spec(&h) {
            assert(without(s, h).drop_last() =~= without(s.drop_last(), h));
        }
    }
}

/// Once anything is stacked there is a main surface, and it is the bottom one.
pub proof fn stacked_surfaces_have_a_main<T: Copy + PartialEq>(s: SurfaceStack<T>)
    requires
        s.wf(),
        T::obeys_eq_spec(),
    ensures
        s.main_handle() is Some <==> s.stacked().len() > 0,
        s.main_handle() matches Some(m) ==> m == s.stacked()[0],
{
}

/// The main surface is the bottom of whatever is stacked: the first there is.
pub proof fn the_bottom_is_the_first<T>(s: Seq<T>, h: T)
    ensures
        first(Seq::<T>::empty()) is None,
        first(seq![h] + s) == Some(h),
        s.len() > 0 ==> first(s) == Some(s[0]),
        s.len() > 0 ==> first(s.push(h)) == first(s),
{
}

/// Taking a handle away leaves every other one.
pub proof fn other_handles_stay<T: Copy + PartialEq>(s: Seq<T>, h: T, other: T)
    requires
        s.contains(other),
        !other.eq_spec(&h),
    ensures
        without(s, h).contains(other),
    decreases s.len(),
{
    if s.len() > 0 {
        let t = s.drop_last();
        if t.contains(other) {
            other_handles_stay(t, h, other);
            let k = choose|k: int| 0 <= k < without(t, h).len() && without(t, h)[k] == other;
            if !s.last().eq_spec(&h) {
                assert(without(s, h)[k] == other);
            }
        } else {
            let k = choose|k: int| 0 <= k < s.len() && s[k] == other;
            if k < t.len() {
                assert(t[k] == other);
            }
            assert(s.last() == other);
            assert(without(s, h).last() == other);
            assert(without(s, h)[without(s, h).len() - 1] == other);
        }
    }
}

/// A surface lives from its registration to its end; whatever is stacked under
/// all others is the main one.
pub proof fn surfaces_live_until_deregistered(
    s: &mut SurfaceStack<u64>,
    h: u64,
    t: &mut SurfaceStack<u64>,
    ordered: &[u64],
    main: bool,
    u: &mut SurfaceStack<u64>,
)
    requires
        old(s).wf(),
        call_ensures(SurfaceStack::<u64>::register, (s, h), ()),
        *old(t) == *final(s),
        ordered@.len() > 0,
        ordered@[0] == h,
        call_ensures(SurfaceStack::<u64>::replace_stack, (t, ordered), ()),
        call_ensures(SurfaceStack::<u64>::is_main, (&*final(t), h), main),
        *old(u) == *final(t),
        call_ensures(SurfaceStack::<u64>::deregister, (u, h), ()),
    ensures
        final(s).live_handles().contains(h),
        main,
        final(t).stacked() == ordered@,
        !final(u).live_handles().contains(h),
        !final(u).stacked().contains(h),
        final(u).main_handle() != Some(h),
{
    assert(final(s).live_handles()[old(s).live_handles().len() as int] == h);
    deregistered_handles_are_gone(old(u).live_handles(), h);
    deregistered_handles_are_gone(old(u).stacked(), h);
}

/// What is taken down was stacked, in its order; nothing is stacked then, and
/// whatever lived goes on living.
pub proof fn taken_stacks_are_empty(
    s: &mut SurfaceStack<u64>,
    before: &[u64],
    taken: Vec<u64>,
    after: &[u64],
    lived: &[u64],
    live: &[u64],
)
    requires
        call_ensures(SurfaceStack::<u64>::stack, (&*old(s),), before),
        call_ensures(SurfaceStack::<u64>::live, (&*old(s),), lived),
        call_ensures(SurfaceStack::<u64>::take_stack, (s,), taken),
        call_ensures(SurfaceStack::<u64>::stack, (&*final(s),), after),
        call_ensures(SurfaceStack::<u64>::live, (&*final(s),), live),
    ensures
        taken@ == before@,
        after@.len() == 0,
        live@ == lived@,
{
}

} // verus!
