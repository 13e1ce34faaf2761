//! Which widget holds the keyboard focus after the overlay has been rebuilt.

use vstd::prelude::*;

use crate::text::same_text;

verus! {

/// The name of a widget.
#[derive(Debug)]
pub struct Id {
    pub name: String,
}

impl View for Id {
    type V = Seq<char>;

    open spec fn view(&self) -> Seq<char> {
        self.name@
    }
}

impl Id {
    pub fn new(name: &str) -> (r: Id)
        ensures
            r@ == name@,
    {
        Id { name: name.to_owned() }
    }
}

impl PartialEq for Id {
    fn eq(&self, other: &Self) -> (r: bool) {
        same_text(self.name.as_str(), other.name.as_str())
    }
}

impl vstd::std_specs::cmp::PartialEqSpecImpl for Id {
    open spec fn obeys_eq_spec() -> bool {
        true
    }

    open spec fn eq_spec(&self, other: &Self) -> bool {
        self@ == other@
    }
}

impl Eq for Id {

}

impl Clone for Id {
    fn clone(&self) -> (r: Self)
        ensures
            r == *self,
    {
        Id { name: self.name.clone() }
    }
}

pub fn clone_id(id: &Option<Id>) -> (r: Option<Id>)
    ensures
        r == *id,
{
    match id {
        Some(id) => Some(id.clone()),
        None => None,
    }
}

/// The modal view on top of the overlay.
#[derive(Clone, Copy, Debug, PartialEq, Eq, Structural)]
pub enum Identity {
    SettingsOverlay,
    Connect,
    Other(u32),
}

/// A tab of the settings overlay.
#[derive(Clone, Copy, Debug, PartialEq, Eq, Structural)]
pub enum Tab {
    Settings,
    About,
}

#[derive(Clone, Copy, Debug, PartialEq, Eq, Structural)]
pub enum Direction {
    Forward,
    Backward,
}

/// A scroll position, each coordinate held as the bits of an IEEE 754 single.
#[derive(Clone, Copy, Debug, PartialEq, Eq, Structural)]
pub struct ScrollOffset {
    pub x_bits: u32,
    pub y_bits: u32,
}

/// What the settings tab is put back to when it is shown again.
#[derive(Debug)]
pub struct Restoration {
    pub focus: Option<Id>,
    pub scroll: ScrollOffset,
}

/// The settings overlay's side of a restoration: the one that it has in store,
/// and the one that would put it back to where it is now.
#[derive(Debug)]
pub struct OverlayRestoration {
    pub active: Tab,
    pub stored: Option<Restoration>,
    pub current: Restoration,
}

pub fn same_identity(a: Option<Identity>, b: Option<Identity>) -> (r: bool)
    ensures
        r == (a == b),
{
    match (a, b) {
        (Some(x), Some(y)) => x == y,
        (None, None) => true,
        _ => false,
    }
}

pub fn same_tab(a: Option<Tab>, b: Option<Tab>) -> (r: bool)
    ensures
        r == (a == b),
{
    match (a, b) {
        (Some(x), Some(y)) => x == y,
        (None, None) => true,
        _ => false,
    }
}

/// The widget to focus after a rebuild. Another view or tab takes its own first
/// focus. The same one keeps what it has, and gets its focus back where the
/// widgets' state was lost.
pub open spec fn rebuilt_focus(
    previous_identity: Option<Identity>,
    identity: Option<Identity>,
    previous_tab: Option<Tab>,
    tab: Option<Tab>,
    initial: Option<Id>,
    prior: Option<Id>,
    cache_lost: bool,
) -> Option<Id> {
    if previous_identity != identity || previous_tab != tab {
        initial
    } else if cache_lost {
        prior
    } else {
        None
    }
}

pub fn focus_after_rebuild(
    previous_identity: Option<Identity>,
    identity: Option<Identity>,
    previous_tab: Option<Tab>,
    tab: Option<Tab>,
    initial: Option<Id>,
    prior: Option<Id>,
    cache_lost: bool,
) -> (r: Option<Id>)
    ensures
        r == rebuilt_focus(
            previous_identity,
            identity,
            previous_tab,
            tab,
            initial,
            prior,
            cache_lost,
        ),
{
    if !same_identity(previous_identity, identity) || !same_tab(previous_tab, tab) {
        initial
    } else if cache_lost {
        prior
    } else {
        None
    }
}

/// What is remembered of the focus between two passes.
#[derive(Debug)]
pub struct FocusMemory {
    pub modal_identity: Option<Identity>,
    pub modal_tab: Option<Tab>,
    pub prior: Option<Id>,
    pub cache_lost: bool,
    pub pending_move: Option<Direction>,
    /// A focus movement in the settings has a second half that waits for the
    /// next pass.
    pub settings_chain: bool,
}

#[derive(Debug)]
pub struct FocusPlan {
    pub target: Option<Id>,
    pub restoration: Option<Restoration>,
    /// The restoration is the stored one, which is used up.
    pub consumed: bool,
}

/// One operation on the widgets.
#[derive(Debug)]
pub enum FocusStep {
    Focus(Id),
    FinishChain,
    RestoreScroll(ScrollOffset),
    MoveFocus(Direction),
}

/// The restoration that a rebuild calls for: only on the settings tab, the
/// stored one first, and the current one where the widgets' state was lost.
pub open spec fn planned_restoration(
    overlay: Option<OverlayRestoration>,
    cache_lost: bool,
) -> Option<Restoration> {
    match overlay {
        Some(o) => if o.active != Tab::Settings {
            None
        } else if o.stored is Some {
            o.stored
        } else if cache_lost {
            Some(o.current)
        } else {
            None
        },
        None => None,
    }
}

pub open spec fn one_if(wanted: bool, step: FocusStep) -> Seq<FocusStep> {
    if wanted {
        seq![step]
    } else {
        seq![]
    }
}

/// The operations of one pass, in order: the planned focus, the waiting half
/// of a movement, the restored focus and scroll position, a new movement.
pub open spec fn focus_steps(memory: FocusMemory, plan: FocusPlan) -> Seq<FocusStep> {
    one_if(plan.target is Some, FocusStep::Focus(plan.target->0)) + one_if(
        memory.modal_identity == Some(Identity::SettingsOverlay) && memory.settings_chain,
        FocusStep::FinishChain,
    ) + (match plan.restoration {
        Some(r) => one_if(r.focus is Some, FocusStep::Focus(r.focus->0)).push(
            FocusStep::RestoreScroll(r.scroll),
        ),
        None => seq![],
    }) + one_if(memory.pending_move is Some, FocusStep::MoveFocus(memory.pending_move->0))
}

impl Default for FocusMemory {
    fn default() -> (r: Self)
        ensures
            r.modal_identity is None,
            r.modal_tab is None,
            r.prior is None,
            !r.cache_lost,
            r.pending_move is None,
            !r.settings_chain,
    {
        FocusMemory {
            modal_identity: None,
            modal_tab: None,
            prior: None,
            cache_lost: false,
            pending_move: None,
            settings_chain: false,
        }
    }
}

impl FocusMemory {
    /// Plans the focus for a rebuilt overlay, and remembers what it was planned
    /// for.
    pub fn plan(
        &mut self,
        identity: Option<Identity>,
        tab: Option<Tab>,
        initial: Option<Id>,
        overlay: Option<OverlayRestoration>,
    ) -> (r: FocusPlan)
        ensures
            r.target == rebuilt_focus(
                old(self).modal_identity,
                identity,
                old(self).modal_tab,
                tab,
                initial,
                old(self).prior,
                old(self).cache_lost,
            ),
            r.restoration == planned_restoration(overlay, old(self).cache_lost),
            r.consumed == (overlay matches Some(o) && o.active == Tab::Settings && o.stored is Some),
            *final(self) == (FocusMemory {
                modal_identity: identity,
                modal_tab: tab,
                cache_lost: false,
                ..*old(self)
            }),
    {
        let mut consumed = false;
        let restoration: Option<Restoration> = match overlay {
            Some(o) => {
                if o.active != Tab::Settings {
                    None
                } else {
                    match o.stored {
                        Some(stored) => {
                            consumed = true;
                            Some(stored)
                        },
                        None => {
                            if self.cache_lost {
                                Some(o.current)
                            } else {
                                None
                            }
                        },
                    }
                }
            },
            None => None,
        };
        let target = focus_after_rebuild(
            self.modal_identity,
            identity,
            self.modal_tab,
            tab,
            initial,
            clone_id(&self.prior),
            self.cache_lost,
        );
        self.modal_identity = identity;
        self.modal_tab = tab;
        self.cache_lost = false;
        FocusPlan { target, restoration, consumed }
    }

    /// The operations that carry a plan out. A waiting half of a movement is
    /// finished on the settings overlay, and forgotten on every other view.
    pub fn apply(&mut self, plan: FocusPlan) -> (steps: Vec<FocusStep>)
        ensures
            steps@ == focus_steps(*old(self), plan),
            *final(self) == (FocusMemory {
                settings_chain: false,
                pending_move: None,
                ..*old(self)
            }),
    {
        let ghost given = plan;
        let mut steps: Vec<FocusStep> = Vec::new();
        match plan.target {
            Some(id) => steps.push(FocusStep::Focus(id)),
            None => {},
        }
        if same_identity(self.modal_identity, Some(Identity::SettingsOverlay)) && self.settings_chain {
            steps.push(FocusStep::FinishChain);
        }
        self.settings_chain = false;
        match plan.restoration {
            Some(restoration) => {
                match restoration.focus {
                    Some(focus) => steps.push(FocusStep::Focus(focus)),
                    None => {},
                }
                steps.push(FocusStep::RestoreScroll(restoration.scroll));
            },
            None => {},
        }
        match self.pending_move {
            Some(direction) => steps.push(FocusStep::MoveFocus(direction)),
            None => {},
        }
        self.pending_move = None;
        assert(steps@ =~= focus_steps(*old(self), given));
        steps
    }

    /// The movement was carried out. Where it has a second half, that half
    /// waits for the next pass, which is to come at once.
    pub fn moved(&mut self, chained: bool) -> (immediate: bool)
        ensures
            immediate == chained,
            *final(self) == (FocusMemory {
                settings_chain: old(self).settings_chain || chained,
                ..*old(self)
            }),
    {
        if chained {
            self.settings_chain = true;
        }
        chained
    }
}

/// A key that the focus logic looks at.
#[derive(Clone, Copy, Debug, PartialEq, Eq, Structural)]
pub enum Key {
    Escape,
    Tab,
    Other(u32),
}

/// A key that no widget took, and what it means for the overlay.
#[derive(Clone, Copy, Debug, PartialEq, Eq, Structural)]
pub enum IgnoredKey {
    Escape,
    Focus(Direction),
}

/// What an ignored key press does under the modal view `identity`.
pub open spec fn key_meaning(
    occupied: bool,
    identity: Option<Identity>,
    key: Key,
    shift: bool,
) -> Option<IgnoredKey> {
    match key {
        Key::Escape => if occupied {
            Some(IgnoredKey::Escape)
        } else {
            None
        },
        Key::Tab => if identity == Some(Identity::SettingsOverlay) {
            Some(
                IgnoredKey::Focus(
                    if shift {
                        Direction::Backward
                    } else {
                        Direction::Forward
                    },
                ),
            )
        } else {
            None
        },
        Key::Other(_) => None,
    }
}

/// Escape closes a modal view; Tab moves the focus in the settings.
pub fn ignored_press(
    occupied: bool,
    identity: Option<Identity>,
    key: Key,
    shift: bool,
) -> (r: Option<IgnoredKey>)
    ensures
        r == key_meaning(occupied, identity, key, shift),
{
    match key {
        Key::Escape => {
            if occupied {
                Some(IgnoredKey::Escape)
            } else {
                None
            }
        },
        Key::Tab => {
            if same_identity(identity, Some(Identity::SettingsOverlay)) {
                Some(
                    IgnoredKey::Focus(
                        if shift {
                            Direction::Backward
                        } else {
                            Direction::Forward
                        },
                    ),
                )
            } else {
                None
            }
        },
        Key::Other(_) => None,
    }
}

/// Within one view and tab a rebuild never steals the focus: it stays where it
/// is, or goes back to where it was when the widgets' state was lost.
pub proof fn rebuild_keeps_the_focus(
    identity: Option<Identity>,
    tab: Option<Tab>,
    initial: Option<Id>,
    prior: Option<Id>,
    cache_lost: bool,
)
    ensures
        rebuilt_focus(identity, identity, tab, tab, initial, prior, cache_lost) == (if cache_lost {
            prior
        } else {
            None
        }),
{
}

/// Another view or another tab takes its own first focus; nothing else does.
pub proof fn new_views_take_their_first_focus(
    before: Option<Identity>,
    after: Option<Identity>,
    tab_before: Option<Tab>,
    tab_after: Option<Tab>,
    initial: Option<Id>,
    prior: Option<Id>,
    cache_lost: bool,
)
    ensures
        before != after ==> rebuilt_focus(
            before,
            after,
            tab_before,
            tab_after,
            initial,
            prior,
            cache_lost,
        ) == initial,
        tab_before != tab_after ==> rebuilt_focus(
            before,
            after,
            tab_before,
            tab_after,
            initial,
            prior,
            cache_lost,
        ) == initial,
{
}

/// The settings tab, and it alone, is put back: to what it has in store, where
/// it has something, and else to where it is now, where the widgets' state was
/// lost.
pub proof fn only_the_settings_tab_is_put_back(o: OverlayRestoration, cache_lost: bool)
    ensures
        o.active is About ==> planned_restoration(Some(o), cache_lost) is None,
        o.active is Settings && o.stored is Some ==> planned_restoration(Some(o), cache_lost)
            == o.stored,
        o.active is Settings && o.stored is None ==> planned_restoration(Some(o), true) == Some(
            o.current,
        ),
        o.stored is None ==> planned_restoration(Some(o), false) is None,
        planned_restoration(None, cache_lost) is None,
{
}

/// One pass does each thing it is to do once, in a fixed order: it focuses the
/// planned widget, finishes a movement that waits in the settings, puts back
/// the restored focus and scroll position, and moves the focus last of all.
pub proof fn focus_is_moved_last(memory: FocusMemory, plan: FocusPlan)
    ensures
        ({
            let steps = focus_steps(memory, plan);
            let planned: int = if plan.target is Some {
                1
            } else {
                0
            };
            let chained: int = if memory.settings_chain && memory.modal_identity == Some(
                Identity::SettingsOverlay,
            ) {
                1
            } else {
                0
            };
            let restored: int = match plan.restoration {
                Some(r) => if r.focus is Some {
                    2
                } else {
                    1
                },
                None => 0,
            };
            let moves: int = if memory.pending_move is Some {
                1
            } else {
                0
            };
            &&& steps.len() == planned + chained + restored + moves
            &&& plan.target matches Some(id) ==> steps[0] == FocusStep::Focus(id)
            &&& chained == 1 ==> steps[planned] is FinishChain
            &&& plan.restoration matches Some(r) ==> {
                &&& steps[planned + chained + restored - 1] == FocusStep::RestoreScroll(r.scroll)
                &&& r.focus matches Some(id) ==> steps[planned + chained] == FocusStep::Focus(id)
            }
            &&& memory.pending_move matches Some(d) ==> steps.last() == FocusStep::MoveFocus(d)
        }),
{
}

/// Escape leaves a view where there is one, and Tab moves through the settings:
/// ahead, or back under Shift. No other key means anything, nor Tab anywhere
/// else.
pub proof fn ignored_keys_leave_or_move(
    occupied: bool,
    identity: Option<Identity>,
    key: Key,
    shift: bool,
)
    ensures
        key_meaning(occupied, identity, key, shift) matches Some(IgnoredKey::Escape) <==> key is Escape
            && occupied,
        key_meaning(occupied, identity, key, shift) matches Some(IgnoredKey::Focus(d)) ==> (
        d is Backward <==> shift),
        key_meaning(occupied, identity, key, shift) matches Some(IgnoredKey::Focus(_)) <==> key is Tab
            && identity == Some(Identity::SettingsOverlay),
{
}

/// Planning twice for one view plans nothing the second time: neither a focus
/// nor a restoration is repeated.
pub proof fn plans_are_not_repeated(
    memory: &mut FocusMemory,
    identity: Option<Identity>,
    tab: Option<Tab>,
    initial: Option<Id>,
    overlay: Option<OverlayRestoration>,
    first: FocusPlan,
    again: &mut FocusMemory,
    later: Option<OverlayRestoration>,
    second: FocusPlan,
)
    requires
        later matches Some(o) ==> o.stored is None,
        call_ensures(FocusMemory::plan, (memory, identity, tab, initial, overlay), first),
        *old(again) == *final(memory),
        call_ensures(FocusMemory::plan, (again, identity, tab, initial, later), second),
    ensures
        second.target is None,
        second.restoration is None && !second.consumed,
        first.consumed ==> first.restoration is Some && first.restoration == overlay->0.stored,
        old(memory).modal_identity != identity ==> first.target == initial,
{
}

/// A movement is made once: what a pass carried out, the next one does not
/// carry out again.
pub proof fn movements_are_made_once(
    memory: &mut FocusMemory,
    plan: FocusPlan,
    first: Vec<FocusStep>,
    again: &mut FocusMemory,
    idle: FocusPlan,
    second: Vec<FocusStep>,
)
    requires
        idle.target is None && idle.restoration is None,
        call_ensures(FocusMemory::apply, (memory, plan), first),
        *old(again) == *final(memory),
        call_ensures(FocusMemory::apply, (again, idle), second),
    ensures
        second@.len() == 0,
        old(memory).pending_move matches Some(d) ==> first@.len() > 0 && first@.last()
            == FocusStep::MoveFocus(d),
        plan.target matches Some(id) ==> first@.len() > 0 && first@[0] == FocusStep::Focus(id),
{
    focus_is_moved_last(*old(memory), plan);
    focus_is_moved_last(*old(again), idle);
}

/// A movement in two halves asks for the next pass at once and leaves the second
/// half to it; one without leaves everything as it is.
pub proof fn halves_of_a_movement_follow_each_other(m: &mut FocusMemory, chained: bool, r: bool)
    requires
        call_ensures(FocusMemory::moved, (m, chained), r),
    ensures
        r == chained,
        chained ==> final(m).settings_chain,
        !chained ==> *final(m) == *old(m),
        final(m).cache_lost == old(m).cache_lost,
{
}

/// A rebuilt modal that is another one, or shows another tab, starts with its
/// own first widget; the same one keeps the widget that had the focus where its
/// cache was lost.
pub proof fn rebuilt_modals_keep_their_focus(
    before: Option<Identity>,
    now: Option<Identity>,
    tab_before: Option<Tab>,
    tab: Option<Tab>,
    initial: Option<Id>,
    prior: Option<Id>,
    lost: bool,
    r: Option<Id>,
)
    requires
        call_ensures(
            focus_after_rebuild,
            (before, now, tab_before, tab, initial, prior, lost),
            r,
        ),
    ensures
        before != now ==> r == initial,
        tab_before != tab ==> r == initial,
        before == now && tab_before == tab && lost ==> r == prior,
        before == now && tab_before == tab && !lost ==> r is None,
{
}

} // verus!
