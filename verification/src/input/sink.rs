//! The published shell state, and what jellyfin-web is told about its focus.

use vstd::prelude::*;

verus! {

/// What the focused text field can do.
#[derive(Clone, Copy, Debug, PartialEq, Eq, Structural)]
pub struct FieldEdit {
    pub undo: bool,
    pub redo: bool,
    pub cut: bool,
    pub copy: bool,
    pub select_all: bool,
}

impl Default for FieldEdit {
    fn default() -> (r: Self)
        ensures
            r == (FieldEdit {
                undo: false,
                redo: false,
                cut: false,
                copy: false,
                select_all: false,
            }),
    {
        FieldEdit { undo: false, redo: false, cut: false, copy: false, select_all: false }
    }
}

#[derive(Clone, Copy, Debug, PartialEq, Eq, Structural)]
pub enum EditCommand {
    Undo,
    Redo,
    Cut,
    Copy,
    Paste,
    SelectAll,
}

/// The shell overlay's state as input routing needs it.
#[derive(Clone, Copy, Debug, PartialEq, Eq, Structural)]
pub struct ShellState {
    pub modal_open: bool,
    pub reserved_strip: i32,
    pub width: i32,
    pub height: i32,
}

impl Default for ShellState {
    fn default() -> (r: Self)
        ensures
            r == (ShellState { modal_open: false, reserved_strip: 0, width: 0, height: 0 }),
    {
        ShellState { modal_open: false, reserved_strip: 0, width: 0, height: 0 }
    }
}

/// What is known of the focus, and the last belief that the web took.
#[derive(Clone, Copy, Debug, PartialEq, Eq, Structural)]
pub struct WebFocus {
    pub window: bool,
    pub modal_open: bool,
    pub published: Option<bool>,
}

impl WebFocus {
    pub fn new() -> (r: Self)
        ensures
            r == (WebFocus { window: true, modal_open: false, published: None }),
    {
        WebFocus { window: true, modal_open: false, published: None }
    }

    /// The belief to hand over: `belief`, unless the web already holds it or
    /// no live web is there to take it.
    pub open spec fn handover(self, belief: bool, web_alive: bool) -> Option<bool> {
        if web_alive && self.published != Some(belief) {
            Some(belief)
        } else {
            None
        }
    }

    fn hand_over(&mut self, belief: bool, web_alive: bool) -> (r: Option<bool>)
        ensures
            r == old(self).handover(belief, web_alive),
            *final(self) == (WebFocus {
                published: if r is Some {
                    r
                } else {
                    old(self).published
                },
                ..*old(self)
            }),
    {
        let held = match self.published {
            Some(b) => b == belief,
            None => false,
        };
        if held {
            return None;
        }
        if !web_alive {
            return None;
        }
        self.published = Some(belief);
        Some(belief)
    }
}

/// A listener of the shell state, by number.
#[derive(Clone, Copy, Debug, PartialEq, Eq, Structural)]
pub struct ShellStateSubscription {
    pub id: u64,
}

/// The state that input routing shares: the published shell state, the focused
/// field's abilities, the focus belief and the listeners.
#[derive(Debug)]
pub struct Hub {
    pub field_edit: Option<FieldEdit>,
    pub state: Option<ShellState>,
    pub focus: WebFocus,
    pub listeners: Vec<ShellStateSubscription>,
    pub next_listener: u64,
}

/// The published state, who listens to it, and the number that the next
/// listener gets.
pub struct Board {
    pub state: Option<ShellState>,
    pub listeners: Seq<ShellStateSubscription>,
    pub next_listener: int,
}

/// What happens to a board.
pub enum BoardStep {
    Publish { state: ShellState },
    Register,
    Cancel { subscription: ShellStateSubscription },
}

impl Board {
    /// Every listener has a number that was given out, and no two share one.
    pub open spec fn wf(self) -> bool {
        &&& forall|i: int|
            0 <= i < self.listeners.len() ==> (#[trigger] self.listeners[i]).id
                < self.next_listener
        &&& forall|i: int, j: int|
            #![trigger self.listeners[i], self.listeners[j]]
            0 <= i < j < self.listeners.len() ==> self.listeners[i].id != self.listeners[j].id
    }

    pub open spec fn after(self, step: BoardStep) -> Board {
        match step {
            BoardStep::Publish { state } => Board { state: Some(state), ..self },
            BoardStep::Register => Board {
                listeners: self.listeners.push(
                    ShellStateSubscription { id: self.next_listener as u64 },
                ),
                next_listener: self.next_listener + 1,
                ..self
            },
            BoardStep::Cancel { subscription } => Board {
                listeners: self.listeners.filter(
                    |s: ShellStateSubscription| s.id != subscription.id,
                ),
                ..self
            },
        }
    }

    pub open spec fn after_all(self, steps: Seq<BoardStep>) -> Board
        decreases steps.len(),
    {
        if steps.len() == 0 {
            self
        } else {
            self.after_all(steps.drop_last()).after(steps.last())
        }
    }

    /// The states that the listener numbered `id` is told in a step: a
    /// publication once for each time it is on the list, and the state of the
    /// board where it is the one that registers.
    pub open spec fn told(self, step: BoardStep, id: u64) -> Seq<ShellState> {
        match step {
            BoardStep::Publish { state } => self.listeners.filter(
                |s: ShellStateSubscription| s.id == id,
            ).map_values(|s: ShellStateSubscription| state),
            BoardStep::Register => match self.state {
                Some(state) => if self.next_listener == id {
                    seq![state]
                } else {
                    seq![]
                },
                None => seq![],
            },
            BoardStep::Cancel { .. } => seq![],
        }
    }

    /// The states that the listener is told over a run of steps.
    pub open spec fn told_over(self, steps: Seq<BoardStep>, id: u64) -> Seq<ShellState>
        decreases steps.len(),
    {
        if steps.len() == 0 {
            seq![]
        } else {
            self.told_over(steps.drop_last(), id) + self.after_all(steps.drop_last()).told(
                steps.last(),
                id,
            )
        }
    }
}

/// The states that a run of steps publishes, in order.
pub open spec fn publications(steps: Seq<BoardStep>) -> Seq<ShellState>
    decreases steps.len(),
{
    if steps.len() == 0 {
        seq![]
    } else {
        match steps.last() {
            BoardStep::Publish { state } => publications(steps.drop_last()).push(state),
            _ => publications(steps.drop_last()),
        }
    }
}

/// How many listeners a run of steps registers.
pub open spec fn registrations(steps: Seq<BoardStep>) -> nat
    decreases steps.len(),
{
    if steps.len() == 0 {
        0
    } else {
        registrations(steps.drop_last()) + (if steps.last() is Register {
            1nat
        } else {
            0
        })
    }
}

impl Hub {
    /// Every listener has a number that was given out, and no two share one.
    pub open spec fn wf(self) -> bool {
        &&& forall|i: int|
            0 <= i < self.listeners@.len() ==> (#[trigger] self.listeners@[i]).id
                < self.next_listener
        &&& forall|i: int, j: int|
            #![trigger self.listeners@[i], self.listeners@[j]]
            0 <= i < j < self.listeners@.len() ==> self.listeners@[i].id != self.listeners@[j].id
    }

    /// What listening depends on.
    pub open spec fn board(self) -> Board {
        Board {
            state: self.state,
            listeners: self.listeners@,
            next_listener: self.next_listener as int,
        }
    }

    pub fn new() -> (r: Self)
        ensures
            r.wf(),
            r.field_edit is None,
            r.state is None,
            r.focus == (WebFocus { window: true, modal_open: false, published: None }),
            r.listeners@.len() == 0,
            r.next_listener == 0,
    {
        Hub {
            field_edit: None,
            state: None,
            focus: WebFocus::new(),
            listeners: Vec::new(),
            next_listener: 0,
        }
    }
}

pub fn publish_field_edit(hub: &mut Hub, state: Option<FieldEdit>)
    ensures
        *final(hub) == (Hub { field_edit: state, ..*old(hub) }),
{
    hub.field_edit = state;
}

pub fn field_edit(hub: &Hub) -> (r: Option<FieldEdit>)
    ensures
        r == hub.field_edit,
{
    hub.field_edit
}

/// The browser came up, maybe in place of an older one: whatever its
/// predecessor took, the belief is handed over again. `belief` is the focus
/// that routing holds to be right.
pub fn web_became_live(hub: &mut Hub, belief: bool, web_alive: bool) -> (r: Option<bool>)
    ensures
        r == (if web_alive {
            Some(belief)
        } else {
            None
        }),
        *final(hub) == (Hub { focus: WebFocus { published: r, ..old(hub).focus }, ..*old(hub) }),
{
    hub.focus.published = None;
    hub.focus.hand_over(belief, web_alive)
}

/// The window gained or lost the focus. `belief` is the focus that routing
/// holds to be right from now on.
pub fn set_window_focused(hub: &mut Hub, focused: bool, belief: bool, web_alive: bool) -> (r:
    Option<bool>)
    ensures
        r == old(hub).focus.handover(belief, web_alive),
        *final(hub) == (Hub {
            focus: WebFocus {
                window: focused,
                modal_open: old(hub).focus.modal_open,
                published: if r is Some {
                    r
                } else {
                    old(hub).focus.published
                },
            },
            ..*old(hub)
        }),
{
    hub.focus.window = focused;
    hub.focus.hand_over(belief, web_alive)
}

/// What publishing a state gives rise to: a focus for the web to take, and the
/// listeners to tell.
#[derive(Debug)]
pub struct Publication {
    pub web_focus: Option<bool>,
    pub listeners: Vec<ShellStateSubscription>,
}

/// The shell overlay published its state. `belief` is the focus that routing
/// holds to be right for it.
pub fn publish_shell_state(hub: &mut Hub, state: ShellState, belief: bool, web_alive: bool) -> (r:
    Publication)
    ensures
        r.web_focus == old(hub).focus.handover(belief, web_alive),
        r.listeners@ == old(hub).listeners@,
        final(hub).board() == old(hub).board().after(BoardStep::Publish { state }),
        *final(hub) == (Hub {
            state: Some(state),
            focus: WebFocus {
                window: old(hub).focus.window,
                modal_open: state.modal_open,
                published: if r.web_focus is Some {
                    r.web_focus
                } else {
                    old(hub).focus.published
                },
            },
            ..*old(hub)
        }),
{
    hub.state = Some(state);
    hub.focus.modal_open = state.modal_open;
    let web_focus = hub.focus.hand_over(belief, web_alive);
    let mut listeners: Vec<ShellStateSubscription> = Vec::new();
    let mut i: usize = 0;
    while i < hub.listeners.len()
        invariant
            i <= hub.listeners@.len(),
            listeners@ == hub.listeners@.take(i as int),
        decreases hub.listeners@.len() - i,
    {
        listeners.push(hub.listeners[i]);
        i += 1;
    }
    assert(hub.listeners@.take(i as int) =~= hub.listeners@);
    Publication { web_focus, listeners }
}

pub fn shell_state(hub: &Hub) -> (r: Option<ShellState>)
    ensures
        r == hub.state,
{
    hub.state
}

/// Registers a listener. It is to be told the second value at once: the state
/// that has already been published.
pub fn on_shell_state_scoped(hub: &mut Hub) -> (r: (ShellStateSubscription, Option<ShellState>))
    requires
        old(hub).wf(),
        old(hub).next_listener < u64::MAX,
    ensures
        final(hub).wf(),
        r.0.id == old(hub).next_listener,
        r.1 == old(hub).state,
        final(hub).board() == old(hub).board().after(BoardStep::Register),
        final(hub).listeners@ == old(hub).listeners@.push(r.0),
        final(hub).next_listener == old(hub).next_listener + 1,
        final(hub).state == old(hub).state,
        final(hub).focus == old(hub).focus,
        final(hub).field_edit == old(hub).field_edit,
{
    let subscription = ShellStateSubscription { id: hub.next_listener };
    hub.next_listener = hub.next_listener + 1;
    hub.listeners.push(subscription);
    (subscription, hub.state)
}

/// Drops a listener: it is told nothing from now on, and every other one stays
/// in its place.
pub fn drop_subscription(hub: &mut Hub, subscription: ShellStateSubscription)
    requires
        old(hub).wf(),
    ensures
        final(hub).wf(),
        final(hub).board() == old(hub).board().after(BoardStep::Cancel { subscription }),
        final(hub).listeners@ == old(hub).listeners@.filter(
            |s: ShellStateSubscription| s.id != subscription.id,
        ),
        !final(hub).listeners@.contains(subscription),
        final(hub).next_listener == old(hub).next_listener,
        final(hub).state == old(hub).state,
        final(hub).focus == old(hub).focus,
        final(hub).field_edit == old(hub).field_edit,
{
    let ghost others = |s: ShellStateSubscription| s.id != subscription.id;
    let ghost before = hub.listeners@;
    let mut kept: Vec<ShellStateSubscription> = Vec::new();
    let mut i: usize = 0;
    proof {
        assert(before.take(0) =~= seq![]);
        reveal(Seq::filter);
    }
    while i < hub.listeners.len()
        invariant
            i <= hub.listeners@.len(),
            hub.listeners@ == before,
            others == (|s: ShellStateSubscription| s.id != subscription.id),
            kept@ == before.take(i as int).filter(others),
        decreases hub.listeners@.len() - i,
    {
        proof {
            reveal(Seq::filter);
            assert(before.take(i + 1).drop_last() =~= before.take(i as int));
        }
        if hub.listeners[i].id != subscription.id {
            kept.push(hub.listeners[i]);
        }
        i += 1;
    }
    proof {
        assert(before.take(i as int) =~= before);
        lemma_kept(before, others, hub.next_listener as int);
    }
    hub.listeners = kept;
}

/// The listeners with the number `id`: the one, where there is one.
proof fn lemma_one_of_a_number(s: Seq<ShellStateSubscription>, id: u64)
    requires
        forall|i: int, j: int|
            #![trigger s[i], s[j]]
            0 <= i < j < s.len() ==> s[i].id != s[j].id,
    ensures
        s.filter(|x: ShellStateSubscription| x.id == id).len() == (if s.contains(
            ShellStateSubscription { id },
        ) {
            1int
        } else {
            0
        }),
    decreases s.len(),
{
    reveal(Seq::filter);
    let me = ShellStateSubscription { id };
    if s.len() > 0 {
        let t = s.drop_last();
        lemma_one_of_a_number(t, id);
        if s.last().id == id {
            assert(s.contains(s.last()));
            if t.contains(me) {
                let k = choose|k: int| 0 <= k < t.len() && t[k] == me;
                assert(s[k].id == s[s.len() - 1].id);
            }
        } else if s.contains(me) {
            let k = choose|k: int| 0 <= k < s.len() && s[k] == me;
            assert(t[k] == me);
        } else if t.contains(me) {
            let k = choose|k: int| 0 <= k < t.len() && t[k] == me;
            assert(s[k] == me);
        }
    }
}

/// One step keeps the numbers in order, and takes no listener off the list but
/// the one that it cancels.
proof fn lemma_step(b: Board, step: BoardStep, id: u64)
    requires
        b.wf(),
        0 <= id < b.next_listener,
        step is Register ==> b.next_listener <= u64::MAX,
    ensures
        ({
            let me = ShellStateSubscription { id };
            let a = b.after(step);
            &&& a.wf()
            &&& id < a.next_listener
            &&& a.next_listener == b.next_listener + registrations(seq![step])
            &&& step == (BoardStep::Cancel { subscription: me }) ==> !a.listeners.contains(me)
            &&& step != (BoardStep::Cancel { subscription: me }) ==> a.listeners.contains(me)
                == b.listeners.contains(me)
        }),
{
    let me = ShellStateSubscription { id };
    let a = b.after(step);
    reveal_with_fuel(registrations, 2);
    assert(seq![step].drop_last() =~= seq![]);
    match step {
        BoardStep::Publish { .. } => {},
        BoardStep::Register => {
            let new = ShellStateSubscription { id: b.next_listener as u64 };
            assert(a.listeners =~= b.listeners.push(new));
            if b.listeners.contains(me) {
                let k = choose|k: int| 0 <= k < b.listeners.len() && b.listeners[k] == me;
                assert(a.listeners[k] == me);
            }
        },
        BoardStep::Cancel { subscription } => {
            let keep = |s: ShellStateSubscription| s.id != subscription.id;
            lemma_kept(b.listeners, keep, b.next_listener);
            if b.listeners.contains(me) && subscription != me {
                let k = choose|k: int| 0 <= k < b.listeners.len() && b.listeners[k] == me;
                b.listeners.lemma_filter_contains(keep, k);
                assert(a.listeners.contains(me));
            }
        },
    }
}

/// Cancelling keeps the numbers in order.
proof fn lemma_kept(
    s: Seq<ShellStateSubscription>,
    keep: spec_fn(ShellStateSubscription) -> bool,
    bound: int,
)
    requires
        forall|i: int| 0 <= i < s.len() ==> (#[trigger] s[i]).id < bound,
        forall|i: int, j: int|
            #![trigger s[i], s[j]]
            0 <= i < j < s.len() ==> s[i].id != s[j].id,
    ensures
        ({
            let f = s.filter(keep);
            &&& forall|i: int| 0 <= i < f.len() ==> (#[trigger] f[i]).id < bound && keep(f[i])
                && s.contains(f[i])
            &&& forall|i: int, j: int|
                #![trigger f[i], f[j]]
                0 <= i < j < f.len() ==> f[i].id != f[j].id
        }),
    decreases s.len(),
{
    reveal(Seq::filter);
    if s.len() > 0 {
        let t = s.drop_last();
        lemma_kept(t, keep, bound);
        let f = t.filter(keep);
        assert forall|i: int| 0 <= i < f.len() implies (#[trigger] f[i]).id != s.last().id
            && s.contains(f[i]) by {
            assert(t.contains(f[i]));
            let k = choose|k: int| 0 <= k < t.len() && t[k] == f[i];
            assert(s[k] == f[i]);
        }
        assert(s.contains(s.last()));
    }
}

/// What a listener is told in one step, once its number has been given out.
proof fn lemma_told(b: Board, step: BoardStep, id: u64)
    requires
        b.wf(),
        id < b.next_listener,
    ensures
        b.told(step, id) == (if b.listeners.contains(ShellStateSubscription { id }) {
            publications(seq![step])
        } else {
            seq![]
        }),
{
    lemma_one_of_a_number(b.listeners, id);
    reveal_with_fuel(publications, 2);
    assert(seq![step].drop_last() =~= seq![]);
    assert(b.told(step, id) =~= (if b.listeners.contains(ShellStateSubscription { id }) {
        publications(seq![step])
    } else {
        seq![]
    }));
}

/// While a listener is on the list it is told every publication; once it is
/// off the list it is told nothing.
proof fn lemma_run(b: Board, steps: Seq<BoardStep>, id: u64)
    requires
        b.wf(),
        0 <= id < b.next_listener,
        b.next_listener + registrations(steps) <= u64::MAX,
        b.listeners.contains(ShellStateSubscription { id }) ==> !steps.contains(
            BoardStep::Cancel { subscription: ShellStateSubscription { id } },
        ),
    ensures
        ({
            let me = ShellStateSubscription { id };
            let a = b.after_all(steps);
            &&& a.wf()
            &&& id < a.next_listener
            &&& a.next_listener == b.next_listener + registrations(steps)
            &&& a.listeners.contains(me) == b.listeners.contains(me)
            &&& b.told_over(steps, id) == (if b.listeners.contains(me) {
                publications(steps)
            } else {
                seq![]
            })
        }),
    decreases steps.len(),
{
    if steps.len() > 0 {
        let front = steps.drop_last();
        let last = steps.last();
        let me = ShellStateSubscription { id };
        if b.listeners.contains(me) {
            assert(steps.contains(last));
            assert forall|x: BoardStep| front.contains(x) implies steps.contains(x) by {
                let k = choose|k: int| 0 <= k < front.len() && front[k] == x;
                assert(steps[k] == x);
            }
        }
        lemma_run(b, front, id);
        let mid = b.after_all(front);
        lemma_step(mid, last, id);
        lemma_told(mid, last, id);
        reveal_with_fuel(publications, 2);
        reveal_with_fuel(registrations, 2);
        assert(seq![last].drop_last() =~= seq![]);
        assert(seq![last].last() == last);
        assert(b.told_over(steps, id) =~= (if b.listeners.contains(me) {
            publications(steps)
        } else {
            seq![]
        }));
    }
}

proof fn lemma_runs_join(b: Board, first: Seq<BoardStep>, second: Seq<BoardStep>, id: u64)
    ensures
        b.after_all(first + second) == b.after_all(first).after_all(second),
        b.told_over(first + second, id) == b.told_over(first, id) + b.after_all(first).told_over(
            second,
            id,
        ),
        registrations(first + second) == registrations(first) + registrations(second),
    decreases second.len(),
{
    if second.len() == 0 {
        assert(first + second =~= first);
        assert(b.told_over(first, id) + seq![] =~= b.told_over(first, id));
    } else {
        lemma_runs_join(b, first, second.drop_last(), id);
        assert((first + second).drop_last() =~= first + second.drop_last());
        assert((first + second).last() == second.last());
        assert(b.told_over(first + second, id) =~= b.told_over(first, id) + b.after_all(
            first,
        ).told_over(second, id));
    }
}

/// A listener is told the state that is published when it registers, where one
/// is, and then each publication, once and in order, until its subscription is
/// dropped. After that it is told nothing, whatever happens: its number is
/// never given out again. `live` is what happens while it listens, `later` what
/// happens afterwards.
pub proof fn listeners_are_told_while_subscribed(
    hub: Hub,
    live: Seq<BoardStep>,
    later: Seq<BoardStep>,
)
    requires
        hub.wf(),
        hub.next_listener + registrations(live) + registrations(later) < u64::MAX,
        !live.contains(
            BoardStep::Cancel {
                subscription: ShellStateSubscription { id: hub.next_listener },
            },
        ),
    ensures
        ({
            let id = hub.next_listener;
            let cancel = BoardStep::Cancel { subscription: ShellStateSubscription { id } };
            let seed = match hub.state {
                Some(state) => seq![state],
                None => seq![],
            };
            &&& hub.board().told_over(seq![BoardStep::Register] + live, id) == seed + publications(
                live,
            )
            &&& hub.board().told_over(
                seq![BoardStep::Register] + live + seq![cancel] + later,
                id,
            ) == seed + publications(live)
        }),
{
    let b = hub.board();
    let id = hub.next_listener;
    let me = ShellStateSubscription { id };
    let cancel = BoardStep::Cancel { subscription: me };
    let start = seq![BoardStep::Register];
    let seed: Seq<ShellState> = match hub.state {
        Some(state) => seq![state],
        None => seq![],
    };
    reveal_with_fuel(Board::told_over, 2);
    reveal_with_fuel(Board::after_all, 2);
    reveal_with_fuel(registrations, 2);
    assert(start.drop_last() =~= seq![]);
    let listening = b.after_all(start);
    assert(listening == b.after(BoardStep::Register));
    assert(b.told_over(start, id) =~= seed);
    assert(listening.listeners =~= b.listeners.push(me));
    assert(listening.listeners.last() == me);
    assert(listening.listeners.contains(me));
    assert(b.wf()) by {
        assert(b.listeners == hub.listeners@);
    }
    assert(listening.wf()) by {
        assert forall|i: int| 0 <= i < listening.listeners.len() implies (
        #[trigger] listening.listeners[i]).id < listening.next_listener by {
            if i < b.listeners.len() {
                assert(listening.listeners[i] == b.listeners[i]);
            }
        }
    }
    lemma_run(listening, live, id);
    lemma_runs_join(b, start, live, id);
    let ended = listening.after_all(live);
    let stop = seq![cancel];
    assert(stop.drop_last() =~= seq![]);
    lemma_step(ended, cancel, id);
    assert(ended.after_all(stop) == ended.after(cancel));
    assert(ended.told_over(stop, id) =~= seq![]);
    lemma_runs_join(b, start + live, stop, id);
    let gone = ended.after(cancel);
    lemma_run(gone, later, id);
    lemma_runs_join(b, start + live + stop, later, id);
    assert(seed + publications(live) + seq![] + seq![] =~= seed + publications(live));
}

/// A focus that no live browser took is not lost: as soon as a live one is
/// there, the next report hands it over.
pub proof fn untaken_focus_is_handed_on(focus: WebFocus, belief: bool)
    requires
        focus.published != Some(belief),
    ensures
        focus.handover(belief, false) is None,
        focus.handover(belief, true) == Some(belief),
{
}

/// A belief that the web has taken is not repeated.
pub proof fn taken_focus_is_not_repeated(focus: WebFocus, belief: bool, web_alive: bool)
    requires
        focus.published == Some(belief),
    ensures
        focus.handover(belief, web_alive) is None,
{
}

/// Publishing replaces the state and nothing else; registering adds one
/// listener behind the others, under a number not given out before; cancelling
/// takes away the one and keeps the rest in order.
pub proof fn boards_change_one_thing_at_a_time(
    b: Board,
    state: ShellState,
    subscription: ShellStateSubscription,
)
    ensures
        b.after(BoardStep::Publish { state }).state == Some(state),
        b.after(BoardStep::Publish { state }).listeners == b.listeners,
        b.after(BoardStep::Publish { state }).next_listener == b.next_listener,
        b.after(BoardStep::Register).state == b.state,
        b.after(BoardStep::Register).listeners.len() == b.listeners.len() + 1,
        b.after(BoardStep::Register).listeners.drop_last() == b.listeners,
        b.next_listener == subscription.id ==> b.after(BoardStep::Register).listeners.last()
            == subscription,
        b.after(BoardStep::Register).next_listener == b.next_listener + 1,
        b.after(BoardStep::Cancel { subscription }).state == b.state,
        b.after(BoardStep::Cancel { subscription }).next_listener == b.next_listener,
        forall|l: ShellStateSubscription|
            b.after(BoardStep::Cancel { subscription }).listeners.contains(l) ==> b.listeners.contains(
                l,
            ) && l != subscription,
        forall|l: ShellStateSubscription|
            b.listeners.contains(l) && l != subscription ==> b.after(
                BoardStep::Cancel { subscription },
            ).listeners.contains(l),
{
    let keep = |s: ShellStateSubscription| s.id != subscription.id;
    let after = b.after(BoardStep::Cancel { subscription }).listeners;
    assert(b.after(BoardStep::Register).listeners.drop_last() =~= b.listeners);
    lemma_filter_members(b.listeners, keep);
    assert(after == b.listeners.filter(keep));
    assert forall|l: ShellStateSubscription| after.contains(l) implies b.listeners.contains(l) && l
        != subscription by {
        assert(keep(l));
    }
    assert forall|l: ShellStateSubscription| b.listeners.contains(l) && l != subscription implies after.contains(
        l,
    ) by {
        assert(keep(l));
    }
}

proof fn lemma_filter_members(
    s: Seq<ShellStateSubscription>,
    keep: spec_fn(ShellStateSubscription) -> bool,
)
    ensures
        forall|l: ShellStateSubscription|
            s.filter(keep).contains(l) <==> s.contains(l) && #[trigger] keep(l),
    decreases s.len(),
{
    reveal(Seq::filter);
    if s.len() > 0 {
        let t = s.drop_last();
        lemma_filter_members(t, keep);
        assert(s =~= t.push(s.last()));
        assert forall|l: ShellStateSubscription|
            s.filter(keep).contains(l) <==> s.contains(l) && #[trigger] keep(l) by {
            if s.filter(keep).contains(l) {
                let k = choose|k: int| 0 <= k < s.filter(keep).len() && s.filter(keep)[k] == l;
                if k < t.filter(keep).len() {
                    assert(t.filter(keep)[k] == l);
                    assert(t.filter(keep).contains(l));
                    let j = choose|j: int| 0 <= j < t.len() && t[j] == l;
                    assert(s[j] == l);
                } else {
                    assert(s[s.len() - 1] == l);
                }
            }
            if s.contains(l) && keep(l) {
                let j = choose|j: int| 0 <= j < s.len() && s[j] == l;
                if j < t.len() {
                    assert(t[j] == l);
                    assert(t.contains(l));
                    let k = choose|k: int| 0 <= k < t.filter(keep).len() && t.filter(keep)[k] == l;
                    assert(s.filter(keep)[k] == l);
                } else {
                    assert(s.filter(keep).last() == l);
                    assert(s.filter(keep)[s.filter(keep).len() - 1] == l);
                }
            }
        }
    }
}

/// A hub's board shows what was published on it and who listens.
pub proof fn boards_show_their_hub(hub: Hub)
    ensures
        hub.board().state == hub.state,
        hub.board().listeners == hub.listeners@,
        hub.board().next_listener == hub.next_listener,
        hub.wf() ==> hub.board().wf(),
{
}

/// What is published is what is read back, and publishing one thing leaves the
/// other.
pub proof fn published_states_are_read_back(
    hub: &mut Hub,
    state: ShellState,
    belief: bool,
    alive: bool,
    told: Publication,
    read: Option<ShellState>,
    edited: &mut Hub,
    edit: Option<FieldEdit>,
    edit_read: Option<FieldEdit>,
)
    requires
        call_ensures(publish_shell_state, (hub, state, belief, alive), told),
        call_ensures(shell_state, (&*final(hub),), read),
        *old(edited) == *final(hub),
        call_ensures(publish_field_edit, (edited, edit), ()),
        call_ensures(field_edit, (&*final(edited),), edit_read),
    ensures
        read == Some(state),
        edit_read == edit,
        final(edited).state == Some(state),
        told.listeners@ == old(hub).listeners@,
        final(hub).focus.modal_open == state.modal_open,
        final(hub).field_edit == old(hub).field_edit,
{
}

/// The web is told the focus that is held to be right, once: a second report of
/// the same tells it nothing, and a browser that comes up is told whatever the
/// one before it knew.
pub proof fn focus_is_handed_over_once(
    hub: &mut Hub,
    focused: bool,
    belief: bool,
    first: Option<bool>,
    again: &mut Hub,
    second: Option<bool>,
    fresh: &mut Hub,
    third: Option<bool>,
)
    requires
        call_ensures(set_window_focused, (hub, focused, belief, true), first),
        *old(again) == *final(hub),
        call_ensures(set_window_focused, (again, focused, belief, true), second),
        *old(fresh) == *final(again),
        call_ensures(web_became_live, (fresh, belief, true), third),
    ensures
        first matches Some(b) ==> b == belief,
        first is None ==> old(hub).focus.published == Some(belief),
        second is None,
        third == Some(belief),
        final(hub).focus.window == focused,
        final(hub).focus.published == Some(belief),
{
}

/// Whoever listens is told the state as it is, gets a number of its own, and is
/// gone once it has cancelled; the others stay.
pub proof fn listeners_come_and_go(
    hub: &mut Hub,
    again: &mut Hub,
    registered: (ShellStateSubscription, Option<ShellState>),
    other: ShellStateSubscription,
)
    requires
        old(hub).wf(),
        call_ensures(on_shell_state_scoped, (hub,), registered),
        *old(again) == *final(hub),
        call_ensures(drop_subscription, (again, registered.0), ()),
        old(hub).listeners@.contains(other),
    ensures
        registered.1 == old(hub).state,
        !old(hub).listeners@.contains(registered.0),
        final(hub).listeners@.contains(registered.0) && final(hub).listeners@.contains(other),
        !final(again).listeners@.contains(registered.0),
        final(again).listeners@.contains(other),
        final(again).state == old(hub).state && final(again).focus == old(hub).focus
            && final(again).field_edit == old(hub).field_edit,
        final(again).next_listener != old(hub).next_listener,
{
    let before = old(hub).listeners@;
    let with = final(hub).listeners@;
    let i = choose|i: int| 0 <= i < before.len() && before[i] == other;
    assert(with[i] == other);
    assert(with.last() == registered.0);
    assert(with[with.len() - 1] == registered.0);
    with.lemma_filter_contains(|s: ShellStateSubscription| s.id != registered.0.id, i);
}

} // verus!
