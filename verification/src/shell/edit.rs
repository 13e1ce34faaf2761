//! Menus, pastes and edit commands on the overlay's text fields.

use vstd::prelude::*;

use crate::input::sink::EditCommand;
use crate::platform::LogicalPoint;
use crate::shell::focus::Id;

verus! {

/// The field that an edit command is for.
#[derive(Debug)]
pub enum Target {
    Focused,
    Named(Id),
}

impl Clone for Target {
    fn clone(&self) -> (r: Self)
        ensures
            r == *self,
    {
        match self {
            Target::Focused => Target::Focused,
            Target::Named(id) => Target::Named(id.clone()),
        }
    }
}

impl PartialEq for Target {
    fn eq(&self, other: &Self) -> (r: bool) {
        match (self, other) {
            (Target::Focused, Target::Focused) => true,
            (Target::Named(a), Target::Named(b)) => *a == *b,
            _ => false,
        }
    }
}

impl vstd::std_specs::cmp::PartialEqSpecImpl for Target {
    open spec fn obeys_eq_spec() -> bool {
        true
    }

    open spec fn eq_spec(&self, other: &Self) -> bool {
        match (*self, *other) {
            (Target::Focused, Target::Focused) => true,
            (Target::Named(a), Target::Named(b)) => a@ == b@,
            _ => false,
        }
    }
}

impl Eq for Target {

}

/// Who asked for the clipboard.
#[derive(Debug)]
pub enum Reader {
    Iced,
    Field(Id),
}

impl Clone for Reader {
    fn clone(&self) -> (r: Self)
        ensures
            r == *self,
    {
        match self {
            Reader::Iced => Reader::Iced,
            Reader::Field(id) => Reader::Field(id.clone()),
        }
    }
}

impl PartialEq for Reader {
    fn eq(&self, other: &Self) -> (r: bool) {
        match (self, other) {
            (Reader::Iced, Reader::Iced) => true,
            (Reader::Field(a), Reader::Field(b)) => *a == *b,
            _ => false,
        }
    }
}

impl vstd::std_specs::cmp::PartialEqSpecImpl for Reader {
    open spec fn obeys_eq_spec() -> bool {
        true
    }

    open spec fn eq_spec(&self, other: &Self) -> bool {
        match (*self, *other) {
            (Reader::Iced, Reader::Iced) => true,
            (Reader::Field(a), Reader::Field(b)) => a@ == b@,
            _ => false,
        }
    }
}

impl Eq for Reader {

}

/// An edit of one field.
#[derive(Debug)]
pub enum Act {
    Undo,
    Redo,
    Cut,
    Copy,
    SelectAll,
    Paste(String),
    /// Put the caret at a character.
    Caret(usize),
}

/// An edit waiting to be carried out on the widgets.
#[derive(Debug)]
pub enum Apply {
    Act { field: Id, act: Act },
    /// Focus the field, and put its caret where one is given.
    Focus { field: Id, caret: Option<Act> },
}

/// A text field as it stood when the pass began.
#[derive(Debug)]
pub struct FieldSnapshot {
    pub id: Id,
    pub focused: bool,
    pub caret: LogicalPoint,
    pub selection: Option<String>,
    pub selection_generation: u64,
}

/// A request that needs the widgets, put off to the next pass.
#[derive(Debug)]
pub enum Deferred {
    ContextMenu(LogicalPoint),
    EditMenuAtCaret,
    PrimaryPaste(LogicalPoint),
    Edit(Target, EditCommand),
}

/// How a press works on this platform: where it puts the caret, and whether it
/// focuses the field.
#[derive(Debug)]
pub struct Press {
    pub caret: Option<Act>,
    pub focuses: bool,
}

/// What the widgets and the platform say about one request: the field under
/// its point, by index, and the press. Without a platform there is no press.
#[derive(Debug)]
pub struct Site {
    pub field: Option<usize>,
    pub press: Option<Press>,
}

/// Something that the overlay's surroundings are to do.
#[derive(Debug)]
pub enum EditEffect {
    /// Raise the application's menu, restricted while the settings show.
    OpenMenu { at: LogicalPoint, restricted: bool },
    /// Read the primary selection for a field.
    ReadPrimary(Id),
    /// Read the clipboard for a field.
    ReadClipboard(Id),
}

/// Where the focused field is: the first one that says it has the focus.
pub open spec fn focused_index(fields: Seq<FieldSnapshot>) -> Option<int>
    decreases fields.len(),
{
    if fields.len() == 0 {
        None
    } else {
        match focused_index(fields.drop_last()) {
            Some(i) => Some(i),
            None => if fields.last().focused {
                Some(fields.len() - 1)
            } else {
                None
            },
        }
    }
}

/// Where the field named `id` is: the first one of that name.
pub open spec fn named_index(fields: Seq<FieldSnapshot>, id: Seq<char>) -> Option<int>
    decreases fields.len(),
{
    if fields.len() == 0 {
        None
    } else {
        match named_index(fields.drop_last(), id) {
            Some(i) => Some(i),
            None => if fields.last().id@ == id {
                Some(fields.len() - 1)
            } else {
                None
            },
        }
    }
}

pub open spec fn target_index(fields: Seq<FieldSnapshot>, target: Target) -> Option<int> {
    match target {
        Target::Focused => focused_index(fields),
        Target::Named(id) => named_index(fields, id@),
    }
}

pub fn focused(fields: &Vec<FieldSnapshot>) -> (r: Option<usize>)
    ensures
        match r {
            Some(i) => focused_index(fields@) == Some(i as int) && i < fields@.len(),
            None => focused_index(fields@) is None,
        },
{
    let mut i: usize = 0;
    assert(fields@.take(0) =~= seq![]);
    while i < fields.len()
        invariant
            i <= fields@.len(),
            focused_index(fields@.take(i as int)) is None,
        decreases fields@.len() - i,
    {
        proof {
            assert(fields@.take(i + 1).drop_last() =~= fields@.take(i as int));
        }
        if fields[i].focused {
            proof {
                lemma_first_stays(fields@, i + 1, seq![]);
            }
            return Some(i);
        }
        i += 1;
    }
    assert(fields@.take(i as int) =~= fields@);
    None
}

proof fn lemma_first_stays(fields: Seq<FieldSnapshot>, n: int, id: Seq<char>)
    requires
        0 <= n <= fields.len(),
    ensures
        focused_index(fields.take(n)) is Some ==> focused_index(fields) == focused_index(
            fields.take(n),
        ),
        named_index(fields.take(n), id) is Some ==> named_index(fields, id) == named_index(
            fields.take(n),
            id,
        ),
    decreases fields.len(),
{
    if n < fields.len() {
        let front = fields.drop_last();
        lemma_first_stays(front, n, id);
        assert(front.take(n) =~= fields.take(n));
    } else {
        assert(fields.take(n) =~= fields);
    }
}

pub fn named(fields: &Vec<FieldSnapshot>, id: &Id) -> (r: Option<usize>)
    ensures
        match r {
            Some(i) => named_index(fields@, id@) == Some(i as int) && i < fields@.len(),
            None => named_index(fields@, id@) is None,
        },
{
    let mut i: usize = 0;
    assert(fields@.take(0) =~= seq![]);
    while i < fields.len()
        invariant
            i <= fields@.len(),
            named_index(fields@.take(i as int), id@) is None,
        decreases fields@.len() - i,
    {
        proof {
            assert(fields@.take(i + 1).drop_last() =~= fields@.take(i as int));
        }
        if fields[i].id == *id {
            proof {
                lemma_first_stays(fields@, i + 1, id@);
            }
            return Some(i);
        }
        i += 1;
    }
    assert(fields@.take(i as int) =~= fields@);
    None
}

/// The edit that a command makes, where it needs no clipboard.
pub open spec fn command_act(command: EditCommand) -> Option<Act> {
    match command {
        EditCommand::Undo => Some(Act::Undo),
        EditCommand::Redo => Some(Act::Redo),
        EditCommand::Cut => Some(Act::Cut),
        EditCommand::Copy => Some(Act::Copy),
        EditCommand::SelectAll => Some(Act::SelectAll),
        EditCommand::Paste => None,
    }
}

/// An edit command is queued for the field it is for. A paste first reads the
/// clipboard, for that field. Without the field nothing happens.
pub fn queue_edit(
    fields: &Vec<FieldSnapshot>,
    target: &Target,
    command: EditCommand,
    queued: &mut Vec<Apply>,
) -> (r: Option<EditEffect>)
    ensures
        match target_index(fields@, *target) {
            None => r is None && final(queued)@ == old(queued)@,
            Some(i) => match command_act(command) {
                Some(act) => r is None && final(queued)@ == old(queued)@.push(
                    Apply::Act { field: fields@[i].id, act },
                ),
                None => r == Some(EditEffect::ReadClipboard(fields@[i].id)) && final(queued)@
                    == old(queued)@,
            },
        },
{
    let index: Option<usize> = match target {
        Target::Focused => focused(fields),
        Target::Named(id) => named(fields, id),
    };
    let i: usize = match index {
        None => return None,
        Some(i) => i,
    };
    let id = fields[i].id.clone();
    let act = match command {
        EditCommand::Undo => Act::Undo,
        EditCommand::Redo => Act::Redo,
        EditCommand::Cut => Act::Cut,
        EditCommand::Copy => Act::Copy,
        EditCommand::SelectAll => Act::SelectAll,
        EditCommand::Paste => return Some(EditEffect::ReadClipboard(id)),
    };
    queued.push(Apply::Act { field: id, act });
    None
}

/// The edits that raising a menu on a field makes first.
pub open spec fn press_edits(field: Id, press: Press) -> Seq<Apply> {
    if press.focuses {
        seq![Apply::Focus { field, caret: press.caret }]
    } else {
        match press.caret {
            Some(act) => seq![Apply::Act { field, act }],
            None => seq![],
        }
    }
}

/// A menu was asked for at `p`. Off every field it is the application's; on one
/// it is the field's, and the press is made there first. The second value is
/// where the field's menu goes.
pub fn raise_menu(
    fields: &Vec<FieldSnapshot>,
    p: LogicalPoint,
    site: Site,
    queued: &mut Vec<Apply>,
    restricted: bool,
) -> (r: (Option<EditEffect>, Option<LogicalPoint>))
    requires
        site.field matches Some(i) ==> i < fields@.len(),
    ensures
        match site.field {
            None => {
                &&& r.0 == Some(EditEffect::OpenMenu { at: p, restricted })
                &&& r.1 is None
                &&& final(queued)@ == old(queued)@
            },
            Some(i) => match site.press {
                None => r.0 is None && r.1 is None && final(queued)@ == old(queued)@,
                Some(press) => {
                    &&& r.0 is None
                    &&& r.1 == Some(p)
                    &&& final(queued)@ == old(queued)@ + press_edits(
                        fields@[i as int].id,
                        press,
                    )
                },
            },
        },
{
    let ghost given = site;
    let index: usize = match site.field {
        None => return (Some(EditEffect::OpenMenu { at: p, restricted }), None),
        Some(i) => i,
    };
    match site.press {
        None => (None, None),
        Some(press) => {
            let field = fields[index].id.clone();
            if press.focuses {
                queued.push(Apply::Focus { field, caret: press.caret });
            } else {
                match press.caret {
                    Some(act) => queued.push(Apply::Act { field, act }),
                    None => {},
                }
            }
            assert(queued@ =~= old(queued)@ + press_edits(
                fields@[index as int].id,
                given.press->0,
            ));
            (None, Some(p))
        },
    }
}

/// Where a field's menu goes when it is asked for by key.
pub fn caret_anchor(field: &FieldSnapshot) -> (r: LogicalPoint)
    ensures
        r == field.caret,
{
    field.caret
}

/// What carrying out a run of requests has come to.
#[derive(Debug)]
pub struct Resolved {
    pub effects: Vec<EditEffect>,
    /// Where a field's menu is to be raised: the first request that asks for
    /// one wins.
    pub menu_anchor: Option<LogicalPoint>,
}

/// The outcome of requests, in spec form: effects, queued edits, menu.
pub struct Outcome {
    pub effects: Seq<EditEffect>,
    pub queued: Seq<Apply>,
    pub menu_anchor: Option<LogicalPoint>,
}

/// The outcome of one more request.
pub open spec fn after_request(
    o: Outcome,
    fields: Seq<FieldSnapshot>,
    request: Deferred,
    site: Site,
    restricted: bool,
) -> Outcome {
    match request {
        Deferred::ContextMenu(p) => match site.field {
            None => Outcome {
                effects: o.effects.push(EditEffect::OpenMenu { at: p, restricted }),
                ..o
            },
            Some(i) => match site.press {
                None => o,
                Some(press) => Outcome {
                    queued: o.queued + press_edits(fields[i as int].id, press),
                    menu_anchor: if o.menu_anchor is Some {
                        o.menu_anchor
                    } else {
                        Some(p)
                    },
                    ..o
                },
            },
        },
        Deferred::EditMenuAtCaret => Outcome {
            menu_anchor: if o.menu_anchor is Some {
                o.menu_anchor
            } else {
                match focused_index(fields) {
                    Some(i) => Some(fields[i].caret),
                    None => None,
                }
            },
            ..o
        },
        Deferred::PrimaryPaste(_) => match site.field {
            Some(i) => Outcome {
                effects: o.effects.push(EditEffect::ReadPrimary(fields[i as int].id)),
                ..o
            },
            None => o,
        },
        Deferred::Edit(target, command) => match target_index(fields, target) {
            None => o,
            Some(i) => match command_act(command) {
                Some(act) => Outcome {
                    queued: o.queued.push(Apply::Act { field: fields[i].id, act }),
                    ..o
                },
                None => Outcome {
                    effects: o.effects.push(EditEffect::ReadClipboard(fields[i].id)),
                    ..o
                },
            },
        },
    }
}

/// The outcome of a run of requests, oldest first.
pub open spec fn after_requests(
    o: Outcome,
    fields: Seq<FieldSnapshot>,
    requests: Seq<(Deferred, Site)>,
    restricted: bool,
) -> Outcome
    decreases requests.len(),
{
    if requests.len() == 0 {
        o
    } else {
        after_request(
            after_requests(o, fields, requests.drop_last(), restricted),
            fields,
            requests.last().0,
            requests.last().1,
            restricted,
        )
    }
}

/// Carries out the requests that waited for the widgets, oldest first.
pub fn resolve_deferred(
    fields: &Vec<FieldSnapshot>,
    requests: Vec<(Deferred, Site)>,
    queued: &mut Vec<Apply>,
    restricted: bool,
) -> (r: Resolved)
    requires
        forall|k: int|
            0 <= k < requests@.len() ==> ((#[trigger] requests@[k]).1.field matches Some(i) ==> i
                < fields@.len()),
    ensures
        ({
            let o = after_requests(
                Outcome { effects: seq![], queued: old(queued)@, menu_anchor: None },
                fields@,
                requests@,
                restricted,
            );
            &&& r.effects@ == o.effects
            &&& final(queued)@ == o.queued
            &&& r.menu_anchor == o.menu_anchor
        }),
{
    let ghost given = requests@;
    let ghost start = Outcome { effects: seq![], queued: old(queued)@, menu_anchor: None };
    let mut effects: Vec<EditEffect> = Vec::new();
    let mut menu_anchor: Option<LogicalPoint> = None;
    let mut rest: Vec<(Deferred, Site)> = requests;
    let ghost mut n: int = 0;
    proof {
        assert(given.take(0) =~= seq![]);
        assert(given.skip(0) =~= given);
    }
    while rest.len() > 0
        invariant
            0 <= n <= given.len(),
            rest@ == given.skip(n),
            forall|k: int|
                0 <= k < given.len() ==> ((#[trigger] given[k]).1.field matches Some(i) ==> i
                    < fields@.len()),
            effects@ == after_requests(start, fields@, given.take(n), restricted).effects,
            queued@ == after_requests(start, fields@, given.take(n), restricted).queued,
            menu_anchor == after_requests(start, fields@, given.take(n), restricted).menu_anchor,
        decreases rest@.len(),
    {
        proof {
            assert(given.take(n + 1).drop_last() =~= given.take(n));
            assert(given.take(n + 1).last() == given[n]);
            assert(rest@[0] == given[n]);
        }
        let (request, site) = rest.remove(0);
        match request {
            Deferred::ContextMenu(p) => {
                let (effect, anchor) = raise_menu(fields, p, site, queued, restricted);
                match effect {
                    Some(e) => effects.push(e),
                    None => {},
                }
                if menu_anchor.is_none() {
                    menu_anchor = anchor;
                }
            },
            Deferred::EditMenuAtCaret => {
                if menu_anchor.is_none() {
                    menu_anchor = match focused(fields) {
                        Some(i) => Some(caret_anchor(&fields[i])),
                        None => None,
                    };
                }
            },
            Deferred::PrimaryPaste(_) => match site.field {
                Some(i) => effects.push(EditEffect::ReadPrimary(fields[i].id.clone())),
                None => {},
            },
            Deferred::Edit(target, command) => {
                match queue_edit(fields, &target, command, queued) {
                    Some(e) => effects.push(e),
                    None => {},
                }
            },
        }
        proof {
            assert(rest@ =~= given.skip(n + 1));
            n = n + 1;
        }
    }
    assert(given.take(n) =~= given);
    Resolved { effects, menu_anchor }
}

/// The first menu asked for wins: once a place is settled, no later request
/// moves it.
pub proof fn first_menu_wins(
    o: Outcome,
    fields: Seq<FieldSnapshot>,
    requests: Seq<(Deferred, Site)>,
    restricted: bool,
)
    requires
        o.menu_anchor is Some,
    ensures
        after_requests(o, fields, requests, restricted).menu_anchor == o.menu_anchor,
    decreases requests.len(),
{
    if requests.len() > 0 {
        first_menu_wins(o, fields, requests.drop_last(), restricted);
    }
}

/// Tells whether the focused field's selection is to be published as the
/// primary one, and remembers that it was: each selection is published once.
pub fn publish_primary(fields: &Vec<FieldSnapshot>, last: &mut Option<(Id, u64)>) -> (r: Option<
    String,
>)
    ensures
        match focused_index(fields@) {
            None => r is None && *final(last) == *old(last),
            Some(i) => {
                let field = fields@[i];
                let known = *old(last) matches Some(mark) && mark.0@ == field.id@ && mark.1
                    == field.selection_generation;
                &&& known ==> r is None && *final(last) == *old(last)
                &&& !known ==> r == field.selection && *final(last) == Some(
                    (field.id, field.selection_generation),
                )
            },
        },
{
    let i: usize = match focused(fields) {
        None => return None,
        Some(i) => i,
    };
    let field = &fields[i];
    let known = match last {
        Some(mark) => mark.0 == field.id && mark.1 == field.selection_generation,
        None => false,
    };
    if known {
        return None;
    }
    *last = Some((field.id.clone(), field.selection_generation));
    match &field.selection {
        Some(text) => Some(text.clone()),
        None => None,
    }
}

/// An edit command makes the edit of its own name, and a paste none of its own:
/// so no two commands make the same edit.
pub proof fn commands_make_the_edit_they_name(a: EditCommand, b: EditCommand)
    ensures
        a is Undo <==> (command_act(a) matches Some(act) && act is Undo),
        a is Redo <==> (command_act(a) matches Some(act) && act is Redo),
        a is Cut <==> (command_act(a) matches Some(act) && act is Cut),
        a is Copy <==> (command_act(a) matches Some(act) && act is Copy),
        a is SelectAll <==> (command_act(a) matches Some(act) && act is SelectAll),
        a is Paste <==> command_act(a) is None,
        a != b ==> command_act(a) != command_act(b),
{
}

/// An edit command that is carried out queues one edit, of its own name, for
/// the field that it is for; a paste reads the clipboard for that field
/// instead. Without the field nothing happens.
pub proof fn edits_go_to_their_field(
    o: Outcome,
    fields: Seq<FieldSnapshot>,
    target: Target,
    command: EditCommand,
    site: Site,
    restricted: bool,
)
    ensures
        ({
            let after = after_request(
                o,
                fields,
                Deferred::Edit(target, command),
                site,
                restricted,
            );
            &&& after.menu_anchor == o.menu_anchor
            &&& target_index(fields, target) is None ==> after == o
            &&& target_index(fields, target) matches Some(i) ==> {
                &&& command is Paste ==> after.queued == o.queued && after.effects
                    == o.effects.push(EditEffect::ReadClipboard(fields[i].id))
                &&& !(command is Paste) ==> {
                    &&& after.effects == o.effects
                    &&& after.queued.len() == o.queued.len() + 1
                    &&& after.queued.drop_last() == o.queued
                    &&& after.queued.last() matches Apply::Act { field, act } && field
                        == fields[i].id && (command is Undo <==> act is Undo) && (command is Redo
                        <==> act is Redo) && (command is Cut <==> act is Cut) && (command is Copy
                        <==> act is Copy) && (command is SelectAll <==> act is SelectAll)
                }
            }
        }),
{
    let after = after_request(o, fields, Deferred::Edit(target, command), site, restricted);
    if after.queued.len() > o.queued.len() {
        assert(after.queued.drop_last() =~= o.queued);
    }
}

/// The focused field is the first that has the focus, and a named one the first
/// of its name; there is none where no field has the focus or the name.
pub proof fn fields_are_found_by_focus_or_name(fields: Seq<FieldSnapshot>, k: int, id: Id)
    requires
        0 <= k <= fields.len(),
    ensures
        (forall|i: int| 0 <= i < k ==> !(#[trigger] fields[i]).focused) && k < fields.len()
            && fields[k].focused ==> target_index(fields, Target::Focused) == Some(k),
        (forall|i: int| 0 <= i < fields.len() ==> !(#[trigger] fields[i]).focused) ==> target_index(
            fields,
            Target::Focused,
        ) is None,
        (forall|i: int| 0 <= i < k ==> (#[trigger] fields[i]).id@ != id@) && k < fields.len()
            && fields[k].id@ == id@ ==> target_index(fields, Target::Named(id)) == Some(k),
        (forall|i: int| 0 <= i < fields.len() ==> (#[trigger] fields[i]).id@ != id@) ==> target_index(
            fields,
            Target::Named(id),
        ) is None,
    decreases fields.len(),
{
    if fields.len() > 0 {
        let front = fields.drop_last();
        assert(forall|i: int| 0 <= i < front.len() ==> front[i] == fields[i]);
        if k < fields.len() {
            fields_are_found_by_focus_or_name(front, k, id);
        } else {
            fields_are_found_by_focus_or_name(front, k - 1, id);
        }
        if k == fields.len() - 1 {
            if forall|i: int| 0 <= i < k ==> !(#[trigger] fields[i]).focused {
                assert(focused_index(front) is None);
            }
            if forall|i: int| 0 <= i < k ==> (#[trigger] fields[i]).id@ != id@ {
                assert(named_index(front, id@) is None);
            }
        }
    }
}

/// A press on a field makes one edit of that field at most: where it focuses,
/// the focus together with the caret, and else the caret alone.
pub proof fn presses_edit_their_field(field: Id, press: Press)
    ensures
        press.focuses ==> press_edits(field, press).len() == 1 && press_edits(field, press)[0] == (
        Apply::Focus { field, caret: press.caret }),
        !press.focuses ==> (press.caret matches Some(act) ==> press_edits(field, press).len() == 1
            && press_edits(field, press)[0] == (Apply::Act { field, act })),
        !press.focuses && press.caret is None ==> press_edits(field, press).len() == 0,
{
}

/// A menu asked for off every field is the application's, at the point it was
/// asked for. On a field it is the field's, at that point, behind the press;
/// one asked for by key is at the focused field's caret.
pub proof fn menus_are_raised_where_asked(
    o: Outcome,
    fields: Seq<FieldSnapshot>,
    p: LogicalPoint,
    site: Site,
    restricted: bool,
)
    ensures
        ({
            let after = after_request(o, fields, Deferred::ContextMenu(p), site, restricted);
            &&& site.field is None ==> after.effects == o.effects.push(
                EditEffect::OpenMenu { at: p, restricted },
            ) && after.queued == o.queued && after.menu_anchor == o.menu_anchor
            &&& site.field matches Some(i) ==> {
                &&& after.effects == o.effects
                &&& site.press is None ==> after == o
                &&& site.press matches Some(press) ==> after.queued == o.queued + press_edits(
                    fields[i as int].id,
                    press,
                )
                &&& site.press is Some && o.menu_anchor is None ==> after.menu_anchor == Some(p)
                &&& o.menu_anchor is Some ==> after.menu_anchor == o.menu_anchor
            }
        }),
        ({
            let after = after_request(o, fields, Deferred::EditMenuAtCaret, site, restricted);
            &&& after.effects == o.effects && after.queued == o.queued
            &&& o.menu_anchor is Some ==> after.menu_anchor == o.menu_anchor
            &&& o.menu_anchor is None ==> (focused_index(fields) matches Some(i)
                ==> after.menu_anchor == Some(fields[i].caret))
            &&& o.menu_anchor is None && focused_index(fields) is None
                ==> after.menu_anchor is None
        }),
{
}

/// The primary selection is pasted into the field under the point, and into no
/// other.
pub proof fn primary_pastes_go_under_the_point(
    o: Outcome,
    fields: Seq<FieldSnapshot>,
    p: LogicalPoint,
    site: Site,
    restricted: bool,
)
    ensures
        ({
            let after = after_request(o, fields, Deferred::PrimaryPaste(p), site, restricted);
            &&& after.queued == o.queued && after.menu_anchor == o.menu_anchor
            &&& site.field matches Some(i) ==> after.effects == o.effects.push(
                EditEffect::ReadPrimary(fields[i as int].id),
            )
            &&& site.field is None ==> after.effects == o.effects
        }),
{
}

/// Requests are carried out in their order: a run is its first part and then
/// the rest, and one request alone comes to what it asks for.
pub proof fn requests_are_taken_in_order(
    o: Outcome,
    fields: Seq<FieldSnapshot>,
    first: Seq<(Deferred, Site)>,
    second: Seq<(Deferred, Site)>,
    restricted: bool,
)
    ensures
        after_requests(o, fields, first + second, restricted) == after_requests(
            after_requests(o, fields, first, restricted),
            fields,
            second,
            restricted,
        ),
        second.len() == 1 ==> after_requests(o, fields, second, restricted) == after_request(
            o,
            fields,
            second[0].0,
            second[0].1,
            restricted,
        ),
        second.len() == 0 ==> after_requests(o, fields, second, restricted) == o,
    decreases second.len(),
{
    if second.len() == 0 {
        assert(first + second =~= first);
    } else {
        assert((first + second).drop_last() =~= first + second.drop_last());
        assert((first + second).last() == second.last());
        requests_are_taken_in_order(o, fields, first, second.drop_last(), restricted);
    }
}

/// Two targets are the same where both are the focused field or both name one
/// field; two readers likewise.
pub proof fn targets_compare_by_name(a: Id, b: Id)
    ensures
        vstd::std_specs::cmp::PartialEqSpec::eq_spec(&Target::Named(a), &Target::Named(b)) <==> a@
            == b@,
        vstd::std_specs::cmp::PartialEqSpec::eq_spec(&Target::Focused, &Target::Focused),
        !vstd::std_specs::cmp::PartialEqSpec::eq_spec(&Target::Focused, &Target::Named(b)),
        !vstd::std_specs::cmp::PartialEqSpec::eq_spec(&Target::Named(a), &Target::Focused),
        vstd::std_specs::cmp::PartialEqSpec::eq_spec(&Reader::Field(a), &Reader::Field(b)) <==> a@
            == b@,
        vstd::std_specs::cmp::PartialEqSpec::eq_spec(&Reader::Iced, &Reader::Iced),
        !vstd::std_specs::cmp::PartialEqSpec::eq_spec(&Reader::Iced, &Reader::Field(b)),
        !vstd::std_specs::cmp::PartialEqSpec::eq_spec(&Reader::Field(a), &Reader::Iced),
        vstd::std_specs::cmp::PartialEqSpec::eq_spec(&a, &b) <==> a.name@ == b.name@,
{
}

/// Queuing an edit for the focused field queues the edit that was asked for,
/// for that field and behind what was queued; a paste reads the clipboard for
/// it.
pub proof fn queued_edits_are_the_ones_asked_for(
    fields: Vec<FieldSnapshot>,
    k: int,
    command: EditCommand,
    queued: &mut Vec<Apply>,
    r: Option<EditEffect>,
)
    requires
        0 <= k < fields@.len(),
        fields@[k].focused,
        forall|i: int| 0 <= i < k ==> !(#[trigger] fields@[i]).focused,
        call_ensures(queue_edit, (&fields, &Target::Focused, command, queued), r),
    ensures
        command is Paste ==> r == Some(EditEffect::ReadClipboard(fields@[k].id)) && final(queued)@
            == old(queued)@,
        !(command is Paste) ==> r is None && final(queued)@.len() == old(queued)@.len() + 1 && (
        final(queued)@.last() matches Apply::Act { field, act } && field == fields@[k].id && (
        command is Undo <==> act is Undo) && (command is Redo <==> act is Redo) && (command is Cut
            <==> act is Cut) && (command is Copy <==> act is Copy) && (command is SelectAll
            <==> act is SelectAll)),
{
    fields_are_found_by_focus_or_name(fields@, k, fields@[k].id);
}

/// A selection is published as it is, and once: asking again publishes nothing
/// until it changes.
pub proof fn selections_are_published_once(
    fields: Vec<FieldSnapshot>,
    last: &mut Option<(Id, u64)>,
    first: Option<String>,
    again: &mut Option<(Id, u64)>,
    second: Option<String>,
    k: int,
)
    requires
        focused_index(fields@) == Some(k),
        0 <= k < fields@.len(),
        call_ensures(publish_primary, (&fields, last), first),
        *old(again) == *final(last),
        call_ensures(publish_primary, (&fields, again), second),
    ensures
        first is Some ==> first == fields@[k].selection,
        *old(last) is None ==> first == fields@[k].selection,
        second is None,
{
}

/// A menu is raised at the point that was pressed.
pub proof fn menus_are_raised_at_the_press(
    fields: Vec<FieldSnapshot>,
    p: LogicalPoint,
    site: Site,
    queued: &mut Vec<Apply>,
    restricted: bool,
    r: (Option<EditEffect>, Option<LogicalPoint>),
)
    requires
        site.field matches Some(i) ==> i < fields@.len(),
        call_ensures(raise_menu, (&fields, p, site, queued, restricted), r),
    ensures
        r.0 matches Some(e) ==> (e matches EditEffect::OpenMenu { at, restricted: narrow } && at == p
            && narrow == restricted && site.field is None),
        r.1 matches Some(at) ==> at == p && site.field is Some,
        site.field is None ==> r.0 is Some,
        site.field is Some && site.press is Some ==> r.1 is Some,
{
}

/// By key, a field's menu opens at the field's caret.
pub proof fn menus_by_key_open_at_the_caret(field: FieldSnapshot, r: LogicalPoint)
    requires
        call_ensures(caret_anchor, (&field,), r),
    ensures
        r.x == field.caret.x,
        r.y == field.caret.y,
{
}

} // verus!
