//! What the overlay's widgets say, and the order in which it is taken.

use vstd::prelude::*;

use crate::shell::focus::Tab;

verus! {

#[derive(Debug, PartialEq, Eq)]
pub enum SettingsMessage {
    DeviceNameEdited(String),
    CommitDeviceName,
    AudioPassthroughEdited(String),
    ResetSavedServer,
    Other(u64),
}

impl Clone for SettingsMessage {
    fn clone(&self) -> (r: Self)
        ensures
            r == *self,
    {
        match self {
            SettingsMessage::DeviceNameEdited(name) => SettingsMessage::DeviceNameEdited(name.clone()),
            SettingsMessage::CommitDeviceName => SettingsMessage::CommitDeviceName,
            SettingsMessage::AudioPassthroughEdited(name) => SettingsMessage::AudioPassthroughEdited(name.clone()),
            SettingsMessage::ResetSavedServer => SettingsMessage::ResetSavedServer,
            SettingsMessage::Other(id) => SettingsMessage::Other(*id),
        }
    }
}

#[derive(Debug, PartialEq, Eq)]
pub enum SettingsOverlayMessage {
    Dismiss,
    Select(Tab),
    Settings(SettingsMessage),
}

impl Clone for SettingsOverlayMessage {
    fn clone(&self) -> (r: Self)
        ensures
            r == *self,
    {
        match self {
            SettingsOverlayMessage::Dismiss => SettingsOverlayMessage::Dismiss,
            SettingsOverlayMessage::Select(tab) => SettingsOverlayMessage::Select(*tab),
            SettingsOverlayMessage::Settings(message) => SettingsOverlayMessage::Settings(message.clone()),
        }
    }
}

#[derive(Debug, PartialEq, Eq)]
pub enum ModalMessage {
    SettingsOverlay(SettingsOverlayMessage),
    Other(u64),
}

impl Clone for ModalMessage {
    fn clone(&self) -> (r: Self)
        ensures
            r == *self,
    {
        match self {
            ModalMessage::SettingsOverlay(message) => ModalMessage::SettingsOverlay(message.clone()),
            ModalMessage::Other(id) => ModalMessage::Other(*id),
        }
    }
}

#[derive(Debug, PartialEq, Eq)]
pub enum Message {
    Modal(ModalMessage),
    Chrome(u64),
}

impl Clone for Message {
    fn clone(&self) -> (r: Self)
        ensures
            r == *self,
    {
        match self {
            Message::Modal(message) => Message::Modal(message.clone()),
            Message::Chrome(id) => Message::Chrome(*id),
        }
    }
}

/// A message after which the settings overlay is gone.
pub open spec fn dismisses(message: Message) -> bool {
    match message {
        Message::Modal(ModalMessage::SettingsOverlay(m)) => match m {
            SettingsOverlayMessage::Dismiss => true,
            SettingsOverlayMessage::Settings(s) => s is ResetSavedServer,
            _ => false,
        },
        _ => false,
    }
}

fn is_dismissal(message: &Message) -> (r: bool)
    ensures
        r == dismisses(*message),
{
    match message {
        Message::Modal(ModalMessage::SettingsOverlay(m)) => match m {
            SettingsOverlayMessage::Dismiss => true,
            SettingsOverlayMessage::Settings(s) => match s {
                SettingsMessage::ResetSavedServer => true,
                _ => false,
            },
            _ => false,
        },
        _ => false,
    }
}

/// `messages` with the dismissals moved behind everything else.
pub open spec fn dismissals_last(messages: Seq<Message>) -> Seq<Message> {
    messages.filter(|m: Message| !dismisses(m)) + messages.filter(|m: Message| dismisses(m))
}

/// Moves the messages that end the settings overlay behind the others, so that
/// no edit made with them is lost. Neither group is reordered.
pub fn settings_overlay_dismiss_last(messages: Vec<Message>) -> (out: Vec<Message>)
    ensures
        out@ == dismissals_last(messages@),
{
    let ghost given = messages@;
    let ghost stays = |m: Message| !dismisses(m);
    let ghost goes = |m: Message| dismisses(m);
    let mut ordinary: Vec<Message> = Vec::new();
    let mut dismissals: Vec<Message> = Vec::new();
    let mut rest: Vec<Message> = messages;
    proof {
        reveal(Seq::filter);
        assert(given.take(0) =~= seq![]);
        assert(given.skip(0) =~= given);
    }
    let ghost mut i: int = 0;
    while rest.len() > 0
        invariant
            0 <= i <= given.len(),
            rest@ == given.skip(i),
            stays == (|m: Message| !dismisses(m)),
            goes == (|m: Message| dismisses(m)),
            ordinary@ == given.take(i).filter(stays),
            dismissals@ == given.take(i).filter(goes),
        decreases rest@.len(),
    {
        proof {
            reveal(Seq::filter);
            assert(given.take(i + 1).drop_last() =~= given.take(i));
            assert(rest@[0] == given[i]);
        }
        let message = rest.remove(0);
        if is_dismissal(&message) {
            dismissals.push(message);
        } else {
            ordinary.push(message);
        }
        proof {
            assert(rest@ =~= given.skip(i + 1));
            i = i + 1;
        }
    }
    proof {
        assert(given.take(i) =~= given);
    }
    ordinary.append(&mut dismissals);
    ordinary
}

/// Nothing is lost and nothing is made up: a batch in its new order holds the
/// same messages, each as often.
pub proof fn reordering_keeps_every_message(messages: Seq<Message>)
    ensures
        dismissals_last(messages).to_multiset() == messages.to_multiset(),
        dismissals_last(messages).len() == messages.len(),
    decreases messages.len(),
{
    broadcast use vstd::seq_lib::group_to_multiset_ensures;

    let stays = |m: Message| !dismisses(m);
    let goes = |m: Message| dismisses(m);
    reveal(Seq::filter);
    if messages.len() > 0 {
        let front = messages.drop_last();
        reordering_keeps_every_message(front);
        assert(messages =~= front.push(messages.last()));
        vstd::seq_lib::lemma_multiset_commutative(front.filter(stays), front.filter(goes));
        vstd::seq_lib::lemma_multiset_commutative(messages.filter(stays), messages.filter(goes));
        assert(dismissals_last(messages).to_multiset() =~= messages.to_multiset());
    } else {
        assert(dismissals_last(messages) =~= messages);
    }
}

/// No message that is not a dismissal stands behind one.
pub proof fn dismissals_stand_last(messages: Seq<Message>, i: int, j: int)
    requires
        0 <= i < j < dismissals_last(messages).len(),
        dismisses(dismissals_last(messages)[i]),
    ensures
        dismisses(dismissals_last(messages)[j]),
{
    let stays = messages.filter(|m: Message| !dismisses(m));
    let goes = messages.filter(|m: Message| dismisses(m));
    lemma_filter_holds(messages, |m: Message| !dismisses(m));
    lemma_filter_holds(messages, |m: Message| dismisses(m));
    if i < stays.len() {
        assert(!dismisses(stays[i]));
    }
}

proof fn lemma_filter_holds(messages: Seq<Message>, keep: spec_fn(Message) -> bool)
    ensures
        forall|k: int|
            0 <= k < messages.filter(keep).len() ==> keep(#[trigger] messages.filter(keep)[k]),
    decreases messages.len(),
{
    reveal(Seq::filter);
    if messages.len() > 0 {
        lemma_filter_holds(messages.drop_last(), keep);
    }
}

/// The settings overlay is gone after its own dismissal and after the saved
/// server was reset, and after nothing else.
pub proof fn dismissals_and_resets_end_the_overlay(m: SettingsMessage, other: Message)
    ensures
        dismisses(Message::Modal(ModalMessage::SettingsOverlay(SettingsOverlayMessage::Dismiss))),
        dismisses(
            Message::Modal(ModalMessage::SettingsOverlay(SettingsOverlayMessage::Settings(m))),
        ) <==> m is ResetSavedServer,
        dismisses(other) ==> (other matches Message::Modal(ModalMessage::SettingsOverlay(o)) && (
        o is Dismiss || (o matches SettingsOverlayMessage::Settings(s) && s is ResetSavedServer))),
{
}

/// Messages keep their order: one more that ends the overlay goes behind all
/// others, and one more of any other kind goes right before those that end it.
pub proof fn later_messages_stay_later(messages: Seq<Message>, m: Message)
    ensures
        ({
            let before = dismissals_last(messages);
            let after = dismissals_last(messages.push(m));
            &&& dismisses(m) ==> after == before.push(m)
            &&& !dismisses(m) ==> exists|k: int|
                0 <= k <= before.len() && after == #[trigger] before.insert(k, m) && (forall|i: int|
                    k <= i < before.len() ==> dismisses(#[trigger] before[i])) && (forall|i: int|
                    0 <= i < k ==> !dismisses(#[trigger] before[i]))
        }),
        dismissals_last(seq![]) == Seq::<Message>::empty(),
{
    let stays = |x: Message| !dismisses(x);
    let goes = |x: Message| dismisses(x);
    reveal(Seq::filter);
    let more = messages.push(m);
    assert(more.drop_last() =~= messages);
    assert(more.last() == m);
    let before = dismissals_last(messages);
    let after = dismissals_last(more);
    let k = messages.filter(stays).len() as int;
    lemma_filter_holds(messages, stays);
    lemma_filter_holds(messages, goes);
    assert(forall|i: int| 0 <= i < k ==> before[i] == messages.filter(stays)[i]);
    assert(forall|i: int| k <= i < before.len() ==> before[i] == messages.filter(goes)[i - k]);
    if dismisses(m) {
        assert(after =~= before.push(m));
    } else {
        assert(after =~= before.insert(k, m));
        assert forall|i: int| k <= i < before.len() implies dismisses(#[trigger] before[i]) by {
            assert(goes(messages.filter(goes)[i - k]));
        }
        assert forall|i: int| 0 <= i < k implies !dismisses(#[trigger] before[i]) by {
            assert(stays(messages.filter(stays)[i]));
        }
    }
    assert(dismissals_last(seq![]) =~= seq![]);
}

} // verus!
