//! The presence card as the JSON object that Discord's client reads.

use vstd::prelude::*;

use crate::discord::projection::{Activity, ActivityView, Button, ButtonView, Timeline};
use crate::json::{
    insert_member, int_value, list_value, new_members, object_value, text_value, JsonView,
};

verus! {

/// The position and the length of a timeline in wall-clock milliseconds, that
/// is, divided by the rate at which it plays.
#[derive(Clone, Copy, Debug, PartialEq, Eq, Structural)]
pub struct WallClock {
    pub elapsed_ms: i64,
    pub length_ms: i64,
}

/// `m` with a text under `key`, or `m` itself where the text is empty.
pub open spec fn with_text(
    m: Map<Seq<char>, JsonView>,
    key: Seq<char>,
    v: Seq<char>,
) -> Map<Seq<char>, JsonView> {
    if v.len() > 0 {
        m.insert(key, JsonView::Text(v))
    } else {
        m
    }
}

/// Where the title and the poster lead: the first button's target.
pub open spec fn primary_link(a: ActivityView) -> Seq<char> {
    if a.buttons.len() > 0 {
        a.buttons[0].url
    } else {
        seq![]
    }
}

pub open spec fn assets_members(a: ActivityView) -> Map<Seq<char>, JsonView> {
    let images = with_text(Map::empty(), "large_image"@, a.large_image);
    let texts = with_text(images, "large_text"@, a.large_text);
    let links = with_text(texts, "large_url"@, primary_link(a));
    let badge = with_text(links, "small_image"@, a.small_image);
    with_text(badge, "small_text"@, a.small_text)
}

/// When the bar started, and when it will be full where its length is known.
pub open spec fn timestamps_object(start: int, end: Option<int>) -> JsonView {
    let started = Map::empty().insert("start"@, JsonView::Int(start));
    JsonView::Object(
        match end {
            Some(e) => started.insert("end"@, JsonView::Int(e)),
            None => started,
        },
    )
}

pub open spec fn button_object(b: ButtonView) -> JsonView {
    JsonView::Object(
        Map::empty().insert("label"@, JsonView::Text(b.label)).insert(
            "url"@,
            JsonView::Text(b.url),
        ),
    )
}

pub open spec fn button_objects(buttons: Seq<ButtonView>) -> Seq<JsonView> {
    Seq::new(buttons.len(), |i: int| button_object(buttons[i]))
}

/// The timestamps of a timeline that is `clock` far at `now_ms`.
pub open spec fn timeline_object(t: Timeline, now_ms: int, clock: WallClock) -> JsonView {
    let start = now_ms - clock.elapsed_ms;
    timestamps_object(
        start,
        if t.duration_us > 0 {
            Some(start + clock.length_ms)
        } else {
            None
        },
    )
}

/// The members of a card. Empty texts, absent timelines and absent buttons
/// leave none behind.
pub open spec fn card_members(a: ActivityView, now_ms: int, clock: WallClock) -> Map<
    Seq<char>,
    JsonView,
> {
    let kind = Map::empty().insert("type"@, JsonView::Int(a.activity_type as int));
    let name = with_text(kind, "name"@, a.name);
    let details = with_text(name, "details"@, a.details);
    let state = with_text(details, "state"@, a.state);
    let link = with_text(state, "details_url"@, primary_link(a));
    let assets = link.insert("assets"@, JsonView::Object(assets_members(a)));
    let times = match a.timeline {
        Some(t) => assets.insert("timestamps"@, timeline_object(t, now_ms, clock)),
        None => assets,
    };
    if a.buttons.len() > 0 {
        times.insert("buttons"@, JsonView::List(button_objects(a.buttons)))
    } else {
        times
    }
}

/// The card as a JSON object.
pub open spec fn activity_object(a: ActivityView, now_ms: int, clock: WallClock) -> JsonView {
    JsonView::Object(card_members(a, now_ms, clock))
}

/// The timestamps of `a` can be computed: they stay within 64 bits.
pub open spec fn timestamps_fit(a: ActivityView, now_ms: int, clock: WallClock) -> bool {
    a.timeline matches Some(t) ==> {
        &&& i64::MIN <= now_ms - clock.elapsed_ms <= i64::MAX
        &&& t.duration_us > 0 ==> i64::MIN <= now_ms - clock.elapsed_ms + clock.length_ms
            <= i64::MAX
    }
}

fn put(o: &mut serde_json::Map<String, serde_json::Value>, key: &str, v: &str)
    ensures
        crate::json::members(*final(o)) == with_text(crate::json::members(*old(o)), key@, v@),
{
    if v.unicode_len() > 0 {
        insert_member(o, key, text_value(v));
    }
}

fn assets(activity: &Activity, primary_url: &str) -> (v: serde_json::Value)
    requires
        primary_url@ == primary_link(activity@),
    ensures
        crate::json::holds(v) == JsonView::Object(assets_members(activity@)),
{
    let mut assets = new_members();
    put(&mut assets, "large_image", activity.large_image.as_str());
    put(&mut assets, "large_text", activity.large_text.as_str());
    put(&mut assets, "large_url", primary_url);
    put(&mut assets, "small_image", activity.small_image);
    put(&mut assets, "small_text", activity.small_text.as_str());
    object_value(assets)
}

fn timestamps(start: i64, end: Option<i64>) -> (v: serde_json::Value)
    ensures
        crate::json::holds(v) == timestamps_object(
            start as int,
            match end {
                Some(e) => Some(e as int),
                None => None,
            },
        ),
{
    let mut ts = new_members();
    insert_member(&mut ts, "start", int_value(start));
    match end {
        Some(e) => insert_member(&mut ts, "end", int_value(e)),
        None => {},
    }
    object_value(ts)
}

fn button(b: &Button) -> (v: serde_json::Value)
    ensures
        crate::json::holds(v) == button_object(b@),
{
    let mut o = new_members();
    insert_member(&mut o, "label", text_value(b.label));
    insert_member(&mut o, "url", text_value(b.url.as_str()));
    object_value(o)
}

fn buttons(list: &Vec<Button>) -> (v: serde_json::Value)
    ensures
        crate::json::holds(v) == JsonView::List(button_objects(crate::discord::projection::button_views(list@))),
{
    let mut items: Vec<serde_json::Value> = Vec::new();
    let mut i: usize = 0;
    while i < list.len()
        invariant
            i <= list@.len(),
            crate::json::all_hold(items@) == button_objects(crate::discord::projection::button_views(list@)).take(i as int),
        decreases list@.len() - i,
    {
        let ghost before = items@;
        items.push(button(&list[i]));
        assert(crate::json::all_hold(items@) =~= crate::json::all_hold(before).push(crate::json::holds(items@[i as int])));
        assert(crate::json::all_hold(items@) =~= button_objects(crate::discord::projection::button_views(list@)).take(i + 1));
        i += 1;
    }
    assert(crate::json::all_hold(items@) =~= button_objects(crate::discord::projection::button_views(list@)));
    list_value(items)
}

/// The card as a `serde_json` value.
pub fn to_json(activity: &Activity, now_ms: i64, clock: WallClock) -> (v: serde_json::Value)
    requires
        timestamps_fit(activity@, now_ms as int, clock),
    ensures
        crate::json::holds(v) == activity_object(activity@, now_ms as int, clock),
{
    let primary_url: &str = if activity.buttons.len() > 0 {
        activity.buttons[0].url.as_str()
    } else {
        ""
    };
    proof {
        reveal_strlit("");
        assert(primary_url@ =~= primary_link(activity@));
    }
    let mut o = new_members();
    insert_member(&mut o, "type", int_value(activity.activity_type as i64));
    put(&mut o, "name", activity.name.as_str());
    put(&mut o, "details", activity.details.as_str());
    put(&mut o, "state", activity.state.as_str());
    put(&mut o, "details_url", primary_url);
    insert_member(&mut o, "assets", assets(activity, primary_url));
    match activity.timeline {
        None => {},
        Some(t) => {
            let start: i64 = now_ms - clock.elapsed_ms;
            let end: Option<i64> = if t.duration_us > 0 {
                Some(start + clock.length_ms)
            } else {
                None
            };
            insert_member(&mut o, "timestamps", timestamps(start, end));
        },
    }
    if activity.buttons.len() > 0 {
        insert_member(&mut o, "buttons", buttons(&activity.buttons));
    }
    object_value(o)
}

/// A card says nothing with an empty text: what is empty is left out, of the
/// card as of its assets.
pub proof fn empty_texts_are_left_out(
    a: ActivityView,
    now_ms: int,
    clock: WallClock,
    key: Seq<char>,
)
    ensures
        card_members(a, now_ms, clock).dom().contains(key) ==> card_members(a, now_ms, clock)[key]
            != JsonView::Text(seq![]),
        assets_members(a).dom().contains(key) ==> assets_members(a)[key] != JsonView::Text(seq![]),
{
    assert(forall|v: Seq<char>| #![trigger v.len()] v.len() > 0 ==> v != Seq::<char>::empty());
}

/// A card has timestamps exactly where it has a timeline, buttons exactly where
/// there are some, and a line or a badge exactly where it says something.
pub proof fn absent_parts_are_left_out(a: ActivityView, now_ms: int, clock: WallClock)
    ensures
        ({
            let card = card_members(a, now_ms, clock).dom();
            &&& card.contains("timestamps"@) <==> a.timeline is Some
            &&& card.contains("buttons"@) <==> a.buttons.len() > 0
            &&& card.contains("details_url"@) <==> primary_link(a).len() > 0
            &&& card.contains("details"@) <==> a.details.len() > 0
            &&& card.contains("state"@) <==> a.state.len() > 0
            &&& assets_members(a).dom().contains("small_image"@) <==> a.small_image.len() > 0
        }),
{
    reveal_strlit("type");
    reveal_strlit("name");
    reveal_strlit("details");
    reveal_strlit("state");
    reveal_strlit("details_url");
    reveal_strlit("assets");
    reveal_strlit("timestamps");
    reveal_strlit("buttons");
    reveal_strlit("large_image");
    reveal_strlit("large_text");
    reveal_strlit("large_url");
    reveal_strlit("small_image");
    reveal_strlit("small_text");
    assert("type"@.len() == 4 && "name"@.len() == 4 && "details"@.len() == 7);
    assert("state"@.len() == 5 && "assets"@.len() == 6 && "buttons"@.len() == 7);
    assert("timestamps"@.len() == 10 && "details_url"@.len() == 11);
    assert("details"@[0] == 'd' && "buttons"@[0] == 'b');
    assert("large_text"@.len() == 10 && "large_url"@.len() == 9 && "small_text"@.len() == 10);
    assert("large_image"@.len() == 11 && "small_image"@.len() == 11);
    assert("large_image"@[0] == 'l' && "small_image"@[0] == 's');
}

/// The bar is as long as the timeline, and starts as long ago as it has played.
pub proof fn bar_spans_the_timeline(t: Timeline, now_ms: int, clock: WallClock)
    requires
        t.duration_us > 0,
    ensures
        timeline_object(t, now_ms, clock) matches JsonView::Object(times) && {
            &&& times["start"@] == JsonView::Int(now_ms - clock.elapsed_ms)
            &&& times["end"@] == JsonView::Int(now_ms - clock.elapsed_ms + clock.length_ms)
        },
{
    reveal_strlit("start");
    reveal_strlit("end");
    assert("start"@.len() == 5 && "end"@.len() == 3);
}

proof fn lemma_card_names()
    ensures
        ({
            let keys = seq![
                "type"@,
                "name"@,
                "details"@,
                "state"@,
                "details_url"@,
                "assets"@,
                "timestamps"@,
                "buttons"@,
            ];
            forall|i: int, j: int| 0 <= i < j < 8 ==> #[trigger] keys[i] != #[trigger] keys[j]
        }),
{
    reveal_strlit("type");
    reveal_strlit("name");
    reveal_strlit("details");
    reveal_strlit("state");
    reveal_strlit("details_url");
    reveal_strlit("assets");
    reveal_strlit("timestamps");
    reveal_strlit("buttons");
    assert("type"@.len() == 4 && "name"@.len() == 4 && "details"@.len() == 7);
    assert("state"@.len() == 5 && "assets"@.len() == 6 && "buttons"@.len() == 7);
    assert("timestamps"@.len() == 10 && "details_url"@.len() == 11);
    assert("details"@[0] == 'd' && "buttons"@[0] == 'b');
    assert("type"@[0] == 't' && "name"@[0] == 'n');
}

/// Each line of a card stands under its own name, and leads where the first
/// button does.
pub proof fn cards_say_each_thing_once(a: ActivityView, now_ms: int, clock: WallClock)
    ensures
        activity_object(a, now_ms, clock) matches JsonView::Object(card) && {
            &&& card["type"@] == JsonView::Int(a.activity_type as int)
            &&& card.contains_key("type"@) && card.contains_key("assets"@)
            &&& a.name.len() > 0 ==> card.contains_key("name"@) && card["name"@] == JsonView::Text(
                a.name,
            )
            &&& a.details.len() > 0 ==> card.contains_key("details"@) && card["details"@]
                == JsonView::Text(a.details)
            &&& a.state.len() > 0 ==> card.contains_key("state"@) && card["state"@]
                == JsonView::Text(a.state)
            &&& a.buttons.len() > 0 && a.buttons[0].url.len() > 0 ==> card["details_url"@]
                == JsonView::Text(a.buttons[0].url)
            &&& card["assets"@] == JsonView::Object(assets_members(a))
            &&& a.timeline matches Some(t) ==> card["timestamps"@] == timeline_object(
                t,
                now_ms,
                clock,
            )
            &&& a.buttons.len() > 0 ==> card["buttons"@] == JsonView::List(
                button_objects(a.buttons),
            )
        },
{
    lemma_card_names();
    let keys = seq![
        "type"@,
        "name"@,
        "details"@,
        "state"@,
        "details_url"@,
        "assets"@,
        "timestamps"@,
        "buttons"@,
    ];
    assert forall|i: int, j: int| 0 <= i < j < 8 implies #[trigger] keys[i] != #[trigger] keys[j] by {}
    assert(keys[0] == "type"@ && keys[1] == "name"@ && keys[2] == "details"@ && keys[3]
        == "state"@ && keys[4] == "details_url"@ && keys[5] == "assets"@ && keys[6]
        == "timestamps"@ && keys[7] == "buttons"@);
}

/// The pictures of a card stand under their own names, with their captions: the
/// large one leads where the first button does.
pub proof fn pictures_have_their_captions(a: ActivityView)
    ensures
        ({
            let m = assets_members(a);
            &&& a.large_image.len() > 0 ==> m["large_image"@] == JsonView::Text(a.large_image)
                && m.contains_key("large_image"@)
            &&& a.large_text.len() > 0 ==> m["large_text"@] == JsonView::Text(a.large_text)
                && m.contains_key("large_text"@)
            &&& a.small_image.len() > 0 ==> m["small_image"@] == JsonView::Text(a.small_image)
                && m.contains_key("small_image"@)
            &&& a.small_text.len() > 0 ==> m["small_text"@] == JsonView::Text(a.small_text)
                && m.contains_key("small_text"@)
            &&& a.buttons.len() > 0 && a.buttons[0].url.len() > 0 ==> m["large_url"@]
                == JsonView::Text(a.buttons[0].url) && m.contains_key("large_url"@)
            &&& a.buttons.len() == 0 ==> !m.contains_key("large_url"@)
        }),
{
    reveal_strlit("large_image");
    reveal_strlit("large_text");
    reveal_strlit("large_url");
    reveal_strlit("small_image");
    reveal_strlit("small_text");
    assert("large_text"@.len() == 10 && "large_url"@.len() == 9 && "small_text"@.len() == 10);
    assert("large_image"@.len() == 11 && "small_image"@.len() == 11);
    assert("large_image"@[0] == 'l' && "small_image"@[0] == 's');
    assert("large_text"@[0] == 'l' && "small_text"@[0] == 's');
}

/// A button is its label and where it leads, and buttons keep their order.
pub proof fn buttons_lead_where_they_say(buttons: Seq<ButtonView>, i: int)
    requires
        0 <= i < buttons.len(),
    ensures
        button_objects(buttons).len() == buttons.len(),
        button_objects(buttons)[i] matches JsonView::Object(b) && b["label"@] == JsonView::Text(
            buttons[i].label,
        ) && b["url"@] == JsonView::Text(buttons[i].url) && b.contains_key("label"@)
            && b.contains_key("url"@),
{
    reveal_strlit("label");
    reveal_strlit("url");
    assert("label"@.len() == 5 && "url"@.len() == 3);
}

/// A bar without a known length has a start and no end.
pub proof fn endless_bars_have_no_end(t: Timeline, now_ms: int, clock: WallClock)
    requires
        t.duration_us <= 0,
    ensures
        timeline_object(t, now_ms, clock) matches JsonView::Object(times) && times.contains_key(
            "start"@,
        ) && !times.contains_key("end"@) && times["start"@] == JsonView::Int(
            now_ms - clock.elapsed_ms,
        ),
{
    reveal_strlit("start");
    reveal_strlit("end");
    assert("start"@.len() == 5 && "end"@.len() == 3);
}

/// A text is put under its name where it says something, and leaves everything
/// else as it was.
pub proof fn texts_are_put_under_their_name(
    m: Map<Seq<char>, JsonView>,
    key: Seq<char>,
    v: Seq<char>,
    other: Seq<char>,
)
    ensures
        v.len() > 0 ==> with_text(m, key, v).contains_key(key) && with_text(m, key, v)[key]
            == JsonView::Text(v),
        v.len() == 0 ==> with_text(m, key, v) == m,
        other != key ==> (with_text(m, key, v).contains_key(other) <==> m.contains_key(other)),
        other != key && m.contains_key(other) ==> with_text(m, key, v)[other] == m[other],
{
}

} // verus!
