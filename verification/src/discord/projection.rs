//! From the player's state to the presence card that Discord shows.

use vstd::prelude::*;

use crate::playback::{ItemKind, MediaMetadata, PlaybackPhase, Rate};
use crate::text::{
    chars_of, decimal2_text, decimal_text, is_ascii_alphanumeric, joined, same_text, trim,
    truncated,
};

verus! {

pub const TYPE_LISTENING: u8 = 2;

pub const TYPE_WATCHING: u8 = 3;

pub const TEXT_MAX_CHARS: usize = 128;

pub const TEXT_MIN_CHARS: usize = 2;

pub const ASSET_LOGO: &'static str = "logo";

pub const ASSET_PAUSE: &'static str = "pause";

pub const MAX_BUTTONS: usize = 2;

pub const MAX_ID_CHARS: usize = 32;

#[derive(Clone, Copy, Debug)]
pub struct ProjectInput<'a> {
    pub phase: PlaybackPhase,
    pub seeking: bool,
    pub buffering: bool,
    pub rate: Rate,
    pub position_us: i64,
    pub duration_us: i64,
    pub meta: &'a MediaMetadata,
    pub timeline_armed: bool,
}

#[derive(Clone, Copy, Debug)]
pub struct Timeline {
    pub position_us: i64,
    pub duration_us: i64,
    pub rate: Rate,
}

impl Timeline {
    /// The two run alike: from the same place, to the same end, at one rate.
    pub open spec fn alike(self, other: Timeline) -> bool {
        &&& self.position_us == other.position_us
        &&& self.duration_us == other.duration_us
        &&& self.rate.equals(other.rate)
    }
}

impl PartialEq for Timeline {
    fn eq(&self, other: &Self) -> (r: bool) {
        self.position_us == other.position_us && self.duration_us == other.duration_us && self.rate
            == other.rate
    }
}

impl vstd::std_specs::cmp::PartialEqSpecImpl for Timeline {
    open spec fn obeys_eq_spec() -> bool {
        true
    }

    open spec fn eq_spec(&self, other: &Self) -> bool {
        self.alike(*other)
    }
}

#[derive(Debug)]
pub struct Button {
    pub label: &'static str,
    pub url: String,
}

#[derive(Debug)]
pub struct Activity {
    pub activity_type: u8,
    pub name: String,
    pub details: String,
    pub state: String,
    pub large_image: String,
    pub large_text: String,
    pub small_image: &'static str,
    pub small_text: String,
    pub timeline: Option<Timeline>,
    pub buttons: Vec<Button>,
}

#[verifier::ext_equal]
pub struct ButtonView {
    pub label: Seq<char>,
    pub url: Seq<char>,
}

#[verifier::ext_equal]
pub struct ActivityView {
    pub activity_type: u8,
    pub name: Seq<char>,
    pub details: Seq<char>,
    pub state: Seq<char>,
    pub large_image: Seq<char>,
    pub large_text: Seq<char>,
    pub small_image: Seq<char>,
    pub small_text: Seq<char>,
    pub timeline: Option<Timeline>,
    pub buttons: Seq<ButtonView>,
}

pub open spec fn timelines_alike(a: Option<Timeline>, b: Option<Timeline>) -> bool {
    match (a, b) {
        (None, None) => true,
        (Some(s), Some(t)) => s.alike(t),
        _ => false,
    }
}

impl ActivityView {
    /// The two cards show the same.
    pub open spec fn alike(self, other: ActivityView) -> bool {
        &&& timelines_alike(self.timeline, other.timeline)
        &&& (ActivityView { timeline: None, ..self }) == (ActivityView { timeline: None, ..other })
    }
}

impl View for Button {
    type V = ButtonView;

    open spec fn view(&self) -> ButtonView {
        ButtonView { label: self.label@, url: self.url@ }
    }
}

impl View for Activity {
    type V = ActivityView;

    open spec fn view(&self) -> ActivityView {
        ActivityView {
            activity_type: self.activity_type,
            name: self.name@,
            details: self.details@,
            state: self.state@,
            large_image: self.large_image@,
            large_text: self.large_text@,
            small_image: self.small_image@,
            small_text: self.small_text@,
            timeline: self.timeline,
            buttons: button_views(self.buttons@),
        }
    }
}

pub open spec fn button_views(buttons: Seq<Button>) -> Seq<ButtonView> {
    Seq::new(buttons.len(), |i: int| buttons[i]@)
}

impl PartialEq for Button {
    fn eq(&self, other: &Self) -> (r: bool) {
        same_text(self.label, other.label) && same_text(self.url.as_str(), other.url.as_str())
    }
}

impl vstd::std_specs::cmp::PartialEqSpecImpl for Button {
    open spec fn obeys_eq_spec() -> bool {
        true
    }

    open spec fn eq_spec(&self, other: &Self) -> bool {
        self@ == other@
    }
}

impl Clone for Button {
    fn clone(&self) -> (r: Self)
        ensures
            r@ == self@,
    {
        Button { label: self.label, url: self.url.clone() }
    }
}

/// Whether two rows of buttons read the same.
fn same_buttons(a: &Vec<Button>, b: &Vec<Button>) -> (r: bool)
    ensures
        r == (button_views(a@) == button_views(b@)),
{
    if a.len() != b.len() {
        assert(button_views(a@).len() != button_views(b@).len());
        return false;
    }
    let mut i: usize = 0;
    while i < a.len()
        invariant
            i <= a@.len(),
            a@.len() == b@.len(),
            forall|j: int| 0 <= j < i ==> #[trigger] a@[j]@ == b@[j]@,
        decreases a@.len() - i,
    {
        if !(a[i] == b[i]) {
            assert(button_views(a@)[i as int] != button_views(b@)[i as int]);
            return false;
        }
        i += 1;
    }
    assert(button_views(a@) =~= button_views(b@));
    true
}

fn same_timeline(a: Option<Timeline>, b: Option<Timeline>) -> (r: bool)
    ensures
        r == timelines_alike(a, b),
{
    match (a, b) {
        (None, None) => true,
        (Some(s), Some(t)) => s == t,
        _ => false,
    }
}

impl PartialEq for Activity {
    fn eq(&self, other: &Self) -> (r: bool) {
        let r = self.activity_type == other.activity_type && same_text(
            self.name.as_str(),
            other.name.as_str(),
        ) && same_text(self.details.as_str(), other.details.as_str()) && same_text(
            self.state.as_str(),
            other.state.as_str(),
        ) && same_text(self.large_image.as_str(), other.large_image.as_str()) && same_text(
            self.large_text.as_str(),
            other.large_text.as_str(),
        ) && same_text(self.small_image, other.small_image) && same_text(
            self.small_text.as_str(),
            other.small_text.as_str(),
        ) && same_timeline(self.timeline, other.timeline) && same_buttons(
            &self.buttons,
            &other.buttons,
        );
        r
    }
}

impl vstd::std_specs::cmp::PartialEqSpecImpl for Activity {
    open spec fn obeys_eq_spec() -> bool {
        true
    }

    open spec fn eq_spec(&self, other: &Self) -> bool {
        self@.alike(other@)
    }
}

impl Clone for Activity {
    fn clone(&self) -> (r: Self)
        ensures
            r@ == self@,
    {
        let mut buttons: Vec<Button> = Vec::new();
        let mut i: usize = 0;
        while i < self.buttons.len()
            invariant
                i <= self.buttons@.len(),
                buttons@.len() == i,
                forall|j: int| 0 <= j < i ==> #[trigger] buttons@[j]@ == self.buttons@[j]@,
            decreases self.buttons@.len() - i,
        {
            buttons.push(self.buttons[i].clone());
            i += 1;
        }
        assert(button_views(buttons@) =~= button_views(self.buttons@));
        Activity {
            activity_type: self.activity_type,
            name: self.name.clone(),
            details: self.details.clone(),
            state: self.state.clone(),
            large_image: self.large_image.clone(),
            large_text: self.large_text.clone(),
            small_image: self.small_image,
            small_text: self.small_text.clone(),
            timeline: self.timeline,
            buttons,
        }
    }
}

/// A text as Discord accepts it: trimmed, empty where fewer than two
/// characters are left, and cut to 128.
pub open spec fn clamped_text(s: Seq<char>) -> Seq<char> {
    let t = crate::text::trimmed(s);
    if t.len() < TEXT_MIN_CHARS {
        seq![]
    } else if t.len() <= TEXT_MAX_CHARS {
        t
    } else {
        t.take(TEXT_MAX_CHARS as int)
    }
}

/// A span in microseconds as `h:mm:ss`, or `m:ss` below an hour. A negative
/// span reads as zero.
pub open spec fn hms(us: int) -> Seq<char> {
    let total = (if us < 0 { 0 } else { us }) / 1_000_000;
    let h = (total / 3600) as nat;
    let m = (total % 3600 / 60) as nat;
    let s = (total % 60) as nat;
    if h > 0 {
        crate::text::decimal(h) + ":"@ + crate::text::decimal2(m) + ":"@ + crate::text::decimal2(s)
    } else {
        crate::text::decimal(m) + ":"@ + crate::text::decimal2(s)
    }
}

/// The position, and the duration behind it where there is one.
pub open spec fn timecode(position_us: int, duration_us: int) -> Seq<char> {
    if duration_us > 0 {
        hms(position_us) + " / "@ + hms(duration_us)
    } else {
        hms(position_us)
    }
}

/// `S<season>E<episode>`, without the part whose number is not positive.
pub open spec fn numbering(season: int, episode: int) -> Seq<char> {
    let s = if season > 0 {
        "S"@ + crate::text::decimal(season as nat)
    } else {
        seq![]
    };
    let e = if episode > 0 {
        "E"@ + crate::text::decimal(episode as nat)
    } else {
        seq![]
    };
    s + e
}

/// The two lines of an episode: the series and the numbered title, or the
/// title and the numbering where the series is unknown.
pub open spec fn episode_texts(meta: MediaMetadata) -> (Seq<char>, Seq<char>) {
    let series = crate::text::trimmed(meta.artist@);
    let number = numbering(meta.season_number as int, meta.track_number as int);
    if series.len() == 0 {
        (meta.title@, number)
    } else if number.len() == 0 {
        (series, meta.title@)
    } else {
        (series, number + " \u{b7} "@ + meta.title@)
    }
}

/// The two lines of an item's card, before they are cut to size.
pub open spec fn lines(meta: MediaMetadata) -> (Seq<char>, Seq<char>) {
    match meta.kind {
        ItemKind::Episode => episode_texts(meta),
        ItemKind::Movie => (
            meta.title@,
            if meta.year > 0 {
                crate::text::decimal(meta.year as nat)
            } else {
                seq![]
            },
        ),
        _ => (meta.title@, meta.artist@),
    }
}

/// An identifier that may stand in a link.
pub open spec fn sane_id(id: Seq<char>) -> bool {
    &&& 0 < id.len() <= MAX_ID_CHARS
    &&& forall|i: int| 0 <= i < id.len() ==> id_char(#[trigger] id[i])
}

pub open spec fn id_char(c: char) -> bool {
    crate::text::ascii_alphanumeric(c) || c == '-'
}

pub open spec fn link(known: bool, label: Seq<char>, url: Seq<char>) -> Seq<ButtonView> {
    if known {
        seq![ButtonView { label, url }]
    } else {
        seq![]
    }
}

/// Every link an item has, in order of preference.
pub open spec fn all_links(meta: MediaMetadata) -> Seq<ButtonView> {
    link(
        sane_id(meta.imdb_id@),
        "IMDb"@,
        "https://www.imdb.com/title/"@ + meta.imdb_id@ + "/"@,
    ) + link(
        sane_id(meta.anilist_id@),
        "AniList"@,
        "https://anilist.co/anime/"@ + meta.anilist_id@,
    ) + link(
        sane_id(meta.tmdb_id@),
        "TMDb"@,
        "https://www.themoviedb.org/"@ + (if meta.kind == ItemKind::Movie {
            "movie"@
        } else {
            "tv"@
        }) + "/"@ + meta.tmdb_id@,
    )
}

/// The links a card carries: the first two.
pub open spec fn shown_links(meta: MediaMetadata) -> Seq<ButtonView> {
    let all = all_links(meta);
    if all.len() <= MAX_BUTTONS {
        all
    } else {
        all.take(MAX_BUTTONS as int)
    }
}

/// The progress bar moves: the player plays, at a positive rate, undisturbed.
pub open spec fn rolling(input: ProjectInput) -> bool {
    &&& input.phase == PlaybackPhase::Playing
    &&& !input.seeking
    &&& !input.buffering
    &&& input.rate.positive()
    &&& input.timeline_armed
}

/// There is something to show: an item with a title, not stopped.
pub open spec fn presentable(input: ProjectInput) -> bool {
    &&& input.phase != PlaybackPhase::Stopped
    &&& crate::text::trimmed(input.meta.title@).len() > 0
}

pub open spec fn at_least_zero(n: i64) -> i64 {
    if n < 0 {
        0
    } else {
        n
    }
}

/// The presence card for `input`.
pub open spec fn projection(input: ProjectInput) -> Option<ActivityView> {
    if !presentable(input) {
        None
    } else {
        let meta = *input.meta;
        let paused = input.phase == PlaybackPhase::Paused;
        Some(
            ActivityView {
                activity_type: if meta.kind == ItemKind::Music {
                    TYPE_LISTENING
                } else {
                    TYPE_WATCHING
                },
                name: clamped_text(lines(meta).0),
                details: clamped_text(lines(meta).0),
                state: clamped_text(lines(meta).1),
                large_image: if meta.art_url@.len() == 0 {
                    "logo"@
                } else {
                    meta.art_url@
                },
                large_text: clamped_text(
                    if crate::text::trimmed(meta.artist@).len() > 0 {
                        meta.artist@
                    } else {
                        meta.title@
                    },
                ),
                small_image: if paused {
                    "pause"@
                } else {
                    ""@
                },
                small_text: if paused {
                    clamped_text(
                        "Paused \u{b7} "@ + timecode(
                            input.position_us as int,
                            input.duration_us as int,
                        ),
                    )
                } else {
                    seq![]
                },
                timeline: if rolling(input) {
                    Some(
                        Timeline {
                            position_us: at_least_zero(input.position_us),
                            duration_us: at_least_zero(input.duration_us),
                            rate: input.rate,
                        },
                    )
                } else {
                    None
                },
                buttons: shown_links(meta),
            },
        )
    }
}

pub fn clamp_text(s: &str) -> (r: String)
    ensures
        r@ == clamped_text(s@),
{
    let t = trim(s);
    let n: usize = t.as_str().unicode_len();
    if n < TEXT_MIN_CHARS {
        return String::new();
    }
    truncated(t.as_str(), TEXT_MAX_CHARS)
}

pub fn format_hms(us: i64) -> (r: String)
    ensures
        r@ == hms(us as int),
{
    let total: u64 = if us < 0 { 0 } else { (us / 1_000_000) as u64 };
    let h: u64 = total / 3600;
    let m: u64 = (total % 3600) / 60;
    let s: u64 = total % 60;
    let tail = joined(":", decimal2_text(s).as_str());
    if h > 0 {
        let middle = joined(":", decimal2_text(m).as_str());
        let r = joined(
            joined(decimal_text(h).as_str(), middle.as_str()).as_str(),
            tail.as_str(),
        );
        assert(r@ == hms(us as int));
        r
    } else {
        let r = joined(decimal_text(m).as_str(), tail.as_str());
        assert(r@ == hms(us as int));
        r
    }
}

pub fn timecode_text(position_us: i64, duration_us: i64) -> (r: String)
    ensures
        r@ == timecode(position_us as int, duration_us as int),
{
    let pos = format_hms(position_us);
    if duration_us > 0 {
        joined(joined(pos.as_str(), " / ").as_str(), format_hms(duration_us).as_str())
    } else {
        pos
    }
}

pub fn season_episode(season: i32, episode: i32) -> (r: String)
    ensures
        r@ == numbering(season as int, episode as int),
{
    let s = if season > 0 {
        joined("S", decimal_text(season as u64).as_str())
    } else {
        String::new()
    };
    let e = if episode > 0 {
        joined("E", decimal_text(episode as u64).as_str())
    } else {
        String::new()
    };
    joined(s.as_str(), e.as_str())
}

pub fn episode_lines(meta: &MediaMetadata) -> (r: (String, String))
    ensures
        (r.0@, r.1@) == episode_texts(*meta),
{
    let numbering = season_episode(meta.season_number, meta.track_number);
    let series = trim(meta.artist.as_str());
    if series.as_str().unicode_len() == 0 {
        return (meta.title.clone(), numbering);
    }
    let state = if numbering.as_str().unicode_len() == 0 {
        meta.title.clone()
    } else {
        joined(joined(numbering.as_str(), " \u{b7} ").as_str(), meta.title.as_str())
    };
    (series, state)
}

pub fn is_sane_id(id: &str) -> (r: bool)
    ensures
        r == sane_id(id@),
{
    let v: Vec<char> = chars_of(id);
    if v.len() == 0 || v.len() > MAX_ID_CHARS {
        return false;
    }
    let mut i: usize = 0;
    while i < v.len()
        invariant
            i <= v@.len(),
            v@ == id@,
            forall|j: int| 0 <= j < i ==> id_char(#[trigger] v@[j]),
        decreases v@.len() - i,
    {
        if !(is_ascii_alphanumeric(v[i]) || v[i] == '-') {
            assert(!id_char(id@[i as int]));
            return false;
        }
        i += 1;
    }
    true
}

pub fn links(meta: &MediaMetadata) -> (out: Vec<Button>)
    ensures
        button_views(out@) == shown_links(*meta),
{
    let mut out: Vec<Button> = Vec::new();
    if is_sane_id(meta.imdb_id.as_str()) {
        let url = joined(
            joined("https://www.imdb.com/title/", meta.imdb_id.as_str()).as_str(),
            "/",
        );
        out.push(Button { label: "IMDb", url });
    }
    if is_sane_id(meta.anilist_id.as_str()) {
        let url = joined("https://anilist.co/anime/", meta.anilist_id.as_str());
        out.push(Button { label: "AniList", url });
    }
    if is_sane_id(meta.tmdb_id.as_str()) {
        let path: &'static str = if meta.kind == ItemKind::Movie { "movie" } else { "tv" };
        let site = joined(joined("https://www.themoviedb.org/", path).as_str(), "/");
        let url = joined(site.as_str(), meta.tmdb_id.as_str());
        out.push(Button { label: "TMDb", url });
    }
    assert(button_views(out@) == all_links(*meta));
    out.truncate(MAX_BUTTONS);
    assert(button_views(out@) == shown_links(*meta));
    out
}

/// The first of two texts that is not blank.
fn first_non_empty<'a>(a: &'a str, b: &'a str) -> (r: &'a str)
    ensures
        r@ == (if crate::text::trimmed(a@).len() > 0 {
            a@
        } else if crate::text::trimmed(b@).len() > 0 {
            b@
        } else {
            ""@
        }),
{
    if !trim(a).as_str().is_empty() {
        a
    } else if !trim(b).as_str().is_empty() {
        b
    } else {
        ""
    }
}

pub fn project(input: &ProjectInput<'_>) -> (r: Option<Activity>)
    ensures
        (match r {
            None => None,
            Some(a) => Some(a@),
        }) == projection(*input),
{
    if input.phase == PlaybackPhase::Stopped {
        return None;
    }
    let meta = input.meta;
    if trim(meta.title.as_str()).as_str().unicode_len() == 0 {
        return None;
    }
    let (details, state) = match meta.kind {
        ItemKind::Episode => episode_lines(meta),
        ItemKind::Movie => {
            let year = if meta.year > 0 {
                decimal_text(meta.year as u64)
            } else {
                String::new()
            };
            (meta.title.clone(), year)
        },
        ItemKind::Music | ItemKind::MusicVideo | ItemKind::Video | ItemKind::Unknown => {
            (meta.title.clone(), meta.artist.clone())
        },
    };
    let activity_type: u8 = if meta.kind == ItemKind::Music {
        TYPE_LISTENING
    } else {
        TYPE_WATCHING
    };
    let rolling = input.phase == PlaybackPhase::Playing && !input.seeking && !input.buffering
        && input.rate.is_positive() && input.timeline_armed;
    let timeline = if rolling {
        Some(
            Timeline {
                position_us: if input.position_us < 0 { 0 } else { input.position_us },
                duration_us: if input.duration_us < 0 { 0 } else { input.duration_us },
                rate: input.rate,
            },
        )
    } else {
        None
    };
    let (small_image, small_text): (&'static str, String) = if input.phase
        == PlaybackPhase::Paused {
        let timecode = timecode_text(input.position_us, input.duration_us);
        (ASSET_PAUSE, clamp_text(joined("Paused \u{b7} ", timecode.as_str()).as_str()))
    } else {
        ("", String::new())
    };
    let large_image = if meta.art_url.as_str().unicode_len() == 0 {
        ASSET_LOGO.to_owned()
    } else {
        meta.art_url.clone()
    };
    let large_text = clamp_text(first_non_empty(meta.artist.as_str(), meta.title.as_str()));
    let details = clamp_text(details.as_str());
    Some(
        Activity {
            activity_type,
            name: details.clone(),
            details,
            state: clamp_text(state.as_str()),
            large_image,
            large_text,
            small_image,
            small_text,
            timeline,
            buttons: links(meta),
        },
    )
}

/// Every text on a card is one that Discord takes: empty, or of two to 128
/// characters.
pub proof fn card_texts_fit(input: ProjectInput)
    ensures
        projection(input) matches Some(a) ==> {
            &&& fits_discord(a.name)
            &&& fits_discord(a.details)
            &&& fits_discord(a.state)
            &&& fits_discord(a.large_text)
            &&& fits_discord(a.small_text)
            &&& a.buttons.len() <= MAX_BUTTONS
        },
{
}

pub open spec fn fits_discord(text: Seq<char>) -> bool {
    text.len() == 0 || TEXT_MIN_CHARS <= text.len() <= TEXT_MAX_CHARS
}

/// A card carries a progress bar exactly while playback rolls, and a badge
/// exactly while it is paused.
pub proof fn bar_and_badge_exclude_each_other(input: ProjectInput)
    ensures
        projection(input) matches Some(a) ==> {
            &&& a.timeline is Some <==> rolling(input)
            &&& a.small_image.len() > 0 <==> input.phase == PlaybackPhase::Paused
            &&& a.timeline is Some ==> a.small_image.len() == 0 && a.small_text.len() == 0
            &&& a.timeline matches Some(t) ==> t.position_us >= 0 && t.duration_us >= 0
                && t.rate.positive()
        },
{
    reveal_strlit("pause");
    reveal_strlit("");
}

/// A card made for some playback shows the same as itself, and as no other
/// card: its bar, where it has one, runs at a positive rate.
pub proof fn made_cards_show_what_they_hold(input: ProjectInput, other: ActivityView)
    ensures
        projection(input) matches Some(a) ==> (a.alike(other) <==> a == other) && (other.alike(a)
            <==> a == other),
{
    match projection(input) {
        Some(a) => {
            match (a.timeline, other.timeline) {
                (Some(s), Some(t)) => {
                    crate::playback::positive_rates_compare_by_their_bits(s.rate, t.rate);
                },
                _ => {},
            }
            let bare = ActivityView { timeline: None, ..a };
            let bare_other = ActivityView { timeline: None, ..other };
            if bare == bare_other && a.timeline == other.timeline {
                assert(a == other);
            }
        },
        None => {},
    }
}

/// `url` leads to the page of a plain identifier on one of three sites.
pub open spec fn known_page(url: Seq<char>, id: Seq<char>) -> bool {
    &&& sane_id(id)
    &&& {
        ||| url == "https://www.imdb.com/title/"@ + id + "/"@
        ||| url == "https://anilist.co/anime/"@ + id
        ||| url == "https://www.themoviedb.org/"@ + "movie"@ + "/"@ + id
        ||| url == "https://www.themoviedb.org/"@ + "tv"@ + "/"@ + id
    }
}

/// No button leads anywhere but to an item's page on one of three public sites:
/// neither the server's address nor a malformed identifier gets onto a card.
pub proof fn buttons_lead_to_known_pages(input: ProjectInput, i: int)
    requires
        projection(input) is Some,
        0 <= i < projection(input)->Some_0.buttons.len(),
    ensures
        exists|id: Seq<char>| known_page(projection(input)->Some_0.buttons[i].url, id),
{
    let meta = *input.meta;
    let url = projection(input)->Some_0.buttons[i].url;
    let imdb = sane_id(meta.imdb_id@);
    let anilist = sane_id(meta.anilist_id@);
    if imdb && i == 0 {
        assert(known_page(url, meta.imdb_id@));
    } else if anilist && (i == 0 || imdb) {
        assert(known_page(url, meta.anilist_id@));
    } else {
        assert(known_page(url, meta.tmdb_id@));
    }
}

/// There is a card exactly for an item whose title holds more than whitespace,
/// while its playback has not stopped.
pub proof fn titled_items_have_a_card(input: ProjectInput)
    ensures
        projection(input) is Some <==> !(input.phase is Stopped) && crate::text::trimmed(
            input.meta.title@,
        ).len() != 0,
{
}

/// A card's headline is the item's title, and the line under it says whose it
/// is: the artist's name, for music and whatever else is neither an episode nor
/// a movie.
pub proof fn songs_name_their_artist(input: ProjectInput)
    requires
        !(input.meta.kind is Episode),
        !(input.meta.kind is Movie),
    ensures
        projection(input) matches Some(a) ==> {
            &&& a.details == clamped_text(input.meta.title@)
            &&& a.name == a.details
            &&& a.state == clamped_text(input.meta.artist@)
        },
{
}

/// A movie's card has its title over its year, or over nothing where the year
/// is not known.
pub proof fn movies_name_their_year(input: ProjectInput)
    requires
        input.meta.kind is Movie,
    ensures
        projection(input) matches Some(a) ==> {
            &&& a.details == clamped_text(input.meta.title@)
            &&& a.name == a.details
            &&& input.meta.year >= 1 ==> a.state == clamped_text(
                crate::text::decimal(input.meta.year as nat),
            )
            &&& input.meta.year < 1 ==> a.state.len() == 0
        },
{
    assert(crate::text::trimmed(seq![]) =~= seq![]);
}

/// An episode's card has the series over the episode: its numbers, a middle dot
/// and its title, or the title alone where it has no number. Without a series
/// the title stands over the numbers.
pub proof fn episodes_name_their_series(input: ProjectInput)
    requires
        input.meta.kind is Episode,
    ensures
        projection(input) matches Some(a) ==> {
            let series = crate::text::trimmed(input.meta.artist@);
            let season = input.meta.season_number;
            let episode = input.meta.track_number;
            let numbers = numbering(season as int, episode as int);
            &&& a.name == a.details
            &&& series.len() > 0 ==> {
                &&& a.details == clamped_text(series)
                &&& season >= 1 || episode >= 1 ==> a.state == clamped_text(
                    numbers + " \u{b7} "@ + input.meta.title@,
                )
                &&& season <= 0 && episode <= 0 ==> a.state == clamped_text(input.meta.title@)
            }
            &&& series.len() == 0 ==> a.details == clamped_text(input.meta.title@) && a.state
                == clamped_text(numbers)
        },
{
    reveal_strlit("S");
    reveal_strlit("E");
    let season = input.meta.season_number as int;
    let episode = input.meta.track_number as int;
    numbers_of_an_episode(season, episode);
}

/// An episode's numbers are a letter and a numeral each, the season's before
/// the episode's, and each is there exactly where it is positive.
pub proof fn numbers_of_an_episode(season: int, episode: int)
    ensures
        season >= 1 && episode >= 1 ==> numbering(season, episode) == "S"@ + crate::text::decimal(
            season as nat,
        ) + "E"@ + crate::text::decimal(episode as nat),
        season >= 1 && episode <= 0 ==> numbering(season, episode) == "S"@ + crate::text::decimal(
            season as nat,
        ),
        season <= 0 && episode >= 1 ==> numbering(season, episode) == "E"@ + crate::text::decimal(
            episode as nat,
        ),
        season <= 0 && episode <= 0 ==> numbering(season, episode).len() == 0,
        season >= 1 || episode >= 1 ==> numbering(season, episode).len() > 1,
{
    reveal_strlit("S");
    reveal_strlit("E");
    if season >= 1 {
        crate::text::numerals_say_their_number(season as nat);
    }
    if episode >= 1 {
        crate::text::numerals_say_their_number(episode as nat);
    }
    if season >= 1 && episode >= 1 {
        assert(numbering(season, episode) =~= "S"@ + crate::text::decimal(season as nat) + "E"@
            + crate::text::decimal(episode as nat));
    } else if season >= 1 {
        assert(numbering(season, episode) =~= "S"@ + crate::text::decimal(season as nat));
    } else if episode >= 1 {
        assert(numbering(season, episode) =~= "E"@ + crate::text::decimal(episode as nat));
    } else {
        assert(numbering(season, episode) =~= seq![]);
    }
}

/// What a card shows of an item: its album, its identifier on the server and
/// the picture's data are on no card, and the bar and the badge are the only
/// parts that the player's clock can change.
pub proof fn cards_show_only_what_they_name(a: ProjectInput, b: ProjectInput)
    requires
        a.meta.title == b.meta.title,
        a.meta.artist == b.meta.artist,
        a.meta.track_number == b.meta.track_number,
        a.meta.season_number == b.meta.season_number,
        a.meta.year == b.meta.year,
        a.meta.art_url == b.meta.art_url,
        a.meta.kind == b.meta.kind,
        a.meta.imdb_id == b.meta.imdb_id,
        a.meta.tmdb_id == b.meta.tmdb_id,
        a.meta.anilist_id == b.meta.anilist_id,
        a.phase == b.phase,
    ensures
        projection(a) is Some <==> projection(b) is Some,
        projection(a) matches Some(x) ==> (projection(b) matches Some(y) ==> x == (ActivityView {
            timeline: x.timeline,
            small_text: x.small_text,
            ..y
        })),
        a.seeking == b.seeking && a.buffering == b.buffering && a.rate == b.rate && a.position_us
            == b.position_us && a.duration_us == b.duration_us && a.timeline_armed
            == b.timeline_armed ==> projection(a) == projection(b),
{
}

/// A card is listened to for music and watched for everything else.
pub proof fn only_music_is_listened_to(input: ProjectInput)
    ensures
        projection(input) matches Some(a) ==> {
            &&& input.meta.kind is Music ==> a.activity_type == 2
            &&& !(input.meta.kind is Music) ==> a.activity_type == 3
        },
{
}

/// A card's picture is the item's poster, or the logo without one, and its
/// caption is the artist's name, or the title without one.
pub proof fn cards_show_the_poster(input: ProjectInput)
    ensures
        projection(input) matches Some(a) ==> {
            &&& input.meta.art_url@.len() > 0 ==> a.large_image == input.meta.art_url@
            &&& input.meta.art_url@.len() == 0 ==> a.large_image == "logo"@
            &&& crate::text::trimmed(input.meta.artist@).len() > 0 ==> a.large_text == clamped_text(
                input.meta.artist@,
            )
            &&& crate::text::trimmed(input.meta.artist@).len() == 0 ==> a.large_text
                == clamped_text(input.meta.title@)
        },
{
}

/// The bar of a card runs from the player's position, at the player's rate,
/// over the item's length; what lies below zero counts as zero. It is there
/// exactly while playback moves.
pub proof fn bars_follow_the_player(input: ProjectInput)
    ensures
        projection(input) matches Some(a) ==> {
            &&& a.timeline is Some <==> (input.phase is Playing && !input.seeking
                && !input.buffering && input.timeline_armed && input.rate.positive())
            &&& a.timeline matches Some(t) ==> {
                &&& t.rate == input.rate
                &&& input.position_us >= 0 ==> t.position_us == input.position_us
                &&& input.position_us <= 0 ==> t.position_us == 0
                &&& input.duration_us >= 0 ==> t.duration_us == input.duration_us
                &&& input.duration_us <= 0 ==> t.duration_us == 0
            }
        },
{
}

/// A paused card wears the pause badge, which names the position and, where it
/// is known, the length behind it. No other card has a badge.
pub proof fn paused_cards_say_where(input: ProjectInput)
    ensures
        projection(input) matches Some(a) ==> {
            let at = hms(input.position_us as int);
            let length = hms(input.duration_us as int);
            &&& input.phase is Paused ==> {
                &&& a.small_image == "pause"@
                &&& input.duration_us > 0 ==> a.small_text == clamped_text(
                    "Paused \u{b7} "@ + (at + " / "@ + length),
                )
                &&& input.duration_us <= 0 ==> a.small_text == clamped_text("Paused \u{b7} "@ + at)
            }
            &&& !(input.phase is Paused) ==> a.small_image.len() == 0 && a.small_text.len() == 0
        },
{
    reveal_strlit("");
}

/// A span reads as its hours, minutes and seconds, two digits behind each
/// colon; the hours are left out where there is none. Parts of a second do not
/// show, and a span below zero reads as zero.
pub proof fn spans_read_as_clock_times(h: nat, m: nat, s: nat, rest: nat)
    requires
        m < 60,
        s < 60,
        rest < 1_000_000,
    ensures
        ({
            let us = ((h * 60 + m) * 60 + s) * 1_000_000 + rest;
            &&& h > 0 ==> hms(us as int) == crate::text::decimal(h) + ":"@ + crate::text::decimal2(
                m,
            ) + ":"@ + crate::text::decimal2(s)
            &&& h == 0 ==> hms(us as int) == crate::text::decimal(m) + ":"@
                + crate::text::decimal2(s)
        }),
        forall|us: int| us <= 0 ==> #[trigger] hms(us) == hms(0),
{
    let total = (h * 60 + m) * 60 + s;
    let us = total * 1_000_000 + rest;
    assert(us / 1_000_000 == total) by (nonlinear_arith)
        requires
            us == total * 1_000_000 + rest,
            0 <= rest < 1_000_000,
    ;
    assert(total == h * 3600 + (m * 60 + s));
    assert(total / 3600 == h) by (nonlinear_arith)
        requires
            total == h * 3600 + (m * 60 + s),
            0 <= m * 60 + s < 3600,
    ;
    assert(total % 3600 == m * 60 + s);
    assert((m * 60 + s) / 60 == m);
    assert(total % 60 == s);
    assert forall|t: int| t <= 0 implies #[trigger] hms(t) == hms(0) by {}
}

/// A text for a card is what is left of it without the whitespace at its ends:
/// whole where it has two to 128 characters, its first 128 where it has more,
/// and nothing where it has fewer than two.
pub proof fn texts_are_cut_to_size(s: Seq<char>)
    ensures
        2 <= crate::text::trimmed(s).len() <= 128 ==> clamped_text(s) == crate::text::trimmed(s),
        crate::text::trimmed(s).len() < 2 ==> clamped_text(s).len() == 0,
        crate::text::trimmed(s).len() > 128 ==> clamped_text(s).len() == 128,
        forall|i: int|
            0 <= i < clamped_text(s).len() ==> #[trigger] clamped_text(s)[i] == crate::text::trimmed(
                s,
            )[i],
        clamped_text(crate::text::trimmed(s)) == clamped_text(s),
{
    let t = crate::text::trimmed(s);
    let bounds = crate::text::trimming_takes_only_whitespace(s);
    crate::text::trimming_leaves_tight_texts(t);
}

/// An identifier goes into a link where it is 1 to 32 letters, digits and
/// hyphens long: none of the characters that part an address does.
pub proof fn identifiers_part_no_address(id: Seq<char>)
    ensures
        sane_id(id) ==> 1 <= id.len() <= 32 && !id.contains('/') && !id.contains('?')
            && !id.contains('#') && !id.contains('%') && !id.contains('&') && !id.contains(':')
            && !id.contains('.') && !id.contains('@') && !id.contains(' '),
        1 <= id.len() <= 32 && (forall|i: int|
            0 <= i < id.len() ==> (48 <= #[trigger] id[i] as int <= 57 || 65 <= id[i] as int <= 90
                || 97 <= id[i] as int <= 122 || id[i] == '-')) ==> sane_id(id),
        sane_id(id) ==> forall|i: int|
            0 <= i < id.len() ==> (48 <= #[trigger] id[i] as int <= 57 || 65 <= id[i] as int <= 90
                || 97 <= id[i] as int <= 122 || id[i] == '-'),
{
    if sane_id(id) {
        assert forall|i: int| 0 <= i < id.len() implies (48 <= #[trigger] id[i] as int <= 57 || 65
            <= id[i] as int <= 90 || 97 <= id[i] as int <= 122 || id[i] == '-') by {
            assert(id_char(id[i]));
        }
    }
}

/// A card's buttons are the item's known pages: at most two of IMDb, AniList
/// and TMDb, in this order, each under its own name and with its own
/// identifier. TMDb keeps movies apart from everything else.
pub proof fn buttons_are_the_known_pages(input: ProjectInput)
    ensures
        projection(input) matches Some(a) ==> {
            let meta = input.meta;
            let imdb = ButtonView {
                label: "IMDb"@,
                url: "https://www.imdb.com/title/"@ + meta.imdb_id@ + "/"@,
            };
            let anilist = ButtonView {
                label: "AniList"@,
                url: "https://anilist.co/anime/"@ + meta.anilist_id@,
            };
            let part = if meta.kind is Movie {
                "movie"@
            } else {
                "tv"@
            };
            let tmdb = ButtonView {
                label: "TMDb"@,
                url: "https://www.themoviedb.org/"@ + part + "/"@ + meta.tmdb_id@,
            };
            let has_imdb = sane_id(meta.imdb_id@);
            let has_anilist = sane_id(meta.anilist_id@);
            let has_tmdb = sane_id(meta.tmdb_id@);
            &&& has_imdb ==> a.buttons.len() >= 1 && a.buttons[0] == imdb
            &&& has_imdb && has_anilist ==> a.buttons.len() == 2 && a.buttons[1] == anilist
            &&& has_imdb && !has_anilist && has_tmdb ==> a.buttons.len() == 2 && a.buttons[1]
                == tmdb
            &&& has_imdb && !has_anilist && !has_tmdb ==> a.buttons.len() == 1
            &&& !has_imdb && has_anilist ==> a.buttons.len() >= 1 && a.buttons[0] == anilist
            &&& !has_imdb && has_anilist && has_tmdb ==> a.buttons.len() == 2 && a.buttons[1]
                == tmdb
            &&& !has_imdb && has_anilist && !has_tmdb ==> a.buttons.len() == 1
            &&& !has_imdb && !has_anilist && has_tmdb ==> a.buttons.len() == 1 && a.buttons[0]
                == tmdb
            &&& !has_imdb && !has_anilist && !has_tmdb ==> a.buttons.len() == 0
        },
{
    if let Some(a) = projection(input) {
        let all = all_links(*input.meta);
        assert(all.len() > 2 ==> a.buttons.len() == 2 && a.buttons[0] == all[0] && a.buttons[1]
            == all[1]);
    }
}

/// Two cards that show the same agree in every part; of two bars the rates may
/// differ in the sign of a zero.
pub proof fn cards_that_show_the_same(a: ActivityView, b: ActivityView)
    ensures
        a.alike(b) ==> a.activity_type == b.activity_type && a.name == b.name && a.details
            == b.details && a.state == b.state && a.large_image == b.large_image && a.large_text
            == b.large_text && a.small_image == b.small_image && a.small_text == b.small_text
            && a.buttons == b.buttons && (a.timeline is Some <==> b.timeline is Some),
        a.alike(b) ==> (a.timeline matches Some(s) ==> (b.timeline matches Some(t) ==> s.position_us
            == t.position_us && s.duration_us == t.duration_us && s.rate.equals(t.rate))),
        a == b && (a.timeline matches Some(s) ==> !s.rate.is_nan()) ==> a.alike(b),
        a.alike(b) <==> b.alike(a),
{
    let x = ActivityView { timeline: None, ..a };
    let y = ActivityView { timeline: None, ..b };
    if x == y {
        assert(x.buttons == y.buttons);
    }
}

/// Buttons are viewed in their order, each by its label and its address.
pub proof fn buttons_are_viewed_in_order(buttons: Seq<Button>, i: int)
    requires
        0 <= i < buttons.len(),
    ensures
        button_views(buttons).len() == buttons.len(),
        button_views(buttons)[i].label == buttons[i].label@,
        button_views(buttons)[i].url == buttons[i].url@,
{
}

/// A card is viewed part by part.
pub proof fn cards_are_viewed_part_by_part(a: Activity)
    ensures
        a@.activity_type == a.activity_type,
        a@.name == a.name@ && a@.details == a.details@ && a@.state == a.state@,
        a@.large_image == a.large_image@ && a@.large_text == a.large_text@,
        a@.small_image == a.small_image@ && a@.small_text == a.small_text@,
        a@.timeline == a.timeline,
        a@.buttons.len() == a.buttons@.len(),
{
}

} // verus!
