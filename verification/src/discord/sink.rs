//! When to tell Discord what: the player's events folded into a state, and the
//! loop that keeps the published card in step with it.

use vstd::prelude::*;

use crate::discord::projection::{project, Activity, ProjectInput};
use crate::playback::{
    MediaMetadata, PlaybackEvent, PlaybackEventKind, PlaybackPhase, PlaybackSnapshot, Rate,
};
use crate::text::{is_numeric, same_text, trim};
use crate::time::{Duration, Instant};

verus! {

pub const DEFAULT_APPLICATION_ID: &'static str = "";

/// Nanoseconds between two pushes.
pub const MIN_PUSH_INTERVAL: u64 = 4_000_000_000;

/// Nanoseconds between two checks without an event.
pub const WATCHDOG: u64 = 60_000_000_000;

/// Nanoseconds that one turn of the loop waits for an event.
pub const TICK: u64 = 250_000_000;

/// Nanoseconds before the first attempt to connect again.
pub const RECONNECT_MIN: u64 = 5_000_000_000;

/// Nanoseconds that attempts to connect are at most apart.
pub const RECONNECT_MAX: u64 = 60_000_000_000;

/// What is known of the player.
#[derive(Debug)]
pub struct State {
    pub meta: MediaMetadata,
    pub snapshot: PlaybackSnapshot,
    pub timeline_armed: bool,
}

/// Nothing is known of the player: it counts as stopped, at the start of no
/// item.
pub open spec fn blank_state(st: State) -> bool {
    &&& crate::playback::blank_metadata(st.meta)
    &&& !st.timeline_armed
    &&& st.snapshot == (PlaybackSnapshot {
        phase: PlaybackPhase::Stopped,
        seeking: false,
        buffering: false,
        rate: Rate { bits: 0 },
        position_us: 0,
        duration_us: 0,
    })
}

impl Default for State {
    fn default() -> (r: Self)
        ensures
            blank_state(r),
    {
        State {
            meta: MediaMetadata::default(),
            snapshot: PlaybackSnapshot {
                phase: PlaybackPhase::Stopped,
                seeking: false,
                buffering: false,
                rate: Rate { bits: 0 },
                position_us: 0,
                duration_us: 0,
            },
            timeline_armed: false,
        }
    }
}

/// The kinds of event that can change the card.
pub open spec fn interesting(kind: PlaybackEventKind) -> bool {
    match kind {
        PlaybackEventKind::Started
        | PlaybackEventKind::Paused
        | PlaybackEventKind::Finished
        | PlaybackEventKind::Canceled
        | PlaybackEventKind::Error
        | PlaybackEventKind::TrackLoaded
        | PlaybackEventKind::MetadataChanged
        | PlaybackEventKind::RateChanged
        | PlaybackEventKind::DurationChanged
        | PlaybackEventKind::Seeked
        | PlaybackEventKind::SeekingChanged
        | PlaybackEventKind::BufferingChanged => true,
        _ => false,
    }
}

pub fn is_interesting(kind: PlaybackEventKind) -> (r: bool)
    ensures
        r == interesting(kind),
{
    match kind {
        PlaybackEventKind::Started
        | PlaybackEventKind::Paused
        | PlaybackEventKind::Finished
        | PlaybackEventKind::Canceled
        | PlaybackEventKind::Error
        | PlaybackEventKind::TrackLoaded
        | PlaybackEventKind::MetadataChanged
        | PlaybackEventKind::RateChanged
        | PlaybackEventKind::DurationChanged
        | PlaybackEventKind::Seeked
        | PlaybackEventKind::SeekingChanged
        | PlaybackEventKind::BufferingChanged => true,
        _ => false,
    }
}

/// The event announces an item: it carries metadata with an identifier.
pub open spec fn announces(ev: PlaybackEvent) -> bool {
    ev.kind == PlaybackEventKind::MetadataChanged && ev.metadata.id@.len() > 0
}

/// The item after `ev`: an announced one replaces the old. Announced again
/// without a poster, the same item keeps the poster it had.
pub open spec fn meta_after(meta: MediaMetadata, ev: PlaybackEvent) -> MediaMetadata {
    if !announces(ev) {
        meta
    } else if ev.metadata.id@ == meta.id@ && ev.metadata.art_url@.len() == 0 {
        MediaMetadata { art_url: meta.art_url, ..ev.metadata }
    } else {
        ev.metadata
    }
}

/// The bar is armed by a start and disarmed by another item.
pub open spec fn armed_after(st: State, ev: PlaybackEvent) -> bool {
    if ev.kind == PlaybackEventKind::Started {
        true
    } else if announces(ev) && ev.metadata.id@ != st.meta.id@ {
        false
    } else {
        st.timeline_armed
    }
}

pub open spec fn state_after(st: State, ev: PlaybackEvent) -> State {
    State {
        meta: meta_after(st.meta, ev),
        snapshot: ev.snapshot,
        timeline_armed: armed_after(st, ev),
    }
}

/// Folds one event into the state, and tells whether the card may have
/// changed. Metadata without an identifier never replaces an item.
pub fn apply(st: &mut State, ev: &PlaybackEvent) -> (r: bool)
    ensures
        *final(st) == state_after(*old(st), *ev),
        r == (interesting(ev.kind) && (ev.kind == PlaybackEventKind::MetadataChanged ==> announces(
            *ev,
        ))),
{
    st.snapshot = ev.snapshot;
    match ev.kind {
        PlaybackEventKind::MetadataChanged => {
            if ev.metadata.id.as_str().is_empty() {
                return false;
            }
            if same_text(ev.metadata.id.as_str(), st.meta.id.as_str()) {
                let art = st.meta.art_url.clone();
                st.meta = ev.metadata.clone();
                if st.meta.art_url.as_str().is_empty() {
                    st.meta.art_url = art;
                }
            } else {
                st.meta = ev.metadata.clone();
                st.timeline_armed = false;
            }
            true
        },
        PlaybackEventKind::Started => {
            st.timeline_armed = true;
            true
        },
        PlaybackEventKind::SeekingChanged
        | PlaybackEventKind::BufferingChanged
        | PlaybackEventKind::Paused
        | PlaybackEventKind::Finished
        | PlaybackEventKind::Canceled
        | PlaybackEventKind::Error
        | PlaybackEventKind::TrackLoaded
        | PlaybackEventKind::RateChanged
        | PlaybackEventKind::DurationChanged
        | PlaybackEventKind::Seeked => true,
        _ => false,
    }
}

/// What the card is projected from. The item's own length wins over the
/// player's.
pub open spec fn state_input(st: State) -> ProjectInput<'static> {
    ProjectInput {
        phase: st.snapshot.phase,
        seeking: st.snapshot.seeking,
        buffering: st.snapshot.buffering,
        rate: st.snapshot.rate,
        position_us: st.snapshot.position_us,
        duration_us: if st.meta.duration_us > 0 {
            st.meta.duration_us
        } else {
            st.snapshot.duration_us
        },
        meta: &st.meta,
        timeline_armed: st.timeline_armed,
    }
}

/// The card for a state.
pub open spec fn state_card(st: State) -> Option<crate::discord::projection::ActivityView> {
    crate::discord::projection::projection(state_input(st))
}

pub open spec fn card_view(card: Option<Activity>) -> Option<
    crate::discord::projection::ActivityView,
> {
    match card {
        Some(a) => Some(a@),
        None => None,
    }
}

pub fn project_state(st: &State) -> (r: Option<Activity>)
    ensures
        card_view(r) == state_card(*st),
{
    project(
        &ProjectInput {
            phase: st.snapshot.phase,
            seeking: st.snapshot.seeking,
            buffering: st.snapshot.buffering,
            rate: st.snapshot.rate,
            position_us: st.snapshot.position_us,
            duration_us: if st.meta.duration_us > 0 {
                st.meta.duration_us
            } else {
                st.snapshot.duration_us
            },
            meta: &st.meta,
            timeline_armed: st.timeline_armed,
        },
    )
}

/// When to try to connect next.
#[derive(Clone, Copy, Debug, PartialEq, Eq, Structural)]
pub struct Backoff {
    pub next_attempt: Instant,
    pub delay: Duration,
}

/// The delay after one more failure: twice as long, up to the limit.
pub open spec fn longer(delay: int) -> int {
    if 2 * delay < RECONNECT_MAX {
        2 * delay
    } else {
        RECONNECT_MAX as int
    }
}

/// The delay after `failures` failures in a row.
pub open spec fn delay_after(failures: nat) -> int
    decreases failures,
{
    if failures == 0 {
        RECONNECT_MIN as int
    } else {
        longer(delay_after((failures - 1) as nat))
    }
}

impl Backoff {
    pub open spec fn wf(self) -> bool {
        RECONNECT_MIN <= self.delay.nanos <= RECONNECT_MAX
    }

    pub fn new(now: Instant) -> (r: Self)
        ensures
            r.wf(),
            r.next_attempt == now,
            r.delay.nanos == RECONNECT_MIN,
    {
        Backoff { next_attempt: now, delay: Duration { nanos: RECONNECT_MIN } }
    }

    pub fn due(&self, now: Instant) -> (r: bool)
        ensures
            r == (now.nanos >= self.next_attempt.nanos),
    {
        now.nanos >= self.next_attempt.nanos
    }

    pub fn fail(&mut self, now: Instant)
        requires
            old(self).wf(),
            now.reaches(old(self).delay),
        ensures
            final(self).wf(),
            final(self).next_attempt.nanos == now.nanos + old(self).delay.nanos,
            final(self).delay.nanos == longer(old(self).delay.nanos as int),
    {
        self.next_attempt = now.after(self.delay);
        let doubled: u64 = self.delay.nanos * 2;
        self.delay = Duration { nanos: if doubled < RECONNECT_MAX { doubled } else { RECONNECT_MAX } };
    }

    pub fn reset(&mut self)
        ensures
            final(self).wf(),
            final(self).next_attempt == old(self).next_attempt,
            final(self).delay.nanos == RECONNECT_MIN,
    {
        self.delay = Duration { nanos: RECONNECT_MIN };
    }
}

/// The delay between attempts never shrinks while they fail, stays within its
/// limits, and has reached the longest by the fourth failure.
pub proof fn backoff_grows_and_caps(failures: nat)
    ensures
        RECONNECT_MIN <= delay_after(failures) <= RECONNECT_MAX,
        delay_after(failures) <= delay_after(failures + 1),
        failures >= 4 ==> delay_after(failures) == RECONNECT_MAX,
    decreases failures,
{
    if failures > 0 {
        backoff_grows_and_caps((failures - 1) as nat);
        reveal_with_fuel(delay_after, 6);
    }
}

/// The loop that keeps Discord's card in step with the player.
#[derive(Debug)]
pub struct Presence {
    pub state: State,
    pub backoff: Backoff,
    pub nonce: u64,
    pub last_sent: Option<Option<Activity>>,
    pub pending: bool,
    pub last_push: Option<Instant>,
    pub next_watchdog: Instant,
    pub connected: bool,
}

/// Two cards show the same, or there is none in either place.
pub open spec fn cards_alike(
    a: Option<crate::discord::projection::ActivityView>,
    b: Option<crate::discord::projection::ActivityView>,
) -> bool {
    match (a, b) {
        (None, None) => true,
        (Some(x), Some(y)) => x.alike(y),
        _ => false,
    }
}

/// Enough time has passed since the last push.
pub open spec fn push_allowed(last_push: Option<Instant>, now: Instant) -> bool {
    last_push matches Some(t) ==> now.since(t) >= MIN_PUSH_INTERVAL
}

fn same_card(a: &Option<Activity>, b: &Option<Activity>) -> (r: bool)
    ensures
        r == cards_alike(card_view(*a), card_view(*b)),
{
    match (a, b) {
        (None, None) => true,
        (Some(x), Some(y)) => *x == *y,
        _ => false,
    }
}

impl Presence {
    pub open spec fn wf(self) -> bool {
        self.backoff.wf()
    }

    /// The loop's clock can still be moved ahead by every delay it uses.
    pub open spec fn clock_fits(now: Instant) -> bool {
        now.nanos + RECONNECT_MAX <= u64::MAX
    }

    /// A push is wanted: an event or the watchdog asked for one.
    pub open spec fn wants_push(self, now: Instant) -> bool {
        self.pending || now.nanos >= self.next_watchdog.nanos
    }

    /// A push may happen now.
    pub open spec fn push_due(self, now: Instant) -> bool {
        self.wants_push(now) && self.connected && push_allowed(self.last_push, now)
    }

    /// The card differs from the one Discord has.
    pub open spec fn card_changed(self) -> bool {
        !(self.last_sent matches Some(card) && cards_alike(
            card_view(card),
            state_card(self.state),
        ))
    }

    pub fn new(now: Instant) -> (r: Self)
        requires
            Presence::clock_fits(now),
        ensures
            r.wf(),
            blank_state(r.state),
            r.backoff.next_attempt == now,
            r.backoff.delay.nanos == RECONNECT_MIN,
            r.nonce == 0,
            r.last_sent is None,
            r.pending,
            r.last_push is None,
            r.next_watchdog.nanos == now.nanos + WATCHDOG,
            !r.connected,
    {
        Presence {
            state: State::default(),
            backoff: Backoff::new(now),
            nonce: 0,
            last_sent: None,
            pending: true,
            last_push: None,
            next_watchdog: now.after(Duration { nanos: WATCHDOG }),
            connected: false,
        }
    }

    /// An event came in.
    pub fn on_event(&mut self, ev: &PlaybackEvent)
        requires
            old(self).wf(),
        ensures
            final(self).wf(),
            *final(self) == (Presence {
                state: state_after(old(self).state, *ev),
                pending: old(self).pending || (interesting(ev.kind) && (ev.kind
                    == PlaybackEventKind::MetadataChanged ==> announces(*ev))),
                ..*old(self)
            }),
    {
        if apply(&mut self.state, ev) {
            self.pending = true;
        }
    }

    /// Starts a turn: drops a connection that has died, and tells whether to
    /// connect now.
    pub fn begin_turn(&mut self, now: Instant, alive: bool) -> (connect: bool)
        requires
            old(self).wf(),
            Presence::clock_fits(now),
        ensures
            final(self).wf(),
            !(old(self).connected && !alive) ==> *final(self) == *old(self),
            old(self).connected && !alive ==> {
                &&& !final(self).connected
                &&& final(self).last_sent is None
                &&& final(self).backoff.next_attempt.nanos == now.nanos
                    + old(self).backoff.delay.nanos
                &&& final(self).backoff.delay.nanos == longer(old(self).backoff.delay.nanos as int)
                &&& final(self).state == old(self).state
                &&& final(self).nonce == old(self).nonce
                &&& final(self).pending == old(self).pending
                &&& final(self).last_push == old(self).last_push
                &&& final(self).next_watchdog == old(self).next_watchdog
            },
            connect == (!final(self).connected && now.nanos
                >= final(self).backoff.next_attempt.nanos),
    {
        if self.connected && !alive {
            self.connected = false;
            self.last_sent = None;
            self.backoff.fail(now);
        }
        !self.connected && self.backoff.due(now)
    }

    /// An attempt to connect ended. A fresh connection knows no card, so the
    /// card is sent again.
    pub fn on_connect(&mut self, now: Instant, connected: bool)
        requires
            old(self).wf(),
            !old(self).connected,
            Presence::clock_fits(now),
        ensures
            final(self).wf(),
            final(self).connected == connected,
            final(self).state == old(self).state,
            final(self).nonce == old(self).nonce,
            final(self).last_push == old(self).last_push,
            final(self).next_watchdog == old(self).next_watchdog,
            connected ==> {
                &&& final(self).last_sent is None
                &&& final(self).pending
                &&& final(self).backoff.next_attempt == old(self).backoff.next_attempt
                &&& final(self).backoff.delay.nanos == RECONNECT_MIN
            },
            !connected ==> {
                &&& final(self).last_sent == old(self).last_sent
                &&& final(self).pending == old(self).pending
                &&& final(self).backoff.next_attempt.nanos == now.nanos
                    + old(self).backoff.delay.nanos
                &&& final(self).backoff.delay.nanos == longer(old(self).backoff.delay.nanos as int)
            },
    {
        if connected {
            self.connected = true;
            self.backoff.reset();
            self.last_sent = None;
            self.pending = true;
        } else {
            self.backoff.fail(now);
        }
    }

    /// The card to send now and its nonce, if one is due: wanted, connected,
    /// not too soon, and different from the last one sent. `Some((None, _))`
    /// clears the card.
    pub fn next_push(&mut self, now: Instant) -> (r: Option<(Option<Activity>, u64)>)
        requires
            old(self).wf(),
            Presence::clock_fits(now),
        ensures
            final(self).wf(),
            r is Some <==> old(self).push_due(now) && old(self).card_changed(),
            r matches Some((card, nonce)) ==> {
                &&& card_view(card) == state_card(old(self).state)
                &&& nonce == old(self).nonce.wrapping_add(1)
            },
            *final(self) == (Presence {
                pending: old(self).wants_push(now) && !old(self).push_due(now),
                nonce: if r is Some {
                    old(self).nonce.wrapping_add(1)
                } else {
                    old(self).nonce
                },
                next_watchdog: if now.nanos >= old(self).next_watchdog.nanos {
                    Instant { nanos: (now.nanos + WATCHDOG) as u64 }
                } else {
                    old(self).next_watchdog
                },
                ..*old(self)
            }),
    {
        if now.nanos >= self.next_watchdog.nanos {
            self.next_watchdog = now.after(Duration { nanos: WATCHDOG });
            self.pending = true;
        }
        let allowed = match self.last_push {
            Some(t) => now.duration_since(t).nanos >= MIN_PUSH_INTERVAL,
            None => true,
        };
        if !(self.pending && self.connected && allowed) {
            return None;
        }
        self.pending = false;
        let next = project_state(&self.state);
        let unchanged = match &self.last_sent {
            Some(sent) => same_card(sent, &next),
            None => false,
        };
        if unchanged {
            return None;
        }
        self.nonce = self.nonce.wrapping_add(1);
        Some((next, self.nonce))
    }

    /// The card was sent, or could not be.
    pub fn on_sent(&mut self, now: Instant, card: Option<Activity>, sent: bool)
        requires
            old(self).wf(),
        ensures
            final(self).wf(),
            !sent ==> *final(self) == *old(self),
            sent ==> *final(self) == (Presence {
                last_sent: Some(card),
                last_push: Some(now),
                ..*old(self)
            }),
    {
        if sent {
            self.last_sent = Some(card);
            self.last_push = Some(now);
        }
    }

    /// The nonce of the message that clears the card at the end, if there is a
    /// connection to send it on.
    pub fn farewell(&self) -> (r: Option<u64>)
        ensures
            r == (if self.connected {
                Some(self.nonce.wrapping_add(1))
            } else {
                None
            }),
    {
        if self.connected {
            Some(self.nonce.wrapping_add(1))
        } else {
            None
        }
    }
}

/// Once a card has been sent, no further one goes out for four seconds.
pub proof fn pushes_are_spaced(p: Presence, sent_at: Instant, now: Instant)
    requires
        p.last_push == Some(sent_at),
        sent_at.nanos <= now.nanos < sent_at.nanos + MIN_PUSH_INTERVAL,
    ensures
        !p.push_due(now),
{
}

/// A card that Discord already has is not sent again.
pub proof fn same_card_is_not_resent(p: Presence, card: Option<Activity>)
    requires
        p.last_sent == Some(card),
        card_view(card) == state_card(p.state),
    ensures
        !p.card_changed(),
{
    match state_card(p.state) {
        Some(view) => {
            crate::discord::projection::made_cards_show_what_they_hold(
                state_input(p.state),
                view,
            );
        },
        None => {},
    }
}

/// A fresh connection always gets a card: with nothing sent on it yet, the card
/// counts as changed whatever it is, and the push is wanted.
pub proof fn fresh_connection_gets_a_card(p: Presence, now: Instant)
    requires
        p.connected,
        p.pending,
        p.last_sent is None,
        push_allowed(p.last_push, now),
    ensures
        p.push_due(now),
        p.card_changed(),
{
}

/// Metadata without an identifier leaves the item as it was.
pub proof fn blank_metadata_keeps_the_item(st: State, ev: PlaybackEvent)
    requires
        ev.metadata.id@.len() == 0,
    ensures
        state_after(st, ev).meta == st.meta,
{
}

/// The same item announced again never loses its poster.
pub proof fn reannounced_item_keeps_its_poster(st: State, ev: PlaybackEvent)
    requires
        announces(ev),
        ev.metadata.id@ == st.meta.id@,
        st.meta.art_url@.len() > 0,
    ensures
        state_after(st, ev).meta.art_url@.len() > 0,
        ev.metadata.art_url@.len() == 0 ==> state_after(st, ev).meta.art_url == st.meta.art_url,
        state_after(st, ev).timeline_armed == st.timeline_armed,
{
}

/// Stopped playback shows no card, whatever the item.
pub proof fn stopped_shows_nothing(st: State)
    requires
        st.snapshot.phase == PlaybackPhase::Stopped,
    ensures
        state_card(st) is None,
{
}

/// A Discord application identifier: digits only.
pub fn is_valid_application_id(id: &str) -> (r: bool)
    ensures
        r == crate::text::numeric(id@),
{
    is_numeric(id)
}

/// The identifier to use for a configured one: trimmed, the default where it is
/// blank, and empty where it is not a number.
pub open spec fn application_id(configured: Seq<char>) -> Seq<char> {
    let t = crate::text::trimmed(configured);
    if crate::text::numeric(t) {
        t
    } else {
        seq![]
    }
}

pub fn resolve_application_id(configured: &str) -> (r: String)
    ensures
        r@ == application_id(configured@),
{
    proof {
        reveal_strlit("");
    }
    let trimmed = trim(configured);
    let id: String = if trimmed.as_str().is_empty() {
        DEFAULT_APPLICATION_ID.to_owned()
    } else {
        trimmed
    };
    if id.as_str().is_empty() {
        return String::new();
    }
    if !is_valid_application_id(id.as_str()) {
        return String::new();
    }
    id
}

/// Whether the presence runs, and under which identifier.
pub fn start(enabled: bool, configured: &str, running: bool) -> (r: Option<String>)
    ensures
        r is Some <==> enabled && application_id(configured@).len() > 0 && !running,
        r matches Some(id) ==> id@ == application_id(configured@),
{
    if !enabled {
        return None;
    }
    let id = resolve_application_id(configured);
    if id.as_str().is_empty() {
        return None;
    }
    if running {
        return None;
    }
    Some(id)
}

/// The card of a state is at the player's position: the bar starts there. A
/// position below zero counts as zero.
pub proof fn bars_start_at_the_players_position(st: State)
    ensures
        state_card(st) matches Some(a) ==> (a.timeline matches Some(t) ==> {
            let at = st.snapshot.position_us;
            &&& at >= 0 ==> t.position_us == at
            &&& at < 0 ==> t.position_us == 0
        }),
{
    crate::discord::projection::bars_follow_the_player(state_input(st));
}

/// The card of a state is as long as its item: the item's own length where it
/// has one, and the player's where it does not. A pause names the player's
/// position before that length.
pub proof fn cards_are_as_long_as_the_item(st: State)
    ensures
        state_card(st) matches Some(a) ==> {
            let own = st.meta.duration_us;
            let players = st.snapshot.duration_us;
            let at = crate::discord::projection::hms(st.snapshot.position_us as int);
            &&& a.timeline matches Some(t) ==> {
                &&& own > 0 ==> t.duration_us == own
                &&& own <= 0 && players >= 0 ==> t.duration_us == players
                &&& own <= 0 && players < 0 ==> t.duration_us == 0
            }
            &&& st.snapshot.phase is Paused ==> {
                &&& own > 0 ==> a.small_text == crate::discord::projection::clamped_text(
                    "Paused \u{b7} "@ + (at + " / "@ + crate::discord::projection::hms(own as int)),
                )
                &&& own <= 0 && players > 0 ==> a.small_text
                    == crate::discord::projection::clamped_text(
                    "Paused \u{b7} "@ + (at + " / "@ + crate::discord::projection::hms(
                        players as int,
                    )),
                )
                &&& own <= 0 && players <= 0 ==> a.small_text
                    == crate::discord::projection::clamped_text("Paused \u{b7} "@ + at)
            }
        },
{
    crate::discord::projection::bars_follow_the_player(state_input(st));
    crate::discord::projection::paused_cards_say_where(state_input(st));
}

/// The card of a state is about the item that plays, and its bar runs exactly
/// while the player plays it, undisturbed, at the player's own rate.
pub proof fn cards_are_about_what_plays(st: State)
    ensures
        state_card(st) is Some <==> !(st.snapshot.phase is Stopped) && crate::text::trimmed(
            st.meta.title@,
        ).len() > 0,
        state_card(st) matches Some(a) ==> {
            &&& a.timeline is Some <==> (st.snapshot.phase is Playing && !st.snapshot.seeking
                && !st.snapshot.buffering && st.timeline_armed && st.snapshot.rate.positive())
            &&& a.timeline matches Some(t) ==> t.rate == st.snapshot.rate
            &&& !(st.meta.kind is Episode) ==> a.details
                == crate::discord::projection::clamped_text(st.meta.title@)
            &&& !(st.meta.kind is Episode) && !(st.meta.kind is Movie) ==> a.state
                == crate::discord::projection::clamped_text(st.meta.artist@)
            &&& st.meta.art_url@.len() > 0 ==> a.large_image == st.meta.art_url@
        },
{
    crate::discord::projection::titled_items_have_a_card(state_input(st));
    crate::discord::projection::bars_follow_the_player(state_input(st));
    crate::discord::projection::cards_show_the_poster(state_input(st));
}

/// The card that goes out is the one that the state folded so far asks for, and
/// its view is the card itself.
pub proof fn cards_keep_their_view(card: Option<Activity>)
    ensures
        card_view(card) is Some <==> card is Some,
        card matches Some(a) ==> card_view(card) == Some(a@),
{
}

/// Every report of the player's clock is taken over, whatever the event is.
pub proof fn the_clock_follows_every_event(st: State, ev: PlaybackEvent)
    ensures
        state_after(st, ev).snapshot == ev.snapshot,
{
}

/// An announced item replaces the one before in everything it says of itself;
/// the poster alone is kept, for the same item announced without one. No other
/// event touches the item.
pub proof fn announced_items_replace(st: State, ev: PlaybackEvent)
    ensures
        ({
            let after = state_after(st, ev).meta;
            let new = ev.metadata;
            let announced = ev.kind is MetadataChanged && new.id@.len() > 0;
            &&& !announced ==> after == st.meta
            &&& announced ==> after == (MediaMetadata { art_url: after.art_url, ..new })
            &&& announced && new.art_url@.len() > 0 ==> after.art_url == new.art_url
            &&& announced && new.id@ != st.meta.id@ ==> after.art_url == new.art_url
            &&& announced && new.id@ == st.meta.id@ && new.art_url@.len() == 0 ==> after.art_url
                == st.meta.art_url
        }),
{
}

/// A bar is armed by the start of playback alone, and stays so until another
/// item is announced.
pub proof fn bars_are_armed_by_a_start(st: State, ev: PlaybackEvent)
    ensures
        ev.kind is Started ==> state_after(st, ev).timeline_armed,
        !(ev.kind is Started) && !st.timeline_armed ==> !state_after(st, ev).timeline_armed,
        st.timeline_armed && !state_after(st, ev).timeline_armed <==> st.timeline_armed
            && ev.kind is MetadataChanged && ev.metadata.id@.len() > 0 && ev.metadata.id@
            != st.meta.id@,
{
}

/// The clock's steps, the buffer's ranges and the window's own events never
/// change a card; every other event may.
pub proof fn only_clocks_and_windows_change_no_card(kind: PlaybackEventKind)
    ensures
        !interesting(kind) <==> (kind is PositionChanged || kind is BufferedRangesChanged
            || kind is FullscreenChanged || kind is OsdDimsChanged || kind is Other),
{
}

/// An item is announced by metadata that carries an identifier.
pub proof fn announcements_need_an_identifier(ev: PlaybackEvent)
    ensures
        announces(ev) ==> interesting(ev.kind),
        announces(ev) <==> ev.kind is MetadataChanged && ev.metadata.id@.len() != 0,
{
}

/// After each failure the wait is twice as long, from five seconds up to a
/// minute.
pub proof fn waits_double_up_to_a_minute(failures: nat)
    ensures
        delay_after(0) == 5_000_000_000,
        2 * delay_after(failures) <= 60_000_000_000 ==> delay_after(failures + 1) == 2 * delay_after(
            failures,
        ),
        2 * delay_after(failures) >= 60_000_000_000 ==> delay_after(failures + 1)
            == 60_000_000_000,
        forall|delay: int|
            delay <= 30_000_000_000 ==> #[trigger] longer(delay) == delay + delay,
        forall|delay: int| delay >= 30_000_000_000 ==> #[trigger] longer(delay) == 60_000_000_000,
{
    reveal_with_fuel(delay_after, 2);
}

/// A card goes out exactly where it is wanted, there is a connection, the last
/// one went out four seconds ago or never, and Discord does not have it
/// already.
pub proof fn pushes_are_due_when_wanted(p: Presence, now: Instant)
    ensures
        p.push_due(now) <==> {
            &&& p.connected
            &&& p.pending || now.nanos >= p.next_watchdog.nanos
            &&& p.last_push matches Some(t) ==> now.nanos >= t.nanos + 4_000_000_000
        },
        p.last_sent is None ==> p.card_changed(),
        p.last_sent matches Some(None) ==> (p.card_changed() <==> state_card(p.state) is Some),
        p.last_sent matches Some(Some(a)) ==> (p.card_changed() <==> !(state_card(
            p.state,
        ) matches Some(b) && b == a@)),
        WATCHDOG == 60_000_000_000,
{
    if let Some(Some(a)) = p.last_sent {
        crate::discord::projection::made_cards_show_what_they_hold(state_input(p.state), a@);
    }
}

/// Nothing is known of a player that was never heard of: it shows no card.
pub proof fn blank_states_show_nothing(st: State)
    requires
        blank_state(st),
    ensures
        state_card(st) is None,
        st.snapshot.phase is Stopped,
        !st.timeline_armed,
        st.snapshot.position_us == 0 && st.snapshot.duration_us == 0,
{
}

/// An application's identifier is the configured text without its surrounding
/// whitespace, where that is all digits; nothing else is used.
pub proof fn identifiers_are_the_configured_digits(configured: Seq<char>)
    ensures
        ({
            let id = application_id(configured);
            let t = crate::text::trimmed(configured);
            &&& id.len() > 0 ==> id == t
            &&& id.len() > 0 <==> t.len() > 0 && forall|i: int|
                0 <= i < t.len() ==> 48 <= #[trigger] t[i] as int <= 57
        }),
{
    let t = crate::text::trimmed(configured);
    if crate::text::numeric(t) {
        assert forall|i: int| 0 <= i < t.len() implies 48 <= #[trigger] t[i] as int <= 57 by {
            assert(crate::text::ascii_digit(t[i]));
        }
    }
}

/// What the player reported last is what goes out: the card pushed after an
/// event is at the event's position, about the item as announced, and under the
/// next number.
pub proof fn events_reach_the_next_card(
    p: &mut Presence,
    ev: PlaybackEvent,
    q: &mut Presence,
    now: Instant,
    pushed: Option<(Option<Activity>, u64)>,
)
    requires
        old(p).wf(),
        Presence::clock_fits(now),
        call_ensures(Presence::on_event, (p, &ev), ()),
        *old(q) == *final(p),
        call_ensures(Presence::next_push, (q, now), pushed),
    ensures
        pushed matches Some((Some(card), nonce)) ==> {
            &&& nonce == old(p).nonce.wrapping_add(1)
            &&& card.timeline matches Some(t) ==> (ev.snapshot.position_us >= 0 ==> t.position_us
                == ev.snapshot.position_us) && t.rate == ev.snapshot.rate
            &&& ev.snapshot.phase is Paused <==> card@.small_image == "pause"@
            &&& ev.kind is MetadataChanged && ev.metadata.id@.len() > 0 && ev.metadata.kind is Music
                ==> card@.details == crate::discord::projection::clamped_text(ev.metadata.title@)
                && card@.state == crate::discord::projection::clamped_text(ev.metadata.artist@)
        },
        pushed matches Some((None, _)) ==> ev.snapshot.phase is Stopped || crate::text::trimmed(
            final(p).state.meta.title@,
        ).len() == 0,
        pushed is Some ==> old(p).connected,
{
    let st = state_after(old(p).state, ev);
    bars_start_at_the_players_position(st);
    cards_are_about_what_plays(st);
    announced_items_replace(old(p).state, ev);
    if let Some((Some(card), nonce)) = pushed {
        crate::discord::projection::paused_cards_say_where(state_input(st));
        reveal_strlit("pause");
        reveal_strlit("");
        assert(state_card(st) == Some(card@));
    }
}

/// A card that was sent is not sent again while it stays the same, however
/// often the loop asks.
pub proof fn sent_cards_are_not_sent_again(
    p: &mut Presence,
    now: Instant,
    pushed: (Option<Activity>, u64),
    q: &mut Presence,
    r: &mut Presence,
    later: Instant,
    again: Option<(Option<Activity>, u64)>,
)
    requires
        old(p).wf(),
        Presence::clock_fits(now),
        Presence::clock_fits(later),
        call_ensures(Presence::next_push, (p, now), Some(pushed)),
        *old(q) == *final(p),
        call_ensures(Presence::on_sent, (q, now, pushed.0, true), ()),
        *old(r) == *final(q),
        call_ensures(Presence::next_push, (r, later), again),
    ensures
        again is None,
        final(q).last_push == Some(now),
        final(q).last_sent == Some(pushed.0),
{
    same_card_is_not_resent(*final(q), pushed.0);
}

/// A connection that died is given up and tried again after the wait; the one
/// that comes up knows no card, and has the wait start over.
pub proof fn lost_connections_are_made_again(
    p: &mut Presence,
    now: Instant,
    connect: bool,
    q: &mut Presence,
    later: Instant,
)
    requires
        old(p).wf(),
        old(p).connected,
        Presence::clock_fits(now),
        Presence::clock_fits(later),
        call_ensures(Presence::begin_turn, (p, now, false), connect),
        *old(q) == *final(p),
        call_ensures(Presence::on_connect, (q, later, true), ()),
    ensures
        !connect,
        !final(p).connected && final(p).last_sent is None,
        final(p).backoff.next_attempt.nanos == now.nanos + old(p).backoff.delay.nanos,
        final(q).connected && final(q).pending && final(q).last_sent is None,
        final(q).backoff.delay.nanos == 5_000_000_000,
        final(q).card_changed(),
{
}

/// After a failure the next attempt comes when the wait is over, neither sooner
/// nor later, and the first comes at once.
pub proof fn attempts_come_when_the_wait_is_over(
    at: Instant,
    fresh: Backoff,
    b: &mut Backoff,
    now: Instant,
    later: Instant,
    first: bool,
    again: bool,
)
    requires
        call_ensures(Backoff::new, (at,), fresh),
        *old(b) == fresh,
        call_ensures(Backoff::due, (&fresh, now), first),
        call_ensures(Backoff::fail, (b, now), ()),
        call_ensures(Backoff::due, (&*final(b), later), again),
    ensures
        first <==> now.nanos >= at.nanos,
        again <==> later.nanos >= now.nanos + RECONNECT_MIN,
        final(b).delay.nanos == 2 * RECONNECT_MIN,
{
}

/// A reset shortens the wait after the next failure and moves no attempt.
pub proof fn resets_move_no_attempt(b: &mut Backoff, now: Instant, before: bool, after: bool)
    requires
        call_ensures(Backoff::due, (&*old(b), now), before),
        call_ensures(Backoff::reset, (b,), ()),
        call_ensures(Backoff::due, (&*final(b), now), after),
    ensures
        before == after,
        final(b).delay.nanos == RECONNECT_MIN,
{
}

/// The last message is numbered right after the card that went before it, and
/// goes out only where there is a connection.
pub proof fn farewells_are_numbered_last(
    p: &mut Presence,
    now: Instant,
    pushed: (Option<Activity>, u64),
    r: Option<u64>,
    idle: Presence,
    unheard: Option<u64>,
)
    requires
        call_ensures(Presence::next_push, (p, now), Some(pushed)),
        call_ensures(Presence::farewell, (&*final(p),), r),
        !idle.connected,
        call_ensures(Presence::farewell, (&idle,), unheard),
    ensures
        final(p).connected ==> r == Some(pushed.1.wrapping_add(1)),
        !final(p).connected ==> r is None,
        unheard is None,
{
}

/// The presence is started where it is wanted, has an identifier and does not
/// run yet, with that identifier.
pub proof fn one_presence_runs(enabled: bool, configured: &str, running: bool, r: Option<String>)
    requires
        call_ensures(start, (enabled, configured, running), r),
    ensures
        !enabled ==> r is None,
        running ==> r is None,
        r matches Some(id) ==> id@.len() > 0 && id@ == application_id(configured@),
        enabled && !running && application_id(configured@).len() > 0 ==> r is Some,
{
}

/// The card that is shown of a state is at the player's position and as long as
/// the item, and names its title and, unless it is an episode or a movie, its
/// artist.
pub proof fn shown_cards_follow_the_state(st: State, r: Option<Activity>)
    requires
        call_ensures(project_state, (&st,), r),
        !(st.meta.kind is Episode) && !(st.meta.kind is Movie),
    ensures
        r matches Some(a) ==> {
            &&& a.details@ == crate::discord::projection::clamped_text(st.meta.title@)
            &&& a.state@ == crate::discord::projection::clamped_text(st.meta.artist@)
            &&& a.timeline matches Some(t) ==> (st.snapshot.position_us >= 0 ==> t.position_us
                == st.snapshot.position_us) && (st.meta.duration_us > 0 ==> t.duration_us
                == st.meta.duration_us)
        },
{
    bars_start_at_the_players_position(st);
    cards_are_as_long_as_the_item(st);
    crate::discord::projection::songs_name_their_artist(state_input(st));
}

} // verus!
