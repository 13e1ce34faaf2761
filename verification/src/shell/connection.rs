//! Getting to a server: the address form, the probe, the first document and
//! the fade that reveals it.

use vstd::prelude::*;

use crate::text::trim;
use crate::time::{Duration, Instant};
use crate::web::navigation::{Navigation, NavigationPresented};

verus! {

/// Nanoseconds that the spinner shows at least before a failed probe ends it.
pub const SPINNER_FLOOR: u64 = 1_000_000_000;

/// Nanoseconds that the connect screen takes to fade.
pub const FADE: u64 = 500_000_000;

/// What the web overlay is asked to do.
#[derive(Debug)]
pub enum Request {
    CancelProbe,
    Probe { cycle: u64, url: String },
    Navigate { navigation: Navigation, url: String },
    Abandon { navigation: Navigation },
}

/// What the connect screen shows.
#[derive(Debug)]
pub enum Screen {
    Form { url: String },
    Working { since: Instant },
    Failed,
    Retiring { fade_from: Instant },
    Gone,
}

impl Clone for Request {
    fn clone(&self) -> (r: Self)
        ensures
            r == *self,
    {
        match self {
            Request::CancelProbe => Request::CancelProbe,
            Request::Probe { cycle, url } => Request::Probe { cycle: *cycle, url: url.clone() },
            Request::Navigate { navigation, url } => Request::Navigate {
                navigation: *navigation,
                url: url.clone(),
            },
            Request::Abandon { navigation } => Request::Abandon { navigation: *navigation },
        }
    }
}

impl Clone for Screen {
    fn clone(&self) -> (r: Self)
        ensures
            r == *self,
    {
        match self {
            Screen::Form { url } => Screen::Form { url: url.clone() },
            Screen::Working { since } => Screen::Working { since: *since },
            Screen::Failed => Screen::Failed,
            Screen::Retiring { fade_from } => Screen::Retiring { fade_from: *fade_from },
            Screen::Gone => Screen::Gone,
        }
    }
}

#[derive(Debug)]
pub enum Phase {
    Editing { url: String },
    Probing { url: String, cycle: u64, since: Instant, unresolved: bool },
    Loading { base: String, navigation: Navigation, since: Instant },
    Failed { url: String },
    Retiring { navigation: Navigation, fade_from: Instant },
    Connected { navigation: Navigation },
}

impl Phase {
    /// The document that this phase keeps alive.
    pub open spec fn document(self) -> Option<Navigation> {
        match self {
            Phase::Loading { navigation, .. } => Some(navigation),
            Phase::Retiring { navigation, .. } => Some(navigation),
            Phase::Connected { navigation } => Some(navigation),
            _ => None,
        }
    }

    /// The probe that this phase waits for.
    pub open spec fn probe(self) -> Option<u64> {
        match self {
            Phase::Probing { cycle, .. } => Some(cycle),
            _ => None,
        }
    }

    pub fn navigation(&self) -> (r: Option<Navigation>)
        ensures
            r == self.document(),
    {
        match self {
            Phase::Loading { navigation, .. } => Some(*navigation),
            Phase::Retiring { navigation, .. } => Some(*navigation),
            Phase::Connected { navigation } => Some(*navigation),
            Phase::Editing { .. } | Phase::Probing { .. } | Phase::Failed { .. } => None,
        }
    }
}

#[derive(Debug)]
pub struct Connection {
    pub phase: Phase,
    pub cycles: u64,
    pub navigations: u64,
    pub requests: Vec<Request>,
    pub attached: bool,
}

/// The requests that leaving `phase` for `next` gives rise to: a running probe
/// is called off, and a document that `next` does not keep is abandoned.
pub open spec fn parting_requests(phase: Phase, next: Phase) -> Seq<Request> {
    (if phase is Probing {
        seq![Request::CancelProbe]
    } else {
        seq![]
    }) + (match phase.document() {
        Some(navigation) => if next.document() != Some(navigation) {
            seq![Request::Abandon { navigation }]
        } else {
            seq![]
        },
        None => seq![],
    })
}

/// `new` is `old` moved to `next`: late answers to a probe that was running can
/// no longer match, and the overlay is told what to let go of.
pub open spec fn entered(old: Connection, new: Connection, next: Phase) -> bool {
    &&& new.phase == next
    &&& new.cycles == old.cycles + (if old.phase is Probing {
        1int
    } else {
        0int
    })
    &&& new.navigations == old.navigations
    &&& new.requests@ == old.requests@ + parting_requests(old.phase, next)
    &&& new.attached == old.attached
}

/// `new` and `old` are the same in every part.
pub open spec fn unchanged(old: Connection, new: Connection) -> bool {
    &&& new.phase == old.phase
    &&& new.cycles == old.cycles
    &&& new.navigations == old.navigations
    &&& new.requests@ == old.requests@
    &&& new.attached == old.attached
}

/// The address that a fresh attempt uses: the one on the form or behind the
/// attempt that is under way, else the configured one.
pub open spec fn attempt_url(phase: Phase, configured: Seq<char>) -> Seq<char> {
    match phase {
        Phase::Editing { url } => url@,
        Phase::Probing { url, .. } => url@,
        Phase::Loading { base, .. } => base@,
        Phase::Failed { url } => url@,
        _ => configured,
    }
}

/// `new` is `old` after a fresh attempt.
pub open spec fn attempted(
    old: Connection,
    new: Connection,
    now: Instant,
    configured: Seq<char>,
) -> bool {
    let url = attempt_url(old.phase, configured);
    if crate::text::trimmed(url).len() == 0 {
        &&& new.phase matches Phase::Editing { url: u } && u@ == url
        &&& entered(old, new, new.phase)
    } else {
        let cycle = (old.cycles + 1) as u64;
        let running = old.phase is Probing;
        &&& new.phase matches Phase::Probing { url: u, cycle: c, since, unresolved }
        &&& u@ == url && c == cycle && since == now && !unresolved
        &&& new.cycles == old.cycles + (if running {
            2int
        } else {
            1int
        })
        &&& new.navigations == old.navigations
        &&& new.attached == old.attached
        &&& new.requests@.len() == old.requests@.len() + parting_requests(
            old.phase,
            new.phase,
        ).len() + 1
        &&& new.requests@.drop_last() == old.requests@ + parting_requests(old.phase, new.phase)
        &&& new.requests@.last() matches Request::Probe { cycle: pc, url: pu }
        &&& pc == cycle && pu@ == url
    }
}

/// A running probe can be called off: its number can be counted past.
pub open spec fn leaving_fits(c: Connection) -> bool {
    c.phase is Probing ==> c.cycles < u64::MAX
}

/// A fresh attempt can be counted, past the probe that it replaces.
pub open spec fn attempt_fits(c: Connection, configured: Seq<char>) -> bool {
    &&& leaving_fits(c)
    &&& crate::text::trimmed(attempt_url(c.phase, configured)).len() > 0 ==> c.cycles + (
    if c.phase is Probing {
        2int
    } else {
        1int
    }) <= u64::MAX
}

/// The answer of the probe can be counted, where it is the live one.
pub open spec fn resolution_fits(c: Connection, cycle: u64) -> bool {
    c.phase.probe() == Some(cycle) ==> c.cycles < u64::MAX && c.navigations < u64::MAX
}

/// The failure of the probe can be counted, where it is the live one and shows
/// at once.
pub open spec fn failure_fits(c: Connection, cycle: u64, now: Instant) -> bool {
    c.phase matches Phase::Probing { cycle: live, since, .. } ==> (live == cycle && now.since(since)
        >= SPINNER_FLOOR ==> c.cycles < u64::MAX)
}

/// The failure that was held back can be counted, where it shows now.
pub open spec fn tick_fits(c: Connection, now: Instant) -> bool {
    c.phase matches Phase::Probing { since, unresolved, .. } ==> (unresolved && now.since(since)
        >= SPINNER_FLOOR ==> c.cycles < u64::MAX)
}

/// A connection that has just been made: it probes `url`, and the probe waits
/// to be delivered. A blank address is left to be edited.
pub open spec fn fresh_connection(c: Connection, url: Seq<char>, now: Instant) -> bool {
    &&& c.wf()
    &&& !c.attached
    &&& c.navigations == 0
    &&& if crate::text::trimmed(url).len() == 0 {
        &&& c.cycles == 0
        &&& c.phase matches Phase::Editing { url: u } && u@ == url
        &&& c.requests@.len() == 0
    } else {
        &&& c.cycles == 1
        &&& c.phase matches Phase::Probing { url: u, cycle, since, unresolved } && u@ == url
            && cycle == 1 && since == now && !unresolved
        &&& c.requests@.len() == 1
        &&& c.requests@[0] matches Request::Probe { cycle, url: u } && cycle == 1 && u@ == url
    }
}

impl Connection {
    /// No probe and no document in use carries a number that has not been
    /// given out.
    pub open spec fn wf(self) -> bool {
        &&& self.phase.probe() matches Some(cycle) ==> cycle <= self.cycles
        &&& self.phase.document() matches Some(n) ==> n.id <= self.navigations
    }

    pub fn new(url: String, now: Instant, configured: &str) -> (r: Self)
        ensures
            fresh_connection(r, url@, now),
    {
        let mut connection = Connection {
            phase: Phase::Editing { url },
            cycles: 0,
            navigations: 0,
            requests: Vec::new(),
            attached: false,
        };
        connection.connect(now, configured);
        connection
    }

    /// The overlay is there: requests can be delivered from now on.
    pub fn attach(&mut self)
        ensures
            final(self).attached,
            final(self).phase == old(self).phase,
            final(self).cycles == old(self).cycles,
            final(self).navigations == old(self).navigations,
            final(self).requests@ == old(self).requests@,
    {
        self.attached = true;
    }

    /// The requests to deliver now, oldest first. Without an overlay they stay
    /// where they are.
    pub fn flush_requests(&mut self) -> (out: Vec<Request>)
        ensures
            flushed(*old(self), *final(self), out@),
    {
        let mut out: Vec<Request> = Vec::new();
        if self.attached {
            out.append(&mut self.requests);
            assert(out@ =~= old(self).requests@);
        }
        out
    }

    /// A request could not be delivered: the attempt that it served has failed.
    pub fn delivery_failed(&mut self, request: &Request, now: Instant)
        requires
            *request matches Request::Probe { cycle, .. } ==> failure_fits(*old(self), cycle, now),
        ensures
            old(self).wf() ==> final(self).wf(),
            delivery_failure(*old(self), *final(self), *request, now),
    {
        match request {
            Request::Probe { cycle, .. } => self.probe_failed(*cycle, now),
            Request::Navigate { navigation, .. } => self.navigation_failed(*navigation),
            Request::Abandon { .. } | Request::CancelProbe => {},
        }
    }

    /// A request was handed to the overlay. Where it did not take it, what the
    /// request asked for has failed, the requests behind it are not handed
    /// over, and the client shuts down.
    pub fn deliver(&mut self, request: &Request, delivered: bool, now: Instant) -> (r: DeliveryStep)
        requires
            !delivered ==> (*request matches Request::Probe { cycle, .. } ==> failure_fits(
                *old(self),
                cycle,
                now,
            )),
        ensures
            old(self).wf() ==> final(self).wf(),
            delivered ==> r == DeliveryStep::Continue && *final(self) == *old(self),
            !delivered ==> r == DeliveryStep::ShutDown && delivery_failure(
                *old(self),
                *final(self),
                *request,
                now,
            ),
    {
        if delivered {
            return DeliveryStep::Continue;
        }
        self.delivery_failed(request, now);
        DeliveryStep::ShutDown
    }

    fn enter(&mut self, next: Phase)
        requires
            old(self).phase is Probing ==> old(self).cycles < u64::MAX,
        ensures
            entered(*old(self), *final(self), next),
    {
        match &self.phase {
            Phase::Probing { .. } => {
                self.cycles = self.cycles + 1;
                self.requests.push(Request::CancelProbe);
            },
            _ => {},
        }
        match self.phase.navigation() {
            Some(navigation) => {
                let kept = match next.navigation() {
                    Some(other) => other == navigation,
                    None => false,
                };
                if !kept {
                    self.requests.push(Request::Abandon { navigation });
                }
            },
            None => {},
        }
        self.phase = next;
        assert(self.requests@ =~= old(self).requests@ + parting_requests(old(self).phase, next));
    }

    /// A fresh attempt to connect.
    pub fn connect(&mut self, now: Instant, configured: &str)
        requires
            attempt_fits(*old(self), configured@),
        ensures
            old(self).wf() ==> final(self).wf(),
            attempted(*old(self), *final(self), now, configured@),
    {
        let url: String = match &self.phase {
            Phase::Editing { url } => url.clone(),
            Phase::Probing { url, .. } => url.clone(),
            Phase::Loading { base, .. } => base.clone(),
            Phase::Failed { url } => url.clone(),
            Phase::Retiring { .. } | Phase::Connected { .. } => configured.to_owned(),
        };
        if trim(url.as_str()).as_str().is_empty() {
            self.enter(Phase::Editing { url });
            return;
        }
        self.cycles = self.cycles + 1;
        let cycle: u64 = self.cycles;
        self.enter(Phase::Probing { url: url.clone(), cycle, since: now, unresolved: false });
        self.requests.push(Request::Probe { cycle, url });
        assert(self.requests@.drop_last() =~= old(self).requests@ + parting_requests(
            old(self).phase,
            self.phase,
        ));
    }

    fn navigate(&mut self, base: String, now: Instant)
        requires
            leaving_fits(*old(self)),
            old(self).navigations < u64::MAX,
        ensures
            navigated(*old(self), *final(self), base@, now),
    {
        self.navigations = self.navigations + 1;
        let navigation = Navigation::new(self.navigations);
        let since = match &self.phase {
            Phase::Probing { since, .. } => *since,
            _ => now,
        };
        self.enter(Phase::Loading { base: base.clone(), navigation, since });
        self.requests.push(Request::Navigate { navigation, url: base });
        assert(self.requests@.drop_last() =~= old(self).requests@ + parting_requests(
            old(self).phase,
            self.phase,
        ));
    }

    /// The user typed an address. Ignored while a probe runs or a failure shows.
    pub fn edit_url(&mut self, url: String)
        ensures
            old(self).wf() ==> final(self).wf(),
            old(self).phase is Probing || old(self).phase is Failed ==> unchanged(
                *old(self),
                *final(self),
            ),
            !(old(self).phase is Probing || old(self).phase is Failed) ==> entered(
                *old(self),
                *final(self),
                Phase::Editing { url },
            ),
    {
        let editing = match &self.phase {
            Phase::Editing { .. }
            | Phase::Loading { .. }
            | Phase::Retiring { .. }
            | Phase::Connected { .. } => true,
            Phase::Probing { .. } | Phase::Failed { .. } => false,
        };
        if editing {
            self.enter(Phase::Editing { url });
        }
    }

    /// The user gave up on the attempt that is under way: back to the form.
    pub fn cancel(&mut self)
        requires
            leaving_fits(*old(self)),
        ensures
            old(self).wf() ==> final(self).wf(),
            match old(self).phase {
                Phase::Probing { url, .. } => entered(
                    *old(self),
                    *final(self),
                    Phase::Editing { url },
                ),
                Phase::Loading { base, .. } => entered(
                    *old(self),
                    *final(self),
                    Phase::Editing { url: base },
                ),
                _ => unchanged(*old(self), *final(self)),
            },
    {
        let url: Option<String> = match &self.phase {
            Phase::Probing { url, .. } => Some(url.clone()),
            Phase::Loading { base, .. } => Some(base.clone()),
            Phase::Editing { .. }
            | Phase::Failed { .. }
            | Phase::Retiring { .. }
            | Phase::Connected { .. } => None,
        };
        match url {
            Some(url) => self.enter(Phase::Editing { url }),
            None => {},
        }
    }

    /// The user acknowledged the failure: back to the form, address kept.
    pub fn dismiss_failure(&mut self)
        ensures
            old(self).wf() ==> final(self).wf(),
            match old(self).phase {
                Phase::Failed { url } => entered(
                    *old(self),
                    *final(self),
                    Phase::Editing { url },
                ),
                _ => unchanged(*old(self), *final(self)),
            },
    {
        let url: Option<String> = match &self.phase {
            Phase::Failed { url } => Some(url.clone()),
            _ => None,
        };
        match url {
            Some(url) => self.enter(Phase::Editing { url }),
            None => {},
        }
    }

    /// A probe found a server. `true` where it was the live probe: its base
    /// address is then to be saved, and the first document is on its way.
    pub fn probe_resolved(&mut self, cycle: u64, base: String, now: Instant) -> (r: bool)
        requires
            resolution_fits(*old(self), cycle),
        ensures
            old(self).wf() ==> final(self).wf(),
            r == (old(self).phase.probe() == Some(cycle)),
            r ==> navigated(*old(self), *final(self), base@, now),
            !r ==> unchanged(*old(self), *final(self)),
    {
        let live = match &self.phase {
            Phase::Probing { cycle: live, .. } => *live == cycle,
            _ => false,
        };
        if live {
            self.navigate(base, now);
        }
        live
    }

    /// A probe found nothing.
    pub fn probe_failed(&mut self, cycle: u64, now: Instant)
        requires
            failure_fits(*old(self), cycle, now),
        ensures
            old(self).wf() ==> final(self).wf(),
            probe_failure(*old(self), *final(self), cycle, now),
    {
        let failed: Option<(String, u64, Instant)> = match &self.phase {
            Phase::Probing { url, cycle: live, since, .. } => {
                if *live == cycle {
                    Some((url.clone(), *live, *since))
                } else {
                    None
                }
            },
            _ => None,
        };
        match failed {
            Some((url, live, since)) => {
                if now.duration_since(since).nanos < SPINNER_FLOOR {
                    self.phase = Phase::Probing { url, cycle: live, since, unresolved: true };
                } else {
                    self.enter(Phase::Failed { url });
                }
            },
            None => {},
        }
    }

    /// A document could not be loaded.
    pub fn navigation_failed(&mut self, navigation: Navigation)
        ensures
            old(self).wf() ==> final(self).wf(),
            navigation_failure(*old(self), *final(self), navigation),
    {
        let url: Option<String> = match &self.phase {
            Phase::Loading { base, navigation: live, .. } => {
                if *live == navigation {
                    Some(base.clone())
                } else {
                    None
                }
            },
            _ => None,
        };
        match url {
            Some(url) => self.enter(Phase::Failed { url }),
            None => {},
        }
    }

    /// A document reached the screen. `true` where it was the one being loaded:
    /// the connect screen starts to fade.
    pub fn frame_presented(&mut self, presented: NavigationPresented, now: Instant) -> (r: bool)
        ensures
            old(self).wf() ==> final(self).wf(),
            r == loads(*old(self), presented.of()),
            r ==> entered(
                *old(self),
                *final(self),
                Phase::Retiring { navigation: presented.of(), fade_from: now },
            ),
            !r ==> unchanged(*old(self), *final(self)),
    {
        self.finish_navigation(presented.navigation(), now)
    }

    pub fn finish_navigation(&mut self, navigation: Navigation, now: Instant) -> (r: bool)
        ensures
            old(self).wf() ==> final(self).wf(),
            r == loads(*old(self), navigation),
            r ==> entered(
                *old(self),
                *final(self),
                Phase::Retiring { navigation, fade_from: now },
            ),
            !r ==> unchanged(*old(self), *final(self)),
    {
        let live = match &self.phase {
            Phase::Loading { navigation: live, .. } => *live == navigation,
            _ => false,
        };
        if live {
            self.enter(Phase::Retiring { navigation, fade_from: now });
        }
        live
    }

    /// Time passed: a failure held back by the spinner shows, a finished fade
    /// ends.
    pub fn tick(&mut self, now: Instant)
        requires
            tick_fits(*old(self), now),
        ensures
            old(self).wf() ==> final(self).wf(),
            ticked(*old(self), *final(self), now),
    {
        let next: Option<Phase> = match &self.phase {
            Phase::Probing { url, since, unresolved, .. } => {
                if *unresolved && now.duration_since(*since).nanos >= SPINNER_FLOOR {
                    Some(Phase::Failed { url: url.clone() })
                } else {
                    None
                }
            },
            Phase::Retiring { navigation, fade_from } => {
                if now.duration_since(*fade_from).nanos >= FADE {
                    Some(Phase::Connected { navigation: *navigation })
                } else {
                    None
                }
            },
            _ => None,
        };
        match next {
            Some(next) => self.enter(next),
            None => {},
        }
    }

    pub fn screen(&self) -> (r: Screen)
        ensures
            r == phase_screen(self.phase),
    {
        match &self.phase {
            Phase::Editing { url } => Screen::Form { url: url.clone() },
            Phase::Probing { since, .. } => Screen::Working { since: *since },
            Phase::Loading { since, .. } => Screen::Working { since: *since },
            Phase::Failed { .. } => Screen::Failed,
            Phase::Retiring { fade_from, .. } => Screen::Retiring { fade_from: *fade_from },
            Phase::Connected { .. } => Screen::Gone,
        }
    }

    /// When `tick` next has something to do.
    pub fn deadline(&self) -> (r: Option<Instant>)
        requires
            due_fits(self.phase),
        ensures
            r == due(self.phase),
    {
        match &self.phase {
            Phase::Probing { since, unresolved, .. } => {
                if *unresolved {
                    Some(since.after(Duration { nanos: SPINNER_FLOOR }))
                } else {
                    None
                }
            },
            Phase::Retiring { fade_from, .. } => Some(
                fade_from.after(Duration { nanos: FADE }),
            ),
            _ => None,
        }
    }
}

/// `new` is `old` after time has passed up to `now`: a failure held back by the
/// spinner shows from the spinner's first second on, and a fade ends once it
/// has run its course.
pub open spec fn ticked(old: Connection, new: Connection, now: Instant) -> bool {
    match old.phase {
        Phase::Probing { url, since, unresolved, .. } => if unresolved && now.since(since)
            >= SPINNER_FLOOR {
            entered(old, new, Phase::Failed { url })
        } else {
            unchanged(old, new)
        },
        Phase::Retiring { navigation, fade_from } => if now.since(fade_from) >= FADE {
            entered(old, new, Phase::Connected { navigation })
        } else {
            unchanged(old, new)
        },
        _ => unchanged(old, new),
    }
}

/// `new` is `old` with `out` taken for delivery: everything that was waiting,
/// or nothing while there is no overlay.
pub open spec fn flushed(old: Connection, new: Connection, out: Seq<Request>) -> bool {
    &&& new.phase == old.phase
    &&& new.cycles == old.cycles
    &&& new.navigations == old.navigations
    &&& new.attached == old.attached
    &&& old.attached ==> out == old.requests@ && new.requests@.len() == 0
    &&& !old.attached ==> out.len() == 0 && new.requests@ == old.requests@
}

/// What the connect screen shows in each phase.
pub open spec fn phase_screen(phase: Phase) -> Screen {
    match phase {
        Phase::Editing { url } => Screen::Form { url },
        Phase::Probing { since, .. } => Screen::Working { since },
        Phase::Loading { since, .. } => Screen::Working { since },
        Phase::Failed { .. } => Screen::Failed,
        Phase::Retiring { fade_from, .. } => Screen::Retiring { fade_from },
        Phase::Connected { .. } => Screen::Gone,
    }
}

/// The instant at which `phase` ends by itself.
pub open spec fn due(phase: Phase) -> Option<Instant> {
    match phase {
        Phase::Probing { since, unresolved, .. } => if unresolved {
            Some(Instant { nanos: (since.nanos + SPINNER_FLOOR) as u64 })
        } else {
            None
        },
        Phase::Retiring { fade_from, .. } => Some(
            Instant { nanos: (fade_from.nanos + FADE) as u64 },
        ),
        _ => None,
    }
}

/// The clock reaches the end of `phase`.
pub open spec fn due_fits(phase: Phase) -> bool {
    match phase {
        Phase::Probing { since, unresolved, .. } => unresolved ==> since.nanos + SPINNER_FLOOR
            <= u64::MAX,
        Phase::Retiring { fade_from, .. } => fade_from.nanos + FADE <= u64::MAX,
        _ => true,
    }
}

/// `navigation` is the document being loaded.
pub open spec fn loads(c: Connection, navigation: Navigation) -> bool {
    c.phase matches Phase::Loading { navigation: live, .. } && live == navigation
}

/// `new` is `old` with a fresh document on its way from `base`.
pub open spec fn navigated(old: Connection, new: Connection, base: Seq<char>, now: Instant) -> bool {
    let navigation = Navigation { id: (old.navigations + 1) as u64 };
    let started = match old.phase {
        Phase::Probing { since, .. } => since,
        _ => now,
    };
    &&& new.phase matches Phase::Loading { base: b, navigation: n, since }
    &&& b@ == base && n == navigation && since == started
    &&& new.cycles == old.cycles + (if old.phase is Probing {
        1int
    } else {
        0int
    })
    &&& new.navigations == old.navigations + 1
    &&& new.attached == old.attached
    &&& new.requests@.len() == old.requests@.len() + parting_requests(old.phase, new.phase).len()
        + 1
    &&& new.requests@.drop_last() == old.requests@ + parting_requests(old.phase, new.phase)
    &&& new.requests@.last() matches Request::Navigate { navigation: rn, url }
    &&& rn == navigation && url@ == base
}

/// A failed probe counts only where it is the live one: within the spinner's
/// first second it is held back, later it shows at once.
pub open spec fn probe_failure(old: Connection, new: Connection, cycle: u64, now: Instant) -> bool {
    match old.phase {
        Phase::Probing { url, cycle: live, since, unresolved } => if live != cycle {
            unchanged(old, new)
        } else if now.since(since) < SPINNER_FLOOR {
            &&& new.phase == (Phase::Probing { url, cycle: live, since, unresolved: true })
            &&& new.cycles == old.cycles
            &&& new.navigations == old.navigations
            &&& new.requests@ == old.requests@
            &&& new.attached == old.attached
        } else {
            entered(old, new, Phase::Failed { url })
        },
        _ => unchanged(old, new),
    }
}

pub open spec fn navigation_failure(
    old: Connection,
    new: Connection,
    navigation: Navigation,
) -> bool {
    match old.phase {
        Phase::Loading { base, navigation: live, .. } => if live == navigation {
            entered(old, new, Phase::Failed { url: base })
        } else {
            unchanged(old, new)
        },
        _ => unchanged(old, new),
    }
}

/// What a request that nobody took asked for has failed.
pub open spec fn delivery_failure(
    old: Connection,
    new: Connection,
    request: Request,
    now: Instant,
) -> bool {
    match request {
        Request::Probe { cycle, .. } => probe_failure(old, new, cycle, now),
        Request::Navigate { navigation, .. } => navigation_failure(old, new, navigation),
        _ => unchanged(old, new),
    }
}

/// What follows the delivery of a request.
#[derive(Clone, Copy, Debug, PartialEq, Eq, Structural)]
pub enum DeliveryStep {
    /// Hand over the next one.
    Continue,
    /// Hand over no more, and shut the client down.
    ShutDown,
}

/// What the overlay holds after it has carried out one request: the documents
/// it has loaded and not dropped, and the probe it runs.
pub struct OverlayState {
    pub documents: Set<Navigation>,
    pub probe: Option<u64>,
}

pub open spec fn after_request(s: OverlayState, request: Request) -> OverlayState {
    match request {
        Request::CancelProbe => OverlayState { probe: None, ..s },
        Request::Probe { cycle, .. } => OverlayState { probe: Some(cycle), ..s },
        Request::Navigate { navigation, .. } => OverlayState {
            documents: s.documents.insert(navigation),
            ..s
        },
        Request::Abandon { navigation } => OverlayState {
            documents: s.documents.remove(navigation),
            ..s
        },
    }
}

pub open spec fn after_requests(s: OverlayState, requests: Seq<Request>) -> OverlayState
    decreases requests.len(),
{
    if requests.len() == 0 {
        s
    } else {
        after_request(after_requests(s, requests.drop_last()), requests.last())
    }
}

/// The overlay runs the probe that `phase` waits for, and holds the document
/// that it keeps alive, and no others.
pub open spec fn overlay_in_step(s: OverlayState, phase: Phase) -> bool {
    &&& s.probe == phase.probe()
    &&& s.documents == (match phase.document() {
        Some(n) => set![n],
        None => set![],
    })
}

proof fn lemma_after_parting(s: OverlayState, phase: Phase, next: Phase)
    requires
        overlay_in_step(s, phase),
    ensures
        ({
            let t = after_requests(s, parting_requests(phase, next));
            &&& t.probe is None
            &&& t.documents == (match phase.document() {
                Some(n) => if next.document() == Some(n) {
                    set![n]
                } else {
                    set![]
                },
                None => set![],
            })
        }),
{
    reveal_with_fuel(after_requests, 3);
    let p = parting_requests(phase, next);
    if p.len() == 1 {
        assert(p.drop_last() =~= seq![]);
        match phase.document() {
            Some(n) => {
                assert(set![n].remove(n) =~= set![]);
            },
            None => {},
        }
    }
}

/// Moving between phases keeps the overlay in step: whatever probe or document
/// the new phase does not use has been called off or abandoned.
pub proof fn entering_keeps_the_overlay_in_step(
    old: Connection,
    new: Connection,
    next: Phase,
    s: OverlayState,
)
    requires
        entered(old, new, next),
        overlay_in_step(s, old.phase),
        next.probe() is None,
        next.document() matches Some(n) ==> old.phase.document() == Some(n),
    ensures
        overlay_in_step(after_requests(s, parting_requests(old.phase, next)), new.phase),
{
    lemma_after_parting(s, old.phase, next);
}

/// A fresh attempt keeps the overlay in step: at most one probe runs, the one
/// that is waited for.
pub proof fn connecting_keeps_the_overlay_in_step(
    old: Connection,
    new: Connection,
    now: Instant,
    configured: Seq<char>,
    s: OverlayState,
)
    requires
        attempted(old, new, now, configured),
        overlay_in_step(s, old.phase),
    ensures
        overlay_in_step(
            after_requests(s, new.requests@.skip(old.requests@.len() as int)),
            new.phase,
        ),
{
    let p = parting_requests(old.phase, new.phase);
    let added = new.requests@.skip(old.requests@.len() as int);
    lemma_after_parting(s, old.phase, new.phase);
    if new.phase is Probing {
        assert(added.drop_last() =~= new.requests@.drop_last().skip(old.requests@.len() as int));
        assert((old.requests@ + p).skip(old.requests@.len() as int) =~= p);
        assert(added.last() == new.requests@.last());
        assert(after_requests(s, added) == after_request(after_requests(s, p), added.last()));
    } else {
        assert(added =~= p);
    }
}

/// Loading a document keeps the overlay in step: the probe is over and the new
/// document is the only one.
pub proof fn navigating_keeps_the_overlay_in_step(
    old: Connection,
    new: Connection,
    base: Seq<char>,
    now: Instant,
    s: OverlayState,
)
    requires
        navigated(old, new, base, now),
        old.wf(),
        overlay_in_step(s, old.phase),
        old.navigations < u64::MAX,
    ensures
        overlay_in_step(
            after_requests(s, new.requests@.skip(old.requests@.len() as int)),
            new.phase,
        ),
{
    let p = parting_requests(old.phase, new.phase);
    let added = new.requests@.skip(old.requests@.len() as int);
    lemma_after_parting(s, old.phase, new.phase);
    assert(added.drop_last() =~= new.requests@.drop_last().skip(old.requests@.len() as int));
    assert((old.requests@ + p).skip(old.requests@.len() as int) =~= p);
    assert(added.last() == new.requests@.last());
    assert(after_requests(s, added) == after_request(after_requests(s, p), added.last()));
    let n = Navigation { id: (old.navigations + 1) as u64 };
    assert(Set::<Navigation>::empty().insert(n) =~= set![n]);
}

/// A probe that has been called off never matches again: whatever attempt
/// follows, its number is a new one.
pub proof fn stale_probes_never_match(
    before: Connection,
    left: Connection,
    next: Phase,
    again: Connection,
    now: Instant,
    configured: Seq<char>,
)
    requires
        before.wf(),
        before.phase is Probing,
        attempt_fits(left, configured),
        entered(before, left, next),
        attempted(left, again, now, configured),
    ensures
        again.phase.probe() != before.phase.probe(),
{
}

/// `tick` acts exactly from the deadline on.
pub proof fn tick_acts_from_the_deadline(c: Connection, now: Instant, at: Instant)
    requires
        due_fits(c.phase),
        due(c.phase) == Some(at),
    ensures
        now.nanos >= at.nanos <==> (match c.phase {
            Phase::Probing { since, .. } => now.since(since) >= SPINNER_FLOOR,
            Phase::Retiring { fade_from, .. } => now.since(fade_from) >= FADE,
            _ => false,
        }),
{
}

/// A fresh attempt goes to the address in use: the one on the form, the one
/// being probed, loaded or failed, and the configured one where a server is
/// already shown. It asks for one probe of that address, under a number not
/// used before; a blank address is left to be edited instead.
pub proof fn attempts_probe_the_address_in_use(
    old: Connection,
    new: Connection,
    now: Instant,
    configured: Seq<char>,
)
    requires
        attempted(old, new, now, configured),
        old.cycles < u64::MAX - 1,
    ensures
        ({
            let url = match old.phase {
                Phase::Editing { url } => url@,
                Phase::Probing { url, .. } => url@,
                Phase::Failed { url } => url@,
                Phase::Loading { base, .. } => base@,
                Phase::Retiring { .. } | Phase::Connected { .. } => configured,
            };
            let blank = crate::text::trimmed(url).len() == 0;
            &&& blank ==> (new.phase matches Phase::Editing { url: u } && u@ == url)
            &&& !blank ==> {
                &&& new.phase matches Phase::Probing { url: u, cycle, since, unresolved } && u@
                    == url && cycle == old.cycles + 1 && since == now && !unresolved
                &&& new.requests@.len() > old.requests@.len()
                &&& new.requests@.last() matches Request::Probe { cycle, url: u } && cycle
                    == old.cycles + 1 && u@ == url
                &&& new.cycles > old.cycles
            }
            &&& new.navigations == old.navigations && new.attached == old.attached
            &&& forall|i: int|
                0 <= i < old.requests@.len() ==> #[trigger] new.requests@[i] == old.requests@[i]
            &&& new.requests@.len() == old.requests@.len() + (if old.phase is Probing {
                1int
            } else {
                0
            }) + (if old.phase is Loading || old.phase is Retiring || old.phase is Connected {
                1int
            } else {
                0
            }) + (if blank {
                0int
            } else {
                1
            })
        }),
{
    let p = parting_requests(old.phase, new.phase);
    if new.phase is Probing {
        assert forall|i: int| 0 <= i < old.requests@.len() implies #[trigger] new.requests@[i]
            == old.requests@[i] by {
            assert(new.requests@.drop_last()[i] == (old.requests@ + p)[i]);
        }
    }
}

/// Leaving a phase calls off the probe that ran in it, and gives up the
/// document that the next phase does not keep; nothing else is asked for.
pub proof fn parting_lets_go_of_what_is_left(phase: Phase, next: Phase)
    ensures
        ({
            let p = parting_requests(phase, next);
            let document = match phase {
                Phase::Loading { navigation: n, .. } => Some(n),
                Phase::Retiring { navigation: n, .. } => Some(n),
                Phase::Connected { navigation: n } => Some(n),
                _ => None,
            };
            let kept = match next {
                Phase::Loading { navigation: n, .. } => Some(n),
                Phase::Retiring { navigation: n, .. } => Some(n),
                Phase::Connected { navigation: n } => Some(n),
                _ => None,
            };
            &&& phase is Probing ==> p.len() == 1 && p[0] is CancelProbe
            &&& phase is Editing || phase is Failed ==> p.len() == 0
            &&& document matches Some(n) ==> {
                &&& kept == Some(n) ==> p.len() == 0
                &&& kept != Some(n) ==> p.len() == 1 && p[0] == (Request::Abandon { navigation: n })
            }
        }),
{
}

/// A phase knows its document while one is loaded, faded in or shown, and its
/// probe while one runs.
pub proof fn phases_know_their_document_and_probe(phase: Phase)
    ensures
        phase.document() is Some <==> phase is Loading || phase is Retiring || phase is Connected,
        phase matches Phase::Loading { navigation, .. } ==> phase.document() == Some(navigation),
        phase matches Phase::Retiring { navigation, .. } ==> phase.document() == Some(navigation),
        phase matches Phase::Connected { navigation } ==> phase.document() == Some(navigation),
        phase.probe() is Some <==> phase is Probing,
        phase matches Phase::Probing { cycle, .. } ==> phase.probe() == Some(cycle),
{
}

/// A connection that moves on is in its new phase, has counted past the probe
/// that ran, has lost none of the requests that waited, and is otherwise as it
/// was.
pub proof fn moving_on_keeps_what_waits(old: Connection, new: Connection, next: Phase)
    requires
        entered(old, new, next),
    ensures
        new.phase == next,
        new.navigations == old.navigations,
        new.attached == old.attached,
        old.phase is Probing ==> new.cycles == old.cycles + 1,
        !(old.phase is Probing) ==> new.cycles == old.cycles,
        new.requests@.take(old.requests@.len() as int) == old.requests@,
        old.phase is Probing ==> new.requests@.contains(Request::CancelProbe),
        old.phase matches Phase::Loading { navigation, .. } ==> (next.document() != Some(navigation)
            ==> new.requests@.contains(Request::Abandon { navigation })),
        old.phase matches Phase::Connected { navigation } ==> (next.document() != Some(navigation)
            ==> new.requests@.contains(Request::Abandon { navigation })),
{
    let p = parting_requests(old.phase, next);
    assert(new.requests@.take(old.requests@.len() as int) =~= old.requests@);
    if p.len() > 0 {
        assert(new.requests@[old.requests@.len() as int] == p[0]);
    }
}

/// Unchanged means the same in every part.
pub proof fn unchanged_connections_are_the_same(old: Connection, new: Connection)
    ensures
        unchanged(old, new) ==> new.phase == old.phase && new.cycles == old.cycles
            && new.navigations == old.navigations && new.attached == old.attached && new.requests@
            == old.requests@,
        old == new ==> unchanged(old, new),
{
}

/// A server that was found is loaded: from the address it was found at, as a
/// new document, under the spinner that has been turning since the probe began.
pub proof fn found_servers_are_loaded(
    old: Connection,
    new: Connection,
    base: Seq<char>,
    now: Instant,
)
    requires
        navigated(old, new, base, now),
        old.navigations < u64::MAX,
    ensures
        new.phase matches Phase::Loading { base: b, navigation, since } && b@ == base
            && navigation.id == old.navigations + 1 && (old.phase matches Phase::Probing {
            since: s,
            ..
        } ==> since == s) && (!(old.phase is Probing) ==> since == now),
        new.navigations == old.navigations + 1,
        new.attached == old.attached,
        old.phase is Probing ==> new.cycles == old.cycles + 1,
        !(old.phase is Probing) ==> new.cycles == old.cycles,
        new.requests@.len() > old.requests@.len(),
        new.requests@.last() matches Request::Navigate { navigation, url } && navigation.id
            == old.navigations + 1 && url@ == base,
        old.phase is Probing ==> new.requests@.len() == old.requests@.len() + 2 && new.requests@[
        old.requests@.len() as int] is CancelProbe,
{
    let p = parting_requests(old.phase, new.phase);
    if old.phase is Probing {
        assert(new.requests@.drop_last()[old.requests@.len() as int] == (old.requests@
            + p)[old.requests@.len() as int]);
    }
}

/// A failed probe that is not the one waited for changes nothing. The one that
/// is fails the attempt, with its address kept: at once where the spinner has
/// turned for a second, and else as soon as it has.
pub proof fn failures_wait_for_the_spinner(
    old: Connection,
    new: Connection,
    cycle: u64,
    now: Instant,
)
    requires
        probe_failure(old, new, cycle, now),
    ensures
        match old.phase {
            Phase::Probing { url, cycle: live, since, unresolved } => {
                &&& live != cycle ==> new.phase == old.phase && new.requests@ == old.requests@
                &&& live == cycle && now.nanos >= since.nanos + 1_000_000_000 ==> new.phase == (
                Phase::Failed { url }) && new.requests@ == old.requests@.push(Request::CancelProbe)
                    && new.cycles == old.cycles + 1
                &&& live == cycle && now.nanos < since.nanos + 1_000_000_000 ==> new.phase == (
                Phase::Probing { url, cycle, since, unresolved: true }) && new.requests@
                    == old.requests@ && new.cycles == old.cycles && due(new.phase) == Some(
                    Instant { nanos: (since.nanos + 1_000_000_000) as u64 },
                )
            },
            _ => new.phase == old.phase && new.requests@ == old.requests@ && new.cycles
                == old.cycles,
        },
        new.navigations == old.navigations && new.attached == old.attached,
{
    assert(old.requests@ + seq![Request::CancelProbe] + Seq::<Request>::empty()
        =~= old.requests@.push(Request::CancelProbe));
    if let Phase::Probing { url, .. } = old.phase {
        assert(parting_requests(old.phase, Phase::Failed { url }) =~= seq![Request::CancelProbe]);
        assert(old.requests@ + seq![Request::CancelProbe] =~= old.requests@.push(
            Request::CancelProbe,
        ));
    }
}

/// A document that could not be loaded fails the attempt where it is the one
/// being loaded, with its address kept, and is given up. Any other failure
/// changes nothing.
pub proof fn failed_documents_are_given_up(
    old: Connection,
    new: Connection,
    navigation: Navigation,
)
    requires
        navigation_failure(old, new, navigation),
    ensures
        match old.phase {
            Phase::Loading { base, navigation: live, .. } => {
                &&& live == navigation ==> new.phase == (Phase::Failed { url: base })
                    && new.requests@ == old.requests@.push(Request::Abandon { navigation })
                &&& live != navigation ==> new.phase == old.phase && new.requests@ == old.requests@
            },
            _ => new.phase == old.phase && new.requests@ == old.requests@,
        },
        new.cycles == old.cycles && new.navigations == old.navigations && new.attached
            == old.attached,
{
    if let Phase::Loading { base, navigation: live, .. } = old.phase {
        assert(parting_requests(old.phase, Phase::Failed { url: base }) =~= seq![
            Request::Abandon { navigation: live },
        ]);
        assert(old.requests@ + seq![Request::Abandon { navigation: live }] =~= old.requests@.push(
            Request::Abandon { navigation: live },
        ));
    }
}

/// What could not be asked for has failed: a probe that was not delivered ends
/// like a probe that found nothing, and a document like one that did not load.
/// The rest can go undelivered without harm.
pub proof fn undelivered_requests_fail(
    old: Connection,
    new: Connection,
    request: Request,
    now: Instant,
)
    requires
        delivery_failure(old, new, request, now),
    ensures
        request is CancelProbe || request is Abandon ==> unchanged(old, new),
        request matches Request::Probe { cycle, .. } ==> (old.phase matches Phase::Probing {
            url,
            cycle: live,
            since,
            ..
        } ==> (live == cycle && now.nanos >= since.nanos + 1_000_000_000 ==> new.phase == (
        Phase::Failed { url }))),
        request matches Request::Navigate { navigation, .. } ==> (
        old.phase matches Phase::Loading { base, navigation: live, .. } ==> (live == navigation
            ==> new.phase == (Phase::Failed { url: base }))),
{
}

/// Time alone ends two things: a failure that was held back shows, one second
/// into the spinner, and the connect screen is gone, half a second into its
/// fade, with the same document behind it.
pub proof fn time_ends_spinners_and_fades(old: Connection, new: Connection, now: Instant)
    requires
        ticked(old, new, now),
    ensures
        match old.phase {
            Phase::Probing { url, since, unresolved, .. } => {
                &&& unresolved && now.nanos >= since.nanos + 1_000_000_000 ==> new.phase == (
                Phase::Failed { url })
                &&& !unresolved || now.nanos < since.nanos + 1_000_000_000 ==> unchanged(old, new)
            },
            Phase::Retiring { navigation, fade_from } => {
                &&& now.nanos >= fade_from.nanos + 500_000_000 ==> new.phase == (
                Phase::Connected { navigation }) && new.requests@ == old.requests@
                &&& now.nanos < fade_from.nanos + 500_000_000 ==> unchanged(old, new)
            },
            _ => unchanged(old, new),
        },
{
    if let Phase::Retiring { navigation, .. } = old.phase {
        assert(parting_requests(old.phase, Phase::Connected { navigation }) =~= seq![]);
        assert(old.requests@ + Seq::<Request>::empty() =~= old.requests@);
    }
}

/// Requests wait for the overlay, and are then handed over all at once, in
/// order, and once.
pub proof fn requests_are_handed_over_once(old: Connection, new: Connection, out: Seq<Request>)
    requires
        flushed(old, new, out),
    ensures
        old.attached ==> out == old.requests@ && new.requests@.len() == 0,
        !old.attached ==> out.len() == 0 && new.requests@ == old.requests@,
        new.phase == old.phase && new.cycles == old.cycles && new.navigations == old.navigations
            && new.attached == old.attached,
{
}

/// The connect screen shows the form with its address, a spinner from the
/// attempt's start through the loading, the failure, the fade, and then
/// nothing.
pub proof fn screens_follow_their_phase(phase: Phase)
    ensures
        phase matches Phase::Editing { url } ==> phase_screen(phase) == (Screen::Form { url }),
        phase matches Phase::Probing { since, .. } ==> phase_screen(phase) == (Screen::Working {
            since,
        }),
        phase matches Phase::Loading { since, .. } ==> phase_screen(phase) == (Screen::Working {
            since,
        }),
        phase is Failed <==> phase_screen(phase) is Failed,
        phase matches Phase::Retiring { fade_from, .. } ==> phase_screen(phase) == (
        Screen::Retiring { fade_from }),
        phase is Connected <==> phase_screen(phase) is Gone,
{
}

/// Only a failure held back and a fade end by themselves: a second after the
/// spinner started, and half a second after the fade did.
pub proof fn only_spinners_and_fades_are_due(phase: Phase)
    requires
        due_fits(phase),
    ensures
        due(phase) is Some <==> phase is Retiring || (phase matches Phase::Probing {
            unresolved,
            ..
        } && unresolved),
        due(phase) matches Some(at) ==> (phase matches Phase::Probing { since, .. } ==> at.nanos
            == since.nanos + 1_000_000_000),
        due(phase) matches Some(at) ==> (phase matches Phase::Retiring { fade_from, .. }
            ==> at.nanos == fade_from.nanos + 500_000_000),
{
}

/// A document is being loaded in the loading phase alone, and only the one that
/// was asked for.
pub proof fn only_the_awaited_document_loads(c: Connection, navigation: Navigation)
    ensures
        loads(c, navigation) ==> c.phase is Loading && c.phase.document() == Some(navigation),
        c.phase matches Phase::Loading { navigation: n, .. } ==> loads(c, n),
        !(c.phase is Loading) ==> !loads(c, navigation),
{
}

/// A connection that has just been made asks for one probe of its address, and
/// for nothing where that is blank; nothing has been delivered or loaded yet.
pub proof fn fresh_connections_probe_their_address(c: Connection, url: Seq<char>, now: Instant)
    requires
        fresh_connection(c, url, now),
    ensures
        c.requests@.len() <= 1,
        crate::text::trimmed(url).len() > 0 ==> c.requests@.len() == 1 && (
        c.requests@[0] matches Request::Probe { cycle, url: u } && u@ == url && c.phase.probe()
            == Some(cycle)) && phase_screen(c.phase) == (Screen::Working { since: now }),
        crate::text::trimmed(url).len() == 0 ==> c.requests@.len() == 0 && (phase_screen(
            c.phase,
        ) matches Screen::Form { url: u } && u@ == url),
        c.phase matches Phase::Probing { url: u, unresolved, .. } ==> u@ == url && !unresolved,
        !c.attached && c.navigations == 0,
        c.cycles == c.requests@.len(),
        c.phase.probe() matches Some(cycle) ==> cycle == c.cycles,
{
}

/// What the overlay does with each request: a probe replaces the one before, a
/// document is added, and what is called off or given up is gone.
pub proof fn overlays_do_as_asked(s: OverlayState, cycle: u64, url: String, navigation: Navigation)
    ensures
        after_request(s, Request::CancelProbe).probe is None,
        after_request(s, Request::CancelProbe).documents == s.documents,
        after_request(s, Request::Probe { cycle, url }).probe == Some(cycle),
        after_request(s, Request::Probe { cycle, url }).documents == s.documents,
        after_request(s, Request::Navigate { navigation, url }).documents.contains(navigation),
        after_request(s, Request::Navigate { navigation, url }).probe == s.probe,
        !after_request(s, Request::Abandon { navigation }).documents.contains(navigation),
        after_request(s, Request::Abandon { navigation }).probe == s.probe,
{
}

/// What is typed is what the form shows, and what the next attempt probes.
pub proof fn typed_addresses_are_probed(
    c: &mut Connection,
    url: String,
    typed: Screen,
    d: &mut Connection,
    now: Instant,
    configured: &str,
)
    requires
        old(c).phase is Editing,
        old(c).cycles < u64::MAX - 1,
        call_ensures(Connection::edit_url, (c, url), ()),
        call_ensures(Connection::screen, (&*final(c),), typed),
        *old(d) == *final(c),
        call_ensures(Connection::connect, (d, now, configured), ()),
        crate::text::trimmed(url@).len() > 0,
    ensures
        typed == (Screen::Form { url }),
        final(d).phase matches Phase::Probing { url: u, .. } && u@ == url@,
        final(d).requests@.last() matches Request::Probe { url: u, .. } && u@ == url@,
{
    attempts_probe_the_address_in_use(*old(d), *final(d), now, configured@);
}

/// Giving an attempt up goes back to the form with the address of the attempt,
/// and so does acknowledging its failure.
pub proof fn addresses_survive_their_attempt(
    c: &mut Connection,
    d: &mut Connection,
    url: String,
)
    requires
        old(c).phase matches Phase::Probing { url: u, .. } && u == url,
        old(c).cycles < u64::MAX,
        call_ensures(Connection::cancel, (c,), ()),
        old(d).phase == (Phase::Failed { url }),
        call_ensures(Connection::dismiss_failure, (d,), ()),
    ensures
        final(c).phase == (Phase::Editing { url }),
        final(d).phase == (Phase::Editing { url }),
        final(c).requests@.contains(Request::CancelProbe),
        final(d).requests@ == old(d).requests@,
{
    moving_on_keeps_what_waits(*old(c), *final(c), Phase::Editing { url });
    assert(parting_requests(old(d).phase, Phase::Editing { url }) =~= seq![]);
    assert(old(d).requests@ + Seq::<Request>::empty() =~= old(d).requests@);
}

/// From the answer of its probe to the end of its fade a server that was found
/// comes to be shown: it is loaded, seen, faded in and left alone.
pub proof fn found_servers_come_to_be_shown(
    c: &mut Connection,
    cycle: u64,
    base: String,
    found_at: Instant,
    found: bool,
    d: &mut Connection,
    presented: NavigationPresented,
    seen_at: Instant,
    seen: bool,
    e: &mut Connection,
    later: Instant,
    screen: Screen,
)
    requires
        old(c).phase.probe() == Some(cycle),
        old(c).cycles < u64::MAX && old(c).navigations < u64::MAX,
        call_ensures(Connection::probe_resolved, (c, cycle, base, found_at), found),
        *old(d) == *final(c),
        old(d).phase.document() == Some(presented.of()),
        call_ensures(Connection::frame_presented, (d, presented, seen_at), seen),
        *old(e) == *final(d),
        later.nanos >= seen_at.nanos + 500_000_000,
        call_ensures(Connection::tick, (e, later), ()),
        call_ensures(Connection::screen, (&*final(e),), screen),
    ensures
        found && seen,
        final(c).phase matches Phase::Loading { base: b, .. } && b@ == base@,
        final(d).phase == (Phase::Retiring { navigation: presented.of(), fade_from: seen_at }),
        final(e).phase == (Phase::Connected { navigation: presented.of() }),
        screen is Gone,
{
    time_ends_spinners_and_fades(*old(e), *final(e), later);
}

/// Requests are handed to an overlay once it is there, and once: the second
/// time there is nothing left.
pub proof fn requests_wait_for_the_overlay(
    c: &mut Connection,
    early: Vec<Request>,
    d: &mut Connection,
    e: &mut Connection,
    first: Vec<Request>,
    f: &mut Connection,
    second: Vec<Request>,
)
    requires
        !old(c).attached,
        call_ensures(Connection::flush_requests, (c,), early),
        *old(d) == *final(c),
        call_ensures(Connection::attach, (d,), ()),
        *old(e) == *final(d),
        call_ensures(Connection::flush_requests, (e,), first),
        *old(f) == *final(e),
        call_ensures(Connection::flush_requests, (f,), second),
    ensures
        early@.len() == 0,
        first@ == old(c).requests@,
        second@.len() == 0,
{
}

/// A request that was handed over changes nothing; one that was not ends the
/// client.
pub proof fn undelivered_requests_end_the_client(
    c: &mut Connection,
    request: Request,
    delivered: bool,
    now: Instant,
    r: DeliveryStep,
)
    requires
        call_ensures(Connection::deliver, (c, &request, delivered, now), r),
    ensures
        delivered ==> *final(c) == *old(c),
        r is Continue <==> delivered,
        r is ShutDown <==> !delivered,
{
}

} // verus!
