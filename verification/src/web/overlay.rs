//! The one web overlay: when its browser is made and how it goes.

use vstd::prelude::*;

use crate::input::sink::ShellState;
use crate::platform::WindowSnapshot;
use crate::web::client::Client;
use crate::web::size::{view_size, ViewSize};

verus! {

#[derive(Debug)]
pub struct WebOverlay {
    pub client: Client,
    /// The surface, by the number that the platform knows it under.
    pub surface: Option<u64>,
    /// The browser has been asked for. It is asked for once.
    pub created: bool,
}

/// What a new size gives rise to.
#[derive(Clone, Copy, Debug, PartialEq, Eq, Structural)]
pub struct SyncPlan {
    pub size: ViewSize,
    /// Resize the surface and the browser.
    pub resize: bool,
    /// Make the browser, and show the surface.
    pub create: bool,
}

/// One step of taking the overlay down.
#[derive(Clone, Copy, Debug, PartialEq, Eq, Structural)]
pub enum ShutdownStep {
    HideSurface,
    /// Close the browser and wait for it.
    CloseBrowser,
    /// Take the surface off the stack and free it.
    FreeSurface(u64),
}

impl WebOverlay {
    pub fn new(surface: Option<u64>) -> (r: Self)
        ensures
            r.surface == surface,
            !r.created,
            crate::web::client::fresh_client(r.client),
    {
        WebOverlay { client: Client::new(), surface, created: false }
    }

    /// Derives the size again from the window and the shell's state. There is
    /// nothing to do until both give a size with content; the first such size
    /// makes the browser.
    pub fn sync_on_ui(&mut self, state: Option<ShellState>, snapshot: &WindowSnapshot) -> (r: Option<
        SyncPlan,
    >)
        ensures
            ({
                let size = match state {
                    Some(s) => crate::web::size::view_of(*snapshot, s.reserved_strip),
                    None => None,
                };
                match size {
                    None => r is None && *final(self) == *old(self),
                    Some(size) => {
                        &&& r == Some(
                            SyncPlan {
                                size,
                                resize: !(old(self).client.browser && old(self).client.applied
                                    == Some(size)),
                                create: !old(self).created,
                            },
                        )
                        &&& *final(self) == (WebOverlay {
                            created: true,
                            client: Client {
                                applied: if old(self).client.browser {
                                    Some(size)
                                } else {
                                    None
                                },
                                ..old(self).client
                            },
                            ..*old(self)
                        })
                    },
                }
            }),
    {
        let state = match state {
            None => return None,
            Some(s) => s,
        };
        let size = match view_size(snapshot, state.reserved_strip) {
            None => return None,
            Some(size) => size,
        };
        let resize = self.client.apply_view_size(size);
        let create = self.ensure_browser();
        Some(SyncPlan { size, resize, create })
    }

    /// Whether the browser is to be made: the first time only.
    pub fn ensure_browser(&mut self) -> (create: bool)
        ensures
            create == !old(self).created,
            *final(self) == (WebOverlay { created: true, ..*old(self) }),
    {
        if self.created {
            return false;
        }
        self.created = true;
        true
    }

    /// Whether there is a browser to close and to wait for.
    pub fn close_blocking(&self) -> (r: bool)
        ensures
            r == self.created,
    {
        self.created
    }

    /// The steps that take the overlay down.
    pub fn shutdown(&self) -> (steps: Vec<ShutdownStep>)
        ensures
            steps@ == seq![ShutdownStep::HideSurface] + (if self.created {
                seq![ShutdownStep::CloseBrowser]
            } else {
                seq![]
            }) + (match self.surface {
                Some(s) => seq![ShutdownStep::FreeSurface(s)],
                None => seq![],
            }),
    {
        let mut steps: Vec<ShutdownStep> = Vec::new();
        steps.push(ShutdownStep::HideSurface);
        if self.close_blocking() {
            steps.push(ShutdownStep::CloseBrowser);
        }
        match self.surface {
            Some(s) => steps.push(ShutdownStep::FreeSurface(s)),
            None => {},
        }
        assert(steps@ =~= seq![ShutdownStep::HideSurface] + (if self.created {
            seq![ShutdownStep::CloseBrowser]
        } else {
            seq![]
        }) + (match self.surface {
            Some(s) => seq![ShutdownStep::FreeSurface(s)],
            None => seq![],
        }));
        steps
    }
}

/// The browser is made once, by the first size with content; the same size again
/// changes nothing.
pub proof fn browsers_are_made_once(
    o: &mut WebOverlay,
    state: Option<ShellState>,
    snapshot: WindowSnapshot,
    first: Option<SyncPlan>,
    p: &mut WebOverlay,
    second: Option<SyncPlan>,
)
    requires
        !old(o).created,
        call_ensures(WebOverlay::sync_on_ui, (o, state, &snapshot), first),
        *old(p) == *final(o),
        call_ensures(WebOverlay::sync_on_ui, (p, state, &snapshot), second),
    ensures
        first matches Some(plan) ==> plan.create,
        second matches Some(plan) ==> !plan.create,
        first is Some <==> second is Some,
        first matches Some(plan) ==> second->0.size == plan.size,
        old(o).client.browser ==> (second matches Some(plan) ==> !plan.resize),
        state is None ==> first is None,
        first is None ==> !final(o).created,
{
}

/// An overlay is taken down from the outside in: hidden first, its browser
/// closed where it was made, and its surface freed last.
pub proof fn overlays_are_hidden_before_they_close(o: WebOverlay, steps: Vec<ShutdownStep>)
    requires
        call_ensures(WebOverlay::shutdown, (&o,), steps),
    ensures
        steps@.len() > 0 && steps@[0] is HideSurface,
        o.created ==> steps@.len() > 1 && steps@[1] is CloseBrowser,
        o.surface matches Some(s) ==> steps@.last() == ShutdownStep::FreeSurface(s),
        steps@.len() == 1 + (if o.created {
            1int
        } else {
            0
        }) + (if o.surface is Some {
            1int
        } else {
            0
        }),
{
}

/// The browser is made once, and closed where it was made.
pub proof fn only_made_browsers_are_closed(
    surface: Option<u64>,
    fresh: WebOverlay,
    o: &mut WebOverlay,
    p: &mut WebOverlay,
    idle: bool,
    first: bool,
    second: bool,
    waits: bool,
)
    requires
        call_ensures(WebOverlay::new, (surface,), fresh),
        *old(o) == fresh,
        call_ensures(WebOverlay::close_blocking, (&fresh,), idle),
        call_ensures(WebOverlay::ensure_browser, (o,), first),
        *old(p) == *final(o),
        call_ensures(WebOverlay::ensure_browser, (p,), second),
        call_ensures(WebOverlay::close_blocking, (&*final(p),), waits),
    ensures
        !idle,
        first,
        !second,
        waits,
        final(p).surface == surface,
        final(p).client == fresh.client,
{
}

} // verus!
