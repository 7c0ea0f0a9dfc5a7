//! The coordinator's wiring: one endpoint pair cross-connected between the
//! executor and the runner, held in a registry keyed by role.
//!
//! The coordinator itself only opens the connection, hands each role its
//! endpoint, and joins both at shutdown; all of that is process plumbing
//! and lives in the surrounding program.  What is wired — and what each
//! role is handed — is decided here.

use vstd::prelude::*;
use crate::threads::itc::{channel_unbounded, Endpoints};

verus! {

/// The two spawned roles.
#[derive(Clone, Copy, Debug, PartialEq, Eq, Hash, Structural)]
pub enum Identifier {
    Handler,
    Runner,
}

/// The coordinator's registry: the endpoint each role is to be handed,
/// until it is taken.
pub struct Controller {
    pub handler_end: Option<Endpoints>,
    pub runner_end: Option<Endpoints>,
}

impl Controller {
    /// Builds the bus: two unbounded channels cross-wired into one
    /// endpoint pair, so that what the executor sends the runner receives
    /// and the other way round.
    pub fn new() -> (r: Controller)
        ensures
            r.handler_end matches Some(e) && e.source_view() == "handler"@,
            r.runner_end matches Some(e) && e.source_view() == "runner"@,
    {
        let (handler_tx, runner_rx) = channel_unbounded();
        let (runner_tx, handler_rx) = channel_unbounded();
        let handler_end = Endpoints::new("handler".to_owned(), handler_tx, handler_rx);
        let runner_end = Endpoints::new("runner".to_owned(), runner_tx, runner_rx);
        Controller { handler_end: Some(handler_end), runner_end: Some(runner_end) }
    }

    /// Hands out the endpoint registered for a role; a second take yields
    /// nothing.
    pub fn take_endpoint(&mut self, identifier: Identifier) -> (r: Option<Endpoints>)
        ensures
            match identifier {
                Identifier::Handler => r == old(self).handler_end
                    && final(self).handler_end is None
                    && final(self).runner_end == old(self).runner_end,
                Identifier::Runner => r == old(self).runner_end
                    && final(self).runner_end is None
                    && final(self).handler_end == old(self).handler_end,
            },
    {
        let mut taken: Option<Endpoints> = None;
        match identifier {
            Identifier::Handler => core::mem::swap(&mut taken, &mut self.handler_end),
            Identifier::Runner => core::mem::swap(&mut taken, &mut self.runner_end),
        }
        taken
    }
}

} // verus!
