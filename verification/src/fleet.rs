//! The fleet coordinator: one supervisor for each node that discovery
//! returns, and at shutdown one session-close call for each active node.
//!
//! A shutdown works on the entries that the registry holds when it begins.
//! Supervisors are told to stop after that, for a supervisor that stops
//! gives its entry up.

use crate::network::{
    session_request, ApiError, Bless, BlessView, Node, Request, RequestView,
};
use crate::registry::{enumerates, ActiveEntry, Registry};
use crate::supervisor::{Supervisor, SupervisorView, Timing};
use vstd::prelude::*;

verus! {

/// The supervisors for an account's nodes in the order of `nodes`, each fresh.
pub open spec fn enlisted(
    fleet: Seq<Supervisor>,
    binding: BlessView,
    nodes: Seq<Node>,
    addr: Option<Seq<char>>,
    timing: Timing,
) -> bool {
    &&& fleet.len() == nodes.len()
    &&& forall|i: int|
        0 <= i < fleet.len() ==> (#[trigger] fleet[i]).wf() && fleet[i]@ == SupervisorView::fresh(
            binding,
            nodes[i].pub_key@,
            nodes[i].hardware_id@,
            addr,
            timing,
        )
}

/// Turns what discovery returned for an account into that account's fleet:
/// one fresh supervisor for each node. A discovery that failed is fatal for
/// the account, and its error is handed on as it is.
pub fn launch(
    bless: &Bless,
    addr: Option<&str>,
    discovery: Result<Vec<Node>, ApiError>,
    timing: Timing,
) -> (fleet: Result<Vec<Supervisor>, ApiError>)
    ensures
        match discovery {
            Ok(nodes) => fleet is Ok && enlisted(
                fleet->Ok_0@,
                bless@,
                nodes@,
                addr.deep_view(),
                timing,
            ),
            Err(error) => fleet == Err::<Vec<Supervisor>, ApiError>(error),
        },
{
    match discovery {
        Err(error) => Err(error),
        Ok(nodes) => {
            let mut fleet: Vec<Supervisor> = Vec::new();
            let mut i: usize = 0;
            while i < nodes.len()
                invariant
                    i <= nodes.len(),
                    enlisted(fleet@, bless@, nodes@.take(i as int), addr.deep_view(), timing),
                decreases nodes.len() - i,
            {
                fleet.push(Supervisor::new(bless, &nodes[i], addr, timing));
                i = i + 1;
            }
            Ok(fleet)
        },
    }
}

/// Mathematical value of a [`Shutdown`].
pub struct ShutdownView {
    /// The sessions to close, in the order in which they are closed.
    pub calls: Seq<(Seq<char>, BlessView)>,
    /// How many of the calls have ended, well or not.
    pub resolved: nat,
    /// How many of those ended in failure.
    pub failed: nat,
}

impl ShutdownView {
    /// Every call has ended.
    pub open spec fn is_complete(self) -> bool {
        self.resolved >= self.calls.len()
    }

    /// The close call that is due, if one is.
    pub open spec fn due(self) -> Option<RequestView> {
        if self.is_complete() {
            None
        } else {
            Some(
                session_request(
                    self.calls[self.resolved as int].1.access_token,
                    self.calls[self.resolved as int].0,
                    "/stop-session"@,
                ),
            )
        }
    }

    /// The call that was due has ended. A failed close is counted and not
    /// tried again. With no call due nothing changes.
    pub open spec fn resolve(self, stopped: bool) -> ShutdownView {
        if self.is_complete() {
            self
        } else {
            ShutdownView {
                calls: self.calls,
                resolved: self.resolved + 1,
                failed: if stopped {
                    self.failed
                } else {
                    self.failed + 1
                },
            }
        }
    }

    /// The state after the calls ended as `outcomes` says, in order.
    pub open spec fn resolve_all(self, outcomes: Seq<bool>) -> ShutdownView
        decreases outcomes.len(),
    {
        if outcomes.len() == 0 {
            self
        } else {
            self.resolve(outcomes[0]).resolve_all(outcomes.drop_first())
        }
    }
}

/// The shutdown of the fleet: the sessions to close, and how far closing has
/// come.
#[derive(Debug)]
pub struct Shutdown {
    calls: Vec<ActiveEntry>,
    resolved: usize,
    failed: usize,
}

impl View for Shutdown {
    type V = ShutdownView;

    closed spec fn view(&self) -> ShutdownView {
        ShutdownView {
            calls: self.calls@.map_values(|entry: ActiveEntry| entry@),
            resolved: self.resolved as nat,
            failed: self.failed as nat,
        }
    }
}

impl Shutdown {
    /// No more calls have ended than there are, and no more have failed than
    /// have ended.
    pub open spec fn wf(&self) -> bool {
        self@.failed <= self@.resolved <= self@.calls.len()
    }

    /// The entries that were active when the shutdown began.
    pub closed spec fn entries(&self) -> Seq<ActiveEntry> {
        self.calls@
    }

    /// Begins the shutdown: one close call for each entry that the registry
    /// holds at this moment, none of them resolved.
    pub fn begin(registry: &Registry) -> (shutdown: Shutdown)
        requires
            registry.wf(),
        ensures
            shutdown.wf(),
            enumerates(shutdown.entries(), registry@),
            shutdown@.calls == shutdown.entries().map_values(|entry: ActiveEntry| entry@),
            shutdown@.calls.len() == registry@.dom().len(),
            shutdown@.resolved == 0,
            shutdown@.failed == 0,
    {
        Shutdown { calls: registry.snapshot(), resolved: 0, failed: 0 }
    }

    /// The entry whose session is to be closed next.
    pub fn current(&self) -> (entry: Option<&ActiveEntry>)
        requires
            self.wf(),
        ensures
            match entry {
                Some(entry) => !self@.is_complete() && entry@ == self@.calls[self@.resolved as int],
                None => self@.is_complete(),
            },
    {
        if self.resolved < self.calls.len() {
            Some(&self.calls[self.resolved])
        } else {
            None
        }
    }

    /// The close call that is due, if one is.
    pub fn next_call(&self) -> (request: Option<Request>)
        requires
            self.wf(),
        ensures
            match request {
                Some(request) => self@.due() == Some(request@),
                None => self@.due() is None,
            },
    {
        if self.resolved < self.calls.len() {
            let entry = &self.calls[self.resolved];
            Some(entry.binding.stop_session(entry.identity.as_str()))
        } else {
            None
        }
    }

    /// Records how the call that was due has ended.
    pub fn resolve(&mut self, stopped: bool)
        requires
            old(self).wf(),
        ensures
            final(self).wf(),
            final(self).entries() == old(self).entries(),
            final(self)@ == old(self)@.resolve(stopped),
    {
        if self.resolved < self.calls.len() {
            self.resolved = self.resolved + 1;
            if !stopped {
                self.failed = self.failed + 1;
            }
        }
    }

    /// Whether every close call has ended, well or not. The process may exit
    /// only then.
    pub fn is_complete(&self) -> (complete: bool)
        ensures
            complete == self@.is_complete(),
    {
        self.resolved >= self.calls.len()
    }

    /// How many close calls have ended.
    pub fn resolved(&self) -> (resolved: usize)
        ensures
            resolved == self@.resolved,
    {
        self.resolved
    }

    /// How many close calls ended in failure.
    pub fn failed(&self) -> (failed: usize)
        ensures
            failed == self@.failed,
    {
        self.failed
    }
}

/// When a shutdown is done: with `M` sessions to close, it is complete
/// exactly when `M` calls have ended, whether they succeeded or failed, and
/// never more than `M` calls are made.
pub proof fn law_shutdown_completeness(shutdown: ShutdownView, outcomes: Seq<bool>)
    requires
        shutdown.resolved <= shutdown.calls.len(),
    ensures
        shutdown.resolve_all(outcomes).calls == shutdown.calls,
        shutdown.resolve_all(outcomes).resolved == if shutdown.resolved + outcomes.len()
            <= shutdown.calls.len() {
            shutdown.resolved + outcomes.len()
        } else {
            shutdown.calls.len()
        },
        shutdown.resolve_all(outcomes).is_complete() <==> shutdown.resolved + outcomes.len()
            >= shutdown.calls.len(),
    decreases outcomes.len(),
{
    if outcomes.len() > 0 {
        law_shutdown_completeness(shutdown.resolve(outcomes[0]), outcomes.drop_first());
    }
}

} // verus!
