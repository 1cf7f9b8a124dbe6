//! The lifecycle of one node: claim, register, open a session, keep it alive
//! with heartbeats, and start over after a pause when anything fails.
//!
//! A supervisor decides and never waits. Each call of [`Supervisor::step`]
//! takes what has just happened and answers with what to do next; whoever
//! drives it performs that and reports back.

use crate::heartbeat::{observe, HeartbeatMonitor};
use crate::network::{
    ping_request, register_request, session_request, Bless, BlessView, Node, Request, RequestView,
};
use crate::registry::{claim, Entries, Registry};
use vstd::prelude::*;
use vstd::relations::injective_on;
use vstd::set_lib::{lemma_int_range, lemma_len_subset, lemma_map_size, set_int_range};

verus! {

/// Consecutive heartbeat failures after which a node is restarted.
pub const MAX_PING_ERRORS: u32 = 3;

/// Seconds between two heartbeats.
pub const PING_INTERVAL: u64 = 120;

/// Seconds a node rests before its lifecycle starts over.
pub const RESTART_DELAY: u64 = 240;

/// The constants that pace a supervisor.
#[derive(Clone, Copy, Debug, PartialEq, Eq, Structural)]
pub struct Timing {
    /// Consecutive heartbeat failures after which the node is restarted.
    pub max_ping_errors: u32,
    /// Seconds between two heartbeats.
    pub ping_interval: u64,
    /// Seconds between a failure and the next attempt.
    pub restart_delay: u64,
}

impl Timing {
    /// Three failures, a heartbeat every two minutes, four minutes of rest.
    pub fn standard() -> (timing: Timing)
        ensures
            timing == (Timing {
                max_ping_errors: MAX_PING_ERRORS,
                ping_interval: PING_INTERVAL,
                restart_delay: RESTART_DELAY,
            }),
    {
        Timing {
            max_ping_errors: MAX_PING_ERRORS,
            ping_interval: PING_INTERVAL,
            restart_delay: RESTART_DELAY,
        }
    }
}

/// Where a supervisor stands in its node's lifecycle.
#[derive(Clone, Copy, Debug, PartialEq, Eq, Structural)]
pub enum Phase {
    /// About to claim the identity.
    Claiming,
    /// The claim is held; the registration call is under way.
    Registering,
    /// Registered; the session-open call is under way.
    SessionStarting,
    /// The session is open and heartbeats keep it alive.
    Heartbeating,
    /// The claim was given up after a failure; resting before the next attempt.
    Restarting,
    /// Stopped from outside. Final.
    ShutDown,
    /// The claim was a duplicate: another supervisor holds the identity, and
    /// this one has withdrawn. Final.
    Aborted,
}

/// What a supervisor is told.
#[derive(Clone, Copy, Debug, PartialEq, Eq, Structural)]
pub enum Event {
    /// The supervisor has been launched.
    Start,
    /// The registration call has ended, well or not.
    Registered { success: bool },
    /// The session-open call has ended, well or not.
    SessionOpened { success: bool },
    /// A heartbeat has ended, well or not.
    Pinged { success: bool },
    /// The rest that was asked for is over.
    Elapsed,
    /// The process is shutting down.
    Stop,
}

/// What a supervisor asks for.
#[derive(Clone, Copy, Debug, PartialEq, Eq, Structural)]
pub enum Action {
    /// Send the registration call and report `Registered`.
    Register,
    /// Send the session-open call and report `SessionOpened`.
    OpenSession,
    /// Wait `delay` seconds, send a heartbeat and report `Pinged`.
    Heartbeat { delay: u64 },
    /// Rest for `secs` seconds and report `Elapsed`.
    Sleep { secs: u64 },
    /// The claim was a duplicate: the identity is held by another supervisor.
    /// End without a word; this is no error.
    Withdraw,
    /// The supervisor has shut down: end.
    Exit,
    /// The event does not concern the call that is under way: keep waiting.
    Wait,
}

/// Mathematical value of a [`Supervisor`].
pub struct SupervisorView {
    pub identity: Seq<char>,
    pub hardware_id: Seq<char>,
    pub addr: Option<Seq<char>>,
    pub binding: BlessView,
    pub timing: Timing,
    pub phase: Phase,
    pub failures: nat,
}

/// A supervisor, the registry it shares, and what it asked for last.
pub struct Outcome {
    pub supervisor: SupervisorView,
    pub held: Entries,
    pub action: Action,
}

impl Action {
    /// The event that reports the end of what this action asks for. An
    /// action that ends the supervisor, or asks for nothing, has none.
    pub open spec fn answered_by(self, success: bool) -> Option<Event> {
        match self {
            Action::Register => Some(Event::Registered { success }),
            Action::OpenSession => Some(Event::SessionOpened { success }),
            Action::Heartbeat { delay } => Some(Event::Pinged { success }),
            Action::Sleep { secs } => Some(Event::Elapsed),
            _ => None,
        }
    }

    /// The event to report once what this action asks for has ended, well
    /// (`success`) or not. A rest cannot fail: `success` is not looked at.
    pub fn answer(self, success: bool) -> (event: Option<Event>)
        ensures
            event == self.answered_by(success),
    {
        match self {
            Action::Register => Some(Event::Registered { success }),
            Action::OpenSession => Some(Event::SessionOpened { success }),
            Action::Heartbeat { delay } => Some(Event::Pinged { success }),
            Action::Sleep { secs } => Some(Event::Elapsed),
            _ => None,
        }
    }
}

impl Phase {
    /// In these phases the supervisor holds the registry entry of its node.
    pub open spec fn holds_claim(self) -> bool {
        self is Registering || self is SessionStarting || self is Heartbeating
    }

    /// From these phases nothing leads away.
    pub open spec fn is_final(self) -> bool {
        self is ShutDown || self is Aborted
    }
}

impl SupervisorView {
    /// A supervisor that has not begun: about to claim, nothing counted.
    pub open spec fn fresh(
        binding: BlessView,
        identity: Seq<char>,
        hardware_id: Seq<char>,
        addr: Option<Seq<char>>,
        timing: Timing,
    ) -> SupervisorView {
        SupervisorView {
            identity,
            hardware_id,
            addr,
            binding,
            timing,
            phase: Phase::Claiming,
            failures: 0,
        }
    }

    /// The request that `action` asks to send, if it asks for one. The
    /// registration reports the address that the proxy shows, where there is
    /// one.
    pub open spec fn request_for(self, action: Action) -> Option<RequestView> {
        match action {
            Action::Register => Some(
                register_request(
                    self.binding.access_token,
                    self.identity,
                    self.hardware_id,
                    self.addr,
                ),
            ),
            Action::OpenSession => Some(
                session_request(self.binding.access_token, self.identity, "/start-session"@),
            ),
            Action::Heartbeat { delay } => Some(
                ping_request(self.binding.access_token, self.identity),
            ),
            _ => None,
        }
    }

    /// The same supervisor in another phase, its failure count cleared.
    pub open spec fn enter(self, phase: Phase) -> SupervisorView {
        SupervisorView { phase, failures: 0, ..self }
    }

    /// Claiming: take the identity if it is free, withdraw if it is not.
    pub open spec fn attempt(self, held: Entries) -> Outcome {
        if claim(held, self.identity, self.binding).1 {
            Outcome {
                supervisor: self.enter(Phase::Registering),
                held: claim(held, self.identity, self.binding).0,
                action: Action::Register,
            }
        } else {
            Outcome { supervisor: self.enter(Phase::Aborted), held, action: Action::Withdraw }
        }
    }

    /// A failure while the claim is held: give the claim up, then rest.
    pub open spec fn restart(self, held: Entries) -> Outcome {
        Outcome {
            supervisor: self.enter(Phase::Restarting),
            held: held.remove(self.identity),
            action: Action::Sleep { secs: self.timing.restart_delay },
        }
    }

    /// The stop signal: give up the claim if it is held, and end.
    pub open spec fn halt(self, held: Entries) -> Outcome {
        Outcome {
            supervisor: self.enter(Phase::ShutDown),
            held: if self.phase.holds_claim() {
                held.remove(self.identity)
            } else {
                held
            },
            action: Action::Exit,
        }
    }

    /// A heartbeat has ended while heartbeating.
    pub open spec fn pinged(self, held: Entries, success: bool) -> Outcome {
        let (failures, give_up) = observe(
            self.failures,
            self.timing.max_ping_errors as nat,
            success,
        );
        if give_up {
            self.restart(held)
        } else {
            Outcome {
                supervisor: SupervisorView { failures, ..self },
                held,
                action: Action::Heartbeat { delay: self.timing.ping_interval },
            }
        }
    }

    /// The whole transition relation: the supervisor and the registry after
    /// `event`, and what the supervisor asks for.
    pub open spec fn step(self, held: Entries, event: Event) -> Outcome {
        match (self.phase, event) {
            (Phase::ShutDown, _) => Outcome { supervisor: self, held, action: Action::Exit },
            (Phase::Aborted, _) => Outcome { supervisor: self, held, action: Action::Withdraw },
            (_, Event::Stop) => self.halt(held),
            (Phase::Claiming, Event::Start) => self.attempt(held),
            (Phase::Restarting, Event::Elapsed) => self.attempt(held),
            (Phase::Registering, Event::Registered { success }) => if success {
                Outcome {
                    supervisor: self.enter(Phase::SessionStarting),
                    held,
                    action: Action::OpenSession,
                }
            } else {
                self.restart(held)
            },
            (Phase::SessionStarting, Event::SessionOpened { success }) => if success {
                Outcome {
                    supervisor: self.enter(Phase::Heartbeating),
                    held,
                    action: Action::Heartbeat { delay: 0 },
                }
            } else {
                self.restart(held)
            },
            (Phase::Heartbeating, Event::Pinged { success }) => self.pinged(held, success),
            _ => Outcome { supervisor: self, held, action: Action::Wait },
        }
    }
}

/// The supervisor of one node.
#[derive(Debug)]
pub struct Supervisor {
    pub_key: String,
    hardware_id: String,
    addr: Option<String>,
    bless: Bless,
    timing: Timing,
    phase: Phase,
    monitor: HeartbeatMonitor,
}

impl View for Supervisor {
    type V = SupervisorView;

    closed spec fn view(&self) -> SupervisorView {
        SupervisorView {
            identity: self.pub_key@,
            hardware_id: self.hardware_id@,
            addr: self.addr.deep_view(),
            binding: self.bless@,
            timing: self.timing,
            phase: self.phase,
            failures: self.monitor.count(),
        }
    }
}

impl Supervisor {
    /// The failure count stays below the threshold that the timing sets.
    pub closed spec fn wf(&self) -> bool {
        &&& self.monitor.wf()
        &&& self.monitor.limit() == self.timing.max_ping_errors
    }

    /// A supervisor for `node` under `bless`, about to claim it. `addr` is the
    /// address that the account's proxy shows to the outside, if it has one.
    pub fn new(bless: &Bless, node: &Node, addr: Option<&str>, timing: Timing) -> (supervisor:
        Supervisor)
        ensures
            supervisor.wf(),
            supervisor@ == SupervisorView::fresh(
                bless@,
                node.pub_key@,
                node.hardware_id@,
                addr.deep_view(),
                timing,
            ),
    {
        Supervisor {
            pub_key: node.pub_key.clone(),
            hardware_id: node.hardware_id.clone(),
            addr: match addr {
                Some(addr) => Some(addr.to_owned()),
                None => None,
            },
            bless: bless.clone(),
            timing,
            phase: Phase::Claiming,
            monitor: HeartbeatMonitor::new(timing.max_ping_errors),
        }
    }

    /// The identity of the node.
    pub fn pub_key(&self) -> (pub_key: &str)
        ensures
            pub_key@ == self@.identity,
    {
        self.pub_key.as_str()
    }

    /// The binding the node is supervised under.
    pub fn bless(&self) -> (bless: &Bless)
        ensures
            bless@ == self@.binding,
    {
        &self.bless
    }

    /// The request that `action` asks to send, if it asks for one.
    pub fn request_for(&self, action: Action) -> (request: Option<Request>)
        ensures
            match request {
                Some(request) => self@.request_for(action) == Some(request@),
                None => self@.request_for(action) is None,
            },
    {
        match action {
            Action::Register => Some(
                self.bless.register(
                    self.pub_key.as_str(),
                    self.hardware_id.as_str(),
                    match &self.addr {
                        Some(addr) => Some(addr.as_str()),
                        None => None,
                    },
                ),
            ),
            Action::OpenSession => Some(self.bless.init_session(self.pub_key.as_str())),
            Action::Heartbeat { delay } => Some(self.bless.ping(self.pub_key.as_str())),
            _ => None,
        }
    }

    /// The phase the supervisor is in.
    pub fn phase(&self) -> (phase: Phase)
        ensures
            phase == self@.phase,
    {
        self.phase
    }

    /// The count of consecutive heartbeat failures.
    pub fn failures(&self) -> (failures: u32)
        ensures
            failures == self@.failures,
    {
        self.monitor.failures()
    }

    fn attempt(&mut self, registry: &mut Registry) -> (action: Action)
        requires
            old(self).wf(),
            old(registry).wf(),
        ensures
            final(self).wf(),
            final(registry).wf(),
            (Outcome { supervisor: final(self)@, held: final(registry)@, action }) == old(
                self,
            )@.attempt(old(registry)@),
    {
        self.monitor = HeartbeatMonitor::new(self.timing.max_ping_errors);
        if registry.try_claim(self.pub_key.as_str(), &self.bless) {
            self.phase = Phase::Registering;
            Action::Register
        } else {
            self.phase = Phase::Aborted;
            Action::Withdraw
        }
    }

    fn restart(&mut self, registry: &mut Registry) -> (action: Action)
        requires
            old(self).wf(),
            old(registry).wf(),
        ensures
            final(self).wf(),
            final(registry).wf(),
            (Outcome { supervisor: final(self)@, held: final(registry)@, action }) == old(
                self,
            )@.restart(old(registry)@),
    {
        registry.release(self.pub_key.as_str());
        self.monitor = HeartbeatMonitor::new(self.timing.max_ping_errors);
        self.phase = Phase::Restarting;
        Action::Sleep { secs: self.timing.restart_delay }
    }

    fn advance(&mut self, phase: Phase)
        requires
            old(self).wf(),
        ensures
            final(self).wf(),
            final(self)@ == old(self)@.enter(phase),
    {
        self.monitor = HeartbeatMonitor::new(self.timing.max_ping_errors);
        self.phase = phase;
    }

    /// Takes `event` and answers with what to do next. The registry is
    /// changed only to make this node's claim or to give it up.
    pub fn step(&mut self, registry: &mut Registry, event: Event) -> (action: Action)
        requires
            old(self).wf(),
            old(registry).wf(),
        ensures
            final(self).wf(),
            final(registry).wf(),
            (Outcome { supervisor: final(self)@, held: final(registry)@, action }) == old(
                self,
            )@.step(old(registry)@, event),
    {
        match (self.phase, event) {
            (Phase::ShutDown, _) => Action::Exit,
            (Phase::Aborted, _) => Action::Withdraw,
            (phase, Event::Stop) => {
                match phase {
                    Phase::Registering | Phase::SessionStarting | Phase::Heartbeating => {
                        registry.release(self.pub_key.as_str());
                    },
                    _ => {},
                }
                self.advance(Phase::ShutDown);
                Action::Exit
            },
            (Phase::Claiming, Event::Start) => self.attempt(registry),
            (Phase::Restarting, Event::Elapsed) => self.attempt(registry),
            (Phase::Registering, Event::Registered { success }) => {
                if success {
                    self.advance(Phase::SessionStarting);
                    Action::OpenSession
                } else {
                    self.restart(registry)
                }
            },
            (Phase::SessionStarting, Event::SessionOpened { success }) => {
                if success {
                    self.advance(Phase::Heartbeating);
                    Action::Heartbeat { delay: 0 }
                } else {
                    self.restart(registry)
                }
            },
            (Phase::Heartbeating, Event::Pinged { success }) => {
                if self.monitor.record(success) {
                    self.restart(registry)
                } else {
                    Action::Heartbeat { delay: self.timing.ping_interval }
                }
            },
            _ => Action::Wait,
        }
    }
}

impl SupervisorView {
    /// The supervisor and the registry after `events` were taken in order.
    pub open spec fn run(self, held: Entries, events: Seq<Event>) -> (SupervisorView, Entries)
        decreases events.len(),
    {
        if events.len() == 0 {
            (self, held)
        } else {
            self.step(held, events[0]).supervisor.run(
                self.step(held, events[0]).held,
                events.drop_first(),
            )
        }
    }
}

/// `count` heartbeats in a row that failed.
pub open spec fn failed_pings(count: nat) -> Seq<Event> {
    Seq::new(count, |i: int| Event::Pinged { success: false })
}

/// A heartbeating supervisor whose heartbeats keep failing stays
/// heartbeating, claim held, while the failures are fewer than the
/// threshold. With the failure that reaches the threshold it gives its claim
/// up and rests.
pub proof fn law_heartbeat_restart(supervisor: SupervisorView, held: Entries, count: nat)
    requires
        supervisor.phase is Heartbeating,
        supervisor.failures + count <= supervisor.timing.max_ping_errors,
        supervisor.failures < supervisor.timing.max_ping_errors,
    ensures
        supervisor.failures + count < supervisor.timing.max_ping_errors ==> supervisor.run(
            held,
            failed_pings(count),
        ) == (SupervisorView { failures: supervisor.failures + count, ..supervisor }, held),
        supervisor.failures + count == supervisor.timing.max_ping_errors ==> supervisor.run(
            held,
            failed_pings(count),
        ) == (supervisor.enter(Phase::Restarting), held.remove(supervisor.identity)),
    decreases count,
{
    if count > 0 {
        let next = supervisor.step(held, Event::Pinged { success: false });
        assert(failed_pings(count).drop_first() =~= failed_pings((count - 1) as nat));
        if supervisor.failures + 1 < supervisor.timing.max_ping_errors {
            law_heartbeat_restart(next.supervisor, next.held, (count - 1) as nat);
        } else {
            assert(next.supervisor.run(next.held, failed_pings(0)) == (next.supervisor, next.held));
        }
    }
}

/// Question and answer fit: the event that reports the end of what a
/// supervisor asked for is never waited out, whatever has happened to the
/// registry in the meantime. And a supervisor that is asked to wait has not
/// changed.
pub proof fn law_answer_is_taken(
    supervisor: SupervisorView,
    held: Entries,
    event: Event,
    success: bool,
    later: Entries,
)
    ensures
        supervisor.step(held, event).action.answered_by(success) matches Some(answer)
            ==> supervisor.step(held, event).supervisor.step(later, answer).action != Action::Wait,
        supervisor.step(held, event).action == Action::Wait ==> supervisor.step(
            held,
            event,
        ).supervisor == supervisor && supervisor.step(held, event).held == held,
{
}

/// The final phases: a supervisor that has shut down or withdrawn stays as it
/// is and leaves the registry alone. A supervisor shuts down on the stop
/// signal and on nothing else, and it withdraws only where it went to claim
/// its identity and found it held; no failure of a call ends it.
pub proof fn law_final_phases(supervisor: SupervisorView, held: Entries, event: Event)
    ensures
        supervisor.phase.is_final() ==> supervisor.step(held, event).supervisor == supervisor
            && supervisor.step(held, event).held == held,
        !supervisor.phase.is_final() ==> (supervisor.step(held, event).supervisor.phase is ShutDown
            <==> event is Stop),
        !supervisor.phase.is_final() && supervisor.step(held, event).supervisor.phase is Aborted
            ==> held.dom().contains(supervisor.identity) && !supervisor.phase.holds_claim(),
{
}

/// Failures stay with their node: whatever a supervisor does, the registry
/// entries of all other identities stay as they are.
pub proof fn law_step_is_confined(
    supervisor: SupervisorView,
    held: Entries,
    event: Event,
    other: Seq<char>,
)
    requires
        other != supervisor.identity,
    ensures
        supervisor.step(held, event).held.dom().contains(other) == held.dom().contains(other),
        supervisor.step(held, event).held[other] == held[other],
        supervisor.step(held, event).supervisor.identity == supervisor.identity,
        supervisor.step(held, event).supervisor.binding == supervisor.binding,
        supervisor.step(held, event).supervisor.timing == supervisor.timing,
{
}

/// A fleet and the registry agree: a supervisor that holds its claim has its
/// entry in the registry, two supervisors of one identity never both hold
/// the claim, and every entry belongs to a supervisor that holds it.
pub open spec fn coherent(fleet: Seq<SupervisorView>, held: Entries) -> bool {
    &&& forall|i: int|
        0 <= i < fleet.len() && (#[trigger] fleet[i]).phase.holds_claim() ==> held.contains_pair(
            fleet[i].identity,
            fleet[i].binding,
        )
    &&& forall|i: int, j: int|
        0 <= i < j < fleet.len() && (#[trigger] fleet[i]).identity == (#[trigger] fleet[j]).identity
            ==> !(fleet[i].phase.holds_claim() && fleet[j].phase.holds_claim())
    &&& forall|identity: Seq<char>| #[trigger]
        held.dom().contains(identity) ==> exists|i: int|
            0 <= i < fleet.len() && (#[trigger] fleet[i]).identity == identity
                && fleet[i].phase.holds_claim()
}

/// A fleet of which no supervisor holds a claim agrees with the empty
/// registry: this is how every fleet begins.
pub proof fn law_fresh_fleet_is_coherent(fleet: Seq<SupervisorView>)
    requires
        forall|i: int| 0 <= i < fleet.len() ==> !(#[trigger] fleet[i]).phase.holds_claim(),
    ensures
        coherent(fleet, Entries::empty()),
{
}

/// One supervisor for each identity: whichever supervisor takes whichever
/// event, fleet and registry still agree afterwards. So at most one
/// supervisor works on an identity, and a supervisor that starts over never
/// meets a claim of its own.
pub proof fn law_exclusive_supervision(
    fleet: Seq<SupervisorView>,
    held: Entries,
    k: int,
    event: Event,
)
    requires
        coherent(fleet, held),
        0 <= k < fleet.len(),
    ensures
        coherent(
            fleet.update(k, fleet[k].step(held, event).supervisor),
            fleet[k].step(held, event).held,
        ),
{
    let outcome = fleet[k].step(held, event);
    let after = fleet.update(k, outcome.supervisor);
    let me = fleet[k].identity;
    assert forall|identity: Seq<char>| #[trigger]
        outcome.held.dom().contains(identity) implies exists|i: int|
        0 <= i < after.len() && (#[trigger] after[i]).identity == identity
            && after[i].phase.holds_claim() by {
        if identity == me && outcome.supervisor.phase.holds_claim() {
            assert(after[k].identity == identity);
        } else {
            let i = choose|i: int|
                0 <= i < fleet.len() && (#[trigger] fleet[i]).identity == identity
                    && fleet[i].phase.holds_claim();
            assert(after[i] == fleet[i]);
        }
    }
    assert forall|i: int, j: int|
        0 <= i < j < after.len() && (#[trigger] after[i]).identity == (#[trigger] after[j]).identity
        implies !(after[i].phase.holds_claim() && after[j].phase.holds_claim()) by {
        assert(fleet[i].identity == fleet[j].identity);
    }
    assert forall|i: int|
        0 <= i < after.len() && (#[trigger] after[i]).phase.holds_claim()
        implies outcome.held.contains_pair(after[i].identity, after[i].binding) by {
        if i != k && fleet[i].identity == me {
            assert(!(fleet[i].phase.holds_claim() && fleet[k].phase.holds_claim()));
        }
    }
}

/// The supervisors of a fleet that hold their claim, by their place in it.
pub open spec fn holders(fleet: Seq<SupervisorView>) -> Set<int> {
    Set::new(|i: int| 0 <= i < fleet.len() && fleet[i].phase.holds_claim())
}

/// In a fleet that agrees with the registry, the registry has one entry for
/// each supervisor that holds its claim, and no other.
pub proof fn law_one_entry_for_each_holder(fleet: Seq<SupervisorView>, held: Entries)
    requires
        coherent(fleet, held),
    ensures
        holders(fleet).finite(),
        held.dom().finite(),
        held.dom().len() == holders(fleet).len(),
{
    let places = set_int_range(0, fleet.len() as int);
    let identity_at = |i: int| fleet[i].identity;
    lemma_int_range(0, fleet.len() as int);
    lemma_len_subset(holders(fleet), places);
    assert(injective_on(identity_at, holders(fleet))) by {
        assert forall|i: int, j: int|
            holders(fleet).contains(i) && holders(fleet).contains(j) && #[trigger] identity_at(i)
                == #[trigger] identity_at(j) implies i == j by {
            if i < j {
                assert(fleet[i].identity == fleet[j].identity);
            } else if j < i {
                assert(fleet[j].identity == fleet[i].identity);
            }
        }
    }
    assert(holders(fleet).map(identity_at) =~= held.dom()) by {
        assert forall|identity: Seq<char>| held.dom().contains(identity) implies holders(
            fleet,
        ).map(identity_at).contains(identity) by {
            let i = choose|i: int|
                0 <= i < fleet.len() && (#[trigger] fleet[i]).identity == identity
                    && fleet[i].phase.holds_claim();
            assert(holders(fleet).contains(i) && identity == identity_at(i));
        }
        assert forall|identity: Seq<char>|
            holders(fleet).map(identity_at).contains(identity) implies held.dom().contains(
            identity,
        ) by {
            let i = choose|i: int| holders(fleet).contains(i) && identity == identity_at(i);
            assert(held.contains_pair(fleet[i].identity, fleet[i].binding));
        }
    }
    lemma_map_size(holders(fleet), held.dom(), identity_at);
}

/// The fleet and the registry after the supervisors took events as
/// `schedule` says: each item names a supervisor by its place in the fleet
/// and the event it takes. An item that names no supervisor is skipped.
pub open spec fn fleet_run(
    fleet: Seq<SupervisorView>,
    held: Entries,
    schedule: Seq<(int, Event)>,
) -> (Seq<SupervisorView>, Entries)
    decreases schedule.len(),
{
    if schedule.len() == 0 {
        (fleet, held)
    } else if 0 <= schedule[0].0 < fleet.len() {
        fleet_run(
            fleet.update(
                schedule[0].0,
                fleet[schedule[0].0].step(held, schedule[0].1).supervisor,
            ),
            fleet[schedule[0].0].step(held, schedule[0].1).held,
            schedule.drop_first(),
        )
    } else {
        fleet_run(fleet, held, schedule.drop_first())
    }
}

/// One supervisor for each identity, at every moment: however the steps of
/// the supervisors are interleaved, a fleet that agreed with the registry
/// still agrees with it.
pub proof fn law_exclusive_in_every_run(
    fleet: Seq<SupervisorView>,
    held: Entries,
    schedule: Seq<(int, Event)>,
)
    requires
        coherent(fleet, held),
    ensures
        coherent(fleet_run(fleet, held, schedule).0, fleet_run(fleet, held, schedule).1),
        fleet_run(fleet, held, schedule).0.len() == fleet.len(),
    decreases schedule.len(),
{
    if schedule.len() > 0 {
        let k = schedule[0].0;
        if 0 <= k < fleet.len() {
            law_exclusive_supervision(fleet, held, k, schedule[0].1);
            law_exclusive_in_every_run(
                fleet.update(k, fleet[k].step(held, schedule[0].1).supervisor),
                fleet[k].step(held, schedule[0].1).held,
                schedule.drop_first(),
            );
        } else {
            law_exclusive_in_every_run(fleet, held, schedule.drop_first());
        }
    }
}

} // verus!
