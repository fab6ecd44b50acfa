//! The two execution lanes.
//!
//! The identity of the process and its file-creation mask belong to the whole
//! process. A test case that changes them needs the process to itself: it
//! runs in the exclusive lane. All others run in the concurrent lane, many at
//! a time. The controller decides who may enter a lane; whoever is refused
//! waits and asks again.

use crate::identity::IdentityView;
use vstd::prelude::*;

verus! {

/// One of the two lanes.
#[derive(Clone, Copy, Debug, PartialEq, Eq, Structural)]
pub enum Lane {
    /// Sole use of the process: no other test case runs meanwhile.
    Exclusive,
    /// Shared use of the process: may not change its identity or mask.
    Concurrent,
}

impl Lane {
    /// The lane of a test case: the exclusive one for a serialized case, the
    /// concurrent one for any other.
    pub open spec fn spec_for_case(serialized: bool) -> Lane {
        if serialized {
            Lane::Exclusive
        } else {
            Lane::Concurrent
        }
    }

    /// The lane of a test case: the exclusive one for a serialized case, the
    /// concurrent one for any other.
    pub fn for_case(serialized: bool) -> (lane: Lane)
        ensures
            lane == Self::spec_for_case(serialized),
    {
        if serialized {
            Lane::Exclusive
        } else {
            Lane::Concurrent
        }
    }
}

/// Who is in the lanes.
pub struct LaneState {
    /// How many test cases are in the concurrent lane.
    pub concurrent: nat,
    /// Whether a test case is in the exclusive lane.
    pub exclusive: bool,
}

impl LaneState {
    /// Nobody is in the concurrent lane while somebody is in the exclusive
    /// lane.
    pub open spec fn wf(self) -> bool {
        self.exclusive ==> self.concurrent == 0
    }

    /// Whether somebody is in `lane`.
    pub open spec fn holds(self, lane: Lane) -> bool {
        match lane {
            Lane::Exclusive => self.exclusive,
            Lane::Concurrent => self.concurrent > 0,
        }
    }

    /// Whether one more test case may enter `lane`: the exclusive lane when
    /// both lanes are empty, the concurrent lane when the exclusive lane is
    /// empty and the count of its holders still fits a `usize`.
    pub open spec fn grants(self, lane: Lane) -> bool {
        match lane {
            Lane::Exclusive => !self.exclusive && self.concurrent == 0,
            Lane::Concurrent => !self.exclusive && self.concurrent < usize::MAX,
        }
    }

    /// The lanes after one more test case entered `lane`.
    pub open spec fn acquire(self, lane: Lane) -> LaneState {
        match lane {
            Lane::Exclusive => LaneState { exclusive: true, ..self },
            Lane::Concurrent => LaneState { concurrent: self.concurrent + 1, ..self },
        }
    }

    /// The lanes after a test case left `lane`.
    pub open spec fn release(self, lane: Lane) -> LaneState {
        match lane {
            Lane::Exclusive => LaneState { exclusive: false, ..self },
            Lane::Concurrent => LaneState { concurrent: (self.concurrent - 1) as nat, ..self },
        }
    }
}

/// Proof of a place in a lane. The controller hands one out when it lets a
/// test case in, and takes it back when the test case leaves.
#[derive(Debug)]
pub struct LaneTicket {
    lane: Lane,
}

impl LaneTicket {
    /// The lane that this ticket is for.
    pub closed spec fn spec_lane(&self) -> Lane {
        self.lane
    }

    /// The lane that this ticket is for.
    pub fn lane(&self) -> (lane: Lane)
        ensures
            lane == self.spec_lane(),
    {
        self.lane
    }
}

/// Decides who may enter which lane.
#[derive(Debug)]
pub struct SerializationController {
    concurrent: usize,
    exclusive: bool,
}

impl View for SerializationController {
    type V = LaneState;

    closed spec fn view(&self) -> LaneState {
        LaneState { concurrent: self.concurrent as nat, exclusive: self.exclusive }
    }
}

impl SerializationController {
    #[verifier::type_invariant]
    spec fn inv(self) -> bool {
        self.exclusive ==> self.concurrent == 0
    }

    /// A controller with both lanes empty.
    pub fn new() -> (controller: SerializationController)
        ensures
            controller@ == (LaneState { concurrent: 0, exclusive: false }),
            controller@.wf(),
    {
        SerializationController { concurrent: 0, exclusive: false }
    }

    /// Whether somebody is in `lane`.
    pub fn holds(&self, lane: Lane) -> (held: bool)
        ensures
            self@.wf(),
            held == self@.holds(lane),
    {
        proof {
            use_type_invariant(self);
        }
        match lane {
            Lane::Exclusive => self.exclusive,
            Lane::Concurrent => self.concurrent > 0,
        }
    }

    /// How many test cases are in the concurrent lane.
    pub fn concurrent_holders(&self) -> (count: usize)
        ensures
            count == self@.concurrent,
    {
        self.concurrent
    }

    /// Asks for a place in `lane`.
    ///
    /// Hands out a ticket exactly when the lanes grant the place, and then
    /// counts the new holder. Otherwise nothing changes, and the caller is to
    /// wait until somebody leaves and ask again.
    pub fn try_acquire(&mut self, lane: Lane) -> (ticket: Option<LaneTicket>)
        ensures
            old(self)@.wf(),
            final(self)@.wf(),
            ticket is Some <==> old(self)@.grants(lane),
            ticket matches Some(t) ==> t.spec_lane() == lane && final(self)@ == old(self)@.acquire(
                lane,
            ),
            ticket is None ==> final(self)@ == old(self)@,
    {
        proof {
            use_type_invariant(&*self);
        }
        match lane {
            Lane::Exclusive => {
                if self.exclusive || self.concurrent > 0 {
                    return None;
                }
                self.exclusive = true;
            },
            Lane::Concurrent => {
                if self.exclusive || self.concurrent == usize::MAX {
                    return None;
                }
                self.concurrent = self.concurrent + 1;
            },
        }
        Some(LaneTicket { lane })
    }

    /// Takes a ticket back: its holder leaves its lane.
    ///
    /// Returns whether somebody was in that lane. A ticket for a lane that
    /// nobody is in is not one of this controller's, and changes nothing.
    pub fn release(&mut self, ticket: LaneTicket) -> (released: bool)
        ensures
            old(self)@.wf(),
            final(self)@.wf(),
            released == old(self)@.holds(ticket.spec_lane()),
            released ==> final(self)@ == old(self)@.release(ticket.spec_lane()),
            !released ==> final(self)@ == old(self)@,
    {
        proof {
            use_type_invariant(&*self);
        }
        match ticket.lane {
            Lane::Exclusive => {
                if !self.exclusive {
                    return false;
                }
                self.exclusive = false;
            },
            Lane::Concurrent => {
                if self.concurrent == 0 {
                    return false;
                }
                self.concurrent = self.concurrent - 1;
            },
        }
        true
    }
}

/// What the test cases of a process see of it: its identity and its
/// file-creation mask.
pub struct Environment {
    pub identity: IdentityView,
    pub umask: u32,
}

/// A process that runs test cases: who is in its lanes, and what they see.
pub struct Process {
    pub lanes: LaneState,
    pub environment: Environment,
}

/// Something that happens in a process that runs test cases.
pub enum ProcessEvent {
    /// A test case enters a lane.
    Enter(Lane),
    /// A test case leaves a lane.
    Leave(Lane),
    /// A test case takes a step that changes the identity or the mask: the
    /// environment after the step is this.
    Change(Environment),
}

impl Process {
    /// Whether `event` can happen now: a test case enters a lane only when
    /// the lanes grant it, leaves a lane only when somebody is in it, and
    /// changes the environment only from the exclusive lane.
    pub open spec fn allows(self, event: ProcessEvent) -> bool {
        match event {
            ProcessEvent::Enter(lane) => self.lanes.grants(lane),
            ProcessEvent::Leave(lane) => self.lanes.holds(lane),
            ProcessEvent::Change(_) => self.lanes.exclusive,
        }
    }

    /// The process after `event`.
    pub open spec fn after(self, event: ProcessEvent) -> Process {
        match event {
            ProcessEvent::Enter(lane) => Process { lanes: self.lanes.acquire(lane), ..self },
            ProcessEvent::Leave(lane) => Process { lanes: self.lanes.release(lane), ..self },
            ProcessEvent::Change(environment) => Process { environment, ..self },
        }
    }

    /// Whether `events` can happen one after the other, starting now.
    pub open spec fn allows_all(self, events: Seq<ProcessEvent>) -> bool
        decreases events.len(),
    {
        if events.len() == 0 {
            true
        } else {
            self.allows_all(events.drop_last()) && self.after_all(events.drop_last()).allows(
                events.last(),
            )
        }
    }

    /// The process after `events` happened one after the other.
    pub open spec fn after_all(self, events: Seq<ProcessEvent>) -> Process
        decreases events.len(),
    {
        if events.len() == 0 {
            self
        } else {
            self.after_all(events.drop_last()).after(events.last())
        }
    }
}

/// The lanes never hold an exclusive test case together with a concurrent
/// one, whatever happens.
pub proof fn lemma_lanes_stay_apart(process: Process, events: Seq<ProcessEvent>)
    requires
        process.lanes.wf(),
        process.allows_all(events),
    ensures
        process.after_all(events).lanes.wf(),
    decreases events.len(),
{
    if events.len() > 0 {
        lemma_lanes_stay_apart(process, events.drop_last());
    }
}

/// While a test case is in the concurrent lane, nothing that happens changes
/// the identity or the mask that it sees.
pub proof fn lemma_exclusivity_step(process: Process, event: ProcessEvent)
    requires
        process.lanes.wf(),
        process.lanes.concurrent > 0,
        process.allows(event),
    ensures
        process.after(event).environment == process.environment,
        !(event is Change),
        event != ProcessEvent::Enter(Lane::Exclusive),
{
}

/// From the moment a test case enters the concurrent lane to the moment it
/// leaves, the identity and the mask that it sees stay what they were,
/// whatever else happens in the process meanwhile: as long as the concurrent
/// lane has not been empty at any moment of `events`, the environment after
/// them is the one before them.
pub proof fn lemma_exclusivity(process: Process, events: Seq<ProcessEvent>)
    requires
        process.lanes.wf(),
        process.allows_all(events),
        forall|k: int|
            0 <= k < events.len() ==> (#[trigger] process.after_all(events.take(k))).lanes.concurrent
                > 0,
    ensures
        process.after_all(events).environment == process.environment,
    decreases events.len(),
{
    if events.len() > 0 {
        let earlier = events.drop_last();
        assert forall|k: int| 0 <= k < earlier.len() implies (#[trigger] process.after_all(
            earlier.take(k),
        )).lanes.concurrent > 0 by {
            assert(earlier.take(k) =~= events.take(k));
        }
        lemma_exclusivity(process, earlier);
        lemma_lanes_stay_apart(process, earlier);
        assert(events.take(events.len() - 1) =~= earlier);
        lemma_exclusivity_step(process.after_all(earlier), events.last());
    }
}

} // verus!
