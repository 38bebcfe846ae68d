//! Port selection: prefer one port, fall back to whichever the operating
//! system hands out. The caller binds and releases the listeners; the
//! allocator says which port to ask for and what the answers amount to.

use vstd::prelude::*;
use vstd::string::*;

verus! {

/// The port that the service is started on when nothing else holds it.
pub const DEFAULT_PORT: u16 = 7860;

/// The port number that asks the operating system to pick a free one.
pub const ANY_PORT: u16 = 0;

/// What came of binding a loopback port.
#[derive(Debug)]
pub enum BindOutcome {
    /// The listener was bound; this is the port read back from it.
    Bound(u16),
    /// The bind was refused, for the reason given.
    Refused(String),
}

/// A bind's outcome as a mathematical value.
pub ghost enum BindOutcomeView {
    Bound(u16),
    Refused(Seq<char>),
}

impl View for BindOutcome {
    type V = BindOutcomeView;

    open spec fn view(&self) -> BindOutcomeView {
        match self {
            BindOutcome::Bound(port) => BindOutcomeView::Bound(*port),
            BindOutcome::Refused(reason) => BindOutcomeView::Refused(reason@),
        }
    }
}

/// How far an allocation has come, as a mathematical value.
pub ghost enum PortState {
    /// The preferred port is being tried.
    TryPreferred(u16),
    /// The preferred port was refused; any port is being asked for.
    TryAny,
    /// This port was bound and released: it is the allocation's result.
    Chosen(u16),
    /// Not even an arbitrary port could be had, for the reason given.
    Exhausted(Seq<char>),
}

impl PortState {
    /// The port to bind next, while the allocation is under way.
    pub open spec fn request(self) -> Option<u16> {
        match self {
            PortState::TryPreferred(port) => Some(port),
            PortState::TryAny => Some(ANY_PORT),
            _ => None,
        }
    }

    /// The state after the bind that was asked for came back with `outcome`.
    /// A port that was bound is chosen, whichever request it answers; a
    /// refusal of the preferred port leads to the request for any port, and a
    /// refusal of that ends the allocation. Once it has ended, outcomes change
    /// nothing.
    pub open spec fn observe(self, outcome: BindOutcomeView) -> PortState {
        match (self, outcome) {
            (PortState::TryPreferred(_), BindOutcomeView::Bound(port)) => PortState::Chosen(port),
            (PortState::TryPreferred(_), BindOutcomeView::Refused(_)) => PortState::TryAny,
            (PortState::TryAny, BindOutcomeView::Bound(port)) => PortState::Chosen(port),
            (PortState::TryAny, BindOutcomeView::Refused(reason)) => PortState::Exhausted(reason),
            _ => self,
        }
    }
}

/// What the caller of an allocation does next.
#[derive(Debug)]
pub enum PortStep {
    /// Bind this port on loopback, read the bound port back, release the
    /// listener, and hand the outcome in.
    Bind(u16),
    /// Stop: this port is the result.
    Chosen(u16),
    /// Stop: no port could be had, for the reason given.
    Exhausted(String),
}

/// A step as a mathematical value.
pub ghost enum PortStepView {
    Bind(u16),
    Chosen(u16),
    Exhausted(Seq<char>),
}

impl View for PortStep {
    type V = PortStepView;

    open spec fn view(&self) -> PortStepView {
        match self {
            PortStep::Bind(port) => PortStepView::Bind(*port),
            PortStep::Chosen(port) => PortStepView::Chosen(*port),
            PortStep::Exhausted(reason) => PortStepView::Exhausted(reason@),
        }
    }
}

/// The step that a state calls for.
pub open spec fn step_of(state: PortState) -> PortStepView {
    match state {
        PortState::TryPreferred(port) => PortStepView::Bind(port),
        PortState::TryAny => PortStepView::Bind(ANY_PORT),
        PortState::Chosen(port) => PortStepView::Chosen(port),
        PortState::Exhausted(reason) => PortStepView::Exhausted(reason),
    }
}

enum Stage {
    TryPreferred(u16),
    TryAny,
    Chosen(u16),
    Exhausted(String),
}

/// An allocation under way.
pub struct PortAllocator {
    stage: Stage,
}

impl View for PortAllocator {
    type V = PortState;

    closed spec fn view(&self) -> PortState {
        match self.stage {
            Stage::TryPreferred(port) => PortState::TryPreferred(port),
            Stage::TryAny => PortState::TryAny,
            Stage::Chosen(port) => PortState::Chosen(port),
            Stage::Exhausted(reason) => PortState::Exhausted(reason@),
        }
    }
}

impl PortAllocator {
    /// An allocation that prefers `preferred` and has asked for nothing yet.
    pub fn new(preferred: u16) -> (r: Self)
        ensures
            r@ == PortState::TryPreferred(preferred),
    {
        PortAllocator { stage: Stage::TryPreferred(preferred) }
    }

    /// What the caller does next.
    pub fn step(&self) -> (r: PortStep)
        ensures
            r@ == step_of(self@),
    {
        match &self.stage {
            Stage::TryPreferred(port) => PortStep::Bind(*port),
            Stage::TryAny => PortStep::Bind(ANY_PORT),
            Stage::Chosen(port) => PortStep::Chosen(*port),
            Stage::Exhausted(reason) => PortStep::Exhausted(reason.clone()),
        }
    }

    /// Takes in the outcome of the bind that `step` asked for.
    pub fn observe(self, outcome: BindOutcome) -> (r: Self)
        ensures
            r@ == self@.observe(outcome@),
    {
        match self.stage {
            Stage::TryPreferred(_) => match outcome {
                BindOutcome::Bound(port) => PortAllocator { stage: Stage::Chosen(port) },
                BindOutcome::Refused(_) => PortAllocator { stage: Stage::TryAny },
            },
            Stage::TryAny => match outcome {
                BindOutcome::Bound(port) => PortAllocator { stage: Stage::Chosen(port) },
                BindOutcome::Refused(reason) => PortAllocator { stage: Stage::Exhausted(reason) },
            },
            Stage::Chosen(port) => PortAllocator { stage: Stage::Chosen(port) },
            Stage::Exhausted(reason) => PortAllocator { stage: Stage::Exhausted(reason) },
        }
    }
}

/// Whether `outcome` is an answer that an operating system may give to a
/// request for `requested` while exactly the ports in `free` can be bound:
/// a given port is bound if and only if it is free, and a request for any
/// port is answered with a free port or refused.
pub open spec fn answers(free: Set<u16>, requested: u16, outcome: BindOutcomeView) -> bool {
    match outcome {
        BindOutcomeView::Bound(port) => free.contains(port) && port != ANY_PORT && (requested
            != ANY_PORT ==> port == requested),
        BindOutcomeView::Refused(_) => requested != ANY_PORT ==> !free.contains(requested),
    }
}

/// A free preferred port is chosen with a single bind; an occupied one
/// leads to a different port that can be bound, or to the end of the
/// allocation where the operating system has none to give.
pub proof fn law_allocation(
    preferred: u16,
    free: Set<u16>,
    first: BindOutcomeView,
    second: BindOutcomeView,
)
    requires
        preferred != ANY_PORT,
        answers(free, preferred, first),
        answers(free, ANY_PORT, second),
    ensures
        free.contains(preferred) ==> PortState::TryPreferred(preferred).observe(first)
            == PortState::Chosen(preferred),
        !free.contains(preferred) ==> PortState::TryPreferred(preferred).observe(first)
            == PortState::TryAny,
        !free.contains(preferred) ==> match PortState::TryPreferred(preferred).observe(
            first,
        ).observe(second) {
            PortState::Chosen(port) => port != preferred && free.contains(port),
            PortState::Exhausted(reason) => second == BindOutcomeView::Refused(reason),
            _ => false,
        },
{
}

} // verus!
