//! Creating nodes and ports in a world where peers crash: what a dead node left
//! behind is swept before a node is created, and before a port that could not
//! be created is tried again.

use vstd::prelude::*;

use crate::text::{join2, join4};

verus! {

/// How an action went: done, or failed for the reason given in words.
pub type Outcome = Result<(), String>;

/// What a listing of nodes says of one of them.
#[derive(Debug, Clone, Copy, PartialEq, Eq, Structural)]
pub enum NodeStatus {
    /// Its process is alive.
    Alive,
    /// Its process died and left resources behind.
    Dead,
    /// It may not be looked at.
    Inaccessible,
    /// Parts of it are missing or inconsistent.
    Undefined,
}

/// What a sweep does with one node of the listing.
#[derive(Debug, Clone, Copy, PartialEq, Eq, Structural)]
pub struct NodeVisit {
    /// Whether its stale resources are to be removed.
    pub remove_stale_resources: bool,
    /// Whether the sweep goes on to the next node.
    pub proceed: bool,
}

/// What a sweep does with a node in this state: the resources of the dead are
/// removed, and the sweep goes on in any case.
pub open spec fn visit_of(status: NodeStatus) -> NodeVisit {
    NodeVisit { remove_stale_resources: status is Dead, proceed: true }
}

/// Sweeping dead nodes, one step for each node of the listing.
pub fn sweep_dead_nodes(status: NodeStatus) -> (r: NodeVisit)
    ensures
        r == visit_of(status),
        r.remove_stale_resources <==> status is Dead,
        r.proceed,
{
    match status {
        NodeStatus::Dead => NodeVisit { remove_stale_resources: true, proceed: true },
        _ => NodeVisit { remove_stale_resources: false, proceed: true },
    }
}

/// What is worth a warning after an attempt to remove a dead node's resources.
/// A failure is not more than that: the sweep succeeds.
pub fn sweep_warning(removal: &Outcome) -> (r: Option<String>)
    ensures
        match removal {
            Ok(_) => r is None,
            Err(cause) => r matches Some(text) && text@
                == "win-ipc: failed to remove stale resources: "@ + cause@,
        },
{
    match removal {
        Ok(_) => None,
        Err(cause) => Some(
            join2("win-ipc: failed to remove stale resources: ", cause.as_str()),
        ),
    }
}

/// The visits that a sweep makes along a listing.
pub open spec fn sweep(listing: Seq<NodeStatus>) -> Seq<NodeVisit>
    decreases listing.len(),
{
    if listing.len() == 0 {
        seq![]
    } else {
        let visit = visit_of(listing[0]);
        if visit.proceed {
            seq![visit] + sweep(listing.drop_first())
        } else {
            seq![visit]
        }
    }
}

/// A sweep visits every node of the listing, in order, and tries to remove the
/// resources of exactly the dead ones.
pub proof fn law_sweep_tries_every_dead_node(listing: Seq<NodeStatus>)
    ensures
        sweep(listing).len() == listing.len(),
        forall|i: int|
            0 <= i < listing.len() ==> (#[trigger] sweep(listing)[i]).remove_stale_resources == (
            listing[i] is Dead),
    decreases listing.len(),
{
    if listing.len() > 0 {
        let rest = listing.drop_first();
        law_sweep_tries_every_dead_node(rest);
        assert forall|i: int| 0 <= i < listing.len() implies (
        #[trigger] sweep(listing)[i]).remove_stale_resources == (listing[i] is Dead) by {
            if i > 0 {
                assert(sweep(listing)[i] == sweep(rest)[i - 1]);
            }
        }
    }
}

/// What has to be done for a node or a port to come into being.
#[derive(Debug, Clone, Copy, PartialEq, Eq, Structural)]
pub enum CreateAction {
    /// Remove what dead nodes left behind.
    SweepDeadNodes,
    /// Create the node or the port.
    Create,
}

/// The creation of a node: a sweep, then one attempt.
#[derive(Debug)]
pub enum NodeCreation {
    /// The sweep comes next.
    Sweeping,
    /// The attempt comes next.
    Creating,
    /// The node is there.
    Created,
    /// The attempt failed.
    Failed {
        /// Why.
        cause: String,
    },
}

impl NodeCreation {
    /// The state after the action of this one went as `outcome` says. A sweep
    /// has no outcome that matters.
    pub open spec fn next(self, outcome: Outcome) -> NodeCreation {
        match self {
            NodeCreation::Sweeping => NodeCreation::Creating,
            NodeCreation::Creating => match outcome {
                Ok(_) => NodeCreation::Created,
                Err(cause) => NodeCreation::Failed { cause },
            },
            done => done,
        }
    }

    /// What has to be done in this state.
    pub open spec fn action_spec(self) -> Option<CreateAction> {
        match self {
            NodeCreation::Sweeping => Some(CreateAction::SweepDeadNodes),
            NodeCreation::Creating => Some(CreateAction::Create),
            _ => None,
        }
    }

    /// The state after the action of this one went as `outcome` says.
    pub fn advance(self, outcome: Outcome) -> (r: NodeCreation)
        ensures
            r == self.next(outcome),
    {
        match self {
            NodeCreation::Sweeping => NodeCreation::Creating,
            NodeCreation::Creating => match outcome {
                Ok(_) => NodeCreation::Created,
                Err(cause) => NodeCreation::Failed { cause },
            },
            done => done,
        }
    }

    /// What has to be done in this state; nothing once it is decided.
    pub fn action(&self) -> (r: Option<CreateAction>)
        ensures
            r == self.action_spec(),
    {
        match self {
            NodeCreation::Sweeping => Some(CreateAction::SweepDeadNodes),
            NodeCreation::Creating => Some(CreateAction::Create),
            _ => None,
        }
    }
}

/// Starts the creation of a node. Stale resources of dead nodes are swept
/// first, so that a restart after a crash is not blocked by leaked port slots.
pub fn create_node() -> (r: NodeCreation)
    ensures
        r is Sweeping,
{
    NodeCreation::Sweeping
}

/// The creation of a port: one attempt, and after a failure a sweep and one
/// attempt more.
#[derive(Debug)]
pub enum PortCreation {
    /// The first attempt comes next.
    Creating,
    /// The first attempt failed; the sweep comes next.
    Sweeping {
        /// Why the first attempt failed.
        first: String,
    },
    /// The second attempt comes next.
    Recreating {
        /// Why the first attempt failed.
        first: String,
    },
    /// The port is there.
    Created,
    /// Both attempts failed.
    Failed(PortError),
}

/// Why a port could not be created.
#[derive(Debug)]
pub struct PortError {
    /// Why the first attempt failed.
    pub first: String,
    /// Why the second attempt failed.
    pub second: String,
}

impl PortError {
    /// The error in words.
    pub open spec fn message_spec(self) -> Seq<char> {
        "port creation failed: "@ + self.first@ + ", then "@ + self.second@
    }

    /// The error in words.
    pub fn message(&self) -> (r: String)
        ensures
            r@ == self.message_spec(),
    {
        join4("port creation failed: ", self.first.as_str(), ", then ", self.second.as_str())
    }
}

impl PortCreation {
    /// The state after the action of this one went as `outcome` says. A sweep
    /// has no outcome that matters.
    pub open spec fn next(self, outcome: Outcome) -> PortCreation {
        match self {
            PortCreation::Creating => match outcome {
                Ok(_) => PortCreation::Created,
                Err(first) => PortCreation::Sweeping { first },
            },
            PortCreation::Sweeping { first } => PortCreation::Recreating { first },
            PortCreation::Recreating { first } => match outcome {
                Ok(_) => PortCreation::Created,
                Err(second) => PortCreation::Failed(PortError { first, second }),
            },
            done => done,
        }
    }

    /// What has to be done in this state.
    pub open spec fn action_spec(self) -> Option<CreateAction> {
        match self {
            PortCreation::Creating => Some(CreateAction::Create),
            PortCreation::Sweeping { .. } => Some(CreateAction::SweepDeadNodes),
            PortCreation::Recreating { .. } => Some(CreateAction::Create),
            _ => None,
        }
    }

    /// The state after the action of this one went as `outcome` says.
    pub fn advance(self, outcome: Outcome) -> (r: PortCreation)
        ensures
            r == self.next(outcome),
    {
        match self {
            PortCreation::Creating => match outcome {
                Ok(_) => PortCreation::Created,
                Err(first) => PortCreation::Sweeping { first },
            },
            PortCreation::Sweeping { first } => PortCreation::Recreating { first },
            PortCreation::Recreating { first } => match outcome {
                Ok(_) => PortCreation::Created,
                Err(second) => PortCreation::Failed(PortError { first, second }),
            },
            done => done,
        }
    }

    /// What has to be done in this state; nothing once it is decided.
    pub fn action(&self) -> (r: Option<CreateAction>)
        ensures
            r == self.action_spec(),
    {
        match self {
            PortCreation::Creating => Some(CreateAction::Create),
            PortCreation::Sweeping { .. } => Some(CreateAction::SweepDeadNodes),
            PortCreation::Recreating { .. } => Some(CreateAction::Create),
            _ => None,
        }
    }
}

/// Starts the creation of a port. It is tried once more after a sweep of dead
/// nodes: the slot of a crashed peer's port stays taken until then.
pub fn create_port_with_retry() -> (r: PortCreation)
    ensures
        r is Creating,
{
    PortCreation::Creating
}

/// The state that a node's creation reaches with the first `n` outcomes.
pub open spec fn node_reached(outcomes: Seq<Outcome>, n: nat) -> NodeCreation
    decreases n,
{
    if n == 0 {
        NodeCreation::Sweeping
    } else {
        node_reached(outcomes, (n - 1) as nat).next(outcomes[n - 1])
    }
}

/// The state that a port's creation reaches with the first `n` outcomes.
pub open spec fn port_reached(outcomes: Seq<Outcome>, n: nat) -> PortCreation
    decreases n,
{
    if n == 0 {
        PortCreation::Creating
    } else {
        port_reached(outcomes, (n - 1) as nat).next(outcomes[n - 1])
    }
}

/// What the creation of a port comes to, where `outcomes` are those of its
/// actions: one attempt, or an attempt, a sweep and an attempt.
pub open spec fn port_result(outcomes: Seq<Outcome>) -> Result<(), PortError> {
    match outcomes[0] {
        Ok(_) => Ok(()),
        Err(first) => match outcomes[2] {
            Ok(_) => Ok(()),
            Err(second) => Err(PortError { first, second }),
        },
    }
}

/// How many actions the creation of a port takes.
pub open spec fn port_steps(outcomes: Seq<Outcome>) -> nat {
    if outcomes[0] is Ok {
        1
    } else {
        3
    }
}

/// A node is created only after a sweep, and whatever the sweep came to: its
/// creation sweeps, then tries once, and ends as that attempt did.
pub proof fn law_node_is_created_after_a_sweep(outcomes: Seq<Outcome>, n: nat)
    requires
        2 <= n <= outcomes.len(),
    ensures
        node_reached(outcomes, 0).action_spec() == Some(CreateAction::SweepDeadNodes),
        node_reached(outcomes, 1).action_spec() == Some(CreateAction::Create),
        node_reached(outcomes, n) == match outcomes[1] {
            Ok(_) => NodeCreation::Created,
            Err(cause) => NodeCreation::Failed { cause },
        },
        node_reached(outcomes, n).action_spec() is None,
    decreases n,
{
    reveal_with_fuel(node_reached, 3);
    if n > 2 {
        law_node_is_created_after_a_sweep(outcomes, (n - 1) as nat);
    }
}

/// A port that is created at the first attempt is not tried again.
pub proof fn law_port_created_at_once(outcomes: Seq<Outcome>, n: nat)
    requires
        1 <= n <= outcomes.len(),
        outcomes[0] is Ok,
    ensures
        port_reached(outcomes, n) == PortCreation::Created,
        port_reached(outcomes, n).action_spec() is None,
    decreases n,
{
    reveal_with_fuel(port_reached, 2);
    if n > 1 {
        law_port_created_at_once(outcomes, (n - 1) as nat);
    }
}

/// A first failure is followed by a sweep and exactly one attempt more: the
/// port is there if that attempt succeeds, and otherwise the error holds both
/// causes, in order. What the sweep came to plays no part.
pub proof fn law_port_is_retried_once_after_a_sweep(outcomes: Seq<Outcome>, n: nat)
    requires
        3 <= n <= outcomes.len(),
        outcomes[0] is Err,
    ensures
        port_reached(outcomes, 0).action_spec() == Some(CreateAction::Create),
        port_reached(outcomes, 1).action_spec() == Some(CreateAction::SweepDeadNodes),
        port_reached(outcomes, 2).action_spec() == Some(CreateAction::Create),
        port_reached(outcomes, n) == match outcomes[2] {
            Ok(_) => PortCreation::Created,
            Err(second) => PortCreation::Failed(PortError { first: outcomes[0]->Err_0, second }),
        },
        port_reached(outcomes, n).action_spec() is None,
    decreases n,
{
    reveal_with_fuel(port_reached, 4);
    if n > 3 {
        law_port_is_retried_once_after_a_sweep(outcomes, (n - 1) as nat);
    }
}

/// The error of a port names both causes, the first before the second.
pub proof fn law_port_error_names_both_causes(error: PortError)
    ensures
        error.message_spec() == "port creation failed: "@ + error.first@ + ", then "@
            + error.second@,
{
}

} // verus!
