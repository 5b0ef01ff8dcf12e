//! What can go wrong, and which of it ends the agent.

use vstd::prelude::*;
use vstd::string::StringExecFns;

verus! {

/// Lead of the line that reports a refused or failed bus subscription.
pub const SUBSCRIPTION_LEAD: &'static str = "bus subscription failed: ";

/// Lead of the line that reports a notification of an unexpected shape.
pub const DECODE_LEAD: &'static str = "notification discarded: ";

/// Lead of the line that reports a failed time zone lookup.
pub const LOOKUP_LEAD: &'static str = "time zone lookup failed: ";

/// Lead of the line that reports a failed call to the time service.
pub const APPLY_LEAD: &'static str = "setting the time zone failed: ";

/// The line that reports the loss of the bus.
pub const DISCONNECTED_LINE: &'static str = "lost connection to the bus";

/// The input handed to a client or to a loop does not answer what it last
/// asked for.
#[derive(Debug, Clone, Copy, PartialEq, Eq)]
pub struct OutOfTurn;

/// One failure of the agent. Each variant but the last carries the words of
/// the collaborator that failed.
#[derive(Debug, PartialEq, Eq)]
pub enum Failure {
    /// The bus refused to register or to release the signal subscription.
    Subscription(String),
    /// A delivered message did not have the shape of a property change.
    Decode(String),
    /// The time zone lookup over the network failed.
    Lookup(String),
    /// The call to the time service failed or timed out.
    Apply(String),
    /// The stream of notifications ended: the bus is gone.
    Disconnected,
}

impl Failure {
    /// Whether the failure ends the agent. A failure that belongs to one
    /// notification or one reconciliation does not; one of the subscription
    /// or of the transport does.
    pub open spec fn fatal(&self) -> bool {
        self is Subscription || self is Disconnected
    }

    /// The line that reports the failure.
    pub open spec fn description(&self) -> Seq<char> {
        match self {
            Failure::Subscription(detail) => SUBSCRIPTION_LEAD@ + detail@,
            Failure::Decode(detail) => DECODE_LEAD@ + detail@,
            Failure::Lookup(detail) => LOOKUP_LEAD@ + detail@,
            Failure::Apply(detail) => APPLY_LEAD@ + detail@,
            Failure::Disconnected => DISCONNECTED_LINE@,
        }
    }

    /// Whether the failure ends the agent.
    pub fn is_fatal(&self) -> (fatal: bool)
        ensures
            fatal == self.fatal(),
    {
        match self {
            Failure::Subscription(_) => true,
            Failure::Decode(_) => false,
            Failure::Lookup(_) => false,
            Failure::Apply(_) => false,
            Failure::Disconnected => true,
        }
    }

    /// The line that reports the failure on the diagnostic channel.
    pub fn describe(&self) -> (line: String)
        ensures
            line@ == self.description(),
    {
        match self {
            Failure::Subscription(detail) => SUBSCRIPTION_LEAD.to_owned().concat(detail.as_str()),
            Failure::Decode(detail) => DECODE_LEAD.to_owned().concat(detail.as_str()),
            Failure::Lookup(detail) => LOOKUP_LEAD.to_owned().concat(detail.as_str()),
            Failure::Apply(detail) => APPLY_LEAD.to_owned().concat(detail.as_str()),
            Failure::Disconnected => DISCONNECTED_LINE.to_owned(),
        }
    }
}

impl Clone for Failure {
    fn clone(&self) -> (copy: Self)
        ensures
            copy == *self,
    {
        match self {
            Failure::Subscription(detail) => Failure::Subscription(detail.clone()),
            Failure::Decode(detail) => Failure::Decode(detail.clone()),
            Failure::Lookup(detail) => Failure::Lookup(detail.clone()),
            Failure::Apply(detail) => Failure::Apply(detail.clone()),
            Failure::Disconnected => Failure::Disconnected,
        }
    }
}

} // verus!
