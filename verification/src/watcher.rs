//! Watching the bus for the station becoming connected.

use crate::bus::{read_changed, signal_rule};
use crate::error::Failure;
use crate::event::{BusEvent, BusEventView};
use crate::names::{
    CONNECTED, SIGNAL_INTERFACE, SIGNAL_MEMBER, SIGNAL_SENDER, STATE_PROPERTY, STATION_INTERFACE,
};
use crate::properties::{collected, entry_texts};
use dbus::arg::TypeMismatchError;
use dbus::message::MatchRule;
use dbus::Message;
use vstd::prelude::*;

verus! {

/// The condition the agent acts on: the notification is about the station's
/// interface and sets its state property to exactly the connected value.
pub open spec fn qualifies(event: BusEventView) -> bool {
    event.reports(STATION_INTERFACE@, STATE_PROPERTY@, CONNECTED@)
}

/// Whether `event` says that the station became connected.
///
/// Only the state property is looked at; every comparison is exact.
pub fn matches(event: &BusEvent) -> (verdict: bool)
    ensures
        verdict == qualifies(event@),
{
    event.reports(STATION_INTERFACE, STATE_PROPERTY, CONNECTED)
}

/// A notification about any interface but the station's does not qualify,
/// whatever properties it carries.
pub proof fn lemma_other_interface_never_qualifies(event: BusEventView)
    requires
        event.interface != STATION_INTERFACE@,
    ensures
        !qualifies(event),
{
}

/// A notification about the station that does not carry the state property
/// does not qualify.
pub proof fn lemma_missing_state_never_qualifies(event: BusEventView)
    requires
        event.interface == STATION_INTERFACE@,
        !event.changed.contains_key(STATE_PROPERTY@),
    ensures
        !qualifies(event),
{
}

/// A notification about the station that carries the state property
/// qualifies if that property's value is exactly the connected value, and
/// with any other value it does not.
pub proof fn lemma_state_value_decides(event: BusEventView)
    requires
        event.interface == STATION_INTERFACE@,
        event.changed.contains_key(STATE_PROPERTY@),
    ensures
        qualifies(event) <==> event.changed[STATE_PROPERTY@] == CONNECTED@,
{
}

/// The verdict on a notification rests on what it says and on nothing else:
/// two notifications with the same interface and the same properties get the
/// same verdict, and so does one notification asked about twice.
pub proof fn lemma_verdict_is_repeatable(first: BusEvent, second: BusEvent)
    requires
        first@.interface == second@.interface,
        first@.changed == second@.changed,
    ensures
        qualifies(first@) == qualifies(second@),
{
}

/// Properties other than the state property have no say: two notifications
/// about the same interface that agree on the state property get the same
/// verdict.
pub proof fn lemma_other_properties_are_ignored(first: BusEventView, second: BusEventView)
    requires
        first.interface == second.interface,
        first.changed.contains_key(STATE_PROPERTY@) == second.changed.contains_key(STATE_PROPERTY@),
        first.changed.contains_key(STATE_PROPERTY@) ==> first.changed[STATE_PROPERTY@]
            == second.changed[STATE_PROPERTY@],
    ensures
        qualifies(first) == qualifies(second),
{
}

/// Reads a delivered message as a property-change notification.
///
/// A message whose first two arguments are not a text and a dictionary from
/// texts to text values is a decode failure. What a reading comes to is
/// said by [`interpret`].
pub fn decode(message: &Message) -> (decoded: Result<BusEvent, Failure>)
    ensures
        decoded matches Err(failure) ==> failure is Decode,
{
    interpret(read_changed(message))
}

/// What the reading of a message comes to. The interface and the pairs that
/// were read make the notification, a later pair replacing an earlier one
/// of the same name. A reading that failed is a decode failure, which
/// carries the words of the bus binding.
pub fn interpret(read: Result<(String, Vec<(String, String)>), TypeMismatchError>) -> (decoded: Result<
    BusEvent,
    Failure,
>)
    ensures
        match read {
            Ok((interface, entries)) => decoded matches Ok(event) && event@ == (BusEventView {
                interface: interface@,
                changed: collected(entry_texts(entries@)),
            }),
            Err(mismatch) => decoded matches Err(Failure::Decode(words)) && says(mismatch, words),
        },
{
    match read {
        Ok((interface, entries)) => Ok(BusEvent::from_parts(interface, entries)),
        Err(mismatch) => Err(Failure::Decode(mismatch.to_string())),
    }
}

/// Which signals the agent subscribes to: those called `member` of
/// `interface` that `sender` sends.
#[derive(Debug, Clone, Copy, PartialEq, Eq)]
pub struct SignalFilter {
    /// Interface that the signal belongs to.
    pub interface: &'static str,
    /// Name of the signal.
    pub member: &'static str,
    /// Bus name of the service that sends it.
    pub sender: &'static str,
}

impl SignalFilter {
    /// The filter the agent runs with: property changes announced by the
    /// network service.
    pub open spec fn station_changes() -> SignalFilter {
        SignalFilter { interface: SIGNAL_INTERFACE, member: SIGNAL_MEMBER, sender: SIGNAL_SENDER }
    }

    /// The filter the agent runs with: property changes announced by the
    /// network service.
    pub fn property_changes() -> (filter: SignalFilter)
        ensures
            filter == SignalFilter::station_changes(),
    {
        SignalFilter { interface: SIGNAL_INTERFACE, member: SIGNAL_MEMBER, sender: SIGNAL_SENDER }
    }

    /// The rule to hand to the bus for this filter. A filter with a name
    /// that the bus binding refuses is a subscription failure.
    pub fn rule(&self) -> (rule: Result<MatchRule<'static>, Failure>)
        ensures
            match self.refusal() {
                Some(words) => rule matches Err(Failure::Subscription(said)) && said@ == words,
                None => rule is Ok,
            },
    {
        rule_of(
            crate::bus::interface_name(self.interface),
            crate::bus::member_name(self.member),
            crate::bus::bus_name(self.sender),
        )
    }

    /// The words with which the bus binding refuses the filter: those for
    /// the first of interface, member and sender that it does not take.
    /// `None` where it takes all three.
    pub open spec fn refusal(&self) -> Option<Seq<char>> {
        first_refusal(
            crate::bus::interface_refusal(self.interface@),
            crate::bus::member_refusal(self.member@),
            crate::bus::bus_name_refusal(self.sender@),
        )
    }
}

/// Whether `words` are what `mismatch` says of itself when it is written
/// out.
pub open spec fn says(mismatch: TypeMismatchError, words: String) -> bool {
    vstd::string::to_string_from_display_ensures::<TypeMismatchError>(&mismatch, words)
}

/// The first of three refusals that is one.
pub open spec fn first_refusal(
    interface: Option<Seq<char>>,
    member: Option<Seq<char>>,
    sender: Option<Seq<char>>,
) -> Option<Seq<char>> {
    if interface is Some {
        interface
    } else if member is Some {
        member
    } else {
        sender
    }
}

/// The rule for signals `member` of `interface` sent by `sender`, each as
/// the bus binding took it. Where the binding refused one of them, the
/// first refusal is a subscription failure, which carries its words.
pub fn rule_of(
    interface: Result<dbus::strings::Interface<'static>, String>,
    member: Result<dbus::strings::Member<'static>, String>,
    sender: Result<dbus::strings::BusName<'static>, String>,
) -> (rule: Result<MatchRule<'static>, Failure>)
    ensures
        match (interface, member, sender) {
            (Err(words), _, _) => rule == Err::<MatchRule<'static>, Failure>(
                Failure::Subscription(words),
            ),
            (Ok(_), Err(words), _) => rule == Err::<MatchRule<'static>, Failure>(
                Failure::Subscription(words),
            ),
            (Ok(_), Ok(_), Err(words)) => rule == Err::<MatchRule<'static>, Failure>(
                Failure::Subscription(words),
            ),
            (Ok(_), Ok(_), Ok(_)) => rule is Ok,
        },
{
    match interface {
        Err(words) => Err(Failure::Subscription(words)),
        Ok(interface) => match member {
            Err(words) => Err(Failure::Subscription(words)),
            Ok(member) => match sender {
                Err(words) => Err(Failure::Subscription(words)),
                Ok(sender) => Ok(signal_rule(interface, member, sender)),
            },
        },
    }
}

} // verus!
