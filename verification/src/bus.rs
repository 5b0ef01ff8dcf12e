//! What the library takes from the D-Bus binding, on trust.
//!
//! Nothing here is proved. The functions do nothing but call into the
//! `dbus` crate; the rest of the library is verified against what is stated
//! of them. That is little: which names the binding takes is left to the
//! binding, and is only given a name here.

use dbus::arg::{TypeMismatchError, Variant};
use dbus::message::MatchRule;
use dbus::nonblock::Proxy;
use dbus::strings::{BusName, Interface, Member, Path};
use dbus::Message;
use std::collections::HashMap;
use std::time::Duration;
use vstd::prelude::*;

verus! {

/// `dbus::Message`: a message as it came off the bus. Opaque here.
#[verifier::external_type_specification]
#[verifier::external_body]
pub struct ExMessage(Message);

/// `dbus::arg::TypeMismatchError`: why an argument of a message could not
/// be read as the type asked for. Opaque here.
#[verifier::external_type_specification]
#[verifier::external_body]
pub struct ExTypeMismatchError(TypeMismatchError);

/// `dbus::message::MatchRule`: a filter on message headers, to subscribe
/// with. Opaque here.
#[verifier::external_type_specification]
#[verifier::external_body]
pub struct ExMatchRule<'a>(MatchRule<'a>);

/// `dbus::nonblock::Proxy`: a connection together with the service and the
/// object to call on it. Opaque here.
#[verifier::external_type_specification]
#[verifier::external_body]
#[verifier::reject_recursive_types(C)]
pub struct ExProxy<'a, C>(Proxy<'a, C>);

/// `dbus::strings::Interface`: a text that the binding took as the name of
/// an interface. Opaque here.
#[verifier::external_type_specification]
#[verifier::external_body]
pub struct ExInterface<'a>(Interface<'a>);

/// `dbus::strings::Member`: a text that the binding took as the name of a
/// signal or a method. Opaque here.
#[verifier::external_type_specification]
#[verifier::external_body]
pub struct ExMember<'a>(Member<'a>);

/// `dbus::strings::BusName`: a text that the binding took as the name of a
/// service on the bus. Opaque here.
#[verifier::external_type_specification]
#[verifier::external_body]
pub struct ExBusName<'a>(BusName<'a>);

/// `dbus::strings::Path`: a text that the binding took as the path of an
/// object. Opaque here.
#[verifier::external_type_specification]
#[verifier::external_body]
pub struct ExPath<'a>(Path<'a>);

/// The words with which `dbus::strings::Interface::new` refuses `name`, or
/// `None` where it takes it.
pub uninterp spec fn interface_refusal(name: Seq<char>) -> Option<Seq<char>>;

/// The words with which `dbus::strings::Member::new` refuses `name`, or
/// `None` where it takes it.
pub uninterp spec fn member_refusal(name: Seq<char>) -> Option<Seq<char>>;

/// The words with which `dbus::strings::BusName::new` refuses `name`, or
/// `None` where it takes it.
pub uninterp spec fn bus_name_refusal(name: Seq<char>) -> Option<Seq<char>>;

/// The words with which `dbus::strings::Path::new` refuses `name`, or
/// `None` where it takes it.
pub uninterp spec fn path_refusal(name: Seq<char>) -> Option<Seq<char>>;

/// The words of a refusal, or `None` where there was none.
pub open spec fn refusal<T>(made: Result<T, String>) -> Option<Seq<char>> {
    match made {
        Ok(_) => None,
        Err(words) => Some(words@),
    }
}

/// `dbus::strings::Interface::new`: `name` as the name of an interface, or
/// the words with which the binding refuses it. Whether it is refused, and
/// with which words, rests on the text of `name` alone.
#[verifier::external_body]
pub(crate) fn interface_name(name: &str) -> (made: Result<Interface<'static>, String>)
    ensures
        refusal(made) == interface_refusal(name@),
{
    Interface::new(name)
}

/// `dbus::strings::Member::new`: `name` as the name of a signal or a
/// method, or the words with which the binding refuses it. Whether it is
/// refused, and with which words, rests on the text of `name` alone.
#[verifier::external_body]
pub(crate) fn member_name(name: &str) -> (made: Result<Member<'static>, String>)
    ensures
        refusal(made) == member_refusal(name@),
{
    Member::new(name)
}

/// `dbus::strings::BusName::new`: `name` as the name of a service, or the
/// words with which the binding refuses it. Whether it is refused, and with
/// which words, rests on the text of `name` alone.
#[verifier::external_body]
pub(crate) fn bus_name(name: &str) -> (made: Result<BusName<'static>, String>)
    ensures
        refusal(made) == bus_name_refusal(name@),
{
    BusName::new(name)
}

/// `dbus::strings::Path::new`: `name` as the path of an object, or the
/// words with which the binding refuses it. Whether it is refused, and with
/// which words, rests on the text of `name` alone.
#[verifier::external_body]
pub(crate) fn object_path(name: &str) -> (made: Result<Path<'static>, String>)
    ensures
        refusal(made) == path_refusal(name@),
{
    Path::new(name)
}

/// `dbus::Message::read2`, asked for a text and a dictionary from texts to
/// text values: the first two arguments of `message`, the dictionary as
/// the list of its pairs in no particular order.
///
/// Nothing is claimed of what is read, nor of when the reading fails.
#[verifier::external_body]
pub(crate) fn read_changed(message: &Message) -> (read: Result<
    (String, Vec<(String, String)>),
    TypeMismatchError,
>) {
    let (interface, changed): (String, HashMap<String, Variant<String>>) = message.read2()?;
    Ok((interface, changed.into_iter().map(|(name, value)| (name, value.0)).collect()))
}

/// `dbus::message::MatchRule::new_signal` followed by `with_sender`: the
/// rule for signals `member` of `interface` sent by `sender`.
///
/// Nothing is claimed of the rule.
#[verifier::external_body]
pub(crate) fn signal_rule(
    interface: Interface<'static>,
    member: Member<'static>,
    sender: BusName<'static>,
) -> (rule: MatchRule<'static>) {
    MatchRule::new_signal(interface, member).with_sender(sender)
}

/// `dbus::nonblock::Proxy::new`: the proxy for the object `path` of
/// `service` over `connection`, whose calls may take `timeout_secs`
/// seconds.
///
/// Nothing is claimed of the proxy.
#[verifier::external_body]
pub(crate) fn service_proxy<C>(
    service: BusName<'static>,
    path: Path<'static>,
    timeout_secs: u64,
    connection: C,
) -> (proxy: Proxy<'static, C>) {
    Proxy::new(service, path, Duration::from_secs(timeout_secs), connection)
}

} // verus!
