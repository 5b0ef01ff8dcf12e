//! Decoded bus notifications.

use crate::properties::{collected, entry_texts, PropertyMap};
use crate::text::same_text;
use vstd::prelude::*;

verus! {

/// What a notification says: the interface whose properties changed, and
/// the new value of each changed property.
pub ghost struct BusEventView {
    /// The interface whose properties changed.
    pub interface: Seq<char>,
    /// The new value of each changed property, by the property's name.
    pub changed: Map<Seq<char>, Seq<char>>,
}

/// A decoded property-change notification.
#[derive(Debug)]
pub struct BusEvent {
    /// The interface whose properties changed.
    pub interface: String,
    /// The properties that changed, each with its new value.
    pub changed: PropertyMap,
}

impl View for BusEvent {
    type V = BusEventView;

    open spec fn view(&self) -> BusEventView {
        BusEventView { interface: self.interface@, changed: self.changed@ }
    }
}

impl BusEvent {
    /// The notification that `changed` changed on `interface`.
    pub fn new(interface: String, changed: PropertyMap) -> (event: Self)
        ensures
            event.interface == interface,
            event.changed == changed,
    {
        BusEvent { interface, changed }
    }

    /// The notification made of the two arguments of a property-change
    /// signal as they were read off a message.
    pub fn from_parts(interface: String, entries: Vec<(String, String)>) -> (event: Self)
        ensures
            event@ == (BusEventView {
                interface: interface@,
                changed: collected(entry_texts(entries@)),
            }),
    {
        BusEvent { interface, changed: PropertyMap::from_entries(entries) }
    }

    /// Whether the notification is about `interface` and sets `property`
    /// to exactly `value`. Other properties are not looked at.
    pub fn reports(&self, interface: &str, property: &str, value: &str) -> (verdict: bool)
        ensures
            verdict == self@.reports(interface@, property@, value@),
    {
        if !same_text(self.interface.as_str(), interface) {
            return false;
        }
        match self.changed.get(property) {
            Some(held) => same_text(held.as_str(), value),
            None => false,
        }
    }
}

impl BusEventView {
    /// Whether the notification is about `interface` and sets `property`
    /// to exactly `value`.
    pub open spec fn reports(self, interface: Seq<char>, property: Seq<char>, value: Seq<char>) -> bool {
        &&& self.interface == interface
        &&& self.changed.contains_key(property)
        &&& self.changed[property] == value
    }
}

impl Clone for BusEvent {
    fn clone(&self) -> (copy: Self)
        ensures
            copy@ == self@,
    {
        BusEvent { interface: self.interface.clone(), changed: self.changed.clone() }
    }
}

} // verus!
