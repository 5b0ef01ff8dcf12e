//! The fixed names the agent is built around.

use vstd::prelude::*;

verus! {

/// Interface of the bus object that stands for the wireless station.
pub const STATION_INTERFACE: &'static str = "net.connman.iwd.Station";

/// Property of the station that names its connection state.
pub const STATE_PROPERTY: &'static str = "State";

/// Value of the state property once the station is connected.
pub const CONNECTED: &'static str = "connected";

/// Interface of the signal that announces changed properties.
pub const SIGNAL_INTERFACE: &'static str = "org.freedesktop.DBus.Properties";

/// Name of the signal that announces changed properties.
pub const SIGNAL_MEMBER: &'static str = "PropertiesChanged";

/// Bus name of the network service whose signals are watched.
pub const SIGNAL_SENDER: &'static str = "net.connman.iwd";

/// Address that answers with the time zone of the caller's public address.
pub const LOOKUP_URL: &'static str = "https://ipapi.co/timezone";

/// Bus name of the service that manages time and date.
pub const TIMEDATE_SERVICE: &'static str = "org.freedesktop.timedate1";

/// Object of the time service that takes the call.
pub const TIMEDATE_PATH: &'static str = "/org/freedesktop/timedate1";

/// Interface of the time service that holds the method.
pub const TIMEDATE_INTERFACE: &'static str = "org.freedesktop.timedate1";

/// Method of the time service that sets the system time zone.
pub const SET_TIMEZONE: &'static str = "SetTimezone";

/// The bound, in seconds, on one call to the time service.
pub const CALL_TIMEOUT_SECS: u64 = 2;

/// Lead of the line that says which time zone is about to be set.
pub const NOTICE_LEAD: &'static str = "Setting timezone to ";

} // verus!
