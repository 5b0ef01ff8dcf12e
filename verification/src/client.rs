//! One reconciliation: look the time zone up, then set it.
//!
//! The client decides; the caller does the work. Each call of
//! [`ZoneClient::update_timezone`] takes what the last piece of work came to
//! and gives the next piece of work, or the result of the reconciliation.

use crate::bus::service_proxy;
use crate::error::{Failure, OutOfTurn};
use crate::names::{
    CALL_TIMEOUT_SECS, LOOKUP_URL, NOTICE_LEAD, SET_TIMEZONE, TIMEDATE_INTERFACE, TIMEDATE_PATH,
    TIMEDATE_SERVICE,
};
use dbus::nonblock::Proxy;
use vstd::prelude::*;
use vstd::string::StringExecFns;

verus! {

/// A request for the time zone of the host's public address: one GET of
/// `url`, whose body is the answer.
#[derive(Debug, Clone, Copy, PartialEq, Eq)]
pub struct LookupRequest {
    /// The address to fetch.
    pub url: &'static str,
}

/// A call to the time service that sets the system time zone.
#[derive(Debug, PartialEq, Eq)]
pub struct ApplyCall {
    /// Bus name of the service to call.
    pub service: &'static str,
    /// Object of the service that takes the call.
    pub path: &'static str,
    /// Interface that holds the method.
    pub interface: &'static str,
    /// The method to call.
    pub method: &'static str,
    /// First argument: the time zone to set, as the lookup gave it.
    pub timezone: String,
    /// Second argument: whether the service may ask the user to confirm.
    pub interactive: bool,
    /// How many seconds the call may take.
    pub timeout_secs: u64,
}

impl ApplyCall {
    /// The call that sets the system time zone to `timezone` without asking
    /// the user.
    pub open spec fn to_set(timezone: String) -> ApplyCall {
        ApplyCall {
            service: TIMEDATE_SERVICE,
            path: TIMEDATE_PATH,
            interface: TIMEDATE_INTERFACE,
            method: SET_TIMEZONE,
            timezone,
            interactive: false,
            timeout_secs: CALL_TIMEOUT_SECS,
        }
    }

    /// The call that sets the system time zone to `timezone` without asking
    /// the user. The text is passed on as it is.
    pub fn set_timezone(timezone: String) -> (call: ApplyCall)
        ensures
            call == ApplyCall::to_set(timezone),
    {
        ApplyCall {
            service: TIMEDATE_SERVICE,
            path: TIMEDATE_PATH,
            interface: TIMEDATE_INTERFACE,
            method: SET_TIMEZONE,
            timezone,
            interactive: false,
            timeout_secs: CALL_TIMEOUT_SECS,
        }
    }

    /// The proxy to make the call through, over `connection`: it stands
    /// for the call's object on the call's service and bounds each call by
    /// the call's timeout. Where the bus binding refuses the service or the
    /// object, the words of its refusal, to hand back as the call's failure.
    pub fn proxy<C>(&self, connection: C) -> (proxy: Result<Proxy<'static, C>, String>)
        ensures
            match self.refusal() {
                Some(words) => proxy matches Err(said) && said@ == words,
                None => proxy is Ok,
            },
    {
        proxy_of(
            crate::bus::bus_name(self.service),
            crate::bus::object_path(self.path),
            self.timeout_secs,
            connection,
        )
    }

    /// The words with which the bus binding refuses the call: those for
    /// the service, or else those for the object. `None` where it takes
    /// both.
    pub open spec fn refusal(&self) -> Option<Seq<char>> {
        if crate::bus::bus_name_refusal(self.service@) is Some {
            crate::bus::bus_name_refusal(self.service@)
        } else {
            crate::bus::path_refusal(self.path@)
        }
    }

    /// The line to write before the call is made: it says which time zone
    /// is about to be set.
    pub fn notice(&self) -> (line: String)
        ensures
            line@ == NOTICE_LEAD@ + self.timezone@,
    {
        NOTICE_LEAD.to_owned().concat(self.timezone.as_str())
    }
}

/// The proxy for the object `path` of `service` over `connection`, whose
/// calls may take `timeout_secs` seconds, with service and object as the
/// bus binding took them. Where the binding refused one of them, the words
/// of the first refusal.
pub fn proxy_of<C>(
    service: Result<dbus::strings::BusName<'static>, String>,
    path: Result<dbus::strings::Path<'static>, String>,
    timeout_secs: u64,
    connection: C,
) -> (proxy: Result<Proxy<'static, C>, String>)
    ensures
        match (service, path) {
            (Err(words), _) => proxy == Err::<Proxy<'static, C>, String>(words),
            (Ok(_), Err(words)) => proxy == Err::<Proxy<'static, C>, String>(words),
            (Ok(_), Ok(_)) => proxy is Ok,
        },
{
    match service {
        Err(words) => Err(words),
        Ok(service) => match path {
            Err(words) => Err(words),
            Ok(path) => Ok(service_proxy(service, path, timeout_secs, connection)),
        },
    }
}

impl Clone for ApplyCall {
    fn clone(&self) -> (copy: Self)
        ensures
            copy == *self,
    {
        ApplyCall {
            service: self.service,
            path: self.path,
            interface: self.interface,
            method: self.method,
            timezone: self.timezone.clone(),
            interactive: self.interactive,
            timeout_secs: self.timeout_secs,
        }
    }
}

/// Where a client stands in a reconciliation.
#[derive(Debug, Clone, Copy, PartialEq, Eq)]
pub enum Phase {
    /// No reconciliation is under way.
    Idle,
    /// The lookup was asked for and has not come back.
    Resolving,
    /// The call to the time service was asked for and has not come back.
    Applying,
}

/// What the caller hands to the client.
#[derive(Debug, PartialEq, Eq)]
pub enum ActionInput {
    /// Start a reconciliation.
    Begin,
    /// The lookup ended: with the body of the answer, or with the words of
    /// its failure.
    Resolved(Result<String, String>),
    /// The call to the time service ended: well, or with the words of its
    /// failure.
    Applied(Result<(), String>),
}

/// What the client asks of the caller.
#[derive(Debug, PartialEq, Eq)]
pub enum ActionCommand {
    /// Make the lookup and hand back [`ActionInput::Resolved`].
    Resolve(LookupRequest),
    /// Write the call's notice, make the call and hand back
    /// [`ActionInput::Applied`].
    Apply(ApplyCall),
    /// The reconciliation is over, with this result.
    Finish(Result<(), Failure>),
}

/// The client's move: from a phase and an input to the next phase and the
/// command to carry out. `None` where the input does not answer what the
/// phase waits for.
///
/// A lookup that failed ends the reconciliation at once, and nothing is
/// applied. A lookup that succeeded is followed by exactly one call, which
/// carries the answer unchanged.
pub open spec fn next_action(phase: Phase, input: ActionInput) -> Option<(Phase, ActionCommand)> {
    match (phase, input) {
        (Phase::Idle, ActionInput::Begin) => Some(
            (Phase::Resolving, ActionCommand::Resolve(LookupRequest { url: LOOKUP_URL })),
        ),
        (Phase::Resolving, ActionInput::Resolved(Ok(timezone))) => Some(
            (Phase::Applying, ActionCommand::Apply(ApplyCall::to_set(timezone))),
        ),
        (Phase::Resolving, ActionInput::Resolved(Err(detail))) => Some(
            (Phase::Idle, ActionCommand::Finish(Err(Failure::Lookup(detail)))),
        ),
        (Phase::Applying, ActionInput::Applied(Ok(_))) => Some(
            (Phase::Idle, ActionCommand::Finish(Ok(()))),
        ),
        (Phase::Applying, ActionInput::Applied(Err(detail))) => Some(
            (Phase::Idle, ActionCommand::Finish(Err(Failure::Apply(detail)))),
        ),
        _ => None,
    }
}

/// The part of the agent that brings the system time zone up to date. It
/// holds the connection to the bus, of whatever type `C` the caller makes
/// its calls through.
#[derive(Debug)]
pub struct ZoneClient<C> {
    connection: C,
    phase: Phase,
}

impl<C> ZoneClient<C> {
    /// Where the client stands.
    pub closed spec fn phase(&self) -> Phase {
        self.phase
    }

    /// The connection the client holds.
    pub closed spec fn connection(&self) -> C {
        self.connection
    }

    /// A client over `connection`, with no reconciliation under way.
    pub fn new(connection: C) -> (client: Self)
        ensures
            client.phase() == Phase::Idle,
            client.connection() == connection,
    {
        ZoneClient { connection, phase: Phase::Idle }
    }

    /// Where the client stands.
    pub fn current_phase(&self) -> (phase: Phase)
        ensures
            phase == self.phase(),
    {
        self.phase
    }

    /// The connection to make the client's calls through.
    pub fn bus(&self) -> (connection: &C)
        ensures
            *connection == self.connection(),
    {
        &self.connection
    }

    /// Takes the reconciliation one step further.
    ///
    /// Where `input` answers what the client waits for, the client moves as
    /// [`next_action`] says and returns the command to carry out. Otherwise
    /// it stays as it is and returns [`OutOfTurn`].
    pub fn update_timezone(&mut self, input: ActionInput) -> (step: Result<ActionCommand, OutOfTurn>)
        ensures
            final(self).connection() == old(self).connection(),
            match next_action(old(self).phase(), input) {
                Some((phase, command)) => {
                    &&& step == Ok::<ActionCommand, OutOfTurn>(command)
                    &&& final(self).phase() == phase
                },
                None => {
                    &&& step == Err::<ActionCommand, OutOfTurn>(OutOfTurn)
                    &&& final(self).phase() == old(self).phase()
                },
            },
    {
        match (self.phase, input) {
            (Phase::Idle, ActionInput::Begin) => {
                self.phase = Phase::Resolving;
                Ok(ActionCommand::Resolve(LookupRequest { url: LOOKUP_URL }))
            },
            (Phase::Resolving, ActionInput::Resolved(Ok(timezone))) => {
                self.phase = Phase::Applying;
                Ok(ActionCommand::Apply(ApplyCall::set_timezone(timezone)))
            },
            (Phase::Resolving, ActionInput::Resolved(Err(detail))) => {
                self.phase = Phase::Idle;
                Ok(ActionCommand::Finish(Err(Failure::Lookup(detail))))
            },
            (Phase::Applying, ActionInput::Applied(Ok(_))) => {
                self.phase = Phase::Idle;
                Ok(ActionCommand::Finish(Ok(())))
            },
            (Phase::Applying, ActionInput::Applied(Err(detail))) => {
                self.phase = Phase::Idle;
                Ok(ActionCommand::Finish(Err(Failure::Apply(detail))))
            },
            _ => Err(OutOfTurn),
        }
    }
}

/// What a whole reconciliation comes to, given what the lookup and the call
/// answer: the first failure, or success. The call's answer counts only
/// after a lookup that succeeded.
pub open spec fn outcome(lookup: Result<String, String>, apply: Result<(), String>) -> Result<
    (),
    Failure,
> {
    match lookup {
        Err(detail) => Err(Failure::Lookup(detail)),
        Ok(_) => match apply {
            Ok(_) => Ok(()),
            Err(detail) => Err(Failure::Apply(detail)),
        },
    }
}

/// A reconciliation starts with the lookup. A lookup that succeeded is
/// followed by the call that sets exactly the time zone it gave, without
/// interaction, and the call's answer ends the reconciliation. A lookup that
/// failed ends it at once. Either way the result is [`outcome`] and the
/// client is idle again.
pub proof fn lemma_reconciliation_runs_in_order(
    lookup: Result<String, String>,
    apply: Result<(), String>,
)
    ensures
        next_action(Phase::Idle, ActionInput::Begin) == Some(
            (Phase::Resolving, ActionCommand::Resolve(LookupRequest { url: LOOKUP_URL })),
        ),
        match lookup {
            Ok(timezone) => {
                &&& next_action(Phase::Resolving, ActionInput::Resolved(lookup)) == Some(
                    (Phase::Applying, ActionCommand::Apply(ApplyCall::to_set(timezone))),
                )
                &&& ApplyCall::to_set(timezone).timezone == timezone
                &&& !ApplyCall::to_set(timezone).interactive
                &&& next_action(Phase::Applying, ActionInput::Applied(apply)) == Some(
                    (Phase::Idle, ActionCommand::Finish(outcome(lookup, apply))),
                )
            },
            Err(_) => next_action(Phase::Resolving, ActionInput::Resolved(lookup)) == Some(
                (Phase::Idle, ActionCommand::Finish(outcome(lookup, apply))),
            ),
        },
{
}

/// The call to the time service is asked for only in answer to a lookup
/// that succeeded, and with the text of that lookup: after a failed lookup
/// nothing is applied.
pub proof fn lemma_apply_follows_successful_lookup(phase: Phase, input: ActionInput)
    ensures
        next_action(phase, input) matches Some((_, ActionCommand::Apply(call))) ==> {
            &&& phase == Phase::Resolving
            &&& input == ActionInput::Resolved(Ok::<String, String>(call.timezone))
        },
{
}

/// The lookup is asked for only at the start of a reconciliation, so each
/// reconciliation makes one lookup, however it ends.
pub proof fn lemma_lookup_only_at_start(phase: Phase, input: ActionInput)
    ensures
        next_action(phase, input) matches Some((_, ActionCommand::Resolve(_))) ==> {
            &&& phase == Phase::Idle
            &&& input == ActionInput::Begin
        },
{
}

} // verus!
