use dbus::strings::{BusName, Path};
use zonewatch::client::{
    proxy_of, ActionCommand, ActionInput, ApplyCall, LookupRequest, Phase, ZoneClient,
};
use zonewatch::error::{Failure, OutOfTurn};

/// Stands in for the lookup: answers as scripted and counts its calls.
struct Resolver {
    answer: Result<String, String>,
    calls: usize,
    urls: Vec<String>,
}

/// Stands in for the time service: answers as scripted and records each call.
struct Applier {
    answer: Result<(), String>,
    calls: Vec<(String, bool)>,
}

/// Runs one reconciliation to its end, as the agent does.
fn run(client: &mut ZoneClient<()>, resolver: &mut Resolver, applier: &mut Applier) -> Result<(), Failure> {
    let mut command = client.update_timezone(ActionInput::Begin).unwrap();
    loop {
        let input = match command {
            ActionCommand::Resolve(request) => {
                resolver.calls += 1;
                resolver.urls.push(request.url.to_string());
                ActionInput::Resolved(resolver.answer.clone())
            }
            ActionCommand::Apply(call) => {
                applier.calls.push((call.timezone.clone(), call.interactive));
                ActionInput::Applied(applier.answer.clone())
            }
            ActionCommand::Finish(result) => return result,
        };
        command = client.update_timezone(input).unwrap();
    }
}

fn resolver(answer: Result<&str, &str>) -> Resolver {
    Resolver {
        answer: answer.map(|s| s.to_string()).map_err(|s| s.to_string()),
        calls: 0,
        urls: Vec::new(),
    }
}

fn applier(answer: Result<(), &str>) -> Applier {
    Applier { answer: answer.map_err(|s| s.to_string()), calls: Vec::new() }
}

#[test]
fn resolved_zone_is_applied_without_interaction() {
    let mut client = ZoneClient::new(());
    let mut lookup = resolver(Ok("America/New_York"));
    let mut service = applier(Ok(()));
    let result = run(&mut client, &mut lookup, &mut service);
    assert_eq!(result, Ok(()));
    assert_eq!(service.calls, vec![("America/New_York".to_string(), false)]);
    assert_eq!(lookup.calls, 1);
    assert_eq!(lookup.urls, vec!["https://ipapi.co/timezone".to_string()]);
    assert_eq!(client.current_phase(), Phase::Idle);
}

#[test]
fn failed_lookup_never_applies() {
    let mut client = ZoneClient::new(());
    let mut lookup = resolver(Err("connection refused"));
    let mut service = applier(Ok(()));
    let result = run(&mut client, &mut lookup, &mut service);
    assert_eq!(result, Err(Failure::Lookup("connection refused".to_string())));
    assert_eq!(service.calls.len(), 0);
    assert_eq!(lookup.calls, 1);
    assert_eq!(client.current_phase(), Phase::Idle);
}

#[test]
fn failed_apply_reports_failure_after_one_lookup() {
    let mut client = ZoneClient::new(());
    let mut lookup = resolver(Ok("Europe/Berlin"));
    let mut service = applier(Err("timed out"));
    let result = run(&mut client, &mut lookup, &mut service);
    assert_eq!(result, Err(Failure::Apply("timed out".to_string())));
    assert_eq!(lookup.calls, 1);
    assert_eq!(service.calls, vec![("Europe/Berlin".to_string(), false)]);
    assert_eq!(client.current_phase(), Phase::Idle);
}

#[test]
fn the_client_can_reconcile_again() {
    let mut client = ZoneClient::new(());
    let mut lookup = resolver(Err("no route to host"));
    let mut service = applier(Ok(()));
    assert!(run(&mut client, &mut lookup, &mut service).is_err());
    lookup.answer = Ok("Asia/Tokyo".to_string());
    assert_eq!(run(&mut client, &mut lookup, &mut service), Ok(()));
    assert_eq!(lookup.calls, 2);
    assert_eq!(service.calls, vec![("Asia/Tokyo".to_string(), false)]);
}

#[test]
fn each_step_of_a_reconciliation() {
    let mut client = ZoneClient::new(());
    assert_eq!(client.current_phase(), Phase::Idle);
    assert_eq!(
        client.update_timezone(ActionInput::Begin),
        Ok(ActionCommand::Resolve(LookupRequest { url: "https://ipapi.co/timezone" }))
    );
    assert_eq!(client.current_phase(), Phase::Resolving);
    let step = client.update_timezone(ActionInput::Resolved(Ok("America/New_York".to_string())));
    assert_eq!(
        step,
        Ok(ActionCommand::Apply(ApplyCall {
            service: "org.freedesktop.timedate1",
            path: "/org/freedesktop/timedate1",
            interface: "org.freedesktop.timedate1",
            method: "SetTimezone",
            timezone: "America/New_York".to_string(),
            interactive: false,
            timeout_secs: 2,
        }))
    );
    assert_eq!(client.current_phase(), Phase::Applying);
    assert_eq!(
        client.update_timezone(ActionInput::Applied(Ok(()))),
        Ok(ActionCommand::Finish(Ok(())))
    );
    assert_eq!(client.current_phase(), Phase::Idle);
}

#[test]
fn the_lookup_answer_is_passed_on_verbatim() {
    for body in ["America/New_York\n", "  Europe/Paris", "", "not a zone at all", "Zürich"] {
        let mut client = ZoneClient::new(());
        client.update_timezone(ActionInput::Begin).unwrap();
        match client.update_timezone(ActionInput::Resolved(Ok(body.to_string()))) {
            Ok(ActionCommand::Apply(call)) => {
                assert_eq!(call.timezone, body);
                assert!(!call.interactive);
            }
            other => panic!("expected the call, got {:?}", other),
        }
    }
}

#[test]
fn set_timezone_names_the_time_service() {
    let call = ApplyCall::set_timezone("Africa/Cairo".to_string());
    assert_eq!(call.service, "org.freedesktop.timedate1");
    assert_eq!(call.path, "/org/freedesktop/timedate1");
    assert_eq!(call.interface, "org.freedesktop.timedate1");
    assert_eq!(call.method, "SetTimezone");
    assert_eq!(call.timezone, "Africa/Cairo");
    assert_eq!(call.interactive, false);
    assert_eq!(call.timeout_secs, 2);
}

#[test]
fn notice_names_the_zone_about_to_be_set() {
    let call = ApplyCall::set_timezone("America/New_York".to_string());
    assert_eq!(call.notice(), "Setting timezone to America/New_York");
    assert_eq!(ApplyCall::set_timezone(String::new()).notice(), "Setting timezone to ");
}

#[test]
fn input_out_of_turn_changes_nothing() {
    let mut client = ZoneClient::new(());
    assert_eq!(client.update_timezone(ActionInput::Applied(Ok(()))), Err(OutOfTurn));
    assert_eq!(
        client.update_timezone(ActionInput::Resolved(Ok("Europe/Oslo".to_string()))),
        Err(OutOfTurn)
    );
    assert_eq!(client.current_phase(), Phase::Idle);
    client.update_timezone(ActionInput::Begin).unwrap();
    assert_eq!(client.update_timezone(ActionInput::Begin), Err(OutOfTurn));
    assert_eq!(client.update_timezone(ActionInput::Applied(Err("x".to_string()))), Err(OutOfTurn));
    assert_eq!(client.current_phase(), Phase::Resolving);
    client.update_timezone(ActionInput::Resolved(Ok("Europe/Oslo".to_string()))).unwrap();
    assert_eq!(client.update_timezone(ActionInput::Begin), Err(OutOfTurn));
    assert_eq!(
        client.update_timezone(ActionInput::Resolved(Ok("Europe/Rome".to_string()))),
        Err(OutOfTurn)
    );
    assert_eq!(client.current_phase(), Phase::Applying);
    assert_eq!(
        client.update_timezone(ActionInput::Applied(Ok(()))),
        Ok(ActionCommand::Finish(Ok(())))
    );
}

#[test]
fn proxy_stands_for_the_time_service() {
    let call = ApplyCall::set_timezone("Africa/Cairo".to_string());
    let proxy = call.proxy(17u8).unwrap();
    assert_eq!(&*proxy.destination, "org.freedesktop.timedate1");
    assert_eq!(&*proxy.path, "/org/freedesktop/timedate1");
    assert_eq!(proxy.timeout, std::time::Duration::from_secs(2));
    assert_eq!(proxy.connection, 17);
}

#[test]
fn proxy_of_a_malformed_call_is_refused() {
    let mut call = ApplyCall::set_timezone("Africa/Cairo".to_string());
    call.path = "not a path";
    assert!(call.proxy(()).is_err());
    let mut call = ApplyCall::set_timezone("Africa/Cairo".to_string());
    call.service = "";
    assert!(call.proxy(()).is_err());
}

#[test]
fn clone_of_a_call_is_the_same_call() {
    let call = ApplyCall::set_timezone("Pacific/Auckland".to_string());
    assert_eq!(call.clone(), call);
}

#[test]
fn the_client_keeps_its_connection() {
    let mut client = ZoneClient::new(String::from("system bus"));
    assert_eq!(client.bus(), "system bus");
    client.update_timezone(ActionInput::Begin).unwrap();
    client.update_timezone(ActionInput::Resolved(Err("down".to_string()))).unwrap();
    assert_eq!(client.bus(), "system bus");
    assert_eq!(client.current_phase(), Phase::Idle);
}

#[test]
fn refused_call_carries_the_words_of_the_first_refusal() {
    let mut both = ApplyCall::set_timezone("Africa/Cairo".to_string());
    both.service = "";
    both.path = "not a path";
    assert_eq!(both.proxy(()).unwrap_err(), BusName::new("").unwrap_err());
    let mut object = ApplyCall::set_timezone("Africa/Cairo".to_string());
    object.path = "not a path";
    assert_eq!(object.proxy(()).unwrap_err(), Path::new("not a path").unwrap_err());
}

fn refused<T>(words: &str) -> Result<T, String> {
    Err(words.to_string())
}

#[test]
fn proxy_of_takes_the_first_refusal() {
    assert_eq!(proxy_of(refused("first"), refused("second"), 2, ()).unwrap_err(), "first");
    assert_eq!(proxy_of(refused("first"), Path::new("/a/b"), 2, ()).unwrap_err(), "first");
    assert_eq!(proxy_of(BusName::new("a.b"), refused("second"), 2, ()).unwrap_err(), "second");
    let proxy = proxy_of(BusName::new("a.b"), Path::new("/a/b"), 3, 9u8).unwrap();
    assert_eq!(&*proxy.destination, "a.b");
    assert_eq!(&*proxy.path, "/a/b");
    assert_eq!(proxy.timeout, std::time::Duration::from_secs(3));
    assert_eq!(proxy.connection, 9);
}
