use portal_kombat::config::{Config, Profile};
use portal_kombat::machine::{Action, Machine, MachineState, Observation};
use portal_kombat::outcome::LoginOutcome;
use portal_kombat::probe::{HttpReply, PROBE_URL};

fn machine() -> Machine {
    let config = Config {
        refresh: 60,
        profile: Profile { username: "alice".to_string(), password: "pw".to_string() },
        timeouts: 3,
    };
    Machine::new(config).unwrap()
}

fn reply(status: u16, location: Option<&str>, body: &str) -> Observation {
    Observation::Reply(Some(HttpReply {
        status,
        location: location.map(|l| l.to_string()),
        body: body.to_string(),
    }))
}

fn is_network(action: &Action) -> bool {
    !matches!(action, Action::QueryAdapter)
}

#[test]
fn new_machine_rests_at_idle() {
    let m = machine();
    assert_eq!(m.state(), MachineState::Idle);
    assert!(!m.in_cycle());
    assert!(m.action().is_none());
    assert!(m.session().is_none());
    assert_eq!(m.outcome(), None);
}

#[test]
fn adapter_off_ends_cycle_without_network_calls() {
    let mut m = machine();
    let first = m.reset();
    assert!(matches!(first, Action::QueryAdapter));
    assert!(!is_network(&first));
    let next = m.dispatch(Observation::Adapter(Some(false)));
    assert!(next.is_none());
    assert_eq!(m.state(), MachineState::Idle);
    assert!(m.session().is_none());
    assert!(!m.in_cycle());
}

#[test]
fn adapter_query_failure_counts_as_off() {
    let mut m = machine();
    m.reset();
    assert!(m.dispatch(Observation::Adapter(None)).is_none());
    assert_eq!(m.state(), MachineState::Idle);
    assert!(m.session().is_none());
}

#[test]
fn reachable_internet_ends_cycle_without_probe() {
    let mut m = machine();
    m.reset();
    let next = m.dispatch(Observation::Adapter(Some(true)));
    assert_eq!(m.state(), MachineState::AdapterOn);
    assert!(matches!(next, Some(Action::CheckInternet { timeout_secs: 3 })));
    let next = m.dispatch(Observation::Internet(true));
    assert!(next.is_none());
    assert_eq!(m.state(), MachineState::Idle);
    assert!(m.session().is_none());
    assert_eq!(m.outcome(), None);
}

#[test]
fn no_portal_ends_cycle() {
    let mut m = machine();
    m.reset();
    m.dispatch(Observation::Adapter(Some(true)));
    let next = m.dispatch(Observation::Internet(false));
    match next {
        Some(Action::Probe { url, timeout_secs }) => {
            assert_eq!(url, PROBE_URL);
            assert_eq!(timeout_secs, 3);
        }
        _ => panic!("expected a probe"),
    }
    assert!(m.dispatch(reply(204, None, "")).is_none());
    assert_eq!(m.state(), MachineState::Idle);
}

#[test]
fn probe_transport_error_ends_cycle() {
    let mut m = machine();
    m.reset();
    m.dispatch(Observation::Adapter(Some(true)));
    m.dispatch(Observation::Internet(false));
    assert!(m.dispatch(Observation::Reply(None)).is_none());
    assert_eq!(m.state(), MachineState::Idle);
}

fn to_login_page(m: &mut Machine) {
    m.reset();
    m.dispatch(Observation::Adapter(Some(true)));
    m.dispatch(Observation::Internet(false));
    let next = m.dispatch(reply(302, Some("http://portal.example/fgtauth?77"), ""));
    assert_eq!(m.state(), MachineState::OnLoginPage);
    match next {
        Some(Action::FetchLoginPage { url, .. }) => assert_eq!(url, "http://portal.example/fgtauth?77"),
        _ => panic!("expected the login page to be fetched"),
    }
    let session = m.session().as_ref().unwrap();
    assert_eq!(session.probe_url, PROBE_URL);
    assert_eq!(session.portal_url.as_deref(), Some("http://portal.example/fgtauth?77"));
}

#[test]
fn detected_portal_goes_to_login_then_idle_for_every_outcome() {
    let answers = [
        ("http://172.16.222.1:1000/keepalive?1", LoginOutcome::Success),
        ("Firewall authentication failed. Please try again.", LoginOutcome::WrongCredentials),
        ("Sorry, user&apos;s concurrent authentication is over limit", LoginOutcome::MaxConcurrentSessions),
        ("something else", LoginOutcome::Unknown),
    ];
    for (body, outcome) in answers {
        let mut m = machine();
        to_login_page(&mut m);
        let page = r#"<form action="/fgtauth"><input name="magic" value="m1"></form>"#;
        let next = m.dispatch(reply(200, None, page));
        assert_eq!(m.state(), MachineState::OnLoginPage);
        match next {
            Some(Action::SubmitLogin { url, fields, timeout_secs }) => {
                assert_eq!(url, "http://portal.example/fgtauth");
                assert_eq!(timeout_secs, 3);
                let fields: Vec<(&str, &str)> =
                    fields.iter().map(|(k, v)| (k.as_str(), v.as_str())).collect();
                assert_eq!(fields, vec![("username", "alice"), ("password", "pw"), ("magic", "m1")]);
            }
            _ => panic!("expected a submission"),
        }
        let next = m.dispatch(reply(200, None, body));
        assert!(next.is_none());
        assert_eq!(m.state(), MachineState::Idle);
        assert!(m.session().is_none());
        assert_eq!(m.outcome(), Some(outcome));
    }
}

#[test]
fn login_page_without_form_ends_cycle_as_unknown() {
    let mut m = machine();
    to_login_page(&mut m);
    assert!(m.dispatch(reply(200, None, "<p>nothing</p>")).is_none());
    assert_eq!(m.state(), MachineState::Idle);
    assert_eq!(m.outcome(), Some(LoginOutcome::Unknown));
}

#[test]
fn failed_submission_ends_cycle_as_unknown() {
    let mut m = machine();
    to_login_page(&mut m);
    m.dispatch(reply(200, None, r#"<form action="/x"></form>"#));
    assert!(m.dispatch(Observation::Reply(None)).is_none());
    assert_eq!(m.state(), MachineState::Idle);
    assert_eq!(m.outcome(), Some(LoginOutcome::Unknown));
}

#[test]
fn unrelated_observation_is_ignored() {
    let mut m = machine();
    m.reset();
    let next = m.dispatch(Observation::Internet(true));
    assert!(matches!(next, Some(Action::QueryAdapter)));
    assert_eq!(m.state(), MachineState::Idle);
    assert!(m.in_cycle());
    let mut idle = machine();
    assert!(idle.dispatch(Observation::Adapter(Some(true))).is_none());
    assert_eq!(idle.state(), MachineState::Idle);
}

#[test]
fn two_adapter_off_cycles_leave_the_same_machine() {
    let mut m = machine();
    to_login_page(&mut m);
    for _ in 0..2 {
        m.reset();
        assert!(m.dispatch(Observation::Adapter(Some(false))).is_none());
        assert_eq!(m.state(), MachineState::Idle);
        assert!(m.session().is_none());
        assert_eq!(m.outcome(), None);
        assert!(m.action().is_none());
    }
}

#[test]
fn constructors_build_the_components() {
    assert!(portal_kombat::outcome::OutcomeClassifier::new().is_some());
    assert!(portal_kombat::captive::Captive::new(7).is_some());
    let m = machine();
    assert_eq!(m.state(), MachineState::Idle);
}
