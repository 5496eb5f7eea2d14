use portal_kombat::outcome::{
    LoginOutcome, OutcomeClassifier, AUTH_FAILED_PHRASE, CONCURRENT_LIMIT_PHRASE, SUCCESS_BEACON,
};

fn classify(body: &str) -> LoginOutcome {
    OutcomeClassifier::new().unwrap().classify(body)
}

#[test]
fn concurrent_limit_phrase_gives_max_sessions() {
    let body = "<p>Sorry, user&apos;s concurrent authentication is over limit</p>";
    assert_eq!(classify(body), LoginOutcome::MaxConcurrentSessions);
}

#[test]
fn auth_failed_phrase_gives_wrong_credentials() {
    let body = "<h2>Firewall authentication failed. Please try again.</h2>";
    assert_eq!(classify(body), LoginOutcome::WrongCredentials);
}

#[test]
fn success_beacon_gives_success() {
    let body = "<script>location.href=\"http://172.16.222.1:1000/keepalive?0a1b2c\"</script>";
    assert_eq!(classify(body), LoginOutcome::Success);
}

#[test]
fn no_marker_gives_unknown() {
    assert_eq!(classify("<html>welcome</html>"), LoginOutcome::Unknown);
    assert_eq!(classify(""), LoginOutcome::Unknown);
}

#[test]
fn error_banner_beats_success_beacon() {
    let both = format!("{} {}", SUCCESS_BEACON, AUTH_FAILED_PHRASE);
    assert_eq!(classify(&both), LoginOutcome::WrongCredentials);
    let all = format!("{} {} {}", SUCCESS_BEACON, AUTH_FAILED_PHRASE, CONCURRENT_LIMIT_PHRASE);
    assert_eq!(classify(&all), LoginOutcome::MaxConcurrentSessions);
}

#[test]
fn markers_match_literally() {
    // A dot in a marker stands for itself, not for any character.
    assert_eq!(
        classify("Firewall authentication failedX Please try again."),
        LoginOutcome::Unknown
    );
    assert_eq!(classify("http://172x16x222x1:1000/keepalive?"), LoginOutcome::Unknown);
    assert_eq!(classify("http://172.16.222.1:1000/keepalive"), LoginOutcome::Unknown);
}
