use portal_kombat::captive::Captive;
use portal_kombat::probe::{find_script_redirect, read_probe, HttpReply, PROBE_URL};

fn reply(status: u16, location: Option<&str>, body: &str) -> HttpReply {
    HttpReply {
        status,
        location: location.map(|l| l.to_string()),
        body: body.to_string(),
    }
}

#[test]
fn redirect_with_location_names_portal() {
    for status in [301u16, 302, 303, 307, 308] {
        let r = read_probe(&reply(status, Some("http://10.0.0.1/login?x=1"), ""));
        assert!(r.captive);
        assert_eq!(r.portal_url.as_deref(), Some("http://10.0.0.1/login?x=1"));
    }
}

#[test]
fn redirect_without_location_is_not_captive() {
    let r = read_probe(&reply(302, None, "window.location=\"http://portal.example/login\""));
    assert!(!r.captive);
    assert_eq!(r.portal_url, None);
}

#[test]
fn script_redirect_in_success_page_names_portal() {
    let body = "<html><script>window.location=\"http://portal.example/login\";</script></html>";
    let r = read_probe(&reply(200, None, body));
    assert!(r.captive);
    assert_eq!(r.portal_url.as_deref(), Some("http://portal.example/login"));
}

#[test]
fn single_quoted_https_redirect_is_found() {
    let body = "x window.location='https://gw.example:1003/fgtauth?abc' y";
    assert_eq!(
        find_script_redirect(body).as_deref(),
        Some("https://gw.example:1003/fgtauth?abc")
    );
}

#[test]
fn first_script_redirect_wins() {
    let body = "window.location='http://a.example/1' window.location='http://b.example/2'";
    assert_eq!(find_script_redirect(body).as_deref(), Some("http://a.example/1"));
}

#[test]
fn malformed_script_redirects_are_ignored() {
    assert_eq!(find_script_redirect("window.location=\"\""), None);
    assert_eq!(find_script_redirect("window.location=\"http://\""), None);
    assert_eq!(find_script_redirect("window.location=\"ftp://x/\""), None);
    assert_eq!(find_script_redirect("window.location=\"http://unterminated"), None);
    assert_eq!(find_script_redirect("window.location = \"http://spaced/\""), None);
    assert_eq!(find_script_redirect(""), None);
}

#[test]
fn plain_success_is_not_captive() {
    let r = read_probe(&reply(204, None, ""));
    assert!(!r.captive);
    assert_eq!(r.portal_url, None);
    let r = read_probe(&reply(200, None, "<html>all good</html>"));
    assert!(!r.captive);
    assert_eq!(r.portal_url, None);
}

#[test]
fn other_statuses_are_not_captive() {
    let body = "window.location=\"http://portal.example/login\"";
    for status in [100u16, 404, 500, 199, 400] {
        let r = read_probe(&reply(status, Some("http://x/"), body));
        assert!(!r.captive);
        assert_eq!(r.portal_url, None);
    }
}

#[test]
fn failed_probe_request_is_not_captive() {
    let captive = Captive::new(5).unwrap();
    let r = captive.probe(&None);
    assert!(!r.captive);
    assert_eq!(r.portal_url, None);
    assert_eq!(captive.probe_url().as_str(), PROBE_URL);
    assert_eq!(captive.timeout(), 5);
}
