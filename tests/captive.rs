use portal_kombat::captive::{portal_origin, submission_from_form, Captive};
use portal_kombat::config::Profile;
use portal_kombat::form::{FormInput, HtmlForm};
use portal_kombat::outcome::LoginOutcome;
use portal_kombat::probe::HttpReply;

fn profile() -> Profile {
    Profile { username: "alice".to_string(), password: "s3cret".to_string() }
}

fn page(status: u16, body: &str) -> Option<HttpReply> {
    Some(HttpReply { status, location: None, body: body.to_string() })
}

fn pairs(v: &[(String, String)]) -> Vec<(&str, &str)> {
    v.iter().map(|(k, v)| (k.as_str(), v.as_str())).collect()
}

#[test]
fn origin_is_scheme_and_host() {
    assert_eq!(portal_origin("http://portal.example/login?x=1").as_deref(), Some("http://portal.example"));
    assert_eq!(portal_origin("https://10.0.0.1:1003/fgtauth").as_deref(), Some("https://10.0.0.1:1003"));
    assert_eq!(portal_origin("http://host").as_deref(), Some("http://host"));
    assert_eq!(portal_origin("http:///path"), None);
    assert_eq!(portal_origin("ftp://host/x"), None);
    assert_eq!(portal_origin("/relative"), None);
    assert_eq!(portal_origin(""), None);
}

#[test]
fn submission_goes_to_action_and_leaves_submit_out() {
    let html = r#"<form action="/fgtauth"><input name="magic" value="XYZ"><input name="4Tredir" value="http://r/"></form>"#;
    let captive = Captive::new(10).unwrap();
    let sub = captive
        .prepare_login(&profile(), "http://172.16.222.1:1000/fgtauth?0123", &page(200, html))
        .unwrap();
    assert_eq!(sub.url, "http://172.16.222.1:1000/fgtauth");
    assert_eq!(
        pairs(&sub.fields),
        vec![("username", "alice"), ("password", "s3cret"), ("magic", "XYZ"), ("4Tredir", "http://r/")]
    );
}

#[test]
fn submission_from_form_without_action_posts_to_empty_path() {
    let form = HtmlForm {
        action: None,
        inputs: vec![FormInput { name: Some("other".to_string()), value: Some("v".to_string()) }],
    };
    let sub = submission_from_form(&profile(), "http://portal.example/x/y", &form).unwrap();
    assert_eq!(sub.url, "http://portal.example");
    assert_eq!(pairs(&sub.fields), vec![("username", "alice"), ("password", "s3cret")]);
}

#[test]
fn submission_needs_a_host() {
    let form = HtmlForm { action: Some("/login".to_string()), inputs: vec![] };
    assert!(submission_from_form(&profile(), "not a url", &form).is_none());
}

#[test]
fn login_page_failures_give_no_submission() {
    let captive = Captive::new(10).unwrap();
    let html = r#"<form action="/login"></form>"#;
    assert!(captive.prepare_login(&profile(), "http://p/", &None).is_none());
    assert!(captive.prepare_login(&profile(), "http://p/", &page(500, html)).is_none());
    assert!(captive.prepare_login(&profile(), "http://p/", &page(200, "<p>no form</p>")).is_none());
    assert!(captive.prepare_login(&profile(), "http://p/", &page(200, html)).is_some());
}

#[test]
fn login_outcome_follows_the_answer() {
    let captive = Captive::new(10).unwrap();
    assert_eq!(captive.login(&None), LoginOutcome::Unknown);
    assert_eq!(
        captive.login(&page(500, "Firewall authentication failed. Please try again.")),
        LoginOutcome::Unknown
    );
    assert_eq!(
        captive.login(&page(200, "Firewall authentication failed. Please try again.")),
        LoginOutcome::WrongCredentials
    );
    assert_eq!(
        captive.login(&page(200, "go to http://172.16.222.1:1000/keepalive?abc")),
        LoginOutcome::Success
    );
}
