//! Classification of the portal's answer to a login submission.
//!
//! The answer is tested against three literal markers, in a fixed order: the
//! concurrent-session limit, then failed authentication, then the keepalive
//! beacon that a successful login page embeds. The success marker comes last
//! so that a page showing an error banner next to the beacon is not taken for
//! a success.

use vstd::prelude::*;
use regex::Regex;
use crate::text::text_contains;

verus! {

#[verifier::external_type_specification]
#[verifier::external_body]
pub struct ExRegex(Regex);

/// The banner shown when the account already has the maximum number of sessions.
pub const CONCURRENT_LIMIT_PHRASE: &'static str =
    "Sorry, user&apos;s concurrent authentication is over limit";

/// The banner shown when the portal rejects the credentials.
pub const AUTH_FAILED_PHRASE: &'static str = "Firewall authentication failed. Please try again.";

/// The keepalive address that the portal embeds in the page after a successful login.
pub const SUCCESS_BEACON: &'static str = "http://172.16.222.1:1000/keepalive?";

/// The result of one login attempt.
#[derive(PartialEq, Eq, Structural, Clone, Copy, Debug)]
pub enum LoginOutcome {
    Success,
    WrongCredentials,
    MaxConcurrentSessions,
    Unknown,
}

/// The outcome that a response body stands for, markers tested in order.
pub open spec fn outcome_of(body: Seq<char>) -> LoginOutcome {
    if text_contains(body, CONCURRENT_LIMIT_PHRASE@) {
        LoginOutcome::MaxConcurrentSessions
    } else if text_contains(body, AUTH_FAILED_PHRASE@) {
        LoginOutcome::WrongCredentials
    } else if text_contains(body, SUCCESS_BEACON@) {
        LoginOutcome::Success
    } else {
        LoginOutcome::Unknown
    }
}

/// Whether the regex crate compiles the escaped form of `literal`; it refuses
/// only a pattern past its size limit.
pub uninterp spec fn marker_compiles(literal: Seq<char>) -> bool;

/// All three markers of the portal family compile.
pub open spec fn markers_compile() -> bool {
    &&& marker_compiles(CONCURRENT_LIMIT_PHRASE@)
    &&& marker_compiles(AUTH_FAILED_PHRASE@)
    &&& marker_compiles(SUCCESS_BEACON@)
}

/// A literal marker together with the regular expression that finds it.
///
/// Only `compile_marker` builds a value of this type, so `matcher` is always
/// the escaped form of `literal` and matches exactly the texts holding it.
pub struct Marker {
    literal: String,
    matcher: Regex,
}

impl View for Marker {
    type V = Seq<char>;

    closed spec fn view(&self) -> Seq<char> {
        self.literal@
    }
}

/// Relies on `regex::escape` and `regex::Regex::new`: the escaped literal is a
/// pattern that matches the literal verbatim. Compiling can still fail when the
/// regex would pass the crate's size limit, which gives `None`; whether it
/// does depends on the literal alone.
#[verifier::external_body]
fn compile_marker(literal: &str) -> (r: Option<Marker>)
    ensures
        r is Some <==> marker_compiles(literal@),
        r matches Some(m) ==> m@ == literal@,
{
    match Regex::new(&regex::escape(literal)) {
        Ok(matcher) => Some(Marker { literal: literal.to_owned(), matcher }),
        Err(_) => None,
    }
}

/// Relies on `regex::Regex::is_match`: true if and only if the regex matches
/// somewhere in `text`; for a marker's escaped literal, if and only if `text`
/// holds the literal.
#[verifier::external_body]
fn marker_found(marker: &Marker, text: &str) -> (r: bool)
    ensures
        r == text_contains(text@, marker@),
{
    marker.matcher.is_match(text)
}

/// The three markers of the portal family, compiled once.
pub struct OutcomeClassifier {
    concurrent_limit: Marker,
    auth_failed: Marker,
    success: Marker,
}

impl OutcomeClassifier {
    /// The markers hold the three phrases of the portal family.
    pub closed spec fn wf(&self) -> bool {
        &&& self.concurrent_limit@ == CONCURRENT_LIMIT_PHRASE@
        &&& self.auth_failed@ == AUTH_FAILED_PHRASE@
        &&& self.success@ == SUCCESS_BEACON@
    }

    /// Compiles the markers; `None` exactly when the regex crate refuses one.
    pub fn new() -> (r: Option<OutcomeClassifier>)
        ensures
            r is Some <==> markers_compile(),
            r matches Some(c) ==> c.wf(),
    {
        let concurrent_limit = match compile_marker(CONCURRENT_LIMIT_PHRASE) {
            Some(m) => m,
            None => return None,
        };
        let auth_failed = match compile_marker(AUTH_FAILED_PHRASE) {
            Some(m) => m,
            None => return None,
        };
        let success = match compile_marker(SUCCESS_BEACON) {
            Some(m) => m,
            None => return None,
        };
        Some(OutcomeClassifier { concurrent_limit, auth_failed, success })
    }

    /// The outcome that `body` stands for.
    pub fn classify(&self, body: &str) -> (r: LoginOutcome)
        requires
            self.wf(),
        ensures
            r == outcome_of(body@),
            text_contains(body@, CONCURRENT_LIMIT_PHRASE@) ==> r == LoginOutcome::MaxConcurrentSessions,
            !text_contains(body@, CONCURRENT_LIMIT_PHRASE@) && text_contains(body@, AUTH_FAILED_PHRASE@)
                ==> r == LoginOutcome::WrongCredentials,
            !text_contains(body@, CONCURRENT_LIMIT_PHRASE@) && !text_contains(body@, AUTH_FAILED_PHRASE@)
                && text_contains(body@, SUCCESS_BEACON@) ==> r == LoginOutcome::Success,
            !text_contains(body@, CONCURRENT_LIMIT_PHRASE@) && !text_contains(body@, AUTH_FAILED_PHRASE@)
                && !text_contains(body@, SUCCESS_BEACON@) ==> r == LoginOutcome::Unknown,
    {
        if marker_found(&self.concurrent_limit, body) {
            LoginOutcome::MaxConcurrentSessions
        } else if marker_found(&self.auth_failed, body) {
            LoginOutcome::WrongCredentials
        } else if marker_found(&self.success, body) {
            LoginOutcome::Success
        } else {
            LoginOutcome::Unknown
        }
    }
}

} // verus!
