//! The check cycle as a state machine.
//!
//! A cycle starts at `Idle`, asks whether the network adapter is on, then
//! whether the internet is reachable, then probes for a portal, and on a
//! portal fetches its login page and submits the credentials. Every path ends
//! back at `Idle`, after at most one login attempt.
//!
//! The machine does no I/O itself. Each step hands the caller an [`Action`];
//! the caller performs it and hands back what it observed as an
//! [`Observation`]. An observation that does not answer the pending action is
//! ignored.

use vstd::prelude::*;
use crate::captive::{login_outcome, opt_submission_view, page_submission, Captive, LoginSubmission};
use crate::config::Config;
use crate::form::FieldView;
use crate::outcome::{markers_compile, LoginOutcome};
use crate::probe::{probe_outcome, HttpReply, PROBE_URL};
use crate::text::opt_view;

verus! {

/// Where the machine stands in a cycle.
#[derive(PartialEq, Eq, Structural, Clone, Copy, Debug)]
pub enum MachineState {
    Idle,
    AdapterOn,
    OnLoginPage,
}

/// The kind of answer that the machine waits for.
#[derive(PartialEq, Eq, Structural, Clone, Copy, Debug)]
pub enum Pending {
    Adapter,
    Internet,
    Probe,
    LoginPage,
    Submission,
}

/// Work that the caller performs for the machine.
pub enum Action {
    /// Ask whether the network adapter is on.
    QueryAdapter,
    /// Try to reach the internet directly.
    CheckInternet { timeout_secs: u64 },
    /// Send a GET to the probe address.
    Probe { url: String, timeout_secs: u64 },
    /// Send a GET to the portal's login page.
    FetchLoginPage { url: String, timeout_secs: u64 },
    /// POST the fields, form-encoded, to the address.
    SubmitLogin { url: String, fields: Vec<(String, String)>, timeout_secs: u64 },
}

/// What the caller observed while performing an action.
pub enum Observation {
    /// Whether the adapter is on; `None` when the query failed.
    Adapter(Option<bool>),
    /// Whether the internet answered in time.
    Internet(bool),
    /// The HTTP response; `None` when the request failed in transport.
    Reply(Option<HttpReply>),
}

/// The data of one detection cycle; dropped when the cycle ends.
pub struct PortalSession {
    pub probe_url: String,
    pub portal_url: Option<String>,
    pub submission: Option<LoginSubmission>,
}

/// An action as mathematical values.
pub enum ActionView {
    QueryAdapter,
    CheckInternet(u64),
    Probe(Seq<char>, u64),
    FetchLoginPage(Seq<char>, u64),
    SubmitLogin(Seq<char>, Seq<FieldView>, u64),
}

/// An HTTP response as mathematical values: status, `Location`, body.
pub type ReplyView = (u16, Option<Seq<char>>, Seq<char>);

/// An observation as mathematical values.
pub enum ObservationView {
    Adapter(Option<bool>),
    Internet(bool),
    Reply(Option<ReplyView>),
}

/// A session as mathematical values.
pub struct SessionView {
    pub probe_url: Seq<char>,
    pub portal_url: Option<Seq<char>>,
    pub submission: Option<(Seq<char>, Seq<FieldView>)>,
}

/// A machine as mathematical values.
pub struct MachineView {
    pub state: MachineState,
    pub pending: Option<Pending>,
    pub session: Option<SessionView>,
    /// The outcome of the login attempted in the last cycle, if one was.
    pub outcome: Option<LoginOutcome>,
    pub username: Seq<char>,
    pub password: Seq<char>,
    pub timeout: u64,
    pub probe_url: Seq<char>,
}

pub open spec fn action_view(r: Action) -> ActionView {
    match r {
        Action::QueryAdapter => ActionView::QueryAdapter,
        Action::CheckInternet { timeout_secs } => ActionView::CheckInternet(timeout_secs),
        Action::Probe { url, timeout_secs } => ActionView::Probe(url@, timeout_secs),
        Action::FetchLoginPage { url, timeout_secs } => ActionView::FetchLoginPage(url@, timeout_secs),
        Action::SubmitLogin { url, fields, timeout_secs } => ActionView::SubmitLogin(
            url@,
            fields@.map_values(|e: (String, String)| (e.0@, e.1@)),
            timeout_secs,
        ),
    }
}

pub open spec fn opt_action_view(r: Option<Action>) -> Option<ActionView> {
    match r {
        Some(r) => Some(action_view(r)),
        None => None,
    }
}

pub open spec fn http_reply_view(r: HttpReply) -> ReplyView {
    (r.status, opt_view(r.location), r.body@)
}

pub open spec fn observation_view(o: Observation) -> ObservationView {
    match o {
        Observation::Adapter(a) => ObservationView::Adapter(a),
        Observation::Internet(b) => ObservationView::Internet(b),
        Observation::Reply(r) => ObservationView::Reply(
            match r {
                Some(r) => Some(http_reply_view(r)),
                None => None,
            },
        ),
    }
}

pub open spec fn session_view(s: PortalSession) -> SessionView {
    SessionView {
        probe_url: s.probe_url@,
        portal_url: opt_view(s.portal_url),
        submission: opt_submission_view(s.submission),
    }
}

/// The state and the pending answer fit together, and so does the session:
/// none outside a cycle, an address for the portal once one was found, and a
/// submission while its answer is awaited.
pub open spec fn consistent(v: MachineView) -> bool {
    match v.pending {
        None => v.state == MachineState::Idle && v.session is None,
        Some(Pending::Adapter) => v.state == MachineState::Idle && v.session is None,
        Some(Pending::Internet) | Some(Pending::Probe) => {
            &&& v.state == MachineState::AdapterOn
            &&& v.session matches Some(s) && s.probe_url == v.probe_url && s.portal_url is None
                && s.submission is None
        },
        Some(Pending::LoginPage) => {
            &&& v.state == MachineState::OnLoginPage
            &&& v.session matches Some(s) && s.probe_url == v.probe_url && s.portal_url is Some
                && s.submission is None
        },
        Some(Pending::Submission) => {
            &&& v.state == MachineState::OnLoginPage
            &&& v.session matches Some(s) && s.probe_url == v.probe_url && s.portal_url is Some
                && s.submission is Some
        },
    }
}

/// The cycle ends: back at `Idle`, nothing pending, the session dropped.
pub open spec fn end_cycle(v: MachineView, outcome: Option<LoginOutcome>) -> MachineView {
    MachineView { state: MachineState::Idle, pending: None, session: None, outcome, ..v }
}

/// A new cycle starts: `Idle`, waiting for the adapter, with no session and no outcome yet.
pub open spec fn start_cycle(v: MachineView) -> MachineView {
    MachineView {
        state: MachineState::Idle,
        pending: Some(Pending::Adapter),
        session: None,
        outcome: None,
        ..v
    }
}

/// The machine after observation `o`.
pub open spec fn step(v: MachineView, o: ObservationView) -> MachineView {
    match (v.pending, o) {
        (Some(Pending::Adapter), ObservationView::Adapter(on)) => if on == Some(true) {
            MachineView {
                state: MachineState::AdapterOn,
                pending: Some(Pending::Internet),
                session: Some(
                    SessionView { probe_url: v.probe_url, portal_url: None, submission: None },
                ),
                ..v
            }
        } else {
            end_cycle(v, None)
        },
        (Some(Pending::Internet), ObservationView::Internet(reachable)) => if reachable {
            end_cycle(v, None)
        } else {
            MachineView { pending: Some(Pending::Probe), ..v }
        },
        (Some(Pending::Probe), ObservationView::Reply(reply)) => {
            let found = match reply {
                Some((status, location, body)) => probe_outcome(status, location, body),
                None => (false, None),
            };
            if found.0 && found.1 is Some {
                MachineView {
                    state: MachineState::OnLoginPage,
                    pending: Some(Pending::LoginPage),
                    session: Some(
                        SessionView { probe_url: v.probe_url, portal_url: found.1, submission: None },
                    ),
                    ..v
                }
            } else {
                end_cycle(v, None)
            }
        },
        (Some(Pending::LoginPage), ObservationView::Reply(reply)) => {
            let page = match reply {
                Some((status, _, body)) => Some((status, body)),
                None => None,
            };
            let portal = v.session->0.portal_url->0;
            match page_submission(v.username, v.password, portal, page) {
                Some(sub) => MachineView {
                    pending: Some(Pending::Submission),
                    session: Some(
                        SessionView {
                            probe_url: v.probe_url,
                            portal_url: Some(portal),
                            submission: Some(sub),
                        },
                    ),
                    ..v
                },
                None => end_cycle(v, Some(LoginOutcome::Unknown)),
            }
        },
        (Some(Pending::Submission), ObservationView::Reply(reply)) => {
            let answer = match reply {
                Some((status, _, body)) => Some((status, body)),
                None => None,
            };
            end_cycle(v, Some(login_outcome(answer)))
        },
        _ => v,
    }
}

/// The action that the machine waits on.
pub open spec fn action_of(v: MachineView) -> Option<ActionView> {
    match v.pending {
        None => None,
        Some(Pending::Adapter) => Some(ActionView::QueryAdapter),
        Some(Pending::Internet) => Some(ActionView::CheckInternet(v.timeout)),
        Some(Pending::Probe) => Some(ActionView::Probe(v.probe_url, v.timeout)),
        Some(Pending::LoginPage) => Some(ActionView::FetchLoginPage(v.session->0.portal_url->0, v.timeout)),
        Some(Pending::Submission) => {
            let sub = v.session->0.submission->0;
            Some(ActionView::SubmitLogin(sub.0, sub.1, v.timeout))
        },
    }
}

/// Whether observation `o` answers an action of kind `p`.
pub open spec fn answers(p: Pending, o: ObservationView) -> bool {
    match p {
        Pending::Adapter => o is Adapter,
        Pending::Internet => o is Internet,
        _ => o is Reply,
    }
}

/// The most answers that the cycle under way can still take.
pub open spec fn steps_left(v: MachineView) -> nat {
    match v.pending {
        None => 0,
        Some(Pending::Adapter) => 5,
        Some(Pending::Internet) => 4,
        Some(Pending::Probe) => 3,
        Some(Pending::LoginPage) => 2,
        Some(Pending::Submission) => 1,
    }
}

/// Every step keeps the machine consistent. An observation that answers the
/// pending action moves the cycle strictly forward; any other leaves the
/// machine as it was. A cycle thus ends at `Idle` after at most five answers,
/// and no state is entered twice within it.
pub proof fn cycle_moves_forward(v: MachineView, o: ObservationView)
    requires
        consistent(v),
    ensures
        consistent(step(v, o)),
        v.pending matches Some(p) && answers(p, o) ==> steps_left(step(v, o)) < steps_left(v),
        !(v.pending matches Some(p) && answers(p, o)) ==> step(v, o) == v,
        step(v, o).pending is None ==> step(v, o).state == MachineState::Idle,
{
}

/// With the adapter off, or its query failing, the cycle ends at `Idle` on
/// the first answer, with no session and no action after the adapter query:
/// no network call is made.
pub proof fn adapter_off_ends_cycle(v: MachineView, on: Option<bool>)
    requires
        on != Some(true),
    ensures
        action_of(start_cycle(v)) == Some(ActionView::QueryAdapter),
        step(start_cycle(v), ObservationView::Adapter(on)).state == MachineState::Idle,
        step(start_cycle(v), ObservationView::Adapter(on)).session is None,
        action_of(step(start_cycle(v), ObservationView::Adapter(on))) is None,
{
}

/// With the adapter on and the internet reachable, the cycle goes to
/// `AdapterOn` and ends at `Idle` without probing for a portal.
pub proof fn reachable_internet_skips_probe(v: MachineView)
    ensures
        ({
            let on = step(start_cycle(v), ObservationView::Adapter(Some(true)));
            let back = step(on, ObservationView::Internet(true));
            &&& on.state == MachineState::AdapterOn
            &&& action_of(on) == Some(ActionView::CheckInternet(v.timeout))
            &&& back.state == MachineState::Idle
            &&& back.session is None
            &&& action_of(back) is None
        }),
{
}

/// With the internet unreachable and a portal found by the probe, the machine
/// goes to `OnLoginPage`, and from there back to `Idle` after the login page
/// and at most one submission, whatever the pages say and whatever the
/// outcome.
pub proof fn detected_portal_leads_to_login(
    v: MachineView,
    probe: ReplyView,
    page: Option<ReplyView>,
    answer: Option<ReplyView>,
)
    requires
        v.state == MachineState::AdapterOn,
        v.pending == Some(Pending::Internet),
        consistent(v),
        probe_outcome(probe.0, probe.1, probe.2).0,
    ensures
        ({
            let unreachable = step(v, ObservationView::Internet(false));
            let found = step(unreachable, ObservationView::Reply(Some(probe)));
            let fetched = step(found, ObservationView::Reply(page));
            let done = step(fetched, ObservationView::Reply(answer));
            &&& action_of(unreachable) == Some(ActionView::Probe(v.probe_url, v.timeout))
            &&& found.state == MachineState::OnLoginPage
            &&& action_of(found) == Some(
                ActionView::FetchLoginPage(probe_outcome(probe.0, probe.1, probe.2).1->0, v.timeout),
            )
            &&& (fetched.state == MachineState::Idle && fetched.pending is None
                && fetched.session is None && fetched.outcome == Some(LoginOutcome::Unknown))
                || (fetched.state == MachineState::OnLoginPage && fetched.pending == Some(
                Pending::Submission,
            ))
            &&& done.state == MachineState::Idle
            &&& done.pending is None
            &&& done.session is None
            &&& done.outcome is Some
        }),
{
}

/// Two cycles in a row with the adapter off leave the same machine: `Idle`,
/// with no session left over.
pub proof fn adapter_off_cycle_is_idempotent(v: MachineView)
    ensures
        ({
            let once = step(start_cycle(v), ObservationView::Adapter(Some(false)));
            let twice = step(start_cycle(once), ObservationView::Adapter(Some(false)));
            &&& twice == once
            &&& once.state == MachineState::Idle
            &&& once.session is None
        }),
{
}

/// Copies of the fields, pair by pair.
fn copy_fields(fields: &Vec<(String, String)>) -> (r: Vec<(String, String)>)
    ensures
        r@ == fields@,
{
    let mut r: Vec<(String, String)> = Vec::new();
    let n = fields.len();
    let mut i: usize = 0;
    while i < n
        invariant
            n == fields.len(),
            i <= n,
            r@ == fields@.subrange(0, i as int),
        decreases n - i,
    {
        r.push((fields[i].0.clone(), fields[i].1.clone()));
        i = i + 1;
    }
    assert(fields@.subrange(0, n as int) =~= fields@);
    r
}

/// The check cycle, with the configuration and the current session.
pub struct Machine {
    config: Config,
    captive: Captive,
    state: MachineState,
    pending: Option<Pending>,
    session: Option<PortalSession>,
    outcome: Option<LoginOutcome>,
}

impl View for Machine {
    type V = MachineView;

    closed spec fn view(&self) -> MachineView {
        MachineView {
            state: self.state,
            pending: self.pending,
            session: match self.session {
                Some(s) => Some(session_view(s)),
                None => None,
            },
            outcome: self.outcome,
            username: self.config.profile.username@,
            password: self.config.profile.password@,
            timeout: self.config.timeouts,
            probe_url: self.captive.spec_probe_url(),
        }
    }
}

impl Machine {
    pub closed spec fn wf(&self) -> bool {
        &&& self.captive.wf()
        &&& self.captive.spec_timeout() == self.config.timeouts
        &&& self.captive.spec_probe_url() == PROBE_URL@
        &&& consistent(self@)
    }

    /// A machine at rest, outside any cycle; `None` exactly when the outcome
    /// markers cannot be compiled.
    pub fn new(config: Config) -> (r: Option<Machine>)
        ensures
            r is Some <==> markers_compile(),
            r matches Some(m) ==> {
                &&& m.wf()
                &&& m@.state == MachineState::Idle
                &&& m@.pending is None
                &&& m@.session is None
                &&& m@.outcome is None
                &&& m@.username == config.profile.username@
                &&& m@.password == config.profile.password@
                &&& m@.timeout == config.timeouts
                &&& m@.probe_url == PROBE_URL@
            },
    {
        match Captive::new(config.timeouts) {
            Some(captive) => Some(
                Machine {
                    config,
                    captive,
                    state: MachineState::Idle,
                    pending: None,
                    session: None,
                    outcome: None,
                },
            ),
            None => None,
        }
    }

    /// A well-formed machine is consistent, so the laws over `step` apply to it.
    pub proof fn lemma_consistent(&self)
        requires
            self.wf(),
        ensures
            consistent(self@),
    {
    }

    /// Where the machine stands.
    pub fn state(&self) -> (r: MachineState)
        ensures
            r == self@.state,
    {
        self.state
    }

    /// The outcome of the login attempted in the last cycle, if one was.
    pub fn outcome(&self) -> (r: Option<LoginOutcome>)
        ensures
            r == self@.outcome,
    {
        self.outcome
    }

    /// The session of the cycle under way, if one is.
    pub fn session(&self) -> (r: &Option<PortalSession>)
        ensures
            match *r {
                Some(s) => self@.session == Some(session_view(s)),
                None => self@.session is None,
            },
    {
        &self.session
    }

    /// Whether a cycle is under way.
    pub fn in_cycle(&self) -> (r: bool)
        ensures
            r == self@.pending is Some,
    {
        self.pending.is_some()
    }

    /// The action that the machine waits on; `None` outside a cycle.
    pub fn action(&self) -> (r: Option<Action>)
        requires
            self.wf(),
        ensures
            opt_action_view(r) == action_of(self@),
    {
        let timeout_secs = self.config.timeouts;
        match self.pending {
            None => None,
            Some(Pending::Adapter) => Some(Action::QueryAdapter),
            Some(Pending::Internet) => Some(Action::CheckInternet { timeout_secs }),
            Some(Pending::Probe) => Some(
                Action::Probe { url: self.captive.probe_url().clone(), timeout_secs },
            ),
            Some(Pending::LoginPage) => match &self.session {
                Some(PortalSession { portal_url: Some(url), .. }) => Some(
                    Action::FetchLoginPage { url: url.clone(), timeout_secs },
                ),
                _ => None,
            },
            Some(Pending::Submission) => match &self.session {
                Some(PortalSession { submission: Some(sub), .. }) => Some(
                    Action::SubmitLogin {
                        url: sub.url.clone(),
                        fields: copy_fields(&sub.fields),
                        timeout_secs,
                    },
                ),
                _ => None,
            },
        }
    }

    /// Ends the cycle: back at `Idle`, the session dropped.
    fn end_cycle(&mut self, outcome: Option<LoginOutcome>)
        requires
            old(self).wf(),
        ensures
            final(self).wf(),
            final(self)@ == end_cycle(old(self)@, outcome),
    {
        self.state = MachineState::Idle;
        self.pending = None;
        self.session = None;
        self.outcome = outcome;
    }

    /// Starts a cycle, whatever stood before: back at `Idle`, the session
    /// dropped, and the adapter query asked for.
    pub fn reset(&mut self) -> (r: Action)
        requires
            old(self).wf(),
        ensures
            final(self).wf(),
            final(self)@ == start_cycle(old(self)@),
            action_view(r) == ActionView::QueryAdapter,
    {
        self.state = MachineState::Idle;
        self.pending = Some(Pending::Adapter);
        self.session = None;
        self.outcome = None;
        Action::QueryAdapter
    }

    /// Takes in what the caller observed and returns the next action, or
    /// `None` once the cycle has ended.
    pub fn dispatch(&mut self, observation: Observation) -> (r: Option<Action>)
        requires
            old(self).wf(),
        ensures
            final(self).wf(),
            final(self)@ == step(old(self)@, observation_view(observation)),
            opt_action_view(r) == action_of(final(self)@),
            r is None ==> final(self)@.state == MachineState::Idle && final(self)@.session is None,
    {
        match (self.pending, observation) {
            (Some(Pending::Adapter), Observation::Adapter(on)) => {
                if on == Some(true) {
                    self.state = MachineState::AdapterOn;
                    self.pending = Some(Pending::Internet);
                    self.session = Some(
                        PortalSession {
                            probe_url: self.captive.probe_url().clone(),
                            portal_url: None,
                            submission: None,
                        },
                    );
                } else {
                    self.end_cycle(None);
                }
            },
            (Some(Pending::Internet), Observation::Internet(reachable)) => {
                if reachable {
                    self.end_cycle(None);
                } else {
                    self.pending = Some(Pending::Probe);
                }
            },
            (Some(Pending::Probe), Observation::Reply(reply)) => {
                let report = self.captive.probe(&reply);
                match report.portal_url {
                    Some(url) if report.captive => {
                        self.state = MachineState::OnLoginPage;
                        self.pending = Some(Pending::LoginPage);
                        self.session = Some(
                            PortalSession {
                                probe_url: self.captive.probe_url().clone(),
                                portal_url: Some(url),
                                submission: None,
                            },
                        );
                    },
                    _ => {
                        self.end_cycle(None);
                    },
                }
            },
            (Some(Pending::LoginPage), Observation::Reply(reply)) => {
                let portal = match &self.session {
                    Some(PortalSession { portal_url: Some(url), .. }) => url.clone(),
                    _ => String::new(),
                };
                match self.captive.prepare_login(&self.config.profile, portal.as_str(), &reply) {
                    Some(sub) => {
                        self.pending = Some(Pending::Submission);
                        self.session = Some(
                            PortalSession {
                                probe_url: self.captive.probe_url().clone(),
                                portal_url: Some(portal),
                                submission: Some(sub),
                            },
                        );
                    },
                    None => {
                        self.end_cycle(Some(LoginOutcome::Unknown));
                    },
                }
            },
            (Some(Pending::Submission), Observation::Reply(reply)) => {
                let outcome = self.captive.login(&reply);
                self.end_cycle(Some(outcome));
            },
            _ => {},
        }
        self.action()
    }
}

} // verus!
