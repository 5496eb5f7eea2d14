//! The portal-facing side of a cycle: reading the probe, turning the login
//! page into a submission, and reading the portal's answer to it.

use vstd::prelude::*;
use crate::config::Profile;
use crate::form::{
    extract_form, field_value, form_view, has_field, html_first_form, lemma_with_form_keeps, profile_fields,
    with_form, FieldView, FormView, HtmlForm, SubmissionFields,
};
use crate::outcome::{markers_compile, outcome_of, LoginOutcome, OutcomeClassifier};
use crate::probe::{
    is_success_status, probe_outcome, read_probe, scheme_len, HttpReply, ProbeReport, PROBE_URL,
};
use crate::text::{chars_of, occurs_at_index, opt_view, substring};

verus! {

/// The index of the first `/` at or after `k`, or the length of `u` when none follows.
pub open spec fn slash_from(u: Seq<char>, k: int) -> int
    decreases u.len() - k,
{
    if k < 0 || k >= u.len() {
        u.len() as int
    } else if u[k] == '/' {
        k
    } else {
        slash_from(u, k + 1)
    }
}

/// The scheme and host of an `http` or `https` address, such as
/// `http://portal.example` for `http://portal.example/login?x=1`; `None` when
/// the address has no such scheme or an empty host.
pub open spec fn origin_of(u: Seq<char>) -> Option<Seq<char>> {
    let s = scheme_len(u, 0);
    let e = slash_from(u, s);
    if s > 0 && e > s {
        Some(u.subrange(0, e))
    } else {
        None
    }
}

/// The path that a submission goes to: the form's action, `/` when the fields have none.
pub open spec fn action_path(fields: Seq<FieldView>) -> Seq<char> {
    match field_value(fields, "submit"@) {
        Some(a) => a,
        None => "/"@,
    }
}

/// The fields that a submission carries: all but the internal `submit`, in order.
pub open spec fn without_submit(fields: Seq<FieldView>) -> Seq<FieldView>
    decreases fields.len(),
{
    if fields.len() == 0 {
        fields
    } else if fields.last().0 == "submit"@ {
        without_submit(fields.drop_last())
    } else {
        without_submit(fields.drop_last()).push(fields.last())
    }
}

/// The submission for a login form: where it goes and what it carries.
pub open spec fn submission_of(
    username: Seq<char>,
    password: Seq<char>,
    portal_url: Seq<char>,
    form: FormView,
) -> Option<(Seq<char>, Seq<FieldView>)> {
    let fields = with_form(profile_fields(username, password), form);
    match origin_of(portal_url) {
        Some(o) => Some((o + action_path(fields), without_submit(fields))),
        None => None,
    }
}

/// The submission for a fetched login page: `None` when the fetch failed,
/// was not successful, or the page holds no form, or the portal's address has no host.
pub open spec fn page_submission(
    username: Seq<char>,
    password: Seq<char>,
    portal_url: Seq<char>,
    page: Option<(u16, Seq<char>)>,
) -> Option<(Seq<char>, Seq<FieldView>)> {
    match page {
        Some((status, body)) => if is_success_status(status) {
            match html_first_form(body) {
                Some(form) => submission_of(username, password, portal_url, form),
                None => None,
            }
        } else {
            None
        },
        None => None,
    }
}

/// What a login submission sends: the address and the form fields, in order.
pub struct LoginSubmission {
    pub url: String,
    pub fields: Vec<(String, String)>,
}

pub open spec fn submission_view(s: LoginSubmission) -> (Seq<char>, Seq<FieldView>) {
    (s.url@, s.fields@.map_values(|e: (String, String)| (e.0@, e.1@)))
}

pub open spec fn opt_submission_view(s: Option<LoginSubmission>) -> Option<(Seq<char>, Seq<FieldView>)> {
    match s {
        Some(s) => Some(submission_view(s)),
        None => None,
    }
}

pub open spec fn reply_view(r: Option<HttpReply>) -> Option<(u16, Seq<char>)> {
    match r {
        Some(r) => Some((r.status, r.body@)),
        None => None,
    }
}

/// The body of a successful answer to the submission; `None` for a failed
/// request or any other status.
pub open spec fn submit_body(reply: Option<(u16, Seq<char>)>) -> Option<Seq<char>> {
    match reply {
        Some((status, body)) => if is_success_status(status) { Some(body) } else { None },
        None => None,
    }
}

/// The outcome of a login from the answer to its submission.
pub open spec fn login_outcome(reply: Option<(u16, Seq<char>)>) -> LoginOutcome {
    match submit_body(reply) {
        Some(body) => outcome_of(body),
        None => LoginOutcome::Unknown,
    }
}

proof fn lemma_without_submit_keeps(fields: Seq<FieldView>, k: Seq<char>)
    requires
        has_field(fields, k),
        k != "submit"@,
    ensures
        has_field(without_submit(fields), k),
    decreases fields.len(),
{
    let i = choose|i: int| 0 <= i < fields.len() && #[trigger] fields[i].0 == k;
    let rest = fields.drop_last();
    if i == fields.len() - 1 {
        let r = without_submit(fields);
        assert(r == without_submit(rest).push(fields.last()));
        assert(r[r.len() - 1].0 == k);
    } else {
        assert(rest[i].0 == k);
        lemma_without_submit_keeps(rest, k);
        let r0 = without_submit(rest);
        let j = choose|j: int| 0 <= j < r0.len() && #[trigger] r0[j].0 == k;
        let r = without_submit(fields);
        if fields.last().0 != "submit"@ {
            assert(r[j].0 == k);
        }
    }
}

/// Every submission carries the profile's `username` and `password` fields;
/// the page's form only adds to them.
pub proof fn submission_carries_credentials(
    username: Seq<char>,
    password: Seq<char>,
    portal_url: Seq<char>,
    form: FormView,
)
    ensures
        submission_of(username, password, portal_url, form) matches Some((_, fields)) ==> {
            &&& has_field(fields, "username"@)
            &&& has_field(fields, "password"@)
            &&& !has_field(fields, "submit"@)
        },
{
    reveal_strlit("username");
    reveal_strlit("password");
    reveal_strlit("submit");
    let base = profile_fields(username, password);
    assert(base[0].0 == "username"@);
    assert(base[1].0 == "password"@);
    let all = with_form(base, form);
    lemma_with_form_keeps(base, form, "username"@);
    lemma_with_form_keeps(base, form, "password"@);
    assert("username"@[1] != "submit"@[1]);
    assert("password"@[0] != "submit"@[0]);
    lemma_without_submit_keeps(all, "username"@);
    lemma_without_submit_keeps(all, "password"@);
    lemma_without_submit_drops(all);
}

proof fn lemma_without_submit_drops(fields: Seq<FieldView>)
    ensures
        !has_field(without_submit(fields), "submit"@),
    decreases fields.len(),
{
    if fields.len() > 0 {
        lemma_without_submit_drops(fields.drop_last());
        let r0 = without_submit(fields.drop_last());
        let r = without_submit(fields);
        if fields.last().0 != "submit"@ {
            assert forall|j: int| 0 <= j < r.len() implies #[trigger] r[j].0 != "submit"@ by {
                if j < r0.len() {
                    assert(r[j] == r0[j]);
                }
            }
        }
    }
}

/// The first `/` at or after `k`, or `u.len()`.
fn slash_index_from(u: &Vec<char>, k: usize) -> (r: usize)
    requires
        k <= u.len(),
    ensures
        r == slash_from(u@, k as int),
        r <= u.len(),
{
    let mut i: usize = k;
    while i < u.len()
        invariant
            k <= i <= u.len(),
            slash_from(u@, k as int) == slash_from(u@, i as int),
        decreases u.len() - i,
    {
        if u[i] == '/' {
            return i;
        }
        i = i + 1;
    }
    i
}

/// The scheme and host of `url`.
pub fn portal_origin(url: &str) -> (r: Option<String>)
    ensures
        opt_view(r) == origin_of(url@),
{
    proof {
        reveal_strlit("https://");
        reveal_strlit("http://");
    }
    let u = chars_of(url);
    let https = chars_of("https://");
    let http = chars_of("http://");
    let s: usize = if occurs_at_index(&u, &https, 0) {
        https.len()
    } else if occurs_at_index(&u, &http, 0) {
        http.len()
    } else {
        return None;
    };
    let e = slash_index_from(&u, s);
    if e > s {
        Some(substring(url, 0, e))
    } else {
        None
    }
}

/// The fields of `fields` but `submit`, in order.
fn fields_without_submit(fields: &SubmissionFields) -> (r: Vec<(String, String)>)
    ensures
        r@.map_values(|e: (String, String)| (e.0@, e.1@)) == without_submit(fields@),
{
    let entries = fields.entries();
    let ghost all = fields@;
    let submit = "submit".to_owned();
    let mut r: Vec<(String, String)> = Vec::new();
    let n = entries.len();
    let mut i: usize = 0;
    while i < n
        invariant
            n == entries.len(),
            i <= n,
            submit@ == "submit"@,
            entries@.map_values(|e: (String, String)| (e.0@, e.1@)) == all,
            r@.map_values(|e: (String, String)| (e.0@, e.1@)) == without_submit(all.subrange(0, i as int)),
        decreases n - i,
    {
        let ghost prefix = all.subrange(0, i + 1);
        assert(prefix.drop_last() =~= all.subrange(0, i as int));
        assert(prefix.last() == all[i as int]);
        if entries[i].0 != submit {
            let e = (entries[i].0.clone(), entries[i].1.clone());
            r.push(e);
            assert(r@.map_values(|e: (String, String)| (e.0@, e.1@)) =~= without_submit(
                all.subrange(0, i as int),
            ).push(all[i as int]));
        }
        i = i + 1;
    }
    assert(all.subrange(0, n as int) =~= all);
    r
}

/// The submission for `form`, found on the login page of `portal_url`:
/// `username` and `password` from the profile, then the form's action as
/// `submit` and its token inputs. It goes to the portal's scheme and host
/// followed by the action, and carries every field but `submit`.
pub fn submission_from_form(
    profile: &Profile,
    portal_url: &str,
    form: &HtmlForm,
) -> (r: Option<LoginSubmission>)
    ensures
        opt_submission_view(r) == submission_of(
            profile.username@,
            profile.password@,
            portal_url@,
            form_view(*form),
        ),
{
    let origin = match portal_origin(portal_url) {
        Some(o) => o,
        None => return None,
    };
    let mut fields = SubmissionFields::for_profile(profile);
    fields.add_form(form);
    let path = match fields.get("submit") {
        Some(a) => a,
        None => "/".to_owned(),
    };
    let url = origin.concat(path.as_str());
    let body = fields_without_submit(&fields);
    Some(LoginSubmission { url, fields: body })
}

/// The component that talks to the portal: the probe address, the time a
/// request may take, and the markers that classify the portal's answers.
pub struct Captive {
    probe_url: String,
    timeout: u64,
    classifier: OutcomeClassifier,
}

impl Captive {
    pub closed spec fn wf(&self) -> bool {
        self.classifier.wf()
    }

    pub closed spec fn spec_timeout(&self) -> u64 {
        self.timeout
    }

    pub closed spec fn spec_probe_url(&self) -> Seq<char> {
        self.probe_url@
    }

    /// A portal client whose requests may take `timeout` seconds; `None`
    /// exactly when a marker cannot be compiled.
    pub fn new(timeout: u64) -> (r: Option<Captive>)
        ensures
            r is Some <==> markers_compile(),
            r matches Some(c) ==> c.wf() && c.spec_timeout() == timeout && c.spec_probe_url() == PROBE_URL@,
    {
        match OutcomeClassifier::new() {
            Some(classifier) => Some(Captive { probe_url: PROBE_URL.to_owned(), timeout, classifier }),
            None => None,
        }
    }

    /// The address probed on every cycle.
    pub fn probe_url(&self) -> (r: &String)
        ensures
            r@ == self.spec_probe_url(),
    {
        &self.probe_url
    }

    /// The seconds that a request may take.
    pub fn timeout(&self) -> (r: u64)
        ensures
            r == self.spec_timeout(),
    {
        self.timeout
    }

    /// Reads the answer to the probe; a request that failed finds no portal.
    pub fn probe(&self, reply: &Option<HttpReply>) -> (r: ProbeReport)
        ensures
            (r.captive, opt_view(r.portal_url)) == match reply {
                Some(reply) => probe_outcome(reply.status, opt_view(reply.location), reply.body@),
                None => (false, None),
            },
    {
        match reply {
            Some(reply) => read_probe(reply),
            None => ProbeReport { captive: false, portal_url: None },
        }
    }

    /// The submission for the login page fetched from `portal_url`.
    pub fn prepare_login(
        &self,
        profile: &Profile,
        portal_url: &str,
        page: &Option<HttpReply>,
    ) -> (r: Option<LoginSubmission>)
        ensures
            opt_submission_view(r) == page_submission(
                profile.username@,
                profile.password@,
                portal_url@,
                reply_view(*page),
            ),
    {
        match page {
            Some(page) => {
                if 200 <= page.status && page.status <= 299 {
                    match extract_form(page.body.as_str()) {
                        Some(form) => submission_from_form(profile, portal_url, &form),
                        None => None,
                    }
                } else {
                    None
                }
            },
            None => None,
        }
    }

    /// The outcome of a login from the answer to its submission.
    pub fn login(&self, reply: &Option<HttpReply>) -> (r: LoginOutcome)
        requires
            self.wf(),
        ensures
            r == login_outcome(reply_view(*reply)),
    {
        match reply {
            Some(reply) => {
                if 200 <= reply.status && reply.status <= 299 {
                    self.classifier.classify(reply.body.as_str())
                } else {
                    LoginOutcome::Unknown
                }
            },
            None => LoginOutcome::Unknown,
        }
    }
}

} // verus!
