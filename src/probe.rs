//! Reading the answer to the connectivity probe.
//!
//! The probe asks a well-known address that answers `204` when nothing stands
//! in the way. A portal shows itself either by redirecting the request, or by
//! answering with a page whose script sends the browser elsewhere through a
//! `window.location='<url>'` assignment.

use vstd::prelude::*;
use crate::text::{chars_of, occurs_at, occurs_at_index, opt_view, substring};

verus! {

/// The address probed on every cycle.
pub const PROBE_URL: &'static str = "http://connectivitycheck.gstatic.com/generate_204";

/// The script assignment that a portal page uses to send the browser on.
pub const SCRIPT_REDIRECT: &'static str = "window.location=";

/// An HTTP response, as the caller received it.
pub struct HttpReply {
    pub status: u16,
    /// The `Location` header, where the response carries one.
    pub location: Option<String>,
    pub body: String,
}

/// What the probe found.
pub struct ProbeReport {
    pub captive: bool,
    /// Where the portal's login page is, when it could be told.
    pub portal_url: Option<String>,
}

pub open spec fn is_redirect_status(status: u16) -> bool {
    300 <= status <= 399
}

pub open spec fn is_success_status(status: u16) -> bool {
    200 <= status <= 299
}

pub open spec fn is_quote(c: char) -> bool {
    c == '\'' || c == '"'
}

/// The index of the first quote at or after `k`, or the length of `t` when none follows.
pub open spec fn quote_from(t: Seq<char>, k: int) -> int
    decreases t.len() - k,
{
    if k < 0 || k >= t.len() {
        t.len() as int
    } else if is_quote(t[k]) {
        k
    } else {
        quote_from(t, k + 1)
    }
}

/// The length of the `https://` or `http://` scheme that starts at `j`, or 0.
pub open spec fn scheme_len(t: Seq<char>, j: int) -> int {
    if occurs_at(t, "https://"@, j) {
        "https://"@.len() as int
    } else if occurs_at(t, "http://"@, j) {
        "http://"@.len() as int
    } else {
        0
    }
}

/// The address that a script redirect starting at index `i` of `t` names, if one starts there:
/// `window.location=`, a quote, an `http` or `https` address of at least one
/// character after the scheme, and a closing quote.
pub open spec fn redirect_at(t: Seq<char>, i: int) -> Option<Seq<char>> {
    let j = i + SCRIPT_REDIRECT@.len() + 1;
    let k = j + scheme_len(t, j);
    let q = quote_from(t, k);
    if occurs_at(t, SCRIPT_REDIRECT@, i) && j <= t.len() && is_quote(t[j - 1])
        && scheme_len(t, j) > 0 && k < q < t.len() {
        Some(t.subrange(j, q))
    } else {
        None
    }
}

/// The address of the first script redirect in `t` that starts at index `i` or later.
pub open spec fn redirect_from(t: Seq<char>, i: int) -> Option<Seq<char>>
    decreases t.len() + 1 - i,
{
    if i < 0 || i > t.len() {
        None
    } else if redirect_at(t, i) is Some {
        redirect_at(t, i)
    } else {
        redirect_from(t, i + 1)
    }
}

/// The address of the first script redirect in `t`.
pub open spec fn first_redirect(t: Seq<char>) -> Option<Seq<char>> {
    redirect_from(t, 0)
}

/// What a probe answer says: `(captive, portal address)`.
pub open spec fn probe_outcome(status: u16, location: Option<Seq<char>>, body: Seq<char>) -> (
    bool,
    Option<Seq<char>>,
) {
    if is_redirect_status(status) {
        match location {
            Some(l) => (true, Some(l)),
            None => (false, None),
        }
    } else if is_success_status(status) {
        match first_redirect(body) {
            Some(u) => (true, Some(u)),
            None => (false, None),
        }
    } else {
        (false, None)
    }
}

/// The index of the first quote at or after `k`, or `t.len()`.
fn quote_index_from(t: &Vec<char>, k: usize) -> (r: usize)
    requires
        k <= t.len(),
    ensures
        r == quote_from(t@, k as int),
{
    let mut i: usize = k;
    while i < t.len()
        invariant
            k <= i <= t.len(),
            quote_from(t@, k as int) == quote_from(t@, i as int),
        decreases t.len() - i,
    {
        if t[i] == '\'' || t[i] == '"' {
            return i;
        }
        i = i + 1;
    }
    i
}

/// Where the address of a script redirect starting at `i` begins and ends, if one starts there.
fn redirect_bounds_at(
    t: &Vec<char>,
    i: usize,
    prefix: &Vec<char>,
    https: &Vec<char>,
    http: &Vec<char>,
) -> (r: Option<(usize, usize)>)
    requires
        prefix@ == SCRIPT_REDIRECT@,
        https@ == "https://"@,
        http@ == "http://"@,
    ensures
        r is None <==> redirect_at(t@, i as int) is None,
        r matches Some((j, q)) ==> j <= q <= t.len() && redirect_at(t@, i as int) == Some(
            t@.subrange(j as int, q as int),
        ),
{
    proof {
        reveal_strlit("https://");
        reveal_strlit("http://");
    }
    let n: usize = t.len();
    if !occurs_at_index(t, prefix, i) {
        return None;
    }
    let j: usize = i + prefix.len();
    if j >= n || !(t[j] == '\'' || t[j] == '"') {
        return None;
    }
    let j: usize = j + 1;
    let scheme: usize = if occurs_at_index(t, https, j) {
        https.len()
    } else if occurs_at_index(t, http, j) {
        http.len()
    } else {
        return None;
    };
    let k: usize = j + scheme;
    let q = quote_index_from(t, k);
    assert(scheme == scheme_len(t@, j as int));
    assert(is_quote(t@[j - 1]));
    if k < q && q < t.len() {
        Some((j, q))
    } else {
        None
    }
}

/// The address named by the first script redirect in `body`.
pub fn find_script_redirect(body: &str) -> (r: Option<String>)
    ensures
        opt_view(r) == first_redirect(body@),
{
    let t = chars_of(body);
    let prefix = chars_of(SCRIPT_REDIRECT);
    let https = chars_of("https://");
    let http = chars_of("http://");
    let mut i: usize = 0;
    while i < t.len()
        invariant
            t@ == body@,
            prefix@ == SCRIPT_REDIRECT@,
            https@ == "https://"@,
            http@ == "http://"@,
            i <= t.len(),
            redirect_from(t@, 0) == redirect_from(t@, i as int),
        decreases t.len() + 1 - i,
    {
        match redirect_bounds_at(&t, i, &prefix, &https, &http) {
            Some((j, q)) => {
                return Some(substring(body, j, q));
            },
            None => {},
        }
        i = i + 1;
    }
    assert(redirect_from(t@, i + 1) is None);
    match redirect_bounds_at(&t, i, &prefix, &https, &http) {
        Some((j, q)) => Some(substring(body, j, q)),
        None => None,
    }
}

/// Reads a probe answer: a redirect with a `Location` names the portal; a
/// successful page whose script redirects names it too; anything else means
/// no portal.
pub fn read_probe(reply: &HttpReply) -> (r: ProbeReport)
    ensures
        (r.captive, opt_view(r.portal_url)) == probe_outcome(
            reply.status,
            opt_view(reply.location),
            reply.body@,
        ),
        is_redirect_status(reply.status) && reply.location is Some ==> r.captive && opt_view(
            r.portal_url,
        ) == opt_view(reply.location),
        is_success_status(reply.status) && first_redirect(reply.body@) is None ==> !r.captive
            && r.portal_url is None,
{
    if 300 <= reply.status && reply.status <= 399 {
        match &reply.location {
            Some(l) => ProbeReport { captive: true, portal_url: Some(l.clone()) },
            None => ProbeReport { captive: false, portal_url: None },
        }
    } else if 200 <= reply.status && reply.status <= 299 {
        match find_script_redirect(reply.body.as_str()) {
            Some(u) => ProbeReport { captive: true, portal_url: Some(u) },
            None => ProbeReport { captive: false, portal_url: None },
        }
    } else {
        ProbeReport { captive: false, portal_url: None }
    }
}

/// The first quote at or after `k` is at `q` when none stands in between.
pub proof fn lemma_quote_from(t: Seq<char>, k: int, q: int)
    requires
        0 <= k <= q < t.len(),
        is_quote(t[q]),
        forall|x: int| k <= x < q ==> !is_quote(#[trigger] t[x]),
    ensures
        quote_from(t, k) == q,
    decreases q - k,
{
    if k < q {
        lemma_quote_from(t, k + 1, q);
    }
}

/// The first redirect from `j` on is the one found at `i` when every redirect
/// between them names the same address.
pub proof fn lemma_redirect_from(t: Seq<char>, j: int, i: int, u: Seq<char>)
    requires
        0 <= j <= i <= t.len(),
        redirect_at(t, i) == Some(u),
        forall|x: int| j <= x < i ==> #[trigger] redirect_at(t, x) is None || redirect_at(t, x) == Some(u),
    ensures
        redirect_from(t, j) == Some(u),
    decreases i - j,
{
    if j < i {
        lemma_redirect_from(t, j + 1, i, u);
    }
}

/// A successful probe answer whose page assigns
/// `window.location="http://portal.example/login"` reports a portal at
/// `http://portal.example/login`, provided no other script redirect comes
/// before that assignment.
pub proof fn script_redirect_names_portal(status: u16, location: Option<Seq<char>>, body: Seq<char>, i: int)
    requires
        is_success_status(status),
        occurs_at(body, "window.location=\"http://portal.example/login\""@, i),
        forall|x: int| 0 <= x < i ==> #[trigger] redirect_at(body, x) is None || redirect_at(body, x)
            == Some("http://portal.example/login"@),
    ensures
        probe_outcome(status, location, body) == (true, Some("http://portal.example/login"@)),
{
    let m = "window.location=\"http://portal.example/login\""@;
    let u = "http://portal.example/login"@;
    reveal_strlit("window.location=\"http://portal.example/login\"");
    reveal_strlit("http://portal.example/login");
    reveal_strlit("window.location=");
    reveal_strlit("https://");
    reveal_strlit("http://");
    let w = body.subrange(i, i + m.len());
    assert(w == m);
    assert(body.subrange(i, i + 16) =~= w.subrange(0, 16));
    assert(w.subrange(0, 16) =~= SCRIPT_REDIRECT@);
    assert(occurs_at(body, SCRIPT_REDIRECT@, i));
    let j = i + 17;
    assert(is_quote(body[j - 1])) by {
        assert(body[j - 1] == w[16]);
    }
    assert(body.subrange(j, j + 7) =~= w.subrange(17, 24));
    assert(w.subrange(17, 24) =~= "http://"@);
    assert(!occurs_at(body, "https://"@, j)) by {
        assert(body[j + 4] == w[21]);
        assert(body.subrange(j, j + 8)[4] == body[j + 4]);
    }
    assert(scheme_len(body, j) == 7);
    let q = i + m.len() - 1;
    assert forall|x: int| j + 7 <= x < q implies !is_quote(#[trigger] body[x]) by {
        assert(body[x] == w[x - i]);
    }
    assert(is_quote(body[q])) by {
        assert(body[q] == w[q - i]);
    }
    lemma_quote_from(body, j + 7, q);
    assert(body.subrange(j, q) =~= u) by {
        assert forall|x: int| 0 <= x < u.len() implies body.subrange(j, q)[x] == u[x] by {
            assert(body[j + x] == w[17 + x]);
        }
    }
    assert(redirect_at(body, i) == Some(u));
    lemma_redirect_from(body, 0, i, u);
}

} // verus!
