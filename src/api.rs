//! The local status interface: reading a request's head, choosing the
//! answer, and framing a response.
//!
//! A request is a line `METHOD PATH VERSION`, header lines up to a blank one,
//! and a body of `Content-Length` bytes. A response is a status line
//! `V1 <status>`, a `Content-Length` and a `Content-Type` header, a blank line
//! and the body.

use vstd::prelude::*;
use crate::text::{
    chars_of, find_chars, first_occurrence_from, parse_usize, split_words, strings_view, substring, trim,
    trimmed, upper_of, uppercase, usize_of, words_of,
};

verus! {

/// The methods that the interface accepts.
#[derive(PartialEq, Eq, Structural, Clone, Copy, Debug)]
pub enum Method {
    GET,
    POST,
}

/// Why a request line was refused.
#[derive(PartialEq, Eq, Structural, Clone, Copy, Debug)]
pub enum ProtocolError {
    /// Nothing was read.
    EmptyRequest,
    /// The line has fewer than two words.
    InvalidRequestLine,
    /// The method is neither `GET` nor `POST`.
    UnsupportedMethod,
}

/// What a header line means for reading the request.
#[derive(PartialEq, Eq, Structural, Clone, Copy, Debug)]
pub enum HeaderLine {
    /// The blank line that ends the headers.
    End,
    /// A `Content-Length` header and its value; 0 when the value is not a number.
    ContentLength(usize),
    /// Any other header.
    Other,
}

/// The answers that the interface gives.
#[derive(PartialEq, Eq, Structural, Clone, Copy, Debug)]
pub enum Route {
    /// The daemon's status, for `GET /v1/status`.
    Status,
    /// Anything else.
    NotFound,
}

/// The method and path of a request line.
pub open spec fn request_line_of(line: Seq<char>) -> Result<(Method, Seq<char>), ProtocolError> {
    let words = words_of(trimmed(line));
    if line.len() == 0 {
        Err(ProtocolError::EmptyRequest)
    } else if words.len() < 2 {
        Err(ProtocolError::InvalidRequestLine)
    } else if upper_of(words[0]) == "GET"@ {
        Ok((Method::GET, words[1]))
    } else if upper_of(words[0]) == "POST"@ {
        Ok((Method::POST, words[1]))
    } else {
        Err(ProtocolError::UnsupportedMethod)
    }
}

pub open spec fn is_ascii_upper(c: char) -> bool {
    'A' <= c <= 'Z'
}

/// Two characters that are equal once ASCII letters are lower-cased.
pub open spec fn same_letter(a: char, b: char) -> bool {
    a == b || (is_ascii_upper(a) && a as u32 + 32 == b as u32) || (is_ascii_upper(b) && b as u32 + 32
        == a as u32)
}

/// Two texts that are equal once ASCII letters are lower-cased.
pub open spec fn same_ignoring_ascii_case(a: Seq<char>, b: Seq<char>) -> bool {
    a.len() == b.len() && forall|i: int| 0 <= i < a.len() ==> same_letter(#[trigger] a[i], b[i])
}

/// What a header line means.
pub open spec fn header_line_of(line: Seq<char>) -> HeaderLine {
    let t = trimmed(line);
    if t.len() == 0 {
        HeaderLine::End
    } else {
        match first_occurrence_from(t, ":"@, 0) {
            Some(i) => if same_ignoring_ascii_case(trimmed(t.subrange(0, i)), "Content-Length"@) {
                HeaderLine::ContentLength(
                    match usize_of(trimmed(t.subrange(i + 1, t.len() as int))) {
                        Some(n) => n,
                        None => 0,
                    },
                )
            } else {
                HeaderLine::Other
            },
            None => HeaderLine::Other,
        }
    }
}

/// The answer to a request.
pub open spec fn route_of(method: Method, path: Seq<char>) -> Route {
    if method == Method::GET && path == "/v1/status"@ {
        Route::Status
    } else {
        Route::NotFound
    }
}

/// The decimal digit for `d`.
pub open spec fn digit_char(d: nat) -> char {
    "0123456789"@[d as int]
}

/// The decimal writing of `n`, without leading zeros.
pub open spec fn decimal(n: nat) -> Seq<char>
    decreases n,
{
    if n < 10 {
        seq![digit_char(n)]
    } else {
        decimal(n / 10).push(digit_char(n % 10))
    }
}

/// A response with the given status and body, whose length in UTF-8 bytes is `len`.
pub open spec fn response_frame(status: nat, len: nat, body: Seq<char>) -> Seq<char> {
    "V1 "@ + decimal(status) + "\r\n"@ + "Content-Length: "@ + decimal(len) + "\r\n"@
        + "Content-Type: application/json\r\n"@ + "\r\n"@ + body
}

/// Reads a request line: its method and path.
pub fn parse_request_line(line: &str) -> (r: Result<(Method, String), ProtocolError>)
    ensures
        match r {
            Ok((m, p)) => request_line_of(line@) == Ok::<(Method, Seq<char>), ProtocolError>((m, p@)),
            Err(e) => request_line_of(line@) == Err::<(Method, Seq<char>), ProtocolError>(e),
        },
{
    if line.is_empty() {
        return Err(ProtocolError::EmptyRequest);
    }
    let t = trim(line);
    let words = split_words(t.as_str());
    if words.len() < 2 {
        return Err(ProtocolError::InvalidRequestLine);
    }
    assert(strings_view(words)[0] == words@[0]@);
    assert(strings_view(words)[1] == words@[1]@);
    let method = uppercase(words[0].as_str());
    if method == "GET".to_owned() {
        Ok((Method::GET, words[1].clone()))
    } else if method == "POST".to_owned() {
        Ok((Method::POST, words[1].clone()))
    } else {
        Err(ProtocolError::UnsupportedMethod)
    }
}

/// Whether `a` and `b` are equal once ASCII letters are lower-cased.
fn eq_ignore_ascii_case(a: &Vec<char>, b: &Vec<char>) -> (r: bool)
    ensures
        r == same_ignoring_ascii_case(a@, b@),
{
    if a.len() != b.len() {
        return false;
    }
    let n = a.len();
    let mut i: usize = 0;
    while i < n
        invariant
            n == a.len(),
            n == b.len(),
            i <= n,
            forall|j: int| 0 <= j < i ==> same_letter(#[trigger] a@[j], b@[j]),
        decreases n - i,
    {
        let x = a[i];
        let y = b[i];
        let same = x == y || ('A' <= x && x <= 'Z' && x as u32 + 32 == y as u32) || ('A' <= y && y
            <= 'Z' && y as u32 + 32 == x as u32);
        if !same {
            return false;
        }
        i = i + 1;
    }
    true
}

/// Reads a header line.
pub fn parse_header_line(line: &str) -> (r: HeaderLine)
    ensures
        r == header_line_of(line@),
{
    proof {
        reveal_strlit(":");
    }
    let t = trim(line);
    let chars = chars_of(t.as_str());
    if chars.len() == 0 {
        return HeaderLine::End;
    }
    let colon = chars_of(":");
    match find_chars(&chars, &colon) {
        Some(i) => {
            let key = trim(substring(t.as_str(), 0, i).as_str());
            let name = chars_of("Content-Length");
            if eq_ignore_ascii_case(&chars_of(key.as_str()), &name) {
                let value = trim(substring(t.as_str(), i + 1, chars.len()).as_str());
                match parse_usize(value.as_str()) {
                    Some(n) => HeaderLine::ContentLength(n),
                    None => HeaderLine::ContentLength(0),
                }
            } else {
                HeaderLine::Other
            }
        },
        None => HeaderLine::Other,
    }
}

/// Chooses the answer to a request.
pub fn route(method: Method, path: &str) -> (r: Route)
    ensures
        r == route_of(method, path@),
{
    if method == Method::GET && path.to_owned() == "/v1/status".to_owned() {
        Route::Status
    } else {
        Route::NotFound
    }
}

/// The decimal writing of `n`.
pub fn decimal_string(n: u64) -> (r: String)
    ensures
        r@ == decimal(n as nat),
    decreases n,
{
    proof {
        reveal_strlit("0123456789");
    }
    let digit = substring("0123456789", (n % 10) as usize, (n % 10) as usize + 1);
    assert(digit@ =~= seq![digit_char((n % 10) as nat)]);
    if n < 10 {
        digit
    } else {
        let r = decimal_string(n / 10).concat(digit.as_str());
        assert(r@ =~= decimal(n as nat));
        r
    }
}

/// Frames a response: status line, headers, blank line, body.
pub fn frame_response(status: u16, body: &str) -> (r: String)
    ensures
        r@ == response_frame(status as nat, body.len() as nat, body@),
{
    let len = body.len();
    let r = "V1 ".to_owned().concat(decimal_string(status as u64).as_str()).concat("\r\n").concat(
        "Content-Length: ",
    ).concat(decimal_string(len as u64).as_str()).concat("\r\n").concat(
        "Content-Type: application/json\r\n",
    ).concat("\r\n").concat(body);
    r
}

} // verus!
