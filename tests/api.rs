use portal_kombat::api::{
    decimal_string, frame_response, parse_header_line, parse_request_line, route, HeaderLine, Method,
    ProtocolError, Route,
};

#[test]
fn request_line_gives_method_and_path() {
    assert_eq!(
        parse_request_line("GET /v1/status V1\r\n"),
        Ok((Method::GET, "/v1/status".to_string()))
    );
    assert_eq!(parse_request_line("post /x V1"), Ok((Method::POST, "/x".to_string())));
}

#[test]
fn request_line_errors() {
    assert_eq!(parse_request_line(""), Err(ProtocolError::EmptyRequest));
    assert_eq!(parse_request_line("GET\r\n"), Err(ProtocolError::InvalidRequestLine));
    assert_eq!(parse_request_line("   \n"), Err(ProtocolError::InvalidRequestLine));
    assert_eq!(parse_request_line("PUT /x V1"), Err(ProtocolError::UnsupportedMethod));
}

#[test]
fn header_lines() {
    assert_eq!(parse_header_line("\r\n"), HeaderLine::End);
    assert_eq!(parse_header_line(""), HeaderLine::End);
    assert_eq!(parse_header_line("Content-Length: 42\r\n"), HeaderLine::ContentLength(42));
    assert_eq!(parse_header_line("content-LENGTH:7"), HeaderLine::ContentLength(7));
    assert_eq!(parse_header_line("Content-Length: abc"), HeaderLine::ContentLength(0));
    assert_eq!(parse_header_line("Content-Type: text/plain"), HeaderLine::Other);
    assert_eq!(parse_header_line("no colon here"), HeaderLine::Other);
}

#[test]
fn routing() {
    assert_eq!(route(Method::GET, "/v1/status"), Route::Status);
    assert_eq!(route(Method::POST, "/v1/status"), Route::NotFound);
    assert_eq!(route(Method::GET, "/v1/other"), Route::NotFound);
}

#[test]
fn decimals() {
    assert_eq!(decimal_string(0), "0");
    assert_eq!(decimal_string(7), "7");
    assert_eq!(decimal_string(404), "404");
    assert_eq!(decimal_string(18446744073709551615), "18446744073709551615");
}

#[test]
fn response_framing() {
    assert_eq!(
        frame_response(200, "{\"status\":\"running\"}"),
        "V1 200\r\nContent-Length: 20\r\nContent-Type: application/json\r\n\r\n{\"status\":\"running\"}"
    );
    assert_eq!(
        frame_response(404, ""),
        "V1 404\r\nContent-Length: 0\r\nContent-Type: application/json\r\n\r\n"
    );
    assert_eq!(
        frame_response(200, "é"),
        "V1 200\r\nContent-Length: 2\r\nContent-Type: application/json\r\n\r\né"
    );
}

#[test]
fn decimal_numbers_are_read_like_usize() {
    assert_eq!(portal_kombat::text::parse_usize("42"), Some(42));
    assert_eq!(portal_kombat::text::parse_usize("+7"), Some(7));
    assert_eq!(portal_kombat::text::parse_usize("007"), Some(7));
    assert_eq!(portal_kombat::text::parse_usize(&usize::MAX.to_string()), Some(usize::MAX));
    assert_eq!(portal_kombat::text::parse_usize(&format!("{}0", usize::MAX)), None);
    assert_eq!(portal_kombat::text::parse_usize(""), None);
    assert_eq!(portal_kombat::text::parse_usize("+"), None);
    assert_eq!(portal_kombat::text::parse_usize("-1"), None);
    assert_eq!(portal_kombat::text::parse_usize(" 1"), None);
    assert_eq!(portal_kombat::text::parse_usize("1a"), None);
    for s in ["0", "+12", "99999", "", "x", "18446744073709551616"] {
        assert_eq!(portal_kombat::text::parse_usize(s), s.parse::<usize>().ok());
    }
}
