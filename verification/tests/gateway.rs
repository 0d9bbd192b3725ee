use gitforge::gateway::{gateway_env, parse_cgi_output};

fn headers_as_strings(headers: &[(Vec<u8>, Vec<u8>)]) -> Vec<(String, String)> {
    let mut out = Vec::new();
    for (k, v) in headers {
        out.push((
            String::from_utf8(k.clone()).unwrap(),
            String::from_utf8(v.clone()).unwrap(),
        ));
    }
    out
}

#[test]
fn status_line_with_crlf_boundary_sets_status_and_body() {
    let reply = parse_cgi_output(b"Status: 404 Not Found\r\n\r\nbody", b"");
    assert_eq!(reply.status, 404);
    assert_eq!(reply.body, b"body".to_vec());
    assert!(reply.headers.is_empty());
}

#[test]
fn no_boundary_with_stderr_gives_500_with_stderr_body() {
    let reply = parse_cgi_output(b"garbage without separator", b"fatal: boom");
    assert_eq!(reply.status, 500);
    assert_eq!(reply.body, b"fatal: boom".to_vec());
    assert_eq!(
        headers_as_strings(&reply.headers),
        vec![("Content-Type".to_string(), "text/plain".to_string())]
    );
}

#[test]
fn no_boundary_without_stderr_gives_200_with_raw_stdout() {
    let reply = parse_cgi_output(b"raw output", b"");
    assert_eq!(reply.status, 200);
    assert_eq!(reply.body, b"raw output".to_vec());
    assert!(reply.headers.is_empty());
}

#[test]
fn status_defaults_to_200_and_headers_are_kept() {
    let reply = parse_cgi_output(
        b"Content-Type: application/x-git-upload-pack-advertisement\r\nCache-Control: no-cache\r\n\r\npayload",
        b"",
    );
    assert_eq!(reply.status, 200);
    assert_eq!(
        headers_as_strings(&reply.headers),
        vec![
            (
                "Content-Type".to_string(),
                "application/x-git-upload-pack-advertisement".to_string()
            ),
            ("Cache-Control".to_string(), "no-cache".to_string()),
        ]
    );
    assert_eq!(reply.body, b"payload".to_vec());
}

#[test]
fn lf_boundary_is_found_too() {
    let reply = parse_cgi_output(b"Status: 301 Moved\n\nover here", b"");
    assert_eq!(reply.status, 301);
    assert_eq!(reply.body, b"over here".to_vec());
}

#[test]
fn earlier_boundary_wins() {
    // The \r\n\r\n begins before the \n\n does, so it is the boundary.
    let reply = parse_cgi_output(b"K: v\r\n\r\n\n\nrest", b"");
    assert_eq!(reply.status, 200);
    assert_eq!(reply.body, b"\n\nrest".to_vec());
}

#[test]
fn status_parsing_is_ascii_case_insensitive() {
    let reply = parse_cgi_output(b"sTaTuS: 418 Teapot\r\n\r\n", b"");
    assert_eq!(reply.status, 418);
    assert!(reply.headers.is_empty());
}

#[test]
fn later_status_line_overrides_earlier_one() {
    let reply = parse_cgi_output(b"Status: 301 Moved\nStatus: 404 Not Found\n\n", b"");
    assert_eq!(reply.status, 404);
}

#[test]
fn malformed_status_token_keeps_default() {
    // No whitespace after the colon: the second token is "Not", not a code.
    let reply = parse_cgi_output(b"Status:404 Not Found\r\n\r\nx", b"");
    assert_eq!(reply.status, 200);
    // The line was still consumed as a status line, not kept as a header.
    assert!(reply.headers.is_empty());
}

#[test]
fn non_numeric_and_out_of_range_status_tokens_keep_default() {
    assert_eq!(parse_cgi_output(b"Status: abc\r\n\r\n", b"").status, 200);
    assert_eq!(parse_cgi_output(b"Status: 99\r\n\r\n", b"").status, 200);
    assert_eq!(parse_cgi_output(b"Status: 099\r\n\r\n", b"").status, 200);
    assert_eq!(parse_cgi_output(b"Status: 4040\r\n\r\n", b"").status, 200);
}

#[test]
fn malformed_header_lines_are_dropped() {
    let reply = parse_cgi_output(
        b"no colon here\n: empty key\nEmpty-Value:   \nGood: value\n\n",
        b"",
    );
    assert_eq!(
        headers_as_strings(&reply.headers),
        vec![("Good".to_string(), "value".to_string())]
    );
}

#[test]
fn header_values_are_trimmed_keys_kept_verbatim() {
    let reply = parse_cgi_output(b"X-Key:   padded value  \r\n\r\n", b"");
    assert_eq!(
        headers_as_strings(&reply.headers),
        vec![("X-Key".to_string(), "padded value".to_string())]
    );
}

#[test]
fn empty_stdout_without_stderr_is_empty_200() {
    let reply = parse_cgi_output(b"", b"");
    assert_eq!(reply.status, 200);
    assert!(reply.body.is_empty());
    assert!(reply.headers.is_empty());
}

#[test]
fn gateway_env_lists_the_cgi_variables_in_order() {
    let env = gateway_env("./repos", "/demo.git/info/refs", "GET", "service=git-upload-pack", None);
    let got: Vec<(String, String)> = env;
    assert_eq!(
        got,
        vec![
            ("GIT_PROJECT_ROOT".to_string(), "./repos".to_string()),
            ("GIT_HTTP_EXPORT_ALL".to_string(), "".to_string()),
            ("PATH_INFO".to_string(), "/demo.git/info/refs".to_string()),
            ("REQUEST_METHOD".to_string(), "GET".to_string()),
            ("QUERY_STRING".to_string(), "service=git-upload-pack".to_string()),
        ]
    );
}

#[test]
fn gateway_env_appends_content_type_when_present() {
    let env = gateway_env(
        "./repos",
        "/demo.git/git-receive-pack",
        "POST",
        "",
        Some("application/x-git-receive-pack-request"),
    );
    assert_eq!(env.len(), 6);
    assert_eq!(
        env[5],
        (
            "CONTENT_TYPE".to_string(),
            "application/x-git-receive-pack-request".to_string()
        )
    );
}
