use simple_http::model::{Error, HttpMethod};
use simple_http::request_line::{extract_http_details, read_http_request};

// --- SUCCESS CASES ---

#[test]
fn test_success_get_root() {
    let request = "GET / HTTP/1.1\r\n";

    let result = extract_http_details(request);

    assert!(
        result.is_ok(),
        "Expected Ok result but got error: {:?}",
        result.err()
    );
    let (method, path) = result.unwrap();
    assert_eq!(method, HttpMethod::Get);
    assert_eq!(path, "/");
}

#[test]
fn test_success_post_with_query() {
    let request = "POST /api/users?action=create HTTP/1.1\r\n";

    let result = extract_http_details(request);

    match result {
        Ok((method, path)) => {
            assert_eq!(method, HttpMethod::Post);
            assert_eq!(path, "/api/users?action=create");
        }
        Err(e) => panic!("Expected Ok result but got error: {:?}", e),
    }
}

#[test]
fn test_success_case_insensitivity() {
    let request = "dElEtE /item/99 HTTP/1.1\r\n";

    let result = extract_http_details(request);

    match result {
        Ok((method, path)) => {
            assert_eq!(method, HttpMethod::Delete);
            assert_eq!(path, "/item/99");
        }
        Err(e) => panic!("Expected Ok result but got error: {:?}", e),
    }
}

// --- FAILURE CASES ---

#[test]
fn test_error_empty_string() {
    let request = "";

    let result = extract_http_details(request);

    match result {
        Err(Error::InvalidRequestLine) => {}
        _ => panic!("Expected Error::InvalidRequestLine, got {:?}", result),
    }
}

#[test]
fn test_error_missing_method() {
    // The version token is taken for the method, which is not one.
    let request = "  HTTP/1.1\r\n";

    let result = extract_http_details(request);

    match result {
        Err(Error::UnrecognizedHttpMethod) => {}
        _ => panic!("Expected Error::UnrecognizedHttpMethod, got {:?}", result),
    }
}

#[test]
fn test_error_missing_path() {
    let request = "GET HTTP/1.1\r\n";

    let result = extract_http_details(request);

    match result {
        Err(Error::MissingRequestPath) => {}
        _ => panic!("Expected Error::MissingRequestPath, got {:?}", result),
    }
}

#[test]
fn test_error_unrecognized_method() {
    let request = "CUSTOM /path HTTP/1.1\r\n";

    let result = extract_http_details(request);

    match result {
        Err(Error::UnrecognizedHttpMethod) => {}
        _ => panic!("Expected Error::UnrecognizedHttpMethod, got {:?}", result),
    }
}

#[test]
fn test_read_http_request() {
    let request = read_http_request("GET /test HTTP/1.1\r\n").unwrap();
    assert_eq!(request.method_and_path(), (HttpMethod::Get, "/test"));
}

#[test]
fn put_with_lower_case_method_parses() {
    let (method, path) = extract_http_details("put /a/b HTTP/1.1\r\n").unwrap();
    assert_eq!(method, HttpMethod::Put);
    assert_eq!(path, "/a/b");
}

#[test]
fn every_method_in_mixed_case_parses() {
    let cases = [
        ("gEt", HttpMethod::Get),
        ("PoSt", HttpMethod::Post),
        ("pUT", HttpMethod::Put),
        ("DELete", HttpMethod::Delete),
    ];
    for (m, expected) in cases {
        let line = format!("{} /x HTTP/1.1\r\n", m);
        let (method, path) = extract_http_details(&line).unwrap();
        assert_eq!(method, expected);
        assert_eq!(path, "/x");
    }
}

#[test]
fn non_ascii_letters_are_upper_cased_too() {
    // U+017F LATIN SMALL LETTER LONG S upper-cases to `S`.
    let (method, path) = extract_http_details("po\u{17f}t /form HTTP/1.1\r\n").unwrap();
    assert_eq!(method, HttpMethod::Post);
    assert_eq!(path, "/form");
}

#[test]
fn blank_line_is_invalid() {
    assert!(matches!(
        extract_http_details(" \t\r\n"),
        Err(Error::InvalidRequestLine)
    ));
    assert!(matches!(
        extract_http_details("\u{3000}\u{a0}\n"),
        Err(Error::InvalidRequestLine)
    ));
}

#[test]
fn method_alone_is_missing_its_path() {
    assert!(matches!(
        extract_http_details("GET\r\n"),
        Err(Error::MissingRequestPath)
    ));
    assert!(matches!(
        extract_http_details("delete"),
        Err(Error::MissingRequestPath)
    ));
}

#[test]
fn unrooted_path_counts_as_missing() {
    assert!(matches!(
        extract_http_details("GET index.html HTTP/1.1\r\n"),
        Err(Error::MissingRequestPath)
    ));
}

#[test]
fn unknown_method_wins_over_missing_path() {
    assert!(matches!(
        extract_http_details("PATCH\r\n"),
        Err(Error::UnrecognizedHttpMethod)
    ));
}

#[test]
fn runs_of_unicode_whitespace_separate_tokens() {
    let (method, path) =
        extract_http_details("\t GET\u{2003}\u{2003}/wide\u{a0}HTTP/1.1\r\n").unwrap();
    assert_eq!(method, HttpMethod::Get);
    assert_eq!(path, "/wide");
}

#[test]
fn path_keeps_non_ascii_characters() {
    let (_, path) = extract_http_details("GET /caf\u{e9}/\u{65e5} HTTP/1.1\r\n").unwrap();
    assert_eq!(path, "/caf\u{e9}/\u{65e5}");
}

#[test]
fn tokens_after_the_path_are_ignored() {
    let (method, path) = extract_http_details("GET /p extra tokens here").unwrap();
    assert_eq!(method, HttpMethod::Get);
    assert_eq!(path, "/p");
}

#[test]
fn method_parses_from_text_in_any_case() {
    assert_eq!(HttpMethod::from_str("post").unwrap(), HttpMethod::Post);
    assert_eq!("Delete".parse::<HttpMethod>().unwrap(), HttpMethod::Delete);
    assert!(matches!(
        HttpMethod::from_str("HEAD"),
        Err(Error::UnrecognizedHttpMethod)
    ));
    assert!(matches!(
        HttpMethod::from_uppercase("get"),
        Err(Error::UnrecognizedHttpMethod)
    ));
    assert_eq!(HttpMethod::from_uppercase("PUT").unwrap(), HttpMethod::Put);
}

#[test]
fn read_http_request_reports_parse_errors() {
    assert!(matches!(
        read_http_request(""),
        Err(Error::InvalidRequestLine)
    ));
    assert!(matches!(
        read_http_request("GET relative HTTP/1.1\r\n"),
        Err(Error::MissingRequestPath)
    ));
}
