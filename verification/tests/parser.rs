use rq::parser::{parse, HttpFile, HttpMethod, ParseError};

fn assert_parses(input: &str) -> HttpFile {
    let parsed = parse(input);
    assert!(parsed.is_ok());
    parsed.unwrap()
}

#[test]
fn test_empty_input() {
    let file = assert_parses("");
    assert_eq!(file.to_text(), "No requests found\n");
}

#[test]
fn test_http_methods() {
    let methods = [
        HttpMethod::Get,
        HttpMethod::Post,
        HttpMethod::Put,
        HttpMethod::Delete,
    ];
    for method in methods {
        let input = format!("{} test.dev HTTP/1.1\n\n", method.as_str());
        let file = assert_parses(input.as_str());
        assert_eq!(file.requests.len(), 1);
        assert_eq!(
            file.requests[0].to_text(),
            format!("{} test.dev HTTP/1.1 []", method.as_str())
        );
    }
}

#[test]
fn test_http_headers() {
    let input = r#"
POST test.dev HTTP/1
authorization: Bearer xxxx

"#;
    let file = assert_parses(input);
    assert_eq!(file.requests[0].headers().len(), 1);
    assert_eq!(
        file.requests[0].headers().get("authorization").unwrap(),
        "Bearer xxxx"
    );
}

#[test]
fn test_http_body() {
    let input = r#"
POST test.dev HTTP/1

{ "test": "body" }"#;
    let file = assert_parses(input);
    assert_eq!(file.requests[0].body, "{ \"test\": \"body\" }");
}

#[test]
fn test_http_file() {
    let input = r#"
POST test.dev HTTP/1
authorization: token

###

GET test.dev HTTP/1

"#;
    let file = assert_parses(input);
    assert_eq!(file.requests.len(), 2);
    assert_eq!(
        file.to_text(),
        "#0\nPOST test.dev HTTP/1 [authorization: token]\n#1\nGET test.dev HTTP/1 []\n"
    );
}

#[test]
fn request_line_without_method_or_version() {
    let file = assert_parses("http://x\n");
    assert_eq!(file.requests.len(), 1);
    assert_eq!(file.requests[0].method, HttpMethod::Get);
    assert_eq!(file.requests[0].url, "http://x");
    assert_eq!(file.requests[0].version, "");
    let file = assert_parses("PUT http://x");
    assert_eq!(file.requests[0].method, HttpMethod::Put);
    assert_eq!(file.requests[0].url, "http://x");
    let file = assert_parses("http://x HTTP/2");
    assert_eq!(file.requests[0].method, HttpMethod::Get);
    assert_eq!(file.requests[0].version, "2");
}

#[test]
fn bad_request_line_is_rejected_with_its_position() {
    assert_eq!(parse("  FETCH x HTTP/1\n").unwrap_err(), ParseError::RequestLine(2));
    assert_eq!(parse("GET a b c\n").unwrap_err(), ParseError::RequestLine(0));
    assert_eq!(parse("GET x 1.1\n").unwrap_err(), ParseError::RequestLine(0));
}

#[test]
fn bad_header_is_rejected_with_its_position() {
    assert_eq!(parse("GET x\nno colon here\n\n").unwrap_err(), ParseError::Header(6));
    assert_eq!(parse("GET x\n: value\n\n").unwrap_err(), ParseError::Header(6));
}

#[test]
fn repeated_header_names_are_kept_in_order() {
    let file = assert_parses("GET x\r\na: 1\r\nb:2\r\na:   3\r\n\r\nbody\n###\nGET y\n");
    assert_eq!(file.requests.len(), 2);
    let headers = file.requests[0].headers();
    assert_eq!(headers.len(), 3);
    assert_eq!(headers.get("a").unwrap(), "3");
    assert_eq!(headers.get("b").unwrap(), "2");
    assert!(headers.get("c").is_none());
    assert_eq!(headers.to_text(), "[a: 1, b: 2, a: 3]");
    assert_eq!(file.requests[0].body, "body\n");
    assert_eq!(file.requests[1].url, "y");
}

#[test]
fn body_runs_to_the_separator_line() {
    let file = assert_parses("POST x\n\nline 1\n## not a separator\nline 3\n### next\n\n\nGET y\n\n");
    assert_eq!(file.requests.len(), 2);
    assert_eq!(file.requests[0].body, "line 1\n## not a separator\nline 3\n");
    assert_eq!(file.requests[1].body, "");
}

#[test]
fn duplicate_keeps_every_part() {
    let file = assert_parses("POST x HTTP/1.1\na: b\n\nbody");
    let copy = file.requests[0].duplicate();
    assert_eq!(copy.to_text(), "POST x HTTP/1.1 [a: b]");
    assert_eq!(copy.body, "body");
}

#[test]
fn separators_and_blank_text_hold_no_request() {
    assert_eq!(assert_parses("   \n\t\r\n").requests.len(), 0);
    assert_eq!(assert_parses("###\n").requests.len(), 0);
    assert_eq!(assert_parses("### first\n\n###\n###").requests.len(), 0);
    let file = assert_parses("###\n  GET a\n\n###\n\n\n###\nDELETE b HTTP/1.1\nk: v");
    assert_eq!(file.requests.len(), 2);
    assert_eq!(file.requests[0].to_text(), "GET a HTTP/ []");
    assert_eq!(file.requests[1].to_text(), "DELETE b HTTP/1.1 [k: v]");
    assert_eq!(file.requests[1].body, "");
}

#[test]
fn request_line_takes_spaces_and_tabs_between_words() {
    let file = assert_parses("POST \t http://x/y?z=1   HTTP/1.1 \t\r\nname:value\r\n\r\n");
    assert_eq!(file.requests[0].method, HttpMethod::Post);
    assert_eq!(file.requests[0].url, "http://x/y?z=1");
    assert_eq!(file.requests[0].version, "1.1");
    assert_eq!(file.requests[0].headers().get("name").unwrap(), "value");
    assert_eq!(file.to_text(), "#0\nPOST http://x/y?z=1 HTTP/1.1 [name: value]\n");
}

#[test]
fn error_position_counts_characters() {
    assert_eq!(parse("GET é\n\n###\nGET é é é é\n").unwrap_err(), ParseError::RequestLine(11));
    assert_eq!(parse("GET x\nä: 1\nö\n").unwrap_err(), ParseError::Header(11));
}
