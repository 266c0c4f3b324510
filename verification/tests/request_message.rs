use text_http_client::request_error::RequestError;
use text_http_client::request_message::HttpVerb;
use text_http_client::request_message::RequestMessage;
use text_http_client::request_message::RequestMessageBuilder;

/// Reads one configuration source into a builder, as the application shell
/// does before handing it to the library.
fn builder_from_toml(text: &str) -> Option<RequestMessageBuilder> {
    let table: toml::Table = toml::from_str(text).ok()?;
    let scalar = |key: &str| -> Option<String> {
        table.get(key).and_then(|v| v.as_str()).map(|s| s.to_string())
    };
    let headers = table.get("headers").and_then(|v| v.as_table()).map(|t| {
        t.iter()
            .map(|(k, v)| (k.clone(), v.as_str().unwrap_or("").to_string()))
            .collect::<Vec<(String, String)>>()
    });
    Some(RequestMessageBuilder {
        method: scalar("method"),
        host: scalar("host"),
        path: scalar("path"),
        body: scalar("body"),
        headers,
    })
}

fn empty_builder() -> RequestMessageBuilder {
    RequestMessageBuilder { method: None, host: None, path: None, body: None, headers: None }
}

fn has_header(headers: &Option<Vec<(String, String)>>, name: &str) -> bool {
    headers.as_ref().is_some_and(|h| h.iter().any(|kv| kv.0 == name))
}

#[test]
fn increment_should_replace_value() {
    let input_a = r#"
        method = "GET"
        host = "http://localhost:5000"
        "#;
    let inptu_b = r#"
    method = "POST"
    "#;
    let message_a = builder_from_toml(input_a).expect("sample message should have been parsed");
    let message_b = builder_from_toml(inptu_b).expect("sample message should have been parsed");

    let merged_message = message_a.merge_with(message_b);
    assert!(merged_message.method.is_some_and(|x| x == "POST"))
}

#[test]
fn increment_should_add_value() {
    let input_a = r#"
        method = "GET"
        host = "http://localhost:5000"

        [headers]
        accept = "application/json"
        "#;
    let inptu_b = r#"
    path = "/resource"

    [headers]
    authorization = "simple_token"
    "#;
    let message_a = builder_from_toml(input_a).expect("sample message should have been parsed");
    let message_b = builder_from_toml(inptu_b).expect("sample message should have been parsed");

    let merged_message = message_a.merge_with(message_b);
    assert!(merged_message.path.is_some_and(|x| x == "/resource"));

    assert!(has_header(&merged_message.headers, "authorization"));
}

#[test]
fn increment_should_not_erase_original_headers_when_not_replaced() {
    let input_a = r#"
        method = "GET"
        host = "http://localhost:5000"

        [headers]
        accept = "application/json"
        "#;
    let inptu_b = r#"
    path = "/resource"

    [headers]
    authorization = "simple_token"
    "#;
    let message_a = builder_from_toml(input_a).expect("sample message should have been parsed");
    let message_b = builder_from_toml(inptu_b).expect("sample message should have been parsed");

    let merged_message = message_a.merge_with(message_b);
    assert!(merged_message.path.is_some_and(|x| x == "/resource"));

    assert!(has_header(&merged_message.headers, "accept"));
}

#[test]
fn to_message_should_copy_values() {
    let input = r#"
        method = "GET"
        host = "http://localhost:5000"
        path = "/"
        body = '{"fake_json":"value"}'

        [headers]
        accept = "application/json"
        authorization = "simple_token"

        "#;
    let builder = builder_from_toml(input).unwrap();
    let message = builder.into_message().unwrap();
    assert!(matches!(message.method, HttpVerb::Get));
    assert_eq!(message.url, "http://localhost:5000/");
    assert_eq!(message.body, r#"{"fake_json":"value"}"#);
    assert_eq!(message.headers.len(), 2);
    for kv in message.headers.iter() {
        assert!(
            (kv.0 == "accept" && kv.1 == "application/json")
                || (kv.0 == "authorization" && kv.1 == "simple_token")
        );
    }
}

#[test]
fn merge_scalars_fall_back_to_base() {
    let mut base = empty_builder();
    base.method = Some("GET".to_string());
    base.host = Some("http://localhost:5000".to_string());
    base.body = Some("payload".to_string());
    let mut overlay = empty_builder();
    overlay.host = Some("http://example.org".to_string());

    let merged = base.merge_with(overlay);
    assert_eq!(merged.method, Some("GET".to_string()));
    assert_eq!(merged.host, Some("http://example.org".to_string()));
    assert_eq!(merged.path, None);
    assert_eq!(merged.body, Some("payload".to_string()));
}

#[test]
fn merge_headers_overlay_wins_and_base_is_preserved() {
    let mut base = empty_builder();
    base.headers = Some(vec![
        ("accept".to_string(), "application/json".to_string()),
        ("x-tag".to_string(), "one".to_string()),
    ]);
    let mut overlay = empty_builder();
    overlay.headers = Some(vec![
        ("x-tag".to_string(), "two".to_string()),
        ("authorization".to_string(), "token".to_string()),
    ]);

    let merged = base.merge_with(overlay);
    let headers = merged.headers.expect("merge always yields a header mapping");
    assert_eq!(headers.len(), 3);
    assert!(headers.contains(&("accept".to_string(), "application/json".to_string())));
    assert!(headers.contains(&("x-tag".to_string(), "two".to_string())));
    assert!(headers.contains(&("authorization".to_string(), "token".to_string())));
}

#[test]
fn merge_of_two_empty_builders_yields_empty_header_mapping() {
    let merged = empty_builder().merge_with(empty_builder());
    assert_eq!(merged.method, None);
    assert_eq!(merged.host, None);
    assert_eq!(merged.path, None);
    assert_eq!(merged.body, None);
    assert_eq!(merged.headers, Some(Vec::new()));
}

fn build_error_field(result: Result<RequestMessage, RequestError>) -> String {
    match result {
        Err(RequestError::BuildError { property_name }) => property_name,
        _ => panic!("expected a build error"),
    }
}

#[test]
fn into_message_reports_host_first() {
    let mut b = empty_builder();
    b.method = Some("GET".to_string());
    b.path = Some("/".to_string());
    assert_eq!(build_error_field(b.into_message()), "host");

    // host missing still wins when everything else is missing too
    assert_eq!(build_error_field(empty_builder().into_message()), "host");
}

#[test]
fn into_message_reports_path_when_host_is_present() {
    let mut b = empty_builder();
    b.host = Some("http://localhost:5000".to_string());
    b.method = Some("GET".to_string());
    assert_eq!(build_error_field(b.into_message()), "path");
}

#[test]
fn into_message_reports_method_when_host_and_path_are_present() {
    let mut b = empty_builder();
    b.host = Some("http://localhost:5000".to_string());
    b.path = Some("/".to_string());
    assert_eq!(build_error_field(b.into_message()), "method");
}

#[test]
fn into_message_matches_method_case_insensitively() {
    let mut b = empty_builder();
    b.host = Some("http://localhost:5000".to_string());
    b.path = Some("/".to_string());
    b.method = Some("get".to_string());
    let message = b.into_message().unwrap();
    assert!(matches!(message.method, HttpVerb::Get));

    let mut b2 = empty_builder();
    b2.host = Some("http://localhost:5000".to_string());
    b2.path = Some("/".to_string());
    b2.method = Some("dElEtE".to_string());
    let message2 = b2.into_message().unwrap();
    assert!(matches!(message2.method, HttpVerb::Delete));
}

#[test]
fn into_message_rejects_unrecognized_method() {
    let mut b = empty_builder();
    b.host = Some("http://localhost:5000".to_string());
    b.path = Some("/".to_string());
    b.method = Some("FETCH".to_string());
    assert_eq!(build_error_field(b.into_message()), "method");
}

#[test]
fn url_is_pure_concatenation() {
    let mut b = empty_builder();
    b.host = Some("http://localhost:5000".to_string());
    b.path = Some("/".to_string());
    b.method = Some("GET".to_string());
    assert_eq!(b.into_message().unwrap().url, "http://localhost:5000/");

    // no slash deduplication or insertion
    let mut b2 = empty_builder();
    b2.host = Some("http://localhost:5000/".to_string());
    b2.path = Some("/x".to_string());
    b2.method = Some("GET".to_string());
    assert_eq!(b2.into_message().unwrap().url, "http://localhost:5000//x");
}

#[test]
fn into_message_defaults_body_and_headers_to_empty() {
    let mut b = empty_builder();
    b.host = Some("h".to_string());
    b.path = Some("p".to_string());
    b.method = Some("POST".to_string());
    let message = b.into_message().unwrap();
    assert_eq!(message.body, "");
    assert!(message.headers.is_empty());
}

#[test]
fn request_render_lists_method_url_headers_and_body() {
    let mut b = empty_builder();
    b.host = Some("http://localhost:5000".to_string());
    b.path = Some("/".to_string());
    b.method = Some("GET".to_string());
    b.body = Some("hello".to_string());
    b.headers = Some(vec![("accept".to_string(), "application/json".to_string())]);
    let message = b.into_message().unwrap();
    assert_eq!(
        message.render(),
        "method: GET\nurl: http://localhost:5000/\naccept:application/json\n\nbody: hello\n"
    );
}

#[test]
fn request_error_messages() {
    assert_eq!(RequestError::CouldNotReadFile.render(), "could not read the file");
    assert_eq!(
        RequestError::TomlParserError { message: "bad input".to_string() }.render(),
        "could not parse the file bad input"
    );
    assert_eq!(
        RequestError::BuildError { property_name: "host".to_string() }.render(),
        "missing host information"
    );
    assert_eq!(
        RequestError::HttpError { message: "connection refused".to_string() }.render(),
        "connection refused"
    );
}
