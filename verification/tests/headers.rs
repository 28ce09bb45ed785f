use hyper::header::Headers;
use jsonrpc_client::http::HttpHandle;
use jsonrpc_client::newhttp::post_headers;
use jsonrpc_client::text::decimal_text;

fn value(headers: &Headers, name: &str) -> Option<String> {
    headers.get_raw(name).map(|raw| String::from_utf8(raw.one().expect("one line").to_vec()).expect("text"))
}

fn entries(headers: &Headers) -> Vec<(String, String)> {
    headers.iter().map(|view| (view.name().to_string(), view.value_string())).collect()
}

fn request_with(set: impl FnOnce(&mut HttpHandle<()>)) -> Headers {
    let mut handle = HttpHandle::new((), None);
    set(&mut handle);
    handle.request_headers(0)
}

#[test]
fn set_host_header() {
    let request = request_with(|h| {
        h.set_header("Host".to_string(), "dummy.url:8081".to_string());
    });
    assert_eq!(value(&request, "Host").expect("No Host"), "dummy.url:8081");
}

#[test]
fn set_host_header_twice() {
    let request = request_with(|h| {
        h.set_header("Host".to_string(), "should.be.overwritten.url".to_string());
        h.set_header("Host".to_string(), "dummy.url:8081".to_string());
    });
    assert_eq!(value(&request, "Host").expect("No Host"), "dummy.url:8081");
    assert_eq!(request.len(), 3);
}

#[test]
fn set_content_type() {
    let request = request_with(|h| {
        h.set_header("Content-Type".to_string(), "text/xml".to_string());
    });
    assert_eq!(value(&request, "Content-Type").expect("No ContentType"), "text/xml");
    assert_eq!(request.len(), 2);
}

#[test]
fn set_content_length() {
    let request = request_with(|h| {
        h.set_header("Content-Length".to_string(), "100".to_string());
    });
    assert_eq!(value(&request, "Content-Length").expect("No ContentLength"), "100");
}

#[test]
fn default_request_headers() {
    let headers = post_headers(1234);
    assert_eq!(headers.len(), 2);
    assert_eq!(value(&headers, "content-length").as_deref(), Some("1234"));
    assert_eq!(
        entries(&headers),
        vec![
            ("Content-Type".to_string(), "application/json".to_string()),
            ("Content-Length".to_string(), "1234".to_string()),
        ]
    );
}

#[test]
fn header_names_ignore_ascii_case() {
    let request = request_with(|h| {
        h.set_header("X-Token".to_string(), "a".to_string());
        h.set_header("x-token".to_string(), "b".to_string());
        h.set_header("content-TYPE".to_string(), "text/plain".to_string());
    });
    assert_eq!(
        entries(&request),
        vec![
            ("content-TYPE".to_string(), "text/plain".to_string()),
            ("Content-Length".to_string(), "0".to_string()),
            ("x-token".to_string(), "b".to_string()),
        ]
    );
    assert_eq!(value(&request, "X-TOKEN").as_deref(), Some("b"));
    assert_eq!(value(&request, "X-Tokens"), None);
}

#[test]
fn decimal_text_writes_numbers() {
    assert_eq!(decimal_text(0), "0");
    assert_eq!(decimal_text(7), "7");
    assert_eq!(decimal_text(100), "100");
    assert_eq!(decimal_text(18446744073709551615), "18446744073709551615");
}
