use learning_rust::http::{
    apply_header_line, body_length, parse_path, parse_request_line, respond, server_router, Handler,
    HttpMethod, HttpRequest, HttpResponse, StatusCode,
};
use learning_rust::strmap::StrMap;

fn request(raw_line: &str, header_lines: &[&str], body: &[u8]) -> Result<HttpRequest, String> {
    let line = parse_request_line(raw_line)?;
    let mut headers = StrMap::new();
    for h in header_lines {
        if apply_header_line(&mut headers, h) {
            break;
        }
    }
    Ok(HttpRequest::assemble(line, headers, body))
}

fn text(r: &HttpResponse) -> String {
    r.to_text()
}

#[test]
fn request_line_parts_and_errors() {
    let line = parse_request_line("  get /api/users?page=2&limit=5 HTTP/1.1\r\n").unwrap();
    assert!(matches!(line.method, HttpMethod::Get));
    assert_eq!(line.path, "/api/users");
    assert_eq!(line.query_params.get("page").map(|s| s.as_str()), Some("2"));
    assert_eq!(line.query_params.get("limit").map(|s| s.as_str()), Some("5"));
    assert_eq!(line.version, "HTTP/1.1");
    assert_eq!(parse_request_line("   ").err().unwrap(), "空请求");
    assert_eq!(parse_request_line("GET /").err().unwrap(), "无效的请求行: GET /");
    let other = parse_request_line("PATCH /x HTTP/1.0").unwrap();
    assert!(matches!(other.method, HttpMethod::Unknown(ref m) if m == "PATCH"));
}

#[test]
fn path_and_query_split() {
    let (path, q) = parse_path("/search?q=rust&empty=&flag");
    assert_eq!(path, "/search");
    assert_eq!(q.get("q").map(|s| s.as_str()), Some("rust"));
    assert_eq!(q.get("empty").map(|s| s.as_str()), Some(""));
    let (plain, none) = parse_path("/plain");
    assert_eq!(plain, "/plain");
    assert_eq!(none.len(), 0);
}

#[test]
fn header_lines_and_body_length() {
    let mut h = StrMap::new();
    assert!(!apply_header_line(&mut h, "Content-Type:  text/plain  "));
    assert!(!apply_header_line(&mut h, "no colon here"));
    assert!(!apply_header_line(&mut h, "Content-Length: 12"));
    assert!(apply_header_line(&mut h, "   "));
    assert_eq!(h.get("content-type").map(|s| s.as_str()), Some("text/plain"));
    assert_eq!(h.len(), 2);
    assert_eq!(body_length(&h), Ok(12));
    let mut bad = StrMap::new();
    apply_header_line(&mut bad, "content-length: twelve");
    assert_eq!(body_length(&bad).unwrap_err(), "无效的 Content-Length");
    assert_eq!(body_length(&StrMap::new()), Ok(0));
}

#[test]
fn status_texts_and_response_text() {
    assert_eq!(StatusCode::Okay.as_str(), "200 OK");
    assert_eq!(StatusCode::MethodNotAllowed.as_str(), "405 Method Not Allowed");
    let r = HttpResponse::new(StatusCode::Created).header("X-A", "1").body("héllo");
    assert_eq!(
        text(&r),
        "HTTP/1.1 201 Created\r\nContent-Length: 6\r\nServer: RustHttpServer/1.0\r\nConnection: close\r\nX-A: 1\r\n\r\nhéllo"
    );
    assert_eq!(r.build(), text(&r).into_bytes());
}

#[test]
fn routing_answers() {
    let router = server_router();
    let health = respond(&router, &request("GET /health HTTP/1.1", &[], b""));
    assert!(matches!(health.status, StatusCode::Okay));
    assert_eq!(health.body, r#"{"status": "ok", "service": "rust-http-server"}"#);

    let users = respond(&router, &request("GET /api/users?page=3&limit=x HTTP/1.1", &[], b""));
    assert!(users.body.starts_with("{\n  \"page\": 3,\n  \"limit\": 10,\n  \"total\": 3,"));

    let wrong_method = respond(&router, &request("DELETE /about HTTP/1.1", &[], b""));
    assert!(matches!(wrong_method.status, StatusCode::MethodNotAllowed));
    assert_eq!(wrong_method.body, "405 Method Not Allowed");

    let missing = respond(&router, &request("GET /nope HTTP/1.1", &[], b""));
    assert!(matches!(missing.status, StatusCode::NotFound));

    let bad = respond(&router, &request("", &[], b""));
    assert!(matches!(bad.status, StatusCode::BadRequest));
    assert_eq!(bad.body, "400 Bad Request: 空请求");
}

#[test]
fn echo_reports_request() {
    let router = server_router();
    let body = br#"say "hi""#;
    let req = request(
        "POST /api/echo HTTP/1.1",
        &["Content-Type: text/plain", "Content-Length: 8", ""],
        body,
    );
    let r = respond(&router, &req);
    assert_eq!(
        r.body,
        "{\n  \"method\": \"Post\",\n  \"path\": \"/api/echo\",\n  \"content_type\": \"text/plain\",\n  \"body_length\": 8,\n  \"body\": \"say \\\"hi\\\"\",\n  \"headers_count\": 2\n}"
    );
    assert!(matches!(router.find_handler(&HttpMethod::Post, "/api/echo"), Some(Handler::Echo)));
    assert!(router.find_handler(&HttpMethod::Put, "/api/echo").is_none());
    assert!(router.path_exists("/api/echo"));
}
