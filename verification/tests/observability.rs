use manticore_sentinel::observability::request_header;

#[test]
fn request_header_reads_authorization() {
    let req =
        "GET /api/search HTTP/1.1\r\nHost: 127.0.0.1\r\nAuthorization: Bearer secret\r\n\r\n";
    assert_eq!(request_header(req, "authorization"), Some("Bearer secret"));
    assert_eq!(request_header(req, "host"), Some("127.0.0.1"));
    assert_eq!(request_header(req, "missing"), None);
}
