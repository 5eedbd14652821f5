use kubeport::httptools::basic_response;

#[test]
fn status_line_of_ok() {
    assert_eq!(basic_response(200), "HTTP/1.1 200");
}

#[test]
fn status_line_of_other_codes() {
    assert_eq!(basic_response(404), "HTTP/1.1 404");
    assert_eq!(basic_response(100), "HTTP/1.1 100");
    assert_eq!(basic_response(999), "HTTP/1.1 999");
    assert_eq!(basic_response(503), "HTTP/1.1 503");
}

#[test]
fn status_line_matches_the_status_code_text() {
    for code in [101u16, 204, 301, 418, 500] {
        let status = hyper::StatusCode::from_u16(code).unwrap();
        assert_eq!(basic_response(code), format!("HTTP/1.1 {}", status.as_str()));
    }
}

#[test]
fn response_serializes_to_nothing() {
    let mut headers = [httparse::EMPTY_HEADER; 4];
    let mut response = httparse::Response::new(&mut headers);
    let _ = response.parse(b"HTTP/1.1 200 OK\r\n\r\n");
    assert_eq!(kubeport::httptools::response_to_bytes(response), "");
}
