use roa_core::{Header, Response, StatusCode, Version};

#[test]
fn new_response_is_untouched() {
    let response = Response::new();
    assert_eq!(response.status.as_u16(), 200);
    assert_eq!(response.version, Version::Http11);
    assert!(response.headers.is_empty());
    assert!(response.body.is_empty());
    assert_eq!(Response::default(), response);
}

#[test]
fn write_str_appends_bytes() {
    let mut response = Response::new();
    response.write_str("Hello");
    response.write_str(", ");
    response.write_str("wörld");
    assert_eq!(response.body, "Hello, wörld".as_bytes().to_vec());
    assert_eq!(response.status.as_u16(), 200);
    response.write_str("");
    assert_eq!(response.body, "Hello, wörld".as_bytes().to_vec());
}

#[test]
fn write_buf_appends_bytes() {
    let mut response = Response::new();
    response.write_buf(vec![1, 2, 3]);
    response.write_buf(Vec::new());
    response.write_buf(vec![0, 255]);
    assert_eq!(response.body, vec![1, 2, 3, 0, 255]);
}

#[test]
fn take_hands_out_and_resets() {
    let mut response = Response::new();
    response.status = StatusCode::from_u16(201).unwrap();
    response.version = Version::Http2;
    response.headers.push(Header { name: "x-id".to_string(), value: b"7".to_vec() });
    response.write_str("made");

    let taken = response.take();
    assert_eq!(taken.status.as_u16(), 201);
    assert_eq!(taken.version, Version::Http2);
    assert_eq!(taken.headers, vec![Header { name: "x-id".to_string(), value: b"7".to_vec() }]);
    assert_eq!(taken.body, b"made".to_vec());
    assert_eq!(response, Response::new());
}
