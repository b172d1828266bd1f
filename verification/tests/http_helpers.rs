//! Tests for the HTTP introspection helpers.

use sslrelay::http::{
    find_header_end, get_http_body, get_request, get_response, parse_u64_dec, tail_bytes,
    HttpHeader,
};

fn header(name: &str, value: &[u8]) -> HttpHeader {
    HttpHeader { name: name.to_string(), value: value.to_vec() }
}

#[test]
fn parse_u64_dec_values() {
    assert_eq!(parse_u64_dec(&b"0".to_vec()), Some(0));
    assert_eq!(parse_u64_dec(&b"42".to_vec()), Some(42));
    assert_eq!(parse_u64_dec(&b"007".to_vec()), Some(7));
    assert_eq!(parse_u64_dec(&b"18446744073709551615".to_vec()), Some(u64::MAX));
}

#[test]
fn parse_u64_dec_rejections() {
    assert_eq!(parse_u64_dec(&b"".to_vec()), None);
    assert_eq!(parse_u64_dec(&b"12a".to_vec()), None);
    assert_eq!(parse_u64_dec(&b"-1".to_vec()), None);
    assert_eq!(parse_u64_dec(&b" 5".to_vec()), None);
    // One past the largest 64-bit value.
    assert_eq!(parse_u64_dec(&b"18446744073709551616".to_vec()), None);
    assert_eq!(parse_u64_dec(&b"99999999999999999999999".to_vec()), None);
}

#[test]
fn tail_bytes_takes_the_end() {
    assert_eq!(tail_bytes(&b"abcdef".to_vec(), 3), b"def".to_vec());
    assert_eq!(tail_bytes(&b"abc".to_vec(), 10), b"abc".to_vec());
    assert_eq!(tail_bytes(&b"abc".to_vec(), 0), b"".to_vec());
}

#[test]
fn find_header_end_first_blank_line() {
    assert_eq!(find_header_end(&b"a: b\r\n\r\nbody".to_vec()), Some(4));
    assert_eq!(find_header_end(&b"\r\n\r\n".to_vec()), Some(0));
    assert_eq!(find_header_end(&b"no terminator".to_vec()), None);
    assert_eq!(find_header_end(&b"\r\n".to_vec()), None);
}

#[test]
fn body_by_content_length() {
    let data = b"HTTP/1.1 200 OK\r\nContent-Length: 5\r\n\r\nhello".to_vec();
    let headers = vec![header("Content-Length", b"5")];
    assert_eq!(get_http_body(&data, &headers), Some(b"hello".to_vec()));

    let headers = vec![header("content-length", b"5")];
    assert_eq!(get_http_body(&data, &headers), Some(b"hello".to_vec()));
}

#[test]
fn body_with_bad_content_length_fails() {
    let data = b"x\r\n\r\nhello".to_vec();
    let headers = vec![header("Content-Length", b"five")];
    assert_eq!(get_http_body(&data, &headers), None);
}

#[test]
fn body_without_selecting_header_is_marker() {
    let data = b"anything".to_vec();
    let headers = vec![header("Host", b"example")];
    assert_eq!(get_http_body(&data, &headers), Some(b"None".to_vec()));
    assert_eq!(get_http_body(&data, &Vec::new()), Some(b"None".to_vec()));
}

#[test]
fn first_selecting_header_decides() {
    // The scan acts on the first header that selects a body.
    let data = b"head\r\n\r\n0123456789".to_vec();
    let headers = vec![header("Host", b"example"), header("Content-Length", b"4")];
    assert_eq!(get_http_body(&data, &headers), Some(b"6789".to_vec()));
}

#[test]
fn chunked_body_is_decoded() {
    let head = b"HTTP/1.1 200 OK\r\nTransfer-Encoding: chunked\r\n\r\n".to_vec();
    let mut data = head;
    data.extend_from_slice(b"5\r\nhello\r\n6\r\n world\r\n0\r\n\r\n");
    let headers = vec![header("Transfer-Encoding", b"chunked")];
    assert_eq!(get_http_body(&data, &headers), Some(b"hello world".to_vec()));
}

#[test]
fn chunked_without_head_end_fails() {
    let data = b"no blank line here".to_vec();
    let headers = vec![header("Transfer-Encoding", b"chunked")];
    assert_eq!(get_http_body(&data, &headers), None);
}

#[test]
fn non_chunked_transfer_encoding_is_skipped() {
    let data = b"head\r\n\r\nbody".to_vec();
    let headers = vec![header("Transfer-Encoding", b"identity")];
    assert_eq!(get_http_body(&data, &headers), Some(b"None".to_vec()));
}

#[test]
fn chunked_gzip_body_is_inflated() {
    // Compress a payload, wrap it in one chunk, and expect the original
    // payload back.
    let payload = b"the quick brown fox jumps over the lazy dog";
    let mut enc = flate2::write::GzEncoder::new(Vec::new(), flate2::Compression::default());
    std::io::Write::write_all(&mut enc, payload).unwrap();
    let gz = enc.finish().unwrap();

    let mut data = b"HTTP/1.1 200 OK\r\n\r\n".to_vec();
    data.extend_from_slice(format!("{:x}\r\n", gz.len()).as_bytes());
    data.extend_from_slice(&gz);
    data.extend_from_slice(b"\r\n0\r\n\r\n");

    let headers = vec![
        header("Transfer-Encoding", b"chunked"),
        header("Content-Encoding", b"gzip"),
    ];
    assert_eq!(get_http_body(&data, &headers), Some(payload.to_vec()));
}

#[test]
fn chunked_gzip_with_garbage_fails() {
    let mut data = b"head\r\n\r\n".to_vec();
    data.extend_from_slice(b"3\r\nabc\r\n0\r\n\r\n");
    let headers = vec![
        header("Transfer-Encoding", b"chunked"),
        header("Content-Encoding", b"gzip"),
    ];
    // "abc" is not a gzip stream.
    assert_eq!(get_http_body(&data, &headers), None);
}

#[test]
fn response_is_parsed_and_carries_its_body() {
    let data = b"HTTP/1.1 200 OK\r\nContent-Length: 5\r\n\r\nhello".to_vec();
    let resp = get_response(&data).expect("a complete response parses");
    assert_eq!(resp.http_version, Some(1));
    assert_eq!(resp.http_code, Some(200));
    assert_eq!(resp.http_reason, Some("OK".to_string()));
    assert_eq!(resp.http_body, Some("hello".to_string()));
    let headers = resp.http_headers.expect("headers are kept");
    assert_eq!(headers.len(), 1);
    assert_eq!(headers[0].name, "Content-Length");
    assert_eq!(headers[0].value, b"5".to_vec());
}

#[test]
fn incomplete_response_is_refused() {
    let data = b"HTTP/1.1 200 OK\r\nContent-Le".to_vec();
    assert!(get_response(&data).is_none());
}

#[test]
fn malformed_response_is_refused() {
    let data = b"not http at all\r\n\r\n".to_vec();
    assert!(get_response(&data).is_none());
}

#[test]
fn request_is_parsed_and_carries_its_body() {
    let data = b"POST /submit HTTP/1.1\r\nHost: example\r\nContent-Length: 3\r\n\r\nabc".to_vec();
    let req = get_request(&data).expect("a complete request parses");
    assert_eq!(req.http_method, Some("POST".to_string()));
    assert_eq!(req.http_path, Some("/submit".to_string()));
    assert_eq!(req.http_version, Some(1));
    assert_eq!(req.http_body, Some("abc".to_string()));
    let headers = req.http_headers.expect("headers are kept");
    assert_eq!(headers.len(), 2);
    assert_eq!(headers[0].name, "Host");
    assert_eq!(headers[1].name, "Content-Length");
}

#[test]
fn request_without_body_headers_reports_marker() {
    let data = b"GET / HTTP/1.1\r\nHost: example\r\n\r\n".to_vec();
    let req = get_request(&data).expect("a complete request parses");
    assert_eq!(req.http_body, Some("None".to_string()));
}
