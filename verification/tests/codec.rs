use portaltech::message::{decode_body, encode_body};
use portaltech::{Headers, TunnelRequest, TunnelResponse};

fn request(body: Option<&str>) -> TunnelRequest {
    TunnelRequest {
        id: "r1".to_string(),
        method: "GET".to_string(),
        path: "".to_string(),
        headers: Headers::new(),
        body: body.map(|b| b.to_string()),
    }
}

fn response(body: Option<&str>) -> TunnelResponse {
    TunnelResponse {
        request_id: "r1".to_string(),
        status: 200,
        headers: Headers::new(),
        body: body.map(|b| b.to_string()),
    }
}

#[test]
fn body_of_each_padding_is_decoded() {
    assert_eq!(request(Some("aGVs")).get_body_bytes(), b"hel");
    assert_eq!(request(Some("aGVsbA==")).get_body_bytes(), b"hell");
    assert_eq!(request(Some("aGVsbG8=")).get_body_bytes(), b"hello");
    assert_eq!(response(Some("aGVsbG8=")).get_body_bytes(), b"hello");
    assert_eq!(response(Some("+/+/")).get_body_bytes(), vec![0xfb, 0xff, 0xbf]);
}

#[test]
fn absent_and_empty_bodies_are_empty() {
    assert!(request(None).get_body_bytes().is_empty());
    assert!(response(None).get_body_bytes().is_empty());
    assert!(request(Some("")).get_body_bytes().is_empty());
}

#[test]
fn bodies_that_are_not_base64_are_empty() {
    for text in ["{\"error\": \"x\"}", "aGVsbG8", "aGVsbA=", "aGVsbG9=", "aGV=bG8=", "aGVs\n", "a", "=", "hé=="] {
        assert!(request(Some(text)).get_body_bytes().is_empty(), "{}", text);
        assert!(response(Some(text)).get_body_bytes().is_empty(), "{}", text);
    }
}

#[test]
fn bytes_are_encoded() {
    assert_eq!(encode_body(b""), None);
    assert_eq!(encode_body(b"h"), Some("aA==".to_string()));
    assert_eq!(encode_body(b"hi"), Some("aGk=".to_string()));
    assert_eq!(encode_body(b"hel"), Some("aGVs".to_string()));
    assert_eq!(encode_body(&[0xfb, 0xff, 0xbf, 0x00]), Some("+/+/AA==".to_string()));
}

#[test]
fn every_byte_survives_the_round_trip() {
    let all: Vec<u8> = (0..=255u8).collect();
    for n in 0..all.len() {
        let body = encode_body(&all[n..]);
        assert_eq!(decode_body(&body), &all[n..]);
    }
}

#[test]
fn encoded_length_counts_the_padding() {
    let body = encode_body(&vec![7u8; 100]).unwrap();
    assert_eq!(body.len(), 136);
    assert!(body.ends_with("=="));
}
