//! Wire codec tests: framing, decoding, and the request envelope round
//! trip.

use lsm::codec::{
    decode_body, encode_frame, encode_request, interpret_response, parse_len_header, split_frame,
};
use lsm::json::{obj_get, Json};
use lsm::{LsmErrorKind};

#[test]
fn len_header_value() {
    let hdr = "0000000123".as_bytes();
    assert_eq!(parse_len_header(hdr).unwrap(), 123);
    let max = "9999999999".as_bytes();
    assert_eq!(parse_len_header(max).unwrap(), 9_999_999_999);
}

#[test]
fn len_header_not_decimal() {
    let hdr = "00000x0123".as_bytes();
    let e = parse_len_header(hdr).unwrap_err();
    assert_eq!(e.kind, LsmErrorKind::TransportSerialization);
}

#[test]
fn len_header_short_read() {
    let hdr = "00123".as_bytes();
    let e = parse_len_header(hdr).unwrap_err();
    assert_eq!(e.kind, LsmErrorKind::TransportCommunication);
}

#[test]
fn frame_round_trip() {
    let body = "{\"a\":1}".to_owned().into_bytes();
    let frame = encode_frame(body.clone()).unwrap();
    assert_eq!(&frame[0..10], "0000000007".as_bytes());
    let back = split_frame(&frame).unwrap();
    assert_eq!(back, body);
}

#[test]
fn short_frame_is_communication_failure() {
    // The declared length exceeds the bytes available: the codec must not
    // return a truncated body.
    let data = "0000000042{\"a\":1}".as_bytes();
    let e = split_frame(data).unwrap_err();
    assert_eq!(e.kind, LsmErrorKind::TransportCommunication);
}

#[test]
fn bad_header_frame_is_serialization_failure() {
    let data = "000000000x{}".as_bytes();
    let e = split_frame(data).unwrap_err();
    assert_eq!(e.kind, LsmErrorKind::TransportSerialization);
}

#[test]
fn encode_decode_recovers_envelope() {
    // Encoding a request and decoding the framed body yields the identical
    // JSON value (keys come back in sorted order).
    let params = vec![("pool".to_owned(), Json::Str("p1".to_owned()))];
    let frame = encode_request("volume_create", params).unwrap();
    let body = split_frame(&frame).unwrap();
    let v = decode_body(&body).unwrap();
    let expected = Json::Obj(vec![
        ("id".to_owned(), Json::Uint(100)),
        ("method".to_owned(), Json::Str("volume_create".to_owned())),
        (
            "params".to_owned(),
            Json::Obj(vec![
                ("flags".to_owned(), Json::Uint(0)),
                ("pool".to_owned(), Json::Str("p1".to_owned())),
            ]),
        ),
    ]);
    assert_eq!(v, expected);
}

#[test]
fn encode_injects_id_and_flags() {
    let frame = encode_request("time_out_get", Vec::new()).unwrap();
    let body = split_frame(&frame).unwrap();
    let v = decode_body(&body).unwrap();
    let fields = match v {
        Json::Obj(fields) => fields,
        _ => panic!("request body is not an object"),
    };
    assert_eq!(obj_get(&fields, "method"), Some(&Json::Str("time_out_get".to_owned())));
    assert_eq!(obj_get(&fields, "id"), Some(&Json::Uint(100)));
    let params = match obj_get(&fields, "params") {
        Some(Json::Obj(p)) => p.clone(),
        _ => panic!("params is not an object"),
    };
    assert_eq!(obj_get(&params, "flags"), Some(&Json::Uint(0)));
}

#[test]
fn decode_body_rejects_bad_json() {
    let e = decode_body("{not json".as_bytes()).unwrap_err();
    assert_eq!(e.kind, LsmErrorKind::TransportSerialization);
    let e2 = decode_body(&[0xff, 0xfe, 0x00]).unwrap_err();
    assert_eq!(e2.kind, LsmErrorKind::TransportSerialization);
}

#[test]
fn response_with_result() {
    let v = decode_body("{\"result\": 42}".as_bytes()).unwrap();
    let r = interpret_response(&v).unwrap();
    assert_eq!(r, Json::Uint(42));
}

#[test]
fn response_with_error_is_mapped() {
    let v = decode_body("{\"error\": {\"code\": 50, \"message\": \"taken\", \"data\": null}}".as_bytes())
        .unwrap();
    let e = interpret_response(&v).unwrap_err();
    assert_eq!(e.kind, LsmErrorKind::NameConflict);
    assert_eq!(e.msg, "taken");
}

#[test]
fn response_without_result_or_error() {
    let v = decode_body("{\"jsonrpc\": \"2.0\"}".as_bytes()).unwrap();
    let e = interpret_response(&v).unwrap_err();
    assert_eq!(e.kind, LsmErrorKind::PluginBug);
}

#[test]
fn response_not_an_object() {
    let v = decode_body("[1, 2]".as_bytes()).unwrap();
    let e = interpret_response(&v).unwrap_err();
    assert_eq!(e.kind, LsmErrorKind::PluginBug);
}

#[test]
fn response_with_malformed_error_envelope() {
    let v = decode_body("{\"error\": {\"code\": \"fifty\", \"message\": \"m\"}}".as_bytes()).unwrap();
    let e = interpret_response(&v).unwrap_err();
    assert_eq!(e.kind, LsmErrorKind::TransportSerialization);
}

#[test]
fn parser_depth_boundary() {
    // The parser accepts at most 127 nested containers: its recursion
    // budget of 128 is spent before entering each one.
    let ok_text = format!("{}0{}", "[".repeat(127), "]".repeat(127));
    assert!(decode_body(ok_text.as_bytes()).is_ok());
    let deep_text = format!("{}0{}", "[".repeat(128), "]".repeat(128));
    let e = decode_body(deep_text.as_bytes()).unwrap_err();
    assert_eq!(e.kind, LsmErrorKind::TransportSerialization);
}

#[test]
fn requests_nested_too_deeply_are_refused() {
    // The envelope and its params object add two levels, so a value nested
    // 125 deep still round-trips, while 126 would exceed what the parser
    // accepts and no frame is built.
    let mut fits = Json::Uint(0);
    for _ in 0..125 {
        fits = Json::Arr(vec![fits]);
    }
    let frame = encode_request("probe", vec![("x".to_owned(), fits)]).unwrap();
    let body = split_frame(&frame).unwrap();
    assert!(decode_body(&body).is_ok());

    let mut deep = Json::Uint(0);
    for _ in 0..126 {
        deep = Json::Arr(vec![deep]);
    }
    let e = encode_request("probe", vec![("x".to_owned(), deep)]).unwrap_err();
    assert_eq!(e.kind, LsmErrorKind::TransportInvalidArg);
}
