use base64::Engine;
use lumina_rcs::media::{
    check_media_id, media_id_from_path, media_reply, media_response, media_response_from,
    MediaReply,
};
use serde_json::Value;

#[test]
fn media_id_strips_one_slash() {
    assert_eq!(media_id_from_path("/abc"), "abc");
    assert_eq!(media_id_from_path("abc"), "abc");
    assert_eq!(media_id_from_path("//abc"), "/abc");
    assert_eq!(media_id_from_path("/"), "");
    assert_eq!(media_id_from_path(""), "");
}

#[test]
fn empty_media_id_is_400() {
    let r = check_media_id("").unwrap();
    assert_eq!(r.status, 400);
    assert_eq!(r.content_type, "text/plain");
    assert_eq!(r.body, b"missing media id".to_vec());
    assert!(check_media_id("m1").is_none());
}

fn reply(mime: Option<&str>, b64: Option<&str>) -> MediaReply {
    MediaReply { mime: mime.map(|s| s.to_string()), bytes_b64: b64.map(|s| s.to_string()) }
}

#[test]
fn decoded_media_is_200() {
    let r = media_response_from(Ok(reply(Some("image/png"), Some("aGVsbG8="))));
    assert_eq!(r.status, 200);
    assert_eq!(r.content_type, "image/png");
    assert_eq!(r.body, b"hello".to_vec());
    let r = media_response_from(Ok(reply(None, Some(""))));
    assert_eq!(r.status, 200);
    assert_eq!(r.content_type, "application/octet-stream");
    assert!(r.body.is_empty());
}

#[test]
fn undecodable_media_is_502() {
    let r = media_response_from(Ok(reply(None, Some("a*b"))));
    assert_eq!(r.status, 502);
    assert_eq!(r.content_type, "text/plain");
    assert!(r.body.starts_with(b"decode: "));
}

#[test]
fn missing_bytes_is_502() {
    let r = media_response_from(Ok(reply(Some("image/png"), None)));
    assert_eq!(r.status, 502);
    assert_eq!(r.body, b"bridge missing bytes_b64".to_vec());
}

#[test]
fn bridge_error_is_404() {
    let r = media_response_from(Err("no such media".to_string()));
    assert_eq!(r.status, 404);
    assert_eq!(r.content_type, "text/plain");
    assert_eq!(r.body, b"no such media".to_vec());
}

#[test]
fn reply_members_are_read() {
    let v: Value = serde_json::from_str("{\"mime\":\"image/jpeg\",\"bytes_b64\":\"AAE=\"}").unwrap();
    let m = media_reply(&v);
    assert_eq!(m.mime.as_deref(), Some("image/jpeg"));
    assert_eq!(m.bytes_b64.as_deref(), Some("AAE="));
    let r = media_response(Ok(v));
    assert_eq!(r.status, 200);
    assert_eq!(r.content_type, "image/jpeg");
    assert_eq!(r.body, vec![0u8, 1u8]);
    let odd: Value = serde_json::from_str("{\"mime\":3}").unwrap();
    let r = media_response(Ok(odd));
    assert_eq!(r.status, 502);
}

#[test]
fn decode_failure_quotes_decoder() {
    let err = base64::engine::general_purpose::STANDARD.decode("a*b").err().unwrap();
    let r = media_response_from(Ok(reply(None, Some("a*b"))));
    assert_eq!(r.body, format!("decode: {}", err).into_bytes());
}
