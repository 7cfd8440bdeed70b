//! Answering the user interface's requests for message media: the media id
//! is read from the request's path, fetched through the bridge, and the
//! bridge's reply, whose bytes come Base64-encoded, is turned into the
//! response.
use vstd::prelude::*;
use vstd::string::StrSliceExecFns;
use vstd::string::StringExecFns;
use vstd::utf8::encode_utf8;
use vstd::slice::slice_to_vec;
use base64::Engine;
use crate::json::{json_str_member, opt_str_view, str_member};

verus! {

#[verifier::external_type_specification]
#[verifier::external_body]
pub struct ExDecodeError(base64::DecodeError);

/// What decoding a text under the standard Base64 alphabet with padding
/// gives: its bytes, or the error that refuses it.
pub uninterp spec fn base64_standard_decode(text: Seq<char>) -> Result<Seq<u8>, base64::DecodeError>;

/// What `<base64::DecodeError as Display>::to_string` gives for an error.
pub uninterp spec fn base64_error_message(e: base64::DecodeError) -> Seq<char>;

/// `base64::engine::general_purpose::STANDARD.decode`. Claimed: what it
/// gives is `base64_standard_decode` of the text, a function of the text
/// alone.
#[verifier::external_body]
fn decode_base64(text: &str) -> (r: Result<Vec<u8>, base64::DecodeError>)
    ensures
        match r {
            Ok(b) => base64_standard_decode(text@) == Ok::<Seq<u8>, base64::DecodeError>(b@),
            Err(e) => base64_standard_decode(text@) == Err::<Seq<u8>, base64::DecodeError>(e),
        },
{
    base64::engine::general_purpose::STANDARD.decode(text)
}

/// `<base64::DecodeError as Display>::to_string`: the text of a decode
/// error. Claimed: it is `base64_error_message` of the error.
#[verifier::external_body]
fn decode_error_text(e: &base64::DecodeError) -> (r: String)
    ensures
        r@ == base64_error_message(*e),
{
    e.to_string()
}

/// A response to a media request.
#[derive(Debug)]
pub struct MediaResponse {
    pub status: u16,
    pub content_type: String,
    pub body: Vec<u8>,
}

/// What the library reads of the bridge's reply to a media fetch: the
/// string members `mime` and `bytes_b64`, each present or not.
#[derive(Debug)]
pub struct MediaReply {
    pub mime: Option<String>,
    pub bytes_b64: Option<String>,
}

/// The media id a request path names: the path without one leading slash.
pub open spec fn spec_media_id(path: Seq<char>) -> Seq<char> {
    if path.len() > 0 && path[0] == '/' {
        path.drop_first()
    } else {
        path
    }
}

/// The content type given to media whose type the bridge does not name.
pub open spec fn default_mime() -> Seq<char> {
    "application/octet-stream"@
}

fn text_body(s: &str) -> (r: Vec<u8>)
    ensures
        r@ == encode_utf8(s@),
{
    slice_to_vec(s.as_bytes())
}

/// The media id named by a request path, which may or may not start with a
/// slash.
pub fn media_id_from_path(path: &str) -> (r: String)
    ensures
        r@ == spec_media_id(path@),
        path@.len() > 0 && path@[0] == '/' ==> seq!['/'] + r@ == path@,
        !(path@.len() > 0 && path@[0] == '/') ==> r@ == path@,
{
    let n = path.unicode_len();
    if n > 0 && path.get_char(0) == '/' {
        let rest = path.substring_char(1, n);
        assert(rest@ =~= path@.drop_first());
        assert(seq!['/'] + rest@ =~= path@);
        String::from_str(rest)
    } else {
        String::from_str(path)
    }
}

/// The response to a media request whose id is empty: 400, with a plain
/// text that says the id is missing; `None` for any other id.
pub fn check_media_id(media_id: &str) -> (r: Option<MediaResponse>)
    ensures
        r is Some <==> media_id@.len() == 0,
        r matches Some(resp) ==> resp.status == 400 && resp.content_type@ == "text/plain"@
            && resp.body@ == encode_utf8("missing media id"@),
{
    if media_id.unicode_len() == 0 {
        Some(
            MediaResponse {
                status: 400,
                content_type: String::from_str("text/plain"),
                body: text_body("missing media id"),
            },
        )
    } else {
        None
    }
}

/// The answer to a bridge error: 404, with the error's text.
pub open spec fn error_answer(e: Seq<char>, r: MediaResponse) -> bool {
    r.status == 404 && r.content_type@ == "text/plain"@ && r.body@ == encode_utf8(e)
}

/// The answer to a reply with the given `mime` and `bytes_b64` members: a
/// reply without Base64 bytes is answered 502; bytes that do not decode,
/// 502 with "decode: " and the decoder's message; decoded bytes, 200 under
/// the reply's content type, or a generic binary type when it names none.
pub open spec fn reply_answer(mime: Option<Seq<char>>, b64: Option<Seq<char>>, r: MediaResponse) -> bool {
    match b64 {
        None => r.status == 502 && r.content_type@ == "text/plain"@ && r.body@ == encode_utf8(
            "bridge missing bytes_b64"@,
        ),
        Some(b64) => match base64_standard_decode(b64) {
            Ok(bytes) => r.status == 200 && r.body@ == bytes && r.content_type@ == (match mime {
                Some(t) => t,
                None => default_mime(),
            }),
            Err(err) => r.status == 502 && r.content_type@ == "text/plain"@ && r.body@
                == encode_utf8("decode: "@ + base64_error_message(err)),
        },
    }
}

/// A reply whose Base64 bytes decode is answered 200 with exactly the
/// decoded bytes, whatever their number, under the reply's content type (or
/// the generic binary type); any other reply is not answered 200.
pub proof fn lemma_decoded_bytes_served_whole(
    mime: Option<Seq<char>>,
    b64: Option<Seq<char>>,
    r: MediaResponse,
)
    requires
        reply_answer(mime, b64, r),
    ensures
        b64 is Some && base64_standard_decode(b64->0) is Ok ==> {
            &&& r.status == 200
            &&& r.body@ == base64_standard_decode(b64->0)->Ok_0
            &&& r.body@.len() == base64_standard_decode(b64->0)->Ok_0.len()
            &&& r.content_type@ == (if mime is Some { mime->0 } else { "application/octet-stream"@ })
        },
        r.status == 200 ==> b64 is Some && base64_standard_decode(b64->0) is Ok,
{
}

/// How the other answers read: a bridge error is answered 404 with its own
/// text; a reply without Base64 bytes, 502 saying so; bytes that do not
/// decode, 502 with "decode: " and the decoder's message.
pub proof fn lemma_failed_answers(
    e: Seq<char>,
    mime: Option<Seq<char>>,
    b64: Option<Seq<char>>,
    r: MediaResponse,
    r2: MediaResponse,
)
    requires
        error_answer(e, r),
        reply_answer(mime, b64, r2),
    ensures
        r.status == 404 && r.content_type@ == "text/plain"@ && r.body@ == encode_utf8(e),
        b64 is None ==> r2.status == 502 && r2.content_type@ == "text/plain"@ && r2.body@
            == encode_utf8("bridge missing bytes_b64"@),
        b64 is Some && base64_standard_decode(b64->0) is Err ==> r2.status == 502
            && r2.content_type@ == "text/plain"@ && r2.body@ == encode_utf8(
            "decode: "@ + base64_error_message(base64_standard_decode(b64->0)->Err_0),
        ),
{
}

/// Turns the bridge's reply to a media fetch into the response, as
/// `error_answer` and `reply_answer` say.
pub fn media_response_from(reply: Result<MediaReply, String>) -> (r: MediaResponse)
    ensures
        match reply {
            Err(e) => error_answer(e@, r),
            Ok(m) => reply_answer(opt_str_view(m.mime), opt_str_view(m.bytes_b64), r),
        },
        reply is Ok && reply->Ok_0.bytes_b64 is Some && base64_standard_decode(
            reply->Ok_0.bytes_b64->0@,
        ) is Ok ==> r.status == 200 && r.body@ == base64_standard_decode(
            reply->Ok_0.bytes_b64->0@,
        )->Ok_0,
        reply matches Ok(m) ==> (r.status == 200 <==> (m.bytes_b64 is Some
            && base64_standard_decode(m.bytes_b64->0@) is Ok)),
{
    match reply {
        Err(e) => MediaResponse {
            status: 404,
            content_type: String::from_str("text/plain"),
            body: text_body(e.as_str()),
        },
        Ok(m) => {
            let mime = match m.mime {
                Some(t) => t,
                None => String::from_str("application/octet-stream"),
            };
            match m.bytes_b64 {
                None => MediaResponse {
                    status: 502,
                    content_type: String::from_str("text/plain"),
                    body: text_body("bridge missing bytes_b64"),
                },
                Some(b64) => match decode_base64(b64.as_str()) {
                    Ok(bytes) => MediaResponse { status: 200, content_type: mime, body: bytes },
                    Err(e) => {
                        let msg = String::from_str("decode: ").concat(
                            decode_error_text(&e).as_str(),
                        );
                        MediaResponse {
                            status: 502,
                            content_type: String::from_str("text/plain"),
                            body: text_body(msg.as_str()),
                        }
                    },
                },
            }
        },
    }
}

/// What the library reads of the bridge's reply to a media fetch: its
/// string members `mime` and `bytes_b64`.
pub fn media_reply(v: &serde_json::Value) -> (r: MediaReply)
    ensures
        opt_str_view(r.mime) == json_str_member(*v, "mime"@),
        opt_str_view(r.bytes_b64) == json_str_member(*v, "bytes_b64"@),
{
    MediaReply { mime: str_member(v, "mime"), bytes_b64: str_member(v, "bytes_b64") }
}

/// Turns the outcome of a media fetch through the bridge into the
/// response, reading the reply as `media_reply` does and answering as
/// `media_response_from` does.
pub fn media_response(reply: Result<serde_json::Value, String>) -> (r: MediaResponse)
    ensures
        match reply {
            Err(e) => error_answer(e@, r),
            Ok(v) => reply_answer(json_str_member(v, "mime"@), json_str_member(v, "bytes_b64"@), r),
        },
{
    match reply {
        Ok(v) => media_response_from(Ok(media_reply(&v))),
        Err(e) => media_response_from(Err(e)),
    }
}

} // verus!
