//! The line protocol spoken with the bridge process: one JSON object per
//! line. A request is `{"id":..,"method":..,"params":..}`; a line coming
//! back either answers a request by its id, with `result` or `error`, or
//! announces an event, with `event` and `data`.
use vstd::prelude::*;
use vstd::string::StringExecFns;
use crate::json::{
    encode_string, encode_value, error_text, json_error_message, json_member, json_null,
    json_parse, json_str_member, json_string_bytes, json_text_accepted, json_value_bytes, member,
    no_line_feed, null_value, opt_str_view, parse_value, str_member,
};
use crate::pending::PendingCalls;

verus! {

/// What the library reads of a line from the bridge: the string members
/// `id`, `error` and `event`, and the members `result` and `data`, each
/// present or not.
#[derive(Debug)]
pub struct BridgeLine {
    pub id: Option<String>,
    pub error: Option<String>,
    pub result: Option<serde_json::Value>,
    pub event: Option<String>,
    pub data: Option<serde_json::Value>,
}

/// What is to be done with a line from the bridge.
#[derive(Debug)]
pub enum Routed<T> {
    /// Hand `outcome` to the call that waited for it.
    Reply { waiter: T, outcome: Result<serde_json::Value, String> },
    /// A response to an id that no call waits for.
    UnknownReply { id: String },
    /// Publish an event to the user interface.
    Event { name: String, payload: serde_json::Value },
    /// A line that is neither a response nor an event.
    Unroutable,
}

/// The prefix under which bridge events are published.
pub open spec fn event_prefix() -> Seq<char> {
    "lumina://"@
}

/// What routing a line does: a line with an id answers the call filed
/// under it, which leaves the table, with its error if it has one and else
/// with its result; a line with an event but no id is published under the
/// event's name behind the prefix; any other line is left alone.
pub open spec fn routed_as<T>(
    old_pending: Map<Seq<char>, T>,
    new_pending: Map<Seq<char>, T>,
    msg: BridgeLine,
    r: Routed<T>,
) -> bool {
    match msg.id {
        Some(id) => {
            &&& new_pending == old_pending.remove(id@)
            &&& if old_pending.contains_key(id@) {
                match r {
                    Routed::Reply { waiter, outcome } => {
                        &&& waiter == old_pending[id@]
                        &&& match msg.error {
                            Some(e) => outcome matches Err(x) && x@ == e@,
                            None => outcome matches Ok(v) && v == match msg.result {
                                Some(res) => res,
                                None => json_null(),
                            },
                        }
                    },
                    _ => false,
                }
            } else {
                r matches Routed::UnknownReply { id: x } && x@ == id@
            }
        },
        None => {
            &&& new_pending == old_pending
            &&& match msg.event {
                Some(name) => match r {
                    Routed::Event { name: n, payload } => n@ == event_prefix() + name@
                        && payload == match msg.data {
                        Some(d) => d,
                        None => json_null(),
                    },
                    _ => false,
                },
                None => r is Unroutable,
            }
        },
    }
}

/// Whether `m` is what the library reads of the JSON value `v`: its string
/// members `id`, `error` and `event`, and its members `result` and `data`.
pub open spec fn read_from(v: serde_json::Value, m: BridgeLine) -> bool {
    &&& opt_str_view(m.id) == json_str_member(v, "id"@)
    &&& opt_str_view(m.error) == json_str_member(v, "error"@)
    &&& m.result == json_member(v, "result"@)
    &&& opt_str_view(m.event) == json_str_member(v, "event"@)
    &&& m.data == json_member(v, "data"@)
}

/// The error for a line that is not JSON.
pub open spec fn parse_error_message(line: Seq<char>) -> Seq<char> {
    "parse bridge line: "@ + json_error_message(json_parse(line)->Err_0)
}

/// Routes a line read from the bridge, as `routed_as` says.
pub fn route_message<T>(pending: &mut PendingCalls<T>, msg: BridgeLine) -> (r: Routed<T>)
    ensures
        routed_as(old(pending)@, final(pending)@, msg, r),
        msg.id is Some && old(pending)@.contains_key(msg.id->0@) ==> {
            &&& r is Reply
            &&& r->Reply_waiter == old(pending)@[msg.id->0@]
            &&& msg.error is Some ==> (r->Reply_outcome is Err && r->Reply_outcome->Err_0@
                == msg.error->0@)
            &&& msg.error is None ==> r->Reply_outcome is Ok
        },
        msg.id is None && msg.event is Some && msg.data is Some ==> (r is Event
            && r->Event_payload == msg.data->0),
{
    let BridgeLine { id, error, result, event, data } = msg;
    match id {
        Some(id) => match pending.take(id.as_str()) {
            Some(waiter) => {
                let outcome = match error {
                    Some(e) => Err(e),
                    None => match result {
                        Some(v) => Ok(v),
                        None => Ok(null_value()),
                    },
                };
                Routed::Reply { waiter, outcome }
            },
            None => Routed::UnknownReply { id },
        },
        None => match event {
            Some(name) => {
                let payload = match data {
                    Some(d) => d,
                    None => null_value(),
                };
                Routed::Event { name: String::from_str("lumina://").concat(name.as_str()), payload }
            },
            None => Routed::Unroutable,
        },
    }
}

/// A response to a filed call carries the call's error when the response
/// has one, whether or not it also has a result; it carries success only
/// when it has no error, with its result, or the JSON null when it has none.
pub proof fn lemma_reply_outcome<T>(
    old_pending: Map<Seq<char>, T>,
    new_pending: Map<Seq<char>, T>,
    msg: BridgeLine,
    r: Routed<T>,
)
    requires
        routed_as(old_pending, new_pending, msg, r),
        msg.id is Some,
        old_pending.contains_key(msg.id->0@),
    ensures
        r is Reply,
        r->Reply_waiter == old_pending[msg.id->0@],
        !new_pending.contains_key(msg.id->0@),
        msg.error matches Some(e) ==> (r->Reply_outcome matches Err(x) && x@ == e@),
        msg.error is None && msg.result is Some ==> r->Reply_outcome == Ok::<
            serde_json::Value,
            String,
        >(msg.result->0),
        msg.error is None && msg.result is None ==> r->Reply_outcome == Ok::<
            serde_json::Value,
            String,
        >(json_null()),
{
}

/// A line that is not a response but an event is published under the
/// event's name behind `lumina://`, with the line's `data` member as its
/// payload (the JSON null when it has none), and leaves the calls as they
/// are.
pub proof fn lemma_event_line_published<T>(
    line: Seq<char>,
    old_pending: Map<Seq<char>, T>,
    new_pending: Map<Seq<char>, T>,
    x: Routed<T>,
    name: Seq<char>,
)
    requires
        json_text_accepted(line),
        exists|m: BridgeLine|
            #[trigger] read_from(json_parse(line)->Ok_0, m) && routed_as(
                old_pending,
                new_pending,
                m,
                x,
            ),
        json_str_member(json_parse(line)->Ok_0, "id"@) is None,
        json_str_member(json_parse(line)->Ok_0, "event"@) == Some(name),
    ensures
        new_pending == old_pending,
        x is Event,
        x->Event_name@ == "lumina://"@ + name,
        json_member(json_parse(line)->Ok_0, "data"@) matches Some(d) ==> x->Event_payload == d,
        json_member(json_parse(line)->Ok_0, "data"@) is None ==> x->Event_payload == json_null(),
{
    let m = choose|m: BridgeLine|
        #[trigger] read_from(json_parse(line)->Ok_0, m) && routed_as(old_pending, new_pending, m, x);
    assert(m.id is None);
}

/// A line that is a response to a filed call delivers the line's `error`
/// member when it is a string, and otherwise the line's `result` member (the
/// JSON null when it has none), to the call's waiter.
pub proof fn lemma_response_line_delivered<T>(
    line: Seq<char>,
    old_pending: Map<Seq<char>, T>,
    new_pending: Map<Seq<char>, T>,
    x: Routed<T>,
    id: Seq<char>,
)
    requires
        json_text_accepted(line),
        exists|m: BridgeLine|
            #[trigger] read_from(json_parse(line)->Ok_0, m) && routed_as(
                old_pending,
                new_pending,
                m,
                x,
            ),
        json_str_member(json_parse(line)->Ok_0, "id"@) == Some(id),
        old_pending.contains_key(id),
    ensures
        new_pending == old_pending.remove(id),
        x is Reply,
        x->Reply_waiter == old_pending[id],
        json_str_member(json_parse(line)->Ok_0, "error"@) matches Some(e) ==> (
        x->Reply_outcome matches Err(s) && s@ == e),
        json_str_member(json_parse(line)->Ok_0, "error"@) is None ==> x->Reply_outcome == Ok::<
            serde_json::Value,
            String,
        >(
            match json_member(json_parse(line)->Ok_0, "result"@) {
                Some(v) => v,
                None => json_null(),
            },
        ),
{
    let m = choose|m: BridgeLine|
        #[trigger] read_from(json_parse(line)->Ok_0, m) && routed_as(old_pending, new_pending, m, x);
    assert(m.id is Some && m.id->0@ == id);
    if json_str_member(json_parse(line)->Ok_0, "error"@) is None {
        assert(m.error is None);
    } else {
        assert(m.error is Some);
    }
}

/// A response to an id no call waits under is reported with that id and
/// changes nothing; an event line is published as `lumina://` and its name;
/// a line that is neither is reported unroutable and changes nothing.
pub proof fn lemma_other_lines<T>(
    old_pending: Map<Seq<char>, T>,
    new_pending: Map<Seq<char>, T>,
    msg: BridgeLine,
    r: Routed<T>,
)
    requires
        routed_as(old_pending, new_pending, msg, r),
    ensures
        msg.id is Some && !old_pending.contains_key(msg.id->0@) ==> r is UnknownReply
            && r->UnknownReply_id@ == msg.id->0@ && new_pending == old_pending,
        msg.id is None ==> new_pending == old_pending,
        msg.id is None && msg.event is Some ==> r is Event && r->Event_name@ == "lumina://"@
            + msg.event->0@,
        msg.id is None && msg.event is Some && msg.data is None ==> r->Event_payload
            == json_null(),
        msg.id is None && msg.event is None ==> r is Unroutable,
{
    if let Some(id) = msg.id {
        if !old_pending.contains_key(id@) {
            assert(old_pending.remove(id@) =~= old_pending);
        }
    }
}

/// A response to a call is delivered to the waiter filed for it, and to no
/// one a second time: the call leaves the table, the other calls stay, and
/// another response with the same id finds no waiter.
pub proof fn lemma_reply_reaches_waiter_once<T>(
    pending: Map<Seq<char>, T>,
    waiter: T,
    msg: BridgeLine,
    after: Map<Seq<char>, T>,
    r: Routed<T>,
    again: Map<Seq<char>, T>,
    r2: Routed<T>,
)
    requires
        msg.id is Some,
        routed_as(pending.insert(msg.id->0@, waiter), after, msg, r),
        routed_as(after, again, msg, r2),
    ensures
        r matches Routed::Reply { waiter: w, outcome: _ } && w == waiter,
        after == pending.remove(msg.id->0@),
        r2 is UnknownReply,
        again == after,
{
    let id = msg.id->0@;
    assert(pending.insert(id, waiter).remove(id) =~= pending.remove(id));
    assert(after.remove(id) =~= after);
}

/// Reads a line from the bridge as JSON. It is refused exactly when
/// serde_json does not accept it, with an error that quotes serde_json's;
/// otherwise its members are read as `read_from` says.
pub fn decode_line(line: &str) -> (r: Result<BridgeLine, String>)
    ensures
        r is Ok <==> json_text_accepted(line@),
        r matches Ok(m) ==> read_from(json_parse(line@)->Ok_0, m),
        r matches Ok(m) ==> {
            &&& opt_str_view(m.id) == json_str_member(json_parse(line@)->Ok_0, "id"@)
            &&& opt_str_view(m.error) == json_str_member(json_parse(line@)->Ok_0, "error"@)
            &&& m.result == json_member(json_parse(line@)->Ok_0, "result"@)
            &&& opt_str_view(m.event) == json_str_member(json_parse(line@)->Ok_0, "event"@)
            &&& m.data == json_member(json_parse(line@)->Ok_0, "data"@)
        },
        r matches Err(e) ==> e@ == parse_error_message(line@),
{
    match parse_value(line) {
        Ok(v) => Ok(
            BridgeLine {
                id: str_member(&v, "id"),
                error: str_member(&v, "error"),
                result: member(&v, "result"),
                event: str_member(&v, "event"),
                data: member(&v, "data"),
            },
        ),
        Err(e) => {
            let t = error_text(&e);
            Err(String::from_str("parse bridge line: ").concat(t.as_str()))
        },
    }
}

/// Reads and routes one line from the bridge. A line that is not JSON is
/// refused with the error `decode_line` gives and changes nothing; any
/// other line is routed as `routed_as` says of what is read from it, and
/// routing never files a new waiter.
pub fn route_line<T>(pending: &mut PendingCalls<T>, line: &str) -> (r: Result<Routed<T>, String>)
    ensures
        r is Ok <==> json_text_accepted(line@),
        r matches Err(e) ==> e@ == parse_error_message(line@) && final(pending)@ == old(pending)@,
        r matches Ok(x) ==> exists|m: BridgeLine|
            #[trigger] read_from(json_parse(line@)->Ok_0, m) && routed_as(
                old(pending)@,
                final(pending)@,
                m,
                x,
            ),
        final(pending)@.submap_of(old(pending)@),
{
    let msg = decode_line(line)?;
    let ghost before = pending@;
    let ghost m = msg;
    let r = route_message(pending, msg);
    proof {
        if let Some(id) = m.id {
            assert(pending@ =~= before.remove(id@));
        }
        assert(read_from(json_parse(line@)->Ok_0, m));
    }
    Ok(r)
}

/// The bytes of `{"id":`.
pub open spec fn id_key() -> Seq<u8> {
    seq![123u8, 34u8, 105u8, 100u8, 34u8, 58u8]
}

/// The bytes of `,"method":`.
pub open spec fn method_key() -> Seq<u8> {
    seq![44u8, 34u8, 109u8, 101u8, 116u8, 104u8, 111u8, 100u8, 34u8, 58u8]
}

/// The bytes of `,"params":`.
pub open spec fn params_key() -> Seq<u8> {
    seq![44u8, 34u8, 112u8, 97u8, 114u8, 97u8, 109u8, 115u8, 34u8, 58u8]
}

/// The line that carries a request: its id and method as JSON strings, its
/// parameters (when there are any) as the given JSON bytes, the closing
/// brace and a line feed.
pub open spec fn request_line(id: Seq<char>, method: Seq<char>, params: Option<Seq<u8>>) -> Seq<
    u8,
> {
    id_key() + json_string_bytes(id) + method_key() + json_string_bytes(method) + match params {
        Some(p) => params_key() + p,
        None => Seq::empty(),
    } + seq![125u8, 10u8]
}

fn push_bytes(buf: &mut Vec<u8>, bytes: Vec<u8>)
    ensures
        final(buf)@ == old(buf)@ + bytes@,
{
    let mut bytes = bytes;
    buf.append(&mut bytes);
}

fn encode_error(e: serde_json::Error) -> (r: String)
    ensures
        r@ == json_error_message(e),
{
    error_text(&e)
}

/// The bytes of the parameters of a request, as serde_json writes them.
pub open spec fn params_bytes(params: Option<&serde_json::Value>) -> Option<Seq<u8>> {
    match params {
        Some(v) => Some(json_value_bytes(*v)),
        None => None,
    }
}

/// Frames a request to the bridge as one line of JSON. It always succeeds:
/// the line is `request_line` of the id, the method and the parameters as
/// serde_json writes them (left out when there are none), and its only line
/// feed is its last byte.
pub fn encode_request(id: &str, method: &str, params: Option<&serde_json::Value>) -> (r: Result<
    Vec<u8>,
    String,
>)
    ensures
        r is Ok,
        r matches Ok(b) ==> {
            &&& b@ == request_line(id@, method@, params_bytes(params))
            &&& b@.len() > 0 && b@.last() == 10u8
            &&& no_line_feed(b@.drop_last())
        },
{
    let mut line: Vec<u8> = vec![123u8, 34u8, 105u8, 100u8, 34u8, 58u8];
    assert(line@ =~= id_key());
    let id_bytes = match encode_string(id) {
        Ok(b) => b,
        Err(e) => return Err(encode_error(e)),
    };
    push_bytes(&mut line, id_bytes);
    push_bytes(&mut line, vec![44u8, 34u8, 109u8, 101u8, 116u8, 104u8, 111u8, 100u8, 34u8, 58u8]);
    let method_bytes = match encode_string(method) {
        Ok(b) => b,
        Err(e) => return Err(encode_error(e)),
    };
    push_bytes(&mut line, method_bytes);
    let ghost head = line@;
    assert(head =~= id_key() + json_string_bytes(id@) + method_key() + json_string_bytes(method@));
    let ghost mut p: Seq<u8> = Seq::empty();
    match params {
        Some(v) => {
            let value_bytes = match encode_value(v) {
                Ok(b) => b,
                Err(e) => return Err(encode_error(e)),
            };
            proof {
                p = value_bytes@;
            }
            push_bytes(
                &mut line,
                vec![44u8, 34u8, 112u8, 97u8, 114u8, 97u8, 109u8, 115u8, 34u8, 58u8],
            );
            push_bytes(&mut line, value_bytes);
        },
        None => {},
    }
    let ghost body = line@;
    push_bytes(&mut line, vec![125u8, 10u8]);
    proof {
        let opt = params_bytes(params);
        assert(line@ =~= request_line(id@, method@, opt));
        assert(line@.drop_last() =~= body.push(125u8));
        assert(no_line_feed(line@.drop_last())) by {
            assert(no_line_feed(id_key()));
            assert(no_line_feed(method_key()));
            assert(no_line_feed(params_key()));
            assert forall|i: int| 0 <= i < line@.drop_last().len() implies line@.drop_last()[i]
                != 10u8 by {
                let a = id_key().len() as int;
                let b = a + json_string_bytes(id@).len();
                let c = b + method_key().len();
                let d = c + json_string_bytes(method@).len();
                if i < a {
                    assert(line@[i] == id_key()[i]);
                } else if i < b {
                    assert(line@[i] == json_string_bytes(id@)[i - a]);
                } else if i < c {
                    assert(line@[i] == method_key()[i - b]);
                } else if i < d {
                    assert(line@[i] == json_string_bytes(method@)[i - c]);
                } else if params is Some {
                    let e = d + params_key().len();
                    let f = e + p.len();
                    if i < e {
                        assert(line@[i] == params_key()[i - d]);
                    } else if i < f {
                        assert(line@[i] == p[i - e]);
                    }
                }
            }
        }
    }
    Ok(line)
}

/// Whether a character is a lowercase hexadecimal digit.
pub open spec fn is_lower_hex(c: char) -> bool {
    ('0' <= c && c <= '9') || ('a' <= c && c <= 'f')
}

/// Whether a text is a version 4 UUID in lowercase hyphenated form: 36
/// characters, hyphens at positions 8, 13, 18 and 23, lowercase hex digits
/// elsewhere, version digit `4` and a variant digit among `8`, `9`, `a`,
/// `b`.
pub open spec fn is_uuid_v4_text(s: Seq<char>) -> bool {
    &&& s.len() == 36
    &&& forall|i: int|
        0 <= i < 36 ==> if i == 8 || i == 13 || i == 18 || i == 23 {
            #[trigger] s[i] == '-'
        } else {
            is_lower_hex(s[i])
        }
    &&& s[14] == '4'
    &&& (s[19] == '8' || s[19] == '9' || s[19] == 'a' || s[19] == 'b')
}

/// `uuid::Uuid::new_v4().to_string()`: a fresh random request id. Claimed:
/// it is a version 4 UUID written in lowercase hyphenated form (`new_v4`
/// sets the version and variant bits; `Display` writes the lowercase
/// hyphenated form). Which id comes back is chance.
#[verifier::external_body]
fn new_request_id() -> (r: String)
    ensures
        is_uuid_v4_text(r@),
{
    uuid::Uuid::new_v4().to_string()
}

/// Starts a call to the bridge: draws a fresh request id, files `waiter`
/// under it, and frames the request line to be written to the bridge. It
/// always succeeds.
pub fn begin_call<T>(
    pending: &mut PendingCalls<T>,
    method: &str,
    params: Option<&serde_json::Value>,
    waiter: T,
) -> (r: Result<(String, Vec<u8>), String>)
    ensures
        r is Ok,
        r matches Ok((id, line)) ==> {
            &&& is_uuid_v4_text(id@)
            &&& final(pending)@ == old(pending)@.insert(id@, waiter)
            &&& line@ == request_line(id@, method@, params_bytes(params))
            &&& line@.len() > 0 && line@.last() == 10u8
            &&& no_line_feed(line@.drop_last())
        },
{
    let id = new_request_id();
    pending.register(id.clone(), waiter);
    let line = encode_request(id.as_str(), method, params)?;
    Ok((id, line))
}

} // verus!
