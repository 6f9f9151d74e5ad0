//! The wire codec and the request/response envelopes.
//!
//! Every message, in both directions, is a ten-digit zero-padded decimal
//! length followed by that many bytes of UTF-8 JSON. A request envelope is
//! `{"method": .., "id": 100, "params": {.., "flags": 0}}`; a response either
//! carries a `result` value or an `error` object `{code, message, data}`.
//!
//! JSON text is produced and parsed by `serde_json` behind two trusted
//! wrappers; everything around them — framing, envelope construction and
//! interpretation, error mapping — is verified.

use vstd::prelude::*;

use crate::error::{kind_of_code, unknown_code_msg, LsmError, LsmErrorKind, LsmResult};
use crate::json::{
    json_model, json_within_depth, model_depth_le, model_int, obj_get, obj_model, Json, JsonModel,
};
use crate::text::{
    all_dec_digits, dec_bytes_value, dec_digit_byte, dec_fixed_bytes, lemma_pow10_increases,
    lemma_pow10_pos, lemma_pow10_values, pow10, push_dec_fixed,
};

verus! {

/// The fixed `id` field of every request: the protocol does not multiplex.
pub const IPC_JSON_ID: u64 = 100;

/// The largest body length a ten-digit decimal header can carry.
pub const MAX_BODY_LEN: u64 = 9_999_999_999;

/// The length of the decimal frame header, in bytes.
pub const IPC_HDR_LEN: usize = 10;

/// The deepest container nesting the codec's parser accepts: its recursion
/// budget is 128, spent before entering each array or object, so the
/// 128th nested container is refused. A request nested deeper could be
/// serialized but never parsed back, so the codec refuses to build it.
pub const JSON_DEPTH_LIMIT: u64 = 127;

/// The zero-padded digits of `n` denote `n` itself, and are digits.
proof fn lemma_dec_fixed_bytes_value(n: nat, w: nat)
    ensures
        all_dec_digits(dec_fixed_bytes(n, w)),
        dec_fixed_bytes(n, w).len() == w,
        dec_bytes_value(dec_fixed_bytes(n, w)) == n % pow10(w),
    decreases w,
{
    if w == 0 {
        assert(n % 1 == 0) by (nonlinear_arith);
    } else {
        lemma_dec_fixed_bytes_value(n / 10, (w - 1) as nat);
        let s = dec_fixed_bytes(n, w);
        assert(s == dec_fixed_bytes(n / 10, (w - 1) as nat).push(dec_digit_byte((n % 10) as int)));
        assert(s.drop_last() =~= dec_fixed_bytes(n / 10, (w - 1) as nat));
        assert(s.last() == dec_digit_byte((n % 10) as int));
        lemma_pow10_pos((w - 1) as nat);
        vstd::arithmetic::div_mod::lemma_mod_breakdown(n as int, 10, pow10((w - 1) as nat) as int);
        assert(pow10(w) == 10 * pow10((w - 1) as nat));
        assert(n as int % (pow10(w) as int) == 10 * ((n as int / 10) % (pow10((w - 1) as nat)
            as int)) + (n as int) % 10);
        assert forall|i: int| 0 <= i < s.len() implies 48 <= #[trigger] s[i] <= 57 by {
            if i < s.len() - 1 {
                assert(s[i] == dec_fixed_bytes(n / 10, (w - 1) as nat)[i]);
            }
        }
    }
}

#[verifier::external_type_specification]
#[verifier::external_body]
pub struct ExValue(serde_json::Value);

#[verifier::external_type_specification]
#[verifier::external_body]
pub struct ExNumber(serde_json::Number);

/// Converts a `serde_json` number into a library value; one outside
/// `u64`/`i64` has no counterpart. Only called from the converter below.
#[verifier::external_body]
fn num_to_json(n: &serde_json::Number) -> Option<Json> {
    match (n.as_u64(), n.as_i64()) {
        (Some(u), _) => Some(Json::Uint(u)),
        (None, Some(i)) => Some(Json::Int(i)),
        _ => None,
    }
}

/// Converts a library value into a `serde_json` value, one constructor at a
/// time. Only called from inside the trusted wrappers below.
#[verifier::external_body]
fn to_value(v: &Json) -> serde_json::Value {
    match v {
        Json::Null => serde_json::Value::Null,
        Json::Bool(b) => serde_json::Value::Bool(*b),
        Json::Int(i) => serde_json::Value::from(*i),
        Json::Uint(u) => serde_json::Value::from(*u),
        Json::Str(s) => serde_json::Value::String(s.clone()),
        Json::Arr(a) => serde_json::Value::Array(a.iter().map(to_value).collect()),
        Json::Obj(o) => serde_json::Value::Object(
            o.iter().map(|(k, x)| (k.clone(), to_value(x))).collect(),
        ),
    }
}

/// Converts a `serde_json` value into a library value, one constructor at a
/// time; a number outside `u64`/`i64` has no counterpart and yields `None`.
/// Only called from inside the trusted wrappers below.
#[verifier::external_body]
fn from_value(v: &serde_json::Value) -> Option<Json> {
    match v {
        serde_json::Value::Null => Some(Json::Null),
        serde_json::Value::Bool(b) => Some(Json::Bool(*b)),
        serde_json::Value::Number(n) => num_to_json(n),
        serde_json::Value::String(s) => Some(Json::Str(s.clone())),
        serde_json::Value::Array(a) => a.iter().map(from_value).collect::<Option<Vec<Json>>>().map(
            Json::Arr,
        ),
        serde_json::Value::Object(o) => o.iter().map(
            |(k, x)| Some((k.clone(), from_value(x)?)),
        ).collect::<Option<Vec<(String, Json)>>>().map(Json::Obj),
    }
}

/// The JSON text, as bytes, that serialization gives a model.
pub uninterp spec fn json_bytes_of(m: JsonModel) -> Seq<u8>;

/// The model that parsing gives a byte sequence, if it parses: UTF-8, then
/// JSON, with numbers restricted to `u64`/`i64`.
pub uninterp spec fn json_parse_of(b: Seq<u8>) -> Option<JsonModel>;

/// Relies on `serde_json::to_vec`: serializing a value whose keys are
/// strings and which holds no floats into a vector has no failure path, and
/// the serialized text is a function of the value alone (object keys are
/// emitted in sorted order, a later duplicate key wins). Parsing that text
/// back yields an equal value as long as the value stays within the
/// parser's recursion limit ([`JSON_DEPTH_LIMIT`]); deeper values serialize
/// fine but the parser refuses them.
#[verifier::external_body]
fn json_to_bytes(v: &Json) -> (r: Option<Vec<u8>>)
    ensures
        r is Some,
        r matches Some(b) ==> b@ == json_bytes_of(v.deep_view()) && (model_depth_le(
            v.deep_view(),
            JSON_DEPTH_LIMIT as nat,
        ) ==> json_parse_of(b@) == Some(v.deep_view())),
{
    serde_json::to_vec(&to_value(v)).ok()
}

/// Relies on `serde_json::from_slice`: whether bytes parse, and to what
/// value, depends on the bytes alone. A duplicate object key keeps the later
/// value; a number outside `u64`/`i64` is rejected.
#[verifier::external_body]
fn json_from_bytes(b: &[u8]) -> (r: Option<Json>)
    ensures
        (r is Some) == (json_parse_of(b@) is Some),
        r matches Some(j) ==> Some(j.deep_view()) == json_parse_of(b@),
{
    match serde_json::from_slice::<serde_json::Value>(b) {
        Ok(v) => from_value(&v),
        Err(_) => None,
    }
}

/// Parses the ten-byte decimal frame header.
pub fn parse_len_header(hdr: &[u8]) -> (r: LsmResult<u64>)
    ensures
        match r {
            Ok(n) => hdr@.len() == 10 && all_dec_digits(hdr@) && n == dec_bytes_value(hdr@),
            Err(e) => {
                if hdr@.len() != 10 {
                    e.kind == LsmErrorKind::TransportCommunication
                } else {
                    !all_dec_digits(hdr@) && e.kind == LsmErrorKind::TransportSerialization
                }
            },
        },
{
    proof {
        lemma_pow10_values();
    }
    if hdr.len() != IPC_HDR_LEN {
        return Err(
            LsmError::with_msg(
                LsmErrorKind::TransportCommunication,
                "frame header is not 10 bytes",
            ),
        );
    }
    let mut acc: u64 = 0;
    let mut i: usize = 0;
    while i < 10
        invariant
            hdr@.len() == 10,
            i <= 10,
            forall|j: int| 0 <= j < i ==> 48 <= #[trigger] hdr@[j] <= 57,
            acc == dec_bytes_value(hdr@.take(i as int)),
            acc < pow10(i as nat),
            pow10(9) == 1_000_000_000,
            pow10(10) == 10_000_000_000,
        decreases 10 - i,
    {
        let b = hdr[i];
        if b < 48 || b > 57 {
            return Err(
                LsmError::with_msg(
                    LsmErrorKind::TransportSerialization,
                    "frame header is not a decimal length",
                ),
            );
        }
        proof {
            lemma_pow10_increases(i as nat, 9);
            assert(hdr@.take(i as int + 1).drop_last() =~= hdr@.take(i as int));
            assert(hdr@.take(i as int + 1).last() == hdr@[i as int]);
        }
        acc = acc * 10 + ((b - 48) as u64);
        i += 1;
    }
    proof {
        assert(hdr@.take(10) =~= hdr@);
    }
    Ok(acc)
}

/// Splits one full frame out of the received bytes: reads the declared
/// length, then the body, and never returns a truncated body — bytes missing
/// before the declared length is reached are a communication failure.
pub fn split_frame(data: &[u8]) -> (r: LsmResult<Vec<u8>>)
    ensures
        ({
            let s = data@;
            match r {
                Ok(body) => s.len() >= 10 && all_dec_digits(s.take(10)) && s.len() >= 10
                    + dec_bytes_value(s.take(10)) && body@ == s.subrange(
                    10,
                    10 + dec_bytes_value(s.take(10)) as int,
                ),
                Err(e) => {
                    if s.len() < 10 {
                        e.kind == LsmErrorKind::TransportCommunication
                    } else if !all_dec_digits(s.take(10)) {
                        e.kind == LsmErrorKind::TransportSerialization
                    } else {
                        s.len() < 10 + dec_bytes_value(s.take(10)) && e.kind
                            == LsmErrorKind::TransportCommunication
                    }
                },
            }
        }),
{
    if data.len() < IPC_HDR_LEN {
        return Err(
            LsmError::with_msg(LsmErrorKind::TransportCommunication, "frame shorter than a header"),
        );
    }
    let hdr = vstd::slice::slice_subrange(data, 0, IPC_HDR_LEN);
    proof {
        assert(hdr@ =~= data@.take(10));
    }
    let n = match parse_len_header(hdr) {
        Ok(n) => n,
        Err(e) => {
            return Err(e);
        },
    };
    let avail = data.len() - IPC_HDR_LEN;
    if (avail as u64) < n {
        return Err(
            LsmError::with_msg(
                LsmErrorKind::TransportCommunication,
                "connection closed before the declared length",
            ),
        );
    }
    let nn = n as usize;
    let body = vstd::slice::slice_to_vec(vstd::slice::slice_subrange(data, 10, 10 + nn));
    Ok(body)
}

/// The framed form of a message body.
pub open spec fn frame_bytes(body: Seq<u8>) -> Seq<u8> {
    dec_fixed_bytes(body.len(), 10) + body
}

/// Frames a message body with its ten-digit zero-padded decimal length.
pub fn encode_frame(body: Vec<u8>) -> (r: LsmResult<Vec<u8>>)
    ensures
        match r {
            Ok(f) => body@.len() <= MAX_BODY_LEN && f@ == frame_bytes(body@),
            Err(e) => body@.len() > MAX_BODY_LEN && e.kind == LsmErrorKind::TransportInvalidArg,
        },
{
    if (body.len() as u64) > MAX_BODY_LEN {
        return Err(
            LsmError::with_msg(
                LsmErrorKind::TransportInvalidArg,
                "message body longer than the header can state",
            ),
        );
    }
    let mut out: Vec<u8> = Vec::new();
    push_dec_fixed(&mut out, body.len() as u64, IPC_HDR_LEN);
    let mut body = body;
    out.append(&mut body);
    Ok(out)
}

/// A frame round-trips: its header denotes the body's length, and splitting
/// it yields the body back.
pub proof fn lemma_frame_round_trip(body: Seq<u8>)
    requires
        body.len() <= MAX_BODY_LEN,
    ensures
        frame_bytes(body).len() == 10 + body.len(),
        all_dec_digits(frame_bytes(body).take(10)),
        dec_bytes_value(frame_bytes(body).take(10)) == body.len(),
        frame_bytes(body).subrange(10, 10 + body.len() as int) == body,
{
    lemma_pow10_values();
    lemma_dec_fixed_bytes_value(body.len(), 10);
    assert(body.len() % pow10(10) == body.len()) by {
        vstd::arithmetic::div_mod::lemma_small_mod(body.len(), pow10(10));
    }
    assert(frame_bytes(body).take(10) =~= dec_fixed_bytes(body.len(), 10));
    assert(frame_bytes(body).subrange(10, 10 + body.len() as int) =~= body);
}

/// Parses a message body: UTF-8, then JSON. Any failure is a serialization
/// failure, distinct from errors the daemon reports inside an envelope.
pub fn decode_body(bytes: &[u8]) -> (r: LsmResult<Json>)
    ensures
        match r {
            Ok(j) => json_parse_of(bytes@) == Some(j.deep_view()),
            Err(e) => json_parse_of(bytes@) is None && e.kind
                == LsmErrorKind::TransportSerialization,
        },
{
    match json_from_bytes(bytes) {
        Some(j) => Ok(j),
        None => Err(
            LsmError::with_msg(
                LsmErrorKind::TransportSerialization,
                "message body is not valid JSON",
            ),
        ),
    }
}

/// The request envelope: the method, the fixed id, and the arguments with a
/// zero `flags` field injected.
pub open spec fn request_envelope(method: Seq<char>, params: Map<Seq<char>, JsonModel>) -> JsonModel {
    JsonModel::Obj(
        Map::empty().insert("method"@, JsonModel::Str(method)).insert(
            "id"@,
            JsonModel::Int(IPC_JSON_ID as int),
        ).insert("params"@, JsonModel::Obj(params.insert("flags"@, JsonModel::Int(0)))),
    )
}

/// Whether `frame` is the framed request envelope for `method` and `params`,
/// whose body parses back to exactly that envelope.
pub open spec fn is_request_frame(
    frame: Seq<u8>,
    method: Seq<char>,
    params: Map<Seq<char>, JsonModel>,
) -> bool {
    let body = json_bytes_of(request_envelope(method, params));
    &&& body.len() <= MAX_BODY_LEN
    &&& frame == frame_bytes(body)
    &&& json_parse_of(body) == Some(request_envelope(method, params))
}

/// Whether the request envelope for `method` and `params` serializes to a
/// body the ten-digit header can state; every such request is owed a frame.
pub open spec fn request_fits(method: Seq<char>, params: Map<Seq<char>, JsonModel>) -> bool {
    json_bytes_of(request_envelope(method, params)).len() <= MAX_BODY_LEN
}

/// What every request builder promises: a frame exactly when the envelope
/// fits the header and stays within the parser's recursion limit, that
/// frame being the framed envelope whose body decodes back to it, and
/// otherwise the one refusal error.
pub open spec fn request_outcome(
    r: LsmResult<Vec<u8>>,
    method: Seq<char>,
    params: Map<Seq<char>, JsonModel>,
) -> bool {
    &&& (r is Ok) == (request_fits(method, params) && model_depth_le(
        request_envelope(method, params),
        JSON_DEPTH_LIMIT as nat,
    ))
    &&& (r matches Ok(f) ==> is_request_frame(f@, method, params))
    &&& (r matches Err(e) ==> e.kind == LsmErrorKind::TransportInvalidArg)
}

/// Builds and frames one request: a frame is owed whenever the envelope
/// fits the ten-digit header and nests within the parser's recursion
/// limit, and decoding its body then recovers the identical envelope.
pub fn encode_request(method: &str, params: Vec<(String, Json)>) -> (r: LsmResult<Vec<u8>>)
    ensures
        request_outcome(r, method@, obj_model(params@)),
{
    let ghost params_model = obj_model(params@);
    let mut fields = params;
    fields.push(("flags".to_owned(), Json::Uint(0)));
    proof {
        crate::json::lemma_obj_model_push(
            params@,
            (fields@.last().0, fields@.last().1),
        );
        assert(obj_model(fields@) == params_model.insert("flags"@, JsonModel::Int(0)));
    }
    let mut env: Vec<(String, Json)> = Vec::new();
    env.push(("method".to_owned(), Json::Str(method.to_owned())));
    env.push(("id".to_owned(), Json::Uint(IPC_JSON_ID)));
    env.push(("params".to_owned(), Json::Obj(fields)));
    let envelope = Json::Obj(env);
    proof {
        let e0 = Seq::<(String, Json)>::empty();
        let s = env@;
        assert(obj_model(e0) =~= Map::<Seq<char>, JsonModel>::empty()) by {
            assert(crate::json::pairs_model(e0) =~= Seq::<(Seq<char>, JsonModel)>::empty());
        }
        crate::json::lemma_obj_model_push(e0, (s[0].0, s[0].1));
        crate::json::lemma_obj_model_push(e0.push((s[0].0, s[0].1)), (s[1].0, s[1].1));
        crate::json::lemma_obj_model_push(
            e0.push((s[0].0, s[0].1)).push((s[1].0, s[1].1)),
            (s[2].0, s[2].1),
        );
        assert(e0.push((s[0].0, s[0].1)).push((s[1].0, s[1].1)).push((s[2].0, s[2].1)) =~= s);
        assert(envelope.deep_view() == request_envelope(method@, params_model));
    }
    if !json_within_depth(&envelope, JSON_DEPTH_LIMIT) {
        return Err(
            LsmError::with_msg(
                LsmErrorKind::TransportInvalidArg,
                "request nested deeper than the parser accepts",
            ),
        );
    }
    let body = match json_to_bytes(&envelope) {
        Some(b) => b,
        None => unreached(),
    };
    encode_frame(body)
}

/// The codec round-trips every request: of a well-formed request frame,
/// the header denotes the body's length, and decoding the body recovers
/// the identical request envelope.
pub proof fn lemma_request_round_trip(
    frame: Seq<u8>,
    method: Seq<char>,
    params: Map<Seq<char>, JsonModel>,
)
    requires
        is_request_frame(frame, method, params),
    ensures
        frame.len() >= 10,
        all_dec_digits(frame.take(10)),
        frame.len() == 10 + dec_bytes_value(frame.take(10)),
        json_parse_of(frame.subrange(10, frame.len() as int)) == Some(
            request_envelope(method, params),
        ),
{
    let body = json_bytes_of(request_envelope(method, params));
    lemma_frame_round_trip(body);
    assert(frame.subrange(10, frame.len() as int) =~= body);
}

/// Whether an `error` field carries a well-formed error envelope: an integer
/// code that fits `i64`, a string message, and optionally a string (or null)
/// detail.
pub open spec fn valid_error_envelope(em: JsonModel) -> bool {
    &&& em is Obj
    &&& em->Obj_0.contains_key("code"@)
    &&& (model_int(em->Obj_0["code"@]) matches Some(c) && i64::MIN <= c <= i64::MAX)
    &&& em->Obj_0.contains_key("message"@)
    &&& em->Obj_0["message"@] is Str
    &&& (em->Obj_0.contains_key("data"@) ==> (em->Obj_0["data"@] is Str || em->Obj_0["data"@]
        is Null))
}

/// The code of a well-formed error envelope.
pub open spec fn error_envelope_code(em: JsonModel) -> int {
    match model_int(em->Obj_0["code"@]) {
        Some(c) => c,
        None => 0,
    }
}

/// The message of a well-formed error envelope.
pub open spec fn error_envelope_msg(em: JsonModel) -> Seq<char> {
    em->Obj_0["message"@]->Str_0
}

/// The error returned for an `error` field whose shape is not the protocol's.
fn malformed_error_envelope() -> (r: LsmError)
    ensures
        r.kind == LsmErrorKind::TransportSerialization,
{
    LsmError::with_msg(LsmErrorKind::TransportSerialization, "malformed error envelope")
}

/// Separates a decoded response into its `result` payload or the error it
/// carries: an error envelope is mapped through the error table; a response
/// that is not an object, or has neither field, broke the protocol.
pub fn interpret_response(j: &Json) -> (r: LsmResult<Json>)
    ensures
        ({
            let m = j.deep_view();
            match r {
                Ok(v) => m is Obj && !m->Obj_0.contains_key("error"@) && m->Obj_0.contains_key(
                    "result"@,
                ) && v.deep_view() == m->Obj_0["result"@],
                Err(e) => {
                    if !(m is Obj) {
                        e.kind == LsmErrorKind::PluginBug
                    } else if m->Obj_0.contains_key("error"@) {
                        let em = m->Obj_0["error"@];
                        if valid_error_envelope(em) {
                            match kind_of_code(error_envelope_code(em)) {
                                Some(k) => e.kind == k && e.msg@ == error_envelope_msg(em),
                                None => e.kind == LsmErrorKind::LibBug && e.msg@ == unknown_code_msg(
                                    error_envelope_code(em),
                                    error_envelope_msg(em),
                                ),
                            }
                        } else {
                            e.kind == LsmErrorKind::TransportSerialization
                        }
                    } else {
                        !m->Obj_0.contains_key("result"@) && e.kind == LsmErrorKind::PluginBug
                    }
                },
            }
        }),
{
    let fields = match j {
        Json::Obj(fields) => fields,
        _ => {
            return Err(
                LsmError::with_msg(LsmErrorKind::PluginBug, "reply from the socket is not an object"),
            );
        },
    };
    if let Some(err_val) = obj_get(fields, "error") {
        let ef = match err_val {
            Json::Obj(ef) => ef,
            _ => {
                return Err(malformed_error_envelope());
            },
        };
        let code = match obj_get(ef, "code") {
            Some(cj) => match cj.as_i64() {
                Some(c) => c,
                None => {
                    return Err(malformed_error_envelope());
                },
            },
            None => {
                return Err(malformed_error_envelope());
            },
        };
        let message = match obj_get(ef, "message") {
            Some(mj) => match mj.as_str() {
                Some(s) => s.clone(),
                None => {
                    return Err(malformed_error_envelope());
                },
            },
            None => {
                return Err(malformed_error_envelope());
            },
        };
        match obj_get(ef, "data") {
            None => {},
            Some(dj) => match dj {
                Json::Str(_) => {},
                Json::Null => {},
                _ => {
                    return Err(malformed_error_envelope());
                },
            },
        }
        return Err(LsmError::map(code, message));
    }
    match obj_get(fields, "result") {
        Some(v) => Ok(v.deep_clone()),
        None => Err(
            LsmError::with_msg(LsmErrorKind::PluginBug, "reply carries neither result nor error"),
        ),
    }
}

} // verus!
