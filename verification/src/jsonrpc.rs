//! The JSON-RPC protocol client: envelope construction, response
//! discrimination, and single and batched call execution over an injected
//! transport.
//!
//! Requests are framed by this crate itself: the wire text of an envelope
//! is stated exactly, character by character, by [`request_text`] and
//! [`batch_text`]. Responses are discriminated structurally — the success
//! shape is tried first, then the error shape — against the JSON library's
//! reading of the bytes.

use vstd::prelude::*;
use vstd::multiset::Multiset;
use vstd::string::StringExecFns;
use vstd::string::StrSliceExecFns;
use crate::chain::Chain;
use crate::json::{
    json_text, json_is_array, json_elems, parsed_json, json_field, json_as_u64, json_as_i64,
    json_as_str, texts_of, value_to_text, value_into_array, parse_json, value_field, value_clone,
    value_as_u64, value_as_i64, value_as_string,
};
use crate::target::{AlienError, AlienHttpMethod, AlienProvider, AlienTarget};
use crate::text::{
    dec_u64, dec_i64, escape_text, join_texts, append_dec_u64, append_dec_i64, append_escaped,
};

verus! {

/// One JSON-RPC request: protocol version tag, correlation id, method
/// name, and positional parameters.
#[derive(Debug)]
pub struct JsonRpcRequest {
    pub jsonrpc: &'static str,
    pub id: u64,
    pub method: String,
    pub params: Vec<serde_json::Value>,
}

/// A call description that can be turned into a JSON-RPC request under a
/// client-assigned id. The id of the produced request is the id that was
/// handed in: that is the protocol contract every adapter must honor.
pub trait JsonRpcRequestConvert {
    fn to_req(&self, id: u64) -> (r: JsonRpcRequest)
        ensures
            r.id == id,
    ;
}

/// The wire text of one request envelope, exactly as it is sent:
/// `{"jsonrpc":"...","id":N,"method":"...","params":[...]}`.
pub open spec fn request_text(req: JsonRpcRequest) -> Seq<char> {
    "{\"jsonrpc\":\""@ + escape_text(req.jsonrpc@) + "\",\"id\":"@ + dec_u64(req.id)
        + ",\"method\":\""@ + escape_text(req.method@) + "\",\"params\":"@ + params_text(
        req.params@,
    ) + "}"@
}

/// The wire text of a positional parameter list: the parameters' own
/// texts, comma-separated, in one pair of brackets.
pub open spec fn params_text(params: Seq<serde_json::Value>) -> Seq<char> {
    "["@ + join_texts(texts_of(params), ","@) + "]"@
}

/// The wire texts of a sequence of requests, one per request.
pub open spec fn request_texts(reqs: Seq<JsonRpcRequest>) -> Seq<Seq<char>> {
    reqs.map_values(|r: JsonRpcRequest| request_text(r))
}

/// The wire text of a batch body: the requests' envelopes,
/// comma-separated, in one pair of brackets.
pub open spec fn batch_text(reqs: Seq<JsonRpcRequest>) -> Seq<char> {
    "["@ + join_texts(request_texts(reqs), ","@) + "]"@
}

/// The bytes that a wire text is sent as.
pub open spec fn wire_bytes(t: Seq<char>) -> Seq<u8> {
    vstd::utf8::encode_utf8(t)
}

/// Appends the comma-separated parameter list, in brackets, to `out`.
fn append_params_text(out: &mut String, params: &Vec<serde_json::Value>)
    ensures
        final(out)@ == old(out)@ + params_text(params@),
{
    out.append("[");
    let n = params.len();
    let mut i: usize = 0;
    while i < n
        invariant
            n == params@.len(),
            i <= n,
            out@ == old(out)@ + "["@ + join_texts(texts_of(params@.subrange(0, i as int)), ","@),
        decreases n - i,
    {
        if i > 0 {
            out.append(",");
        }
        let t = value_to_text(&params[i]);
        out.append(t.as_str());
        proof {
            let pre = texts_of(params@.subrange(0, i as int));
            let cur = texts_of(params@.subrange(0, i + 1));
            assert(params@.subrange(0, i + 1).drop_last() =~= params@.subrange(0, i as int));
            assert(cur.drop_last() =~= pre);
            assert(cur.last() == json_text(params@[i as int]));
            assert(out@ =~= old(out)@ + "["@ + join_texts(cur, ","@));
        }
        i = i + 1;
    }
    out.append("]");
    proof {
        assert(params@.subrange(0, n as int) =~= params@);
        assert(final(out)@ =~= old(out)@ + params_text(params@));
    }
}

/// Appends the wire text of one request envelope to `out`.
fn append_request_text(out: &mut String, req: &JsonRpcRequest)
    ensures
        final(out)@ == old(out)@ + request_text(*req),
{
    out.append("{\"jsonrpc\":\"");
    append_escaped(out, req.jsonrpc);
    out.append("\",\"id\":");
    append_dec_u64(out, req.id);
    out.append(",\"method\":\"");
    append_escaped(out, req.method.as_str());
    out.append("\",\"params\":");
    append_params_text(out, &req.params);
    out.append("}");
    proof {
        assert(final(out)@ =~= old(out)@ + request_text(*req));
    }
}

/// The headers every request descriptor built here carries.
fn content_type_headers() -> (r: Vec<(String, String)>)
    ensures
        r@.len() == 1,
        r@[0].0@ == "Content-Type"@,
        r@[0].1@ == "application/json"@,
{
    let mut headers: Vec<(String, String)> = Vec::new();
    headers.push(("Content-Type".to_owned(), "application/json".to_owned()));
    headers
}

/// Whether `t` is a POST descriptor for `url` carrying exactly the
/// `Content-Type: application/json` header, the given body text, and no
/// cache hint.
pub open spec fn is_post_target(t: AlienTarget, url: Seq<char>, body: Seq<char>) -> bool {
    &&& t.url@ == url
    &&& t.method == AlienHttpMethod::Post
    &&& t.headers matches Some(h) && h@.len() == 1 && h@[0].0@ == "Content-Type"@ && h@[0].1@
        == "application/json"@
    &&& t.body matches Some(b) && b@ == wire_bytes(body)
    &&& t.cache_ttl is None
}

impl JsonRpcRequest {
    /// A request under the protocol version tag `"2.0"`.
    pub fn new(id: u64, method: &str, params: Vec<serde_json::Value>) -> (r: Self)
        ensures
            r.jsonrpc@ == "2.0"@,
            r.id == id,
            r.method@ == method@,
            r.params == params,
    {
        JsonRpcRequest { jsonrpc: "2.0", id, method: method.to_owned(), params }
    }

    /// The request descriptor that sends this envelope to `url`. Framing
    /// is done by this crate and cannot fail; the `Result` is kept so the
    /// shape of the operation stays the same for callers.
    pub fn to_target(&self, url: &str) -> (r: Result<AlienTarget, AlienError>)
        ensures
            r matches Ok(t) && is_post_target(t, url@, request_text(*self)),
    {
        let mut text = String::new();
        append_request_text(&mut text, self);
        let body = text.as_str().as_bytes_vec();
        proof {
            assert(text@ =~= request_text(*self));
        }
        Ok(
            AlienTarget {
                url: url.to_owned(),
                method: AlienHttpMethod::Post,
                headers: Some(content_type_headers()),
                body: Some(body),
                cache_ttl: None,
            },
        )
    }
}

/// A copy of the given parameter values, in order.
fn clone_values(vs: &Vec<serde_json::Value>) -> (r: Vec<serde_json::Value>)
    ensures
        r@ == vs@,
{
    let n = vs.len();
    let mut out: Vec<serde_json::Value> = Vec::new();
    let mut i: usize = 0;
    while i < n
        invariant
            n == vs@.len(),
            i <= n,
            out@ == vs@.subrange(0, i as int),
        decreases n - i,
    {
        out.push(value_clone(&vs[i]));
        proof {
            assert(out@ =~= vs@.subrange(0, i + 1));
        }
        i = i + 1;
    }
    proof {
        assert(vs@.subrange(0, n as int) =~= vs@);
    }
    out
}

impl JsonRpcRequestConvert for JsonRpcRequest {
    /// The same call under the client-assigned id.
    fn to_req(&self, id: u64) -> (r: JsonRpcRequest)
        ensures
            r.jsonrpc == self.jsonrpc,
            r.method@ == self.method@,
            r.params@ == self.params@,
    {
        JsonRpcRequest {
            jsonrpc: self.jsonrpc,
            id,
            method: self.method.clone(),
            params: clone_values(&self.params),
        }
    }
}

/// The request descriptor that sends the whole batch as one JSON array
/// body to `endpoint`.
pub fn batch_into_target(requests: &Vec<JsonRpcRequest>, endpoint: &str) -> (t: AlienTarget)
    ensures
        is_post_target(t, endpoint@, batch_text(requests@)),
{
    let mut text = String::new();
    text.append("[");
    let n = requests.len();
    let mut i: usize = 0;
    while i < n
        invariant
            n == requests@.len(),
            i <= n,
            text@ == "["@ + join_texts(request_texts(requests@.subrange(0, i as int)), ","@),
        decreases n - i,
    {
        if i > 0 {
            text.append(",");
        }
        append_request_text(&mut text, &requests[i]);
        proof {
            let pre = request_texts(requests@.subrange(0, i as int));
            let cur = request_texts(requests@.subrange(0, i + 1));
            assert(requests@.subrange(0, i + 1).drop_last() =~= requests@.subrange(0, i as int));
            assert(cur.drop_last() =~= pre);
            assert(cur.last() == request_text(requests@[i as int]));
            assert(text@ =~= "["@ + join_texts(cur, ","@));
        }
        i = i + 1;
    }
    text.append("]");
    proof {
        assert(requests@.subrange(0, n as int) =~= requests@);
        assert(text@ =~= batch_text(requests@));
    }
    let body = text.as_str().as_bytes_vec();
    AlienTarget {
        url: endpoint.to_owned(),
        method: AlienHttpMethod::Post,
        headers: Some(content_type_headers()),
        body: Some(body),
        cache_ttl: None,
    }
}

/// A well-formed JSON-RPC error object: a numeric code and a message.
#[derive(Debug)]
pub struct JsonRpcError {
    pub code: i32,
    pub message: String,
}

impl Clone for JsonRpcError {
    fn clone(&self) -> (r: Self)
        ensures
            r == *self,
    {
        JsonRpcError { code: self.code, message: self.message.clone() }
    }
}

impl JsonRpcError {
    /// The error rendered as `message (code)`.
    pub fn to_text(&self) -> (r: String)
        ensures
            r@ == self.message@ + " ("@ + dec_i64(self.code as i64) + ")"@,
    {
        let mut out = self.message.clone();
        out.append(" (");
        append_dec_i64(&mut out, self.code as i64);
        out.append(")");
        proof {
            assert(out@ =~= self.message@ + " ("@ + dec_i64(self.code as i64) + ")"@);
        }
        out
    }
}

impl From<AlienError> for JsonRpcError {
    /// A transport failure folded into the error type of the protocol
    /// layer, under the reserved code `-1`.
    fn from(err: AlienError) -> (r: Self) {
        let message = match err {
            AlienError::RequestError { msg } => msg,
            AlienError::ResponseError { msg } => msg,
        };
        JsonRpcError { code: -1, message }
    }
}

impl vstd::std_specs::convert::FromSpecImpl<AlienError> for JsonRpcError {
    open spec fn obeys_from_spec() -> bool {
        true
    }

    open spec fn from_spec(err: AlienError) -> Self {
        match err {
            AlienError::RequestError { msg } => JsonRpcError { code: -1i32, message: msg },
            AlienError::ResponseError { msg } => JsonRpcError { code: -1i32, message: msg },
        }
    }
}

impl From<JsonRpcError> for AlienError {
    /// A decoded remote error carried back out as a response failure.
    fn from(err: JsonRpcError) -> (r: Self) {
        AlienError::ResponseError { msg: err.message }
    }
}

impl vstd::std_specs::convert::FromSpecImpl<JsonRpcError> for AlienError {
    open spec fn obeys_from_spec() -> bool {
        true
    }

    open spec fn from_spec(err: JsonRpcError) -> Self {
        AlienError::ResponseError { msg: err.message }
    }
}

/// The success shape of a response: the correlation id and the result
/// payload.
#[derive(Debug)]
pub struct JsonRpcResponse<T> {
    pub id: u64,
    pub result: T,
}

/// The failure shape of a response: the correlation id and the error
/// object.
#[derive(Debug)]
pub struct JsonRpcErrorResponse {
    pub id: u64,
    pub error: JsonRpcError,
}

/// A decoded response: either shape, discriminated structurally by which
/// of the `result` / `error` members the response carried.
#[derive(Debug)]
pub enum JsonRpcResult<T> {
    Value(JsonRpcResponse<T>),
    Error(JsonRpcErrorResponse),
}

impl<T: Clone> JsonRpcResult<T> {
    /// The payload cloned out of the union: the result as success, the
    /// error object as failure.
    pub fn take(&self) -> (r: Result<T, JsonRpcError>)
        ensures
            self matches JsonRpcResult::Value(v) ==> r matches Ok(x) && cloned(v.result, x),
            self matches JsonRpcResult::Error(e) ==> r matches Err(x) && x == e.error,
    {
        match self {
            JsonRpcResult::Value(value) => Ok(value.result.clone()),
            JsonRpcResult::Error(error) => Err(error.error.clone()),
        }
    }
}

/// The correlation id carried by a response object, when it has one that
/// reads as an unsigned integer.
pub open spec fn spec_id_of(v: serde_json::Value) -> Option<u64> {
    match json_field(v, "id"@) {
        Some(idv) => json_as_u64(idv),
        None => None,
    }
}

/// The `result` member of a response object.
pub open spec fn spec_result_field(v: serde_json::Value) -> Option<serde_json::Value> {
    json_field(v, "result"@)
}

/// The `error.code` member of a response object, when it reads as a
/// signed integer.
pub open spec fn spec_error_code(v: serde_json::Value) -> Option<i64> {
    match json_field(v, "error"@) {
        Some(e) => match json_field(e, "code"@) {
            Some(c) => json_as_i64(c),
            None => None,
        },
        None => None,
    }
}

/// The `error.message` member of a response object, when it is a string.
pub open spec fn spec_error_message(v: serde_json::Value) -> Option<Seq<char>> {
    match json_field(v, "error"@) {
        Some(e) => match json_field(e, "message"@) {
            Some(m) => json_as_str(m),
            None => None,
        },
        None => None,
    }
}

/// Whether `v` matches the success shape: an id and a `result` member.
pub open spec fn value_shape(v: serde_json::Value) -> bool {
    spec_id_of(v) is Some && spec_result_field(v) is Some
}

/// Whether `v` matches the error shape: an id and an `error` member whose
/// code is an integer in 32-bit range and whose message is a string.
pub open spec fn error_shape(v: serde_json::Value) -> bool {
    &&& spec_id_of(v) is Some
    &&& spec_error_code(v) matches Some(c) && i32::MIN <= c <= i32::MAX
    &&& spec_error_message(v) is Some
}

/// How one decoded response relates to the JSON object it came from. The
/// success shape wins when both members are present, as the decoder tries
/// it first.
pub open spec fn decoded_from(v: serde_json::Value, r: JsonRpcResult<serde_json::Value>) -> bool {
    if value_shape(v) {
        &&& r matches JsonRpcResult::Value(res)
        &&& Some(res.id) == spec_id_of(v)
        &&& Some(res.result) == spec_result_field(v)
    } else if error_shape(v) {
        &&& r matches JsonRpcResult::Error(er)
        &&& Some(er.id) == spec_id_of(v)
        &&& Some(er.error.code as i64) == spec_error_code(v)
        &&& Some(er.error.message@) == spec_error_message(v)
    } else {
        false
    }
}

/// Decodes one response object: the success shape is tried first, then
/// the error shape; an object matching neither is rejected, not dropped.
pub fn decode_result_value(v: &serde_json::Value) -> (r: Option<JsonRpcResult<serde_json::Value>>)
    ensures
        r is Some <==> value_shape(*v) || error_shape(*v),
        r matches Some(x) ==> decoded_from(*v, x),
{
    let id_opt = match value_field(v, "id") {
        Some(idv) => value_as_u64(idv),
        None => None,
    };
    let id = match id_opt {
        Some(id) => id,
        None => {
            return None;
        },
    };
    if let Some(resf) = value_field(v, "result") {
        let payload = value_clone(resf);
        return Some(JsonRpcResult::Value(JsonRpcResponse { id, result: payload }));
    }
    if let Some(errf) = value_field(v, "error") {
        let code_opt = match value_field(errf, "code") {
            Some(c) => value_as_i64(c),
            None => None,
        };
        let msg_opt = match value_field(errf, "message") {
            Some(m) => value_as_string(m),
            None => None,
        };
        if let Some(code) = code_opt {
            if let Some(message) = msg_opt {
                if i32::MIN as i64 <= code && code <= i32::MAX as i64 {
                    return Some(
                        JsonRpcResult::Error(
                            JsonRpcErrorResponse {
                                id,
                                error: JsonRpcError { code: code as i32, message },
                            },
                        ),
                    );
                }
            }
        }
    }
    None
}

/// Whether `data` parses as a single response of either shape.
pub open spec fn response_decodes(data: Seq<u8>) -> bool {
    parsed_json(data) matches Some(v) && (value_shape(v) || error_shape(v))
}

/// Decodes one response buffer into either shape, or nothing when the
/// bytes are not a well-formed response.
pub fn decode_response(data: &Vec<u8>) -> (r: Option<JsonRpcResult<serde_json::Value>>)
    ensures
        r is Some <==> response_decodes(data@),
        r matches Some(x) ==> parsed_json(data@) matches Some(v) && decoded_from(v, x),
{
    let parsed = match parse_json(data.as_slice()) {
        Some(p) => p,
        None => {
            return None;
        },
    };
    decode_result_value(&parsed)
}

/// Normalizes a serialized params value into a positional list: an array
/// is used verbatim — its wire text is spliced unchanged into the
/// `params` member — and any other value is wrapped into a one-element
/// array.
pub fn params_from_value(v: serde_json::Value) -> (r: Vec<serde_json::Value>)
    ensures
        json_is_array(v) ==> r@ == json_elems(v),
        !json_is_array(v) ==> r@ == seq![v],
        params_text(r@) == (if json_is_array(v) {
            json_text(v)
        } else {
            "["@ + json_text(v) + "]"@
        }),
{
    match value_into_array(v) {
        Ok(arr) => {
            proof {
                assert(texts_of(arr@) == texts_of(json_elems(v)));
                assert(params_text(arr@) =~= json_text(v));
            }
            arr
        },
        Err(w) => {
            let mut one: Vec<serde_json::Value> = Vec::new();
            one.push(w);
            proof {
                assert(one@ =~= seq![v]);
                assert(texts_of(one@).len() == 1);
                assert(texts_of(one@)[0] == json_text(v));
                assert(join_texts(texts_of(one@), ","@) == json_text(v));
                assert(params_text(one@) =~= "["@ + json_text(v) + "]"@);
            }
            one
        },
    }
}

/// The requests of one batch: the calls in input order, with the ids
/// `1..=N` assigned by position.
pub fn batch_requests<T: JsonRpcRequestConvert>(calls: &Vec<T>) -> (r: Vec<JsonRpcRequest>)
    ensures
        r@.len() == calls@.len(),
        forall|i: int| 0 <= i < r@.len() ==> #[trigger] r@[i].id == i + 1,
{
    let n = calls.len();
    let mut requests: Vec<JsonRpcRequest> = Vec::new();
    let mut i: usize = 0;
    while i < n
        invariant
            n == calls@.len(),
            i <= n,
            requests@.len() == i,
            forall|j: int| 0 <= j < i ==> #[trigger] requests@[j].id == j + 1,
        decreases n - i,
    {
        let req = calls[i].to_req((i as u64) + 1);
        requests.push(req);
        i = i + 1;
    }
    requests
}

/// Whether `list` is the decoding of the batch response `data`: a JSON
/// array, each element decoded in order.
pub open spec fn batch_decoded(data: Seq<u8>, list: Seq<JsonRpcResult<serde_json::Value>>) -> bool {
    &&& parsed_json(data) matches Some(v)
    &&& json_is_array(v)
    &&& list.len() == json_elems(v).len()
    &&& forall|i: int|
        0 <= i < list.len() ==> decoded_from(#[trigger] json_elems(v)[i], list[i])
}

/// Whether `data` parses as a JSON array of well-formed responses.
pub open spec fn batch_data_decodes(data: Seq<u8>) -> bool {
    &&& parsed_json(data) matches Some(v)
    &&& json_is_array(v)
    &&& forall|i: int|
        0 <= i < json_elems(v).len() ==> value_shape(#[trigger] json_elems(v)[i]) || error_shape(
            json_elems(v)[i],
        )
}

/// Decodes one batch response buffer as a JSON array of responses, in
/// order. Bytes that are not such an array are rejected as a whole.
pub fn decode_batch_data(data: &Vec<u8>) -> (r: Result<
    Vec<JsonRpcResult<serde_json::Value>>,
    AlienError,
>)
    ensures
        r is Ok <==> batch_data_decodes(data@),
        r matches Ok(list) ==> batch_decoded(data@, list@),
        r matches Err(e) ==> e matches AlienError::ResponseError { msg } && msg@
            == "invalid JSON-RPC response"@,
{
    let parsed = match parse_json(data.as_slice()) {
        Some(p) => p,
        None => {
            return Err(AlienError::ResponseError { msg: "invalid JSON-RPC response".to_owned() });
        },
    };
    let elems = match value_into_array(parsed) {
        Ok(arr) => arr,
        Err(_) => {
            return Err(AlienError::ResponseError { msg: "invalid JSON-RPC response".to_owned() });
        },
    };
    let ghost gv = parsed_json(data@)->Some_0;
    let n = elems.len();
    let mut results: Vec<JsonRpcResult<serde_json::Value>> = Vec::new();
    let mut i: usize = 0;
    while i < n
        invariant
            n == elems@.len(),
            parsed_json(data@) == Some(gv),
            json_is_array(gv),
            elems@ == json_elems(gv),
            i <= n,
            results@.len() == i,
            forall|j: int| 0 <= j < i ==> decoded_from(#[trigger] json_elems(gv)[j], results@[j]),
        decreases n - i,
    {
        match decode_result_value(&elems[i]) {
            Some(res) => {
                results.push(res);
            },
            None => {
                proof {
                    assert(!(value_shape(json_elems(gv)[i as int]) || error_shape(
                        json_elems(gv)[i as int],
                    )));
                    assert(!batch_data_decodes(data@));
                }
                return Err(
                    AlienError::ResponseError { msg: "invalid JSON-RPC response".to_owned() },
                );
            },
        }
        i = i + 1;
    }
    Ok(results)
}

/// Decodes what the transport returned for one batch call. A transport
/// that returns no buffer at all for a non-empty batch is an error, never
/// an empty result list; with at least one buffer, the first buffer is
/// the batch response.
pub fn decode_batch_response(buffers: &Vec<Vec<u8>>) -> (r: Result<
    Vec<JsonRpcResult<serde_json::Value>>,
    AlienError,
>)
    ensures
        buffers@.len() == 0 ==> (r matches Err(AlienError::ResponseError { msg }) && msg@
            == "No result"@),
        buffers@.len() > 0 ==> {
            &&& r is Ok <==> batch_data_decodes(buffers@[0]@)
            &&& r matches Ok(list) ==> batch_decoded(buffers@[0]@, list@)
        },
{
    if buffers.len() == 0 {
        return Err(AlienError::ResponseError { msg: "No result".to_owned() });
    }
    decode_batch_data(&buffers[0])
}

/// The correlation id a decoded response carries, in either shape.
pub open spec fn result_id<T>(r: JsonRpcResult<T>) -> u64 {
    match r {
        JsonRpcResult::Value(v) => v.id,
        JsonRpcResult::Error(e) => e.id,
    }
}

impl<T> JsonRpcResult<T> {
    /// The correlation id of this response.
    pub fn id(&self) -> (r: u64)
        ensures
            r == result_id(*self),
    {
        match self {
            JsonRpcResult::Value(v) => v.id,
            JsonRpcResult::Error(e) => e.id,
        }
    }
}

/// Whether the responses stand in non-decreasing id order.
pub open spec fn sorted_by_id(s: Seq<JsonRpcResult<serde_json::Value>>) -> bool {
    forall|i: int, j: int| 0 <= i < j < s.len() ==> result_id(s[i]) <= result_id(s[j])
}

/// Reorders decoded batch responses by their id, keeping exactly the
/// same responses. The protocol assigns batch ids by position, so this
/// restores the position-matches-request invariant even when a transport
/// returns the batch out of order.
#[verifier::loop_isolation(false)]
pub fn sort_results_by_id(results: Vec<JsonRpcResult<serde_json::Value>>) -> (r: Vec<
    JsonRpcResult<serde_json::Value>,
>)
    ensures
        sorted_by_id(r@),
        r@.to_multiset() == results@.to_multiset(),
        r@.len() == results@.len(),
{
    broadcast use vstd::seq_lib::group_to_multiset_ensures;
    broadcast use vstd::multiset::group_multiset_axioms;

    let ghost orig = results@;
    let total = results.len();
    let mut rest = results;
    let mut out: Vec<JsonRpcResult<serde_json::Value>> = Vec::new();
    let mut taken: usize = 0;
    while taken < total
        invariant
            total == orig.len(),
            taken <= total,
            rest@ == orig.subrange(taken as int, total as int),
            out@.len() == taken,
            sorted_by_id(out@),
            out@.to_multiset().add(rest@.to_multiset()) == orig.to_multiset(),
        decreases total - taken,
    {
        let ghost rest0 = rest@;
        let x = rest.remove(0);
        proof {
            assert(rest@ =~= orig.subrange(taken + 1, total as int));
            assert(rest@ =~= rest0.remove(0));
            assert(rest@.to_multiset() =~= rest0.to_multiset().remove(rest0[0]));
        }
        let id = x.id();
        let m = out.len();
        let mut pos: usize = 0;
        while pos < m && out[pos].id() <= id
            invariant
                m == out@.len(),
                pos <= m,
                forall|k: int| 0 <= k < pos ==> result_id(#[trigger] out@[k]) <= id,
            decreases m - pos,
        {
            pos = pos + 1;
        }
        let ghost o = out@;
        out.insert(pos, x);
        proof {
            o.insert_ensures(pos as int, x);
            assert forall|a: int, b: int|
                0 <= a < b < out@.len() implies result_id(out@[a]) <= result_id(out@[b]) by {
                if b < pos {
                } else if a < pos && b == pos {
                    assert(result_id(o[a]) <= id);
                } else if a < pos && b > pos {
                    assert(out@[b] == o[b - 1]);
                } else if a == pos {
                    assert(result_id(o[b - 1]) >= result_id(o[pos as int]));
                } else {
                }
            }
            assert(sorted_by_id(out@));
            let a = o.subrange(0, pos as int);
            let b = o.subrange(pos as int, o.len() as int);
            assert(out@ == a.push(x) + b);
            vstd::seq_lib::lemma_multiset_commutative(a.push(x), b);
            vstd::seq_lib::lemma_multiset_commutative(a, b);
            assert(a + b =~= o);
            assert(a.push(x).to_multiset() =~= a.to_multiset().insert(x));
            assert(out@.to_multiset() =~= o.to_multiset().insert(x));
            assert(out@.to_multiset().add(rest@.to_multiset()) =~= orig.to_multiset());
        }
        taken = taken + 1;
    }
    proof {
        assert(rest@ =~= Seq::<JsonRpcResult<serde_json::Value>>::empty());
        assert(rest@.to_multiset() =~= Multiset::<JsonRpcResult<serde_json::Value>>::empty());
        assert(out@.to_multiset() =~= orig.to_multiset());
    }
    out
}

/// The protocol client: a shared transport capability bound to one
/// endpoint. It owns no per-call state; every operation is one stateless
/// request/response exchange.
pub struct JsonRpcClient<P: AlienProvider> {
    provider: P,
    endpoint: String,
}

impl<P: AlienProvider> JsonRpcClient<P> {
    /// The endpoint this client sends every call to.
    pub closed spec fn spec_endpoint(self) -> Seq<char> {
        self.endpoint@
    }

    /// A client bound to a fixed endpoint.
    pub fn new(provider: P, endpoint: String) -> (r: Self)
        ensures
            r.spec_endpoint() == endpoint@,
    {
        JsonRpcClient { provider, endpoint }
    }

    /// A client whose endpoint is resolved through the transport's
    /// chain-routing capability; fails when the chain has no configured
    /// endpoint.
    pub fn new_with_chain(provider: P, chain: Chain) -> (r: Result<Self, AlienError>) {
        let endpoint = match provider.get_endpoint(chain) {
            Ok(e) => e,
            Err(e) => {
                return Err(e);
            },
        };
        Ok(Self::new(provider, endpoint))
    }

    /// One call with no cache hint.
    pub fn call<T: JsonRpcRequestConvert>(&self, call: &T) -> (r: Result<
        JsonRpcResult<serde_json::Value>,
        JsonRpcError,
    >)
        ensures
            r matches Ok(res) ==> exists|data: Seq<u8>|
                (#[trigger] parsed_json(data)) matches Some(v) && decoded_from(v, res),
    {
        self.call_with_cache(call, None)
    }

    /// One call under id 1: the envelope is framed, sent through the
    /// transport with the given cache hint, and the returned bytes are
    /// decoded as either response shape. Whatever the transport returns,
    /// a success is always the faithful decoding of some response buffer.
    pub fn call_with_cache<T: JsonRpcRequestConvert>(&self, call: &T, ttl: Option<u64>) -> (r:
        Result<JsonRpcResult<serde_json::Value>, JsonRpcError>)
        ensures
            r matches Ok(res) ==> exists|data: Seq<u8>|
                (#[trigger] parsed_json(data)) matches Some(v) && decoded_from(v, res),
    {
        let request = call.to_req(1);
        let target = match request.to_target(self.endpoint.as_str()) {
            Ok(t) => t,
            Err(e) => {
                return Err(JsonRpcError::from(e));
            },
        };
        let target = match ttl {
            Some(t) => target.set_cache_ttl(t),
            None => target,
        };
        let data = match self.provider.request(target) {
            Ok(d) => d,
            Err(e) => {
                return Err(JsonRpcError::from(e));
            },
        };
        match decode_response(&data) {
            Some(res) => {
                proof {
                    let v = parsed_json(data@)->Some_0;
                    assert(parsed_json(data@) matches Some(w) && decoded_from(w, res));
                }
                Ok(res)
            },
            None => Err(
                JsonRpcError::from(
                    AlienError::ResponseError { msg: "invalid JSON-RPC response".to_owned() },
                ),
            ),
        }
    }

    /// One call built from a method name and an already-serialized params
    /// value, normalized into positional form by [`params_from_value`].
    pub fn call_method_with_param(
        &self,
        method: &str,
        params: serde_json::Value,
        ttl: Option<u64>,
    ) -> (r: Result<JsonRpcResult<serde_json::Value>, AlienError>)
        ensures
            r matches Ok(res) ==> exists|data: Seq<u8>|
                (#[trigger] parsed_json(data)) matches Some(v) && decoded_from(v, res),
    {
        let params_array = params_from_value(params);
        let request = JsonRpcRequest::new(1, method, params_array);
        let target = match request.to_target(self.endpoint.as_str()) {
            Ok(t) => t,
            Err(e) => {
                return Err(e);
            },
        };
        let target = match ttl {
            Some(t) => target.set_cache_ttl(t),
            None => target,
        };
        let data = match self.provider.request(target) {
            Ok(d) => d,
            Err(e) => {
                return Err(e);
            },
        };
        match decode_response(&data) {
            Some(res) => {
                proof {
                    assert(parsed_json(data@) matches Some(w) && decoded_from(w, res));
                }
                Ok(res)
            },
            None => Err(AlienError::ResponseError { msg: "invalid JSON-RPC response".to_owned() }),
        }
    }

    /// One batch call: ids `1..=N` are assigned in input order, the whole
    /// batch is serialized as one JSON array body and sent as a single
    /// batch-execute request, and the single returned buffer is decoded
    /// as an array of responses. The decoded responses are re-sorted by
    /// their id before they are returned, so position matches request
    /// even when the transport returns the batch out of order.
    pub fn batch_call<T: JsonRpcRequestConvert>(&self, calls: &Vec<T>) -> (r: Result<
        Vec<JsonRpcResult<serde_json::Value>>,
        AlienError,
    >)
        ensures
            r matches Ok(list) ==> sorted_by_id(list@) && (exists|
                data: Seq<u8>,
                raw: Seq<JsonRpcResult<serde_json::Value>>,
            |
                #[trigger] batch_decoded(data, raw) && list@.to_multiset() == raw.to_multiset()),
    {
        let requests = batch_requests(calls);
        let target = batch_into_target(&requests, self.endpoint.as_str());
        let mut targets: Vec<AlienTarget> = Vec::new();
        targets.push(target);
        let data_array = match self.provider.batch_request(targets) {
            Ok(d) => d,
            Err(e) => {
                return Err(e);
            },
        };
        let decoded = match decode_batch_response(&data_array) {
            Ok(list) => list,
            Err(e) => {
                return Err(e);
            },
        };
        proof {
            assert(data_array@.len() > 0);
            assert(batch_decoded(data_array@[0]@, decoded@));
        }
        let ghost raw = decoded@;
        let sorted = sort_results_by_id(decoded);
        proof {
            assert(batch_decoded(data_array@[0]@, raw) && sorted@.to_multiset()
                == raw.to_multiset());
        }
        Ok(sorted)
    }
}

} // verus!
