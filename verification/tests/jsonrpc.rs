use gemstone::chain::Chain;
use gemstone::jsonrpc::{
    batch_into_target, batch_requests, decode_batch_response, decode_response, params_from_value,
    JsonRpcClient, JsonRpcError, JsonRpcErrorResponse, JsonRpcRequest, JsonRpcResponse,
    JsonRpcResult,
};
use gemstone::target::{AlienError, AlienHttpMethod, AlienProvider, AlienTarget};

#[test]
fn test_batch_into_target() {
    let requests = vec![
        JsonRpcRequest::new(1, "eth_gasPrice", vec![]),
        JsonRpcRequest::new(
            2,
            "eth_blockNumber",
            vec!["0x95222290DD7278Aa3Ddd389Cc1E1d165CC4BAfe5".into(), "latest".into()],
        ),
        JsonRpcRequest::new(3, "eth_chainId", vec![]),
    ];
    let endpoint = "http://localhost:8080";
    let target = batch_into_target(&requests, endpoint);

    assert_eq!(target.url, endpoint);
    assert_eq!(target.method, AlienHttpMethod::Post);
    let headers = target.headers.unwrap();
    assert_eq!(headers.len(), 1);
    assert_eq!(headers[0].0, "Content-Type");
    assert_eq!(headers[0].1, "application/json");
    assert_eq!(
        String::from_utf8(target.body.unwrap()).unwrap(),
        r#"[{"jsonrpc":"2.0","id":1,"method":"eth_gasPrice","params":[]},{"jsonrpc":"2.0","id":2,"method":"eth_blockNumber","params":["0x95222290DD7278Aa3Ddd389Cc1E1d165CC4BAfe5","latest"]},{"jsonrpc":"2.0","id":3,"method":"eth_chainId","params":[]}]"#
    );
}

#[test]
fn test_decode_json_rpc_error_response() {
    let json = r#"{
            "jsonrpc": "2.0",
            "id": 1,
            "error": {
                "code": 3,
                "message": "execution reverted: revert: toAddress_outOfBounds"
            }
        }"#;
    let result = decode_response(&json.as_bytes().to_vec()).unwrap();
    if let JsonRpcResult::Error(value) = result {
        assert_eq!(value.id, 1);
        assert_eq!(value.error.code, 3);
        assert_eq!(value.error.message, "execution reverted: revert: toAddress_outOfBounds");
    } else {
        panic!("unexpected response: {:?}", result);
    }
}

#[test]
fn test_decode_json_rpc_response() {
    let json = r#"{
            "jsonrpc": "2.0",
            "id": 1,
            "result": "0x21e3bb1a6"
        }"#;
    let result = decode_response(&json.as_bytes().to_vec()).unwrap();
    if let JsonRpcResult::Value(value) = result {
        assert_eq!(value.id, 1);
        assert_eq!(value.result.as_str(), Some("0x21e3bb1a6"));
    } else {
        panic!("unexpected response: {:?}", result);
    }
}

#[test]
fn single_request_target_exact_body() {
    let req = JsonRpcRequest::new(1, "eth_gasPrice", vec![]);
    let target = req.to_target("http://localhost:8080").unwrap();
    assert_eq!(target.method, AlienHttpMethod::Post);
    assert_eq!(target.cache_ttl, None);
    assert_eq!(
        String::from_utf8(target.body.unwrap()).unwrap(),
        r#"{"jsonrpc":"2.0","id":1,"method":"eth_gasPrice","params":[]}"#
    );
}

#[test]
fn method_name_is_escaped() {
    let req = JsonRpcRequest::new(1, "a\"b\\c\n", vec![]);
    let target = req.to_target("http://localhost").unwrap();
    assert_eq!(
        String::from_utf8(target.body.unwrap()).unwrap(),
        "{\"jsonrpc\":\"2.0\",\"id\":1,\"method\":\"a\\\"b\\\\c\\n\",\"params\":[]}"
    );
}

#[test]
fn set_cache_ttl_keeps_the_rest() {
    let req = JsonRpcRequest::new(1, "m", vec![]);
    let target = req.to_target("http://h").unwrap().set_cache_ttl(60);
    assert_eq!(target.cache_ttl, Some(60));
    assert_eq!(target.url, "http://h");
}

#[test]
fn params_array_is_used_verbatim() {
    let v = serde_json::Value::Array(vec![
        serde_json::Value::from("a"),
        serde_json::Value::from(7),
    ]);
    let params = params_from_value(v.clone());
    assert_eq!(params, vec![serde_json::Value::from("a"), serde_json::Value::from(7)]);
    let req = JsonRpcRequest::new(1, "m", params);
    let target = req.to_target("http://h").unwrap();
    assert_eq!(
        String::from_utf8(target.body.unwrap()).unwrap(),
        r#"{"jsonrpc":"2.0","id":1,"method":"m","params":["a",7]}"#
    );
}

#[test]
fn params_single_value_is_wrapped() {
    let mut obj = serde_json::Map::new();
    obj.insert("key".to_string(), serde_json::Value::from("value"));
    let v = serde_json::Value::Object(obj);
    let params = params_from_value(v.clone());
    assert_eq!(params, vec![v]);
    let req = JsonRpcRequest::new(1, "m", params);
    let target = req.to_target("http://h").unwrap();
    assert_eq!(
        String::from_utf8(target.body.unwrap()).unwrap(),
        r#"{"jsonrpc":"2.0","id":1,"method":"m","params":[{"key":"value"}]}"#
    );
}

#[test]
fn batch_ids_are_positional_from_one() {
    let calls = vec![
        JsonRpcRequest::new(9, "first", vec![]),
        JsonRpcRequest::new(9, "second", vec![]),
        JsonRpcRequest::new(0, "third", vec![]),
    ];
    let requests = batch_requests(&calls);
    assert_eq!(requests.len(), 3);
    assert_eq!(requests[0].id, 1);
    assert_eq!(requests[1].id, 2);
    assert_eq!(requests[2].id, 3);
    assert_eq!(requests[0].method, "first");
    assert_eq!(requests[1].method, "second");
    assert_eq!(requests[2].method, "third");
}

#[test]
fn take_value_variant_returns_payload() {
    let v: JsonRpcResult<String> =
        JsonRpcResult::Value(JsonRpcResponse { id: 1, result: "0x21e3bb1a6".to_string() });
    assert_eq!(v.take().unwrap(), "0x21e3bb1a6");
}

#[test]
fn take_error_variant_returns_error() {
    let e: JsonRpcResult<String> = JsonRpcResult::Error(JsonRpcErrorResponse {
        id: 1,
        error: JsonRpcError { code: 3, message: "revert".to_string() },
    });
    let err = e.take().unwrap_err();
    assert_eq!(err.code, 3);
    assert_eq!(err.message, "revert");
}

#[test]
fn error_to_text_shows_message_and_code() {
    let err = JsonRpcError { code: -32000, message: "oops".to_string() };
    assert_eq!(err.to_text(), "oops (-32000)");
}

#[test]
fn decode_rejects_neither_shape() {
    assert!(decode_response(&br#"{"id":1}"#.to_vec()).is_none());
    assert!(decode_response(&br#"{"result":"x"}"#.to_vec()).is_none());
    assert!(decode_response(&b"not json".to_vec()).is_none());
}

#[test]
fn decode_rejects_code_out_of_range() {
    let json = r#"{"id":1,"error":{"code":3000000000,"message":"x"}}"#;
    assert!(decode_response(&json.as_bytes().to_vec()).is_none());
}

#[test]
fn decode_rejects_fractional_id() {
    let json = r#"{"id":1.5,"result":"x"}"#;
    assert!(decode_response(&json.as_bytes().to_vec()).is_none());
}

#[test]
fn decode_batch_rejects_non_array() {
    let body = br#"{"id":1,"result":"x"}"#;
    match decode_batch_response(&vec![body.to_vec()]) {
        Err(AlienError::ResponseError { msg }) => assert_eq!(msg, "invalid JSON-RPC response"),
        other => panic!("unexpected outcome: {:?}", other),
    }
}

#[test]
fn control_characters_use_unicode_escapes() {
    let req = JsonRpcRequest::new(1, "m\u{1}", vec![]);
    let target = req.to_target("http://h").unwrap();
    assert_eq!(
        String::from_utf8(target.body.unwrap()).unwrap(),
        "{\"jsonrpc\":\"2.0\",\"id\":1,\"method\":\"m\\u0001\",\"params\":[]}"
    );
}

#[test]
fn large_id_renders_in_full() {
    let req = JsonRpcRequest::new(u64::MAX, "m", vec![]);
    let target = req.to_target("http://h").unwrap();
    assert_eq!(
        String::from_utf8(target.body.unwrap()).unwrap(),
        r#"{"jsonrpc":"2.0","id":18446744073709551615,"method":"m","params":[]}"#
    );
}

#[test]
fn decode_batch_empty_buffers_is_no_result() {
    let r = decode_batch_response(&vec![]);
    match r {
        Err(AlienError::ResponseError { msg }) => assert_eq!(msg, "No result"),
        other => panic!("unexpected outcome: {:?}", other),
    }
}

#[test]
fn decode_batch_first_buffer_in_order() {
    let body = br#"[{"id":1,"result":"0x1"},{"id":2,"error":{"code":5,"message":"bad"}}]"#;
    let r = decode_batch_response(&vec![body.to_vec()]).unwrap();
    assert_eq!(r.len(), 2);
    match &r[0] {
        JsonRpcResult::Value(v) => {
            assert_eq!(v.id, 1);
            assert_eq!(v.result.as_str(), Some("0x1"));
        },
        other => panic!("unexpected response: {:?}", other),
    }
    match &r[1] {
        JsonRpcResult::Error(e) => {
            assert_eq!(e.id, 2);
            assert_eq!(e.error.code, 5);
            assert_eq!(e.error.message, "bad");
        },
        other => panic!("unexpected response: {:?}", other),
    }
}

struct FixedProvider {
    response: &'static str,
    batch_buffers: Vec<&'static str>,
}

impl AlienProvider for FixedProvider {
    fn get_endpoint(&self, _chain: Chain) -> Result<String, AlienError> {
        Ok("http://localhost".to_string())
    }

    fn request(&self, _target: AlienTarget) -> Result<Vec<u8>, AlienError> {
        Ok(self.response.as_bytes().to_vec())
    }

    fn batch_request(&self, _targets: Vec<AlienTarget>) -> Result<Vec<Vec<u8>>, AlienError> {
        Ok(self.batch_buffers.iter().map(|b| b.as_bytes().to_vec()).collect())
    }
}

#[test]
fn client_call_decodes_fixed_response() {
    let provider = FixedProvider { response: r#"{"id":1,"result":"0x21e3bb1a6"}"#, batch_buffers: vec![] };
    let client = JsonRpcClient::new(provider, "http://localhost".to_string());
    let r = client.call(&JsonRpcRequest::new(7, "eth_gasPrice", vec![])).unwrap();
    match r {
        JsonRpcResult::Value(v) => assert_eq!(v.result.as_str(), Some("0x21e3bb1a6")),
        other => panic!("unexpected response: {:?}", other),
    }
}

#[test]
fn client_call_method_with_param_decodes_error() {
    let provider = FixedProvider {
        response: r#"{"id":1,"error":{"code":3,"message":"no"}}"#,
        batch_buffers: vec![],
    };
    let client = JsonRpcClient::new(provider, "http://localhost".to_string());
    let r = client
        .call_method_with_param("eth_call", serde_json::Value::from("latest"), Some(10))
        .unwrap();
    match r {
        JsonRpcResult::Error(e) => {
            assert_eq!(e.error.code, 3);
            assert_eq!(e.error.message, "no");
        },
        other => panic!("unexpected response: {:?}", other),
    }
}

#[test]
fn client_batch_call_empty_transport_fails() {
    let provider = FixedProvider { response: "", batch_buffers: vec![] };
    let client = JsonRpcClient::new(provider, "http://localhost".to_string());
    let calls = vec![JsonRpcRequest::new(1, "eth_gasPrice", vec![])];
    match client.batch_call(&calls) {
        Err(AlienError::ResponseError { msg }) => assert_eq!(msg, "No result"),
        other => panic!("unexpected outcome: {:?}", other),
    }
}

#[test]
fn client_batch_call_decodes_in_order() {
    let provider = FixedProvider {
        response: "",
        batch_buffers: vec![r#"[{"id":1,"result":"0xa"},{"id":2,"result":"0xb"}]"#],
    };
    let client = JsonRpcClient::new(provider, "http://localhost".to_string());
    let calls = vec![
        JsonRpcRequest::new(0, "eth_gasPrice", vec![]),
        JsonRpcRequest::new(0, "eth_blockNumber", vec![]),
    ];
    let results = client.batch_call(&calls).unwrap();
    assert_eq!(results.len(), 2);
    match (&results[0], &results[1]) {
        (JsonRpcResult::Value(a), JsonRpcResult::Value(b)) => {
            assert_eq!(a.id, 1);
            assert_eq!(a.result.as_str(), Some("0xa"));
            assert_eq!(b.id, 2);
            assert_eq!(b.result.as_str(), Some("0xb"));
        },
        other => panic!("unexpected responses: {:?}", other),
    }
}

#[test]
fn client_batch_call_resorts_by_id() {
    let provider = FixedProvider {
        response: "",
        batch_buffers: vec![r#"[{"id":2,"result":"0xb"},{"id":1,"result":"0xa"}]"#],
    };
    let client = JsonRpcClient::new(provider, "http://localhost".to_string());
    let calls = vec![
        JsonRpcRequest::new(0, "eth_gasPrice", vec![]),
        JsonRpcRequest::new(0, "eth_blockNumber", vec![]),
    ];
    let results = client.batch_call(&calls).unwrap();
    assert_eq!(results.len(), 2);
    match (&results[0], &results[1]) {
        (JsonRpcResult::Value(a), JsonRpcResult::Value(b)) => {
            assert_eq!(a.id, 1);
            assert_eq!(a.result.as_str(), Some("0xa"));
            assert_eq!(b.id, 2);
            assert_eq!(b.result.as_str(), Some("0xb"));
        },
        other => panic!("unexpected responses: {:?}", other),
    }
}

struct NoEndpointProvider;

impl AlienProvider for NoEndpointProvider {
    fn get_endpoint(&self, _chain: Chain) -> Result<String, AlienError> {
        Err(AlienError::RequestError { msg: "not configured".to_string() })
    }

    fn request(&self, _target: AlienTarget) -> Result<Vec<u8>, AlienError> {
        Err(AlienError::RequestError { msg: "unreachable".to_string() })
    }

    fn batch_request(&self, _targets: Vec<AlienTarget>) -> Result<Vec<Vec<u8>>, AlienError> {
        Err(AlienError::RequestError { msg: "unreachable".to_string() })
    }
}

#[test]
fn new_with_chain_fails_without_endpoint() {
    match JsonRpcClient::new_with_chain(NoEndpointProvider, Chain::Solana) {
        Err(AlienError::RequestError { msg }) => assert_eq!(msg, "not configured"),
        Ok(_) => panic!("expected a routing failure"),
        Err(other) => panic!("unexpected outcome: {:?}", other),
    }
}

#[test]
fn transport_error_surfaces_as_remote_code() {
    let client = JsonRpcClient::new(NoEndpointProvider, "http://localhost".to_string());
    let r = client.call(&JsonRpcRequest::new(1, "m", vec![]));
    let err = r.unwrap_err();
    assert_eq!(err.code, -1);
    assert_eq!(err.message, "unreachable");
}
