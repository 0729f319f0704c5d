use brainfork::{
    AccessLevel, Counter, RuntimeProduct, RuntimeSnapshot, ServerCounts, handle_api_status,
    handle_interpretation, handle_limits, product_to_response,
};

fn sample_product() -> RuntimeProduct {
    RuntimeProduct {
        snapshots: vec![
            RuntimeSnapshot {
                memory: vec![1, 2],
                memory_pointer: 0,
                instruction_pointer: 3,
                input_pointer: 0,
                output: vec![],
                is_error: false,
                message: None,
            },
            RuntimeSnapshot {
                memory: vec![0],
                memory_pointer: 1,
                instruction_pointer: 9,
                input_pointer: 2,
                output: vec![104],
                is_error: true,
                message: Some(String::from("runtime exceeded execution limit")),
            },
        ],
        output: vec![104, 105],
        executions: 42,
        time: 1234,
    }
}

#[test]
fn product_serializes_exactly() {
    let response = product_to_response(&sample_product());
    let text = String::from_utf8(response).unwrap();
    let expected = "{\"snapshots\":[{\"memory\":[1,2],\"memory_pointer\":0,\"instruction_pointer\":3,\"input_pointer\":0,\"output\":[],\"is_error\":false,\"message\":null},{\"memory\":[0],\"memory_pointer\":1,\"instruction_pointer\":9,\"input_pointer\":2,\"output\":[104],\"is_error\":true,\"message\":\"runtime exceeded execution limit\"}],\"output\":[104,105],\"executions\":42,\"time\":1234}";
    assert_eq!(text, expected);
}

#[test]
fn product_serialization_is_valid_json() {
    let response = product_to_response(&sample_product());
    let text = String::from_utf8(response).unwrap();
    let value: serde_json::Value = serde_json::from_str(&text).unwrap();
    assert_eq!(value["executions"], serde_json::Value::from(42u64));
    assert_eq!(value["time"], serde_json::Value::from(1234u64));
    assert_eq!(value["output"][0], serde_json::Value::from(104u64));
    assert_eq!(value["output"][1], serde_json::Value::from(105u64));
    let snapshots = value["snapshots"].as_array().unwrap();
    assert_eq!(snapshots.len(), 2);
    assert_eq!(snapshots[0]["is_error"], serde_json::Value::Bool(false));
    assert!(snapshots[0]["message"].is_null());
    assert_eq!(snapshots[1]["memory_pointer"], serde_json::Value::from(1u64));
    assert_eq!(
        snapshots[1]["message"].as_str().unwrap(),
        "runtime exceeded execution limit"
    );
}

#[test]
fn message_escaping_round_trips() {
    let tricky = "say \"hi\" \\ twice\nand\ttab\u{1}";
    let product = RuntimeProduct {
        snapshots: vec![RuntimeSnapshot {
            memory: vec![],
            memory_pointer: 0,
            instruction_pointer: 0,
            input_pointer: 0,
            output: vec![],
            is_error: true,
            message: Some(String::from(tricky)),
        }],
        output: vec![],
        executions: 0,
        time: 0,
    };
    let text = String::from_utf8(product_to_response(&product)).unwrap();
    let value: serde_json::Value = serde_json::from_str(&text).unwrap();
    assert_eq!(value["snapshots"][0]["message"].as_str().unwrap(), tricky);
}

#[test]
fn handle_interpretation_serializes_and_meters() {
    let mut counts = ServerCounts::new();
    counts.increment(Counter::Instructions, 8);
    let product = sample_product();
    let response = handle_interpretation(&product, &mut counts);
    let text = String::from_utf8(response.clone()).unwrap();
    assert_eq!(text, String::from_utf8(product_to_response(&product)).unwrap());
    let (requests, instructions, runtime_ns, bytes_returned, status_hits) = counts.snapshot();
    assert_eq!(requests, 1);
    assert_eq!(instructions, 8 + 42);
    assert_eq!(runtime_ns, 1234);
    assert_eq!(bytes_returned, response.len() as u64);
    assert_eq!(status_hits, 0);
}

#[test]
fn interpretation_deltas_sum_over_sequential_calls() {
    let mut counts = ServerCounts::new();
    let product = sample_product();
    let first = handle_interpretation(&product, &mut counts);
    let second = handle_interpretation(&product, &mut counts);
    let (requests, instructions, _, bytes_returned, _) = counts.snapshot();
    assert_eq!(requests, 2);
    assert_eq!(instructions, 42 + 42);
    assert_eq!(bytes_returned, (first.len() + second.len()) as u64);
}

#[test]
fn limits_payload_names_tier_and_ceilings() {
    let response = handle_limits(&AccessLevel::Developer);
    let text = String::from_utf8(response).unwrap();
    assert_eq!(
        text,
        "{\"access_level\":\"Developer\",\"execution_limit\":10000,\"memory_limit\":128000}"
    );
    let value: serde_json::Value = serde_json::from_str(&text).unwrap();
    assert_eq!(value["access_level"].as_str().unwrap(), "Developer");
    assert_eq!(value["execution_limit"], serde_json::Value::from(10000u64));
    assert_eq!(value["memory_limit"], serde_json::Value::from(128000u64));
}

#[test]
fn status_page_renders_counters() {
    let mut counts = ServerCounts::new();
    counts.increment(Counter::RequestsFufilled, 2);
    counts.increment(Counter::Instructions, 750);
    counts.increment(Counter::RuntimeNs, 123456789);
    counts.increment(Counter::BytesReturned, 10);
    let page = String::from_utf8(handle_api_status(&mut counts)).unwrap();
    let expected = "brainfork API status\n\nfufilled 2 requests\nexecuted 750 instructions\nengine runtime: 123.45 ms\nreturned 10 chars\n\nrendered this page 1 times\n";
    assert_eq!(page, expected);
    assert_eq!(counts.snapshot().4, 1);
    let again = String::from_utf8(handle_api_status(&mut counts)).unwrap();
    assert!(again.ends_with("rendered this page 2 times\n"));
}

#[test]
fn status_page_of_fresh_ledger_shows_zeros() {
    let mut counts = ServerCounts::new();
    let page = String::from_utf8(handle_api_status(&mut counts)).unwrap();
    let expected = "brainfork API status\n\nfufilled 0 requests\nexecuted 0 instructions\nengine runtime: 0.00 ms\nreturned 0 chars\n\nrendered this page 1 times\n";
    assert_eq!(page, expected);
}
