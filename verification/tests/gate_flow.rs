use jsight_gate::errors::{ErrorPosition, ValidationError};
use jsight_gate::gate::{
    gate_step, initial_state, normalize_method, GateAction, GateEvent, GateState, ResponseData,
};
use jsight_gate::headers::Header;

fn stub_response() -> ResponseData {
    ResponseData {
        status: 200,
        headers: vec![Header {
            name: "content-type".to_string(),
            value: "application/json".to_string(),
        }],
        body: b"\"OK\"".to_vec(),
    }
}

fn engine_error(title: &str, trace: Vec<&str>) -> ValidationError {
    ValidationError {
        reported_by: "jsight core".to_string(),
        kind: "validation".to_string(),
        code: 1,
        title: title.to_string(),
        detail: String::new(),
        position: ErrorPosition { filepath: None, index: None, line: None, col: None },
        trace: trace.into_iter().map(|s| s.to_string()).collect(),
    }
}

#[test]
fn scenario_both_passes_valid_returns_stub_unchanged() {
    // GET /orders with no body; the engine accepts both passes, so the
    // downstream stub's response comes back unchanged with status 200.
    let state = initial_state();
    assert_eq!(state, GateState::RequestValidating);

    let (state, action) = gate_step(state, GateEvent::RequestChecked(Ok(())));
    assert_eq!(action, GateAction::InvokeDownstream);
    assert_eq!(state, GateState::Forwarding);

    let stub = stub_response();
    let (state, action) = gate_step(state, GateEvent::DownstreamResponded(stub.clone()));
    assert_eq!(action, GateAction::ValidateResponse);
    assert_eq!(state, GateState::ResponseValidating(stub.clone()));

    let (state, action) = gate_step(state, GateEvent::ResponseChecked(Ok(())));
    assert_eq!(action, GateAction::Respond);
    match state {
        GateState::Completed(out) => {
            assert_eq!(out.status, 200);
            assert_eq!(out.body, b"\"OK\"".to_vec());
            assert_eq!(out, stub);
        },
        other => panic!("expected a completed response, got {:?}", other),
    }
}

#[test]
fn scenario_request_rejection_gives_400_with_diagnostic_body() {
    // POST /orders whose body the engine flags: the rejection carries the
    // engine's title and the three-element trace in order, and the final
    // status is 400.
    let err = engine_error("schema mismatch", vec!["root", "orders", "price"]);
    let state = initial_state();

    let (state, action) = gate_step(state, GateEvent::RequestChecked(Err(err.clone())));
    assert_eq!(state, GateState::Rejecting(400));
    match &action {
        GateAction::SerializeError(e) => {
            assert_eq!(e.title, "schema mismatch");
            assert_eq!(e.trace, vec!["root", "orders", "price"]);
        },
        other => panic!("expected a serialization request, got {:?}", other),
    }

    // The fake engine renders the diagnostic; the body returned to the
    // client is exactly that rendering.
    let rendered = "{\"title\":\"schema mismatch\",\"trace\":[\"root\",\"orders\",\"price\"]}";
    let (state, action) = gate_step(state, GateEvent::ErrorSerialized(rendered.to_string()));
    assert_eq!(action, GateAction::Respond);
    match state {
        GateState::Rejected(out) => {
            assert_eq!(out.status, 400);
            assert!(out.headers.is_empty());
            let body = String::from_utf8(out.body).unwrap();
            assert_eq!(body, rendered);
            assert!(body.contains("schema mismatch"));
            let r = body.find("root").unwrap();
            let o = body.find("orders").unwrap();
            let p = body.find("price").unwrap();
            assert!(r < o && o < p);
        },
        other => panic!("expected a rejection, got {:?}", other),
    }
}

#[test]
fn scenario_response_rejection_gives_500() {
    // The request validates, but the downstream response fails its pass
    // with an empty trace and a fully absent position: final status 500.
    let state = initial_state();
    let (state, _) = gate_step(state, GateEvent::RequestChecked(Ok(())));
    let (state, _) = gate_step(state, GateEvent::DownstreamResponded(stub_response()));

    let err = engine_error("response violates contract", vec![]);
    assert!(err.trace.is_empty());
    let (state, action) = gate_step(state, GateEvent::ResponseChecked(Err(err.clone())));
    assert_eq!(state, GateState::Rejecting(500));
    match &action {
        GateAction::SerializeError(e) => {
            assert!(e.trace.is_empty());
            assert!(e.position.filepath.is_none());
            assert!(e.position.index.is_none());
            assert!(e.position.line.is_none());
            assert!(e.position.col.is_none());
        },
        other => panic!("expected a serialization request, got {:?}", other),
    }

    let (state, _) = gate_step(state, GateEvent::ErrorSerialized("{}".to_string()));
    match state {
        GateState::Rejected(out) => assert_eq!(out.status, 500),
        other => panic!("expected a rejection, got {:?}", other),
    }
}

#[test]
fn failed_request_pass_never_invokes_downstream() {
    // Short-circuit ordering: after a failed request pass the machine asks
    // for serialization, not for the downstream handler, and ends at 400.
    let err = engine_error("bad request", vec![]);
    let (state, action) = gate_step(initial_state(), GateEvent::RequestChecked(Err(err)));
    assert!(!matches!(action, GateAction::InvokeDownstream));
    assert!(matches!(action, GateAction::SerializeError(_)));
    assert_eq!(state, GateState::Rejecting(400));
}

#[test]
fn normalize_method_keeps_modeled_tokens() {
    assert_eq!(normalize_method("GET"), "GET");
    assert_eq!(normalize_method("POST"), "POST");
    assert_eq!(normalize_method("PUT"), "PUT");
    assert_eq!(normalize_method("PATCH"), "PATCH");
    assert_eq!(normalize_method("DELETE"), "DELETE");
}

#[test]
fn normalize_method_degrades_unmodeled_tokens() {
    assert_eq!(normalize_method("BREW"), "UNKNOWN");
    assert_eq!(normalize_method("get"), "UNKNOWN");
    assert_eq!(normalize_method(""), "UNKNOWN");
}
