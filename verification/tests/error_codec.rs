use jsight_gate::cerror::{decode_error, encode_error, CErrorPosition, CValidationError};
use jsight_gate::errors::{EncodingError, ErrorPosition, ValidationError};

fn sample_error(position: ErrorPosition, trace: Vec<&str>) -> ValidationError {
    ValidationError {
        reported_by: "jsight core".to_string(),
        kind: "validation".to_string(),
        code: 42,
        title: "schema mismatch".to_string(),
        detail: "value does not match the contract".to_string(),
        position,
        trace: trace.into_iter().map(|s| s.to_string()).collect(),
    }
}

fn full_position() -> ErrorPosition {
    ErrorPosition {
        filepath: Some("my-api-spec.jst".to_string()),
        index: Some(120),
        line: Some(7),
        col: Some(3),
    }
}

fn absent_position() -> ErrorPosition {
    ErrorPosition { filepath: None, index: None, line: None, col: None }
}

#[test]
fn round_trip_full_position_long_trace() {
    let e = sample_error(full_position(), vec!["root", "orders", "price"]);
    let c = encode_error(&e).unwrap();
    let back = decode_error(c).unwrap();
    assert_eq!(back, e);
}

#[test]
fn round_trip_absent_position_empty_trace() {
    let e = sample_error(absent_position(), vec![]);
    let c = encode_error(&e).unwrap();
    let back = decode_error(c).unwrap();
    assert_eq!(back, e);
}

#[test]
fn round_trip_each_position_field_alone() {
    let positions = vec![
        ErrorPosition { filepath: Some("spec".to_string()), index: None, line: None, col: None },
        ErrorPosition { filepath: None, index: Some(1), line: None, col: None },
        ErrorPosition { filepath: None, index: None, line: Some(2), col: None },
        ErrorPosition { filepath: None, index: None, line: None, col: Some(3) },
    ];
    for p in positions {
        let e = sample_error(p, vec!["root"]);
        let c = encode_error(&e).unwrap();
        let back = decode_error(c).unwrap();
        assert_eq!(back, e);
    }
}

#[test]
fn absent_position_encodes_as_fully_omitted() {
    // The chosen encoding: a position with every component missing becomes
    // the null structure, not a present structure of nulls.
    let e = sample_error(absent_position(), vec![]);
    let c = encode_error(&e).unwrap();
    assert!(c.position.is_none());
}

#[test]
fn present_position_keeps_absent_components_null() {
    let e = sample_error(
        ErrorPosition { filepath: None, index: Some(9), line: None, col: None },
        vec![],
    );
    let c = encode_error(&e).unwrap();
    let cp = c.position.unwrap();
    assert!(cp.filepath.is_none());
    assert_eq!(cp.index, Some(9));
    assert!(cp.line.is_none());
    assert!(cp.col.is_none());
}

#[test]
fn encoded_trace_carries_sentinel() {
    let e = sample_error(absent_position(), vec!["root", "orders"]);
    let c = encode_error(&e).unwrap();
    let t = c.trace.unwrap();
    assert_eq!(t.len(), 3);
    assert_eq!(t[0].as_deref(), Some(&b"root\0"[..]));
    assert_eq!(t[1].as_deref(), Some(&b"orders\0"[..]));
    assert!(t[2].is_none());
}

#[test]
fn encode_rejects_nul_in_title() {
    let mut e = sample_error(absent_position(), vec![]);
    e.title = "bad\0title".to_string();
    assert_eq!(encode_error(&e), Err(EncodingError::EmbeddedNul));
}

#[test]
fn encode_rejects_nul_in_trace_entry() {
    let e = sample_error(absent_position(), vec!["fine", "not\0fine"]);
    assert_eq!(encode_error(&e), Err(EncodingError::EmbeddedNul));
}

#[test]
fn decode_null_trace_as_empty() {
    let c = CValidationError {
        reported_by: b"engine\0".to_vec(),
        kind: b"validation\0".to_vec(),
        code: 7,
        title: b"t\0".to_vec(),
        detail: b"d\0".to_vec(),
        position: None,
        trace: None,
    };
    let e = decode_error(c).unwrap();
    assert!(e.trace.is_empty());
    assert_eq!(e.position, absent_position());
}

#[test]
fn decode_honors_each_nullable_position_component() {
    let c = CValidationError {
        reported_by: b"engine\0".to_vec(),
        kind: b"validation\0".to_vec(),
        code: 7,
        title: b"t\0".to_vec(),
        detail: b"d\0".to_vec(),
        position: Some(CErrorPosition {
            filepath: None,
            index: Some(4),
            line: None,
            col: Some(11),
        }),
        trace: Some(vec![None]),
    };
    let e = decode_error(c).unwrap();
    assert_eq!(e.position.filepath, None);
    assert_eq!(e.position.index, Some(4));
    assert_eq!(e.position.line, None);
    assert_eq!(e.position.col, Some(11));
    assert!(e.trace.is_empty());
}

#[test]
fn decode_rejects_invalid_utf8_field() {
    let c = CValidationError {
        reported_by: vec![0xff, 0],
        kind: b"validation\0".to_vec(),
        code: 7,
        title: b"t\0".to_vec(),
        detail: b"d\0".to_vec(),
        position: None,
        trace: None,
    };
    assert_eq!(decode_error(c), Err(EncodingError::InvalidUtf8));
}

#[test]
fn decode_rejects_invalid_utf8_trace_entry() {
    let c = CValidationError {
        reported_by: b"engine\0".to_vec(),
        kind: b"validation\0".to_vec(),
        code: 7,
        title: b"t\0".to_vec(),
        detail: b"d\0".to_vec(),
        position: None,
        trace: Some(vec![Some(b"good\0".to_vec()), Some(vec![0x80, 0]), None]),
    };
    assert_eq!(decode_error(c), Err(EncodingError::InvalidUtf8));
}
