use plec_query_core::lowering::{fetch_decode, fetch_method, LoweringError};

#[test]
fn fetch_methods_are_accepted_by_name() {
    for m in ["GET", "POST", "PUT", "PATCH", "DELETE"] {
        assert_eq!(fetch_method(m), Ok(m));
    }
    assert_eq!(fetch_method("get"), Err(LoweringError("unsupported fetch method".to_string())));
    assert_eq!(fetch_method("OPTIONS").unwrap_err().message(), "unsupported fetch method");
}

#[test]
fn fetch_decoders_are_accepted_by_name() {
    for d in ["json", "responseJson", "text", "empty"] {
        assert_eq!(fetch_decode(d), Ok(d));
    }
    assert_eq!(fetch_decode("xml"), Err(LoweringError("unsupported fetch decoder".to_string())));
}
