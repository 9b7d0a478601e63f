use chromex_native::codec::{decode_metadata, decode_update_metadata, decode_where,
    encode_metadata, decode_metadata_batch};
use chromex_native::errors::BindError;
use chromex_native::filter::{CompareOp, WhereClause};
use chromex_native::metadata::{Metadata, MetadataValue, UpdateMetadataValue};
use chromex_native::numtext::{is_json_number_x, parse_int_text_x};
use chromex_native::selection::decode_selection;

fn md(text: &str) -> Metadata {
    decode_metadata(text).expect("metadata should decode")
}

#[test]
fn metadata_scalars_decode() {
    let m = md("{\"a\":1,\"b\":true,\"pi\":3.5,\"s\":\"x\"}");
    assert_eq!(m.pairs.len(), 4);
    assert_eq!(m.pairs[0], ("a".to_string(), MetadataValue::Int(1)));
    assert_eq!(m.pairs[1], ("b".to_string(), MetadataValue::Bool(true)));
    assert_eq!(m.pairs[2], ("pi".to_string(), MetadataValue::Float("3.5".to_string())));
    assert_eq!(m.pairs[3], ("s".to_string(), MetadataValue::Str("x".to_string())));
}

#[test]
fn metadata_round_trips_to_equivalent_mapping() {
    let first = md("{\"count\":42,\"ratio\":0.25,\"name\":\"n\",\"flag\":false,\"neg\":-7}");
    let text = encode_metadata(&first);
    let second = md(&text);
    assert_eq!(first, second);
}

#[test]
fn metadata_float_text_survives_encode_exactly() {
    let m = md("{\"x\":1.50}");
    assert_eq!(m.pairs[0].1, MetadataValue::Float("1.50".to_string()));
    assert_eq!(encode_metadata(&m), "{\"x\":1.50}");
}

#[test]
fn metadata_int_encode_exact_text() {
    let m = md("{\"a\":1,\"b\":\"x\"}");
    assert_eq!(encode_metadata(&m), "{\"a\":1,\"b\":\"x\"}");
}

#[test]
fn metadata_huge_integer_becomes_float_text() {
    let m = md("{\"n\":99999999999999999999}");
    assert_eq!(m.pairs[0].1, MetadataValue::Float("99999999999999999999".to_string()));
}

#[test]
fn metadata_negative_zero_is_integer_zero() {
    let m = md("{\"n\":-0}");
    assert_eq!(m.pairs[0].1, MetadataValue::Int(0));
}

#[test]
fn metadata_extreme_i64_bounds_decode_as_integers() {
    let m = md("{\"lo\":-9223372036854775808,\"hi\":9223372036854775807}");
    assert_eq!(m.pairs[0], ("hi".to_string(), MetadataValue::Int(i64::MAX)));
    assert_eq!(m.pairs[1], ("lo".to_string(), MetadataValue::Int(i64::MIN)));
    let just_over = md("{\"n\":9223372036854775808}");
    assert_eq!(just_over.pairs[0].1, MetadataValue::Float("9223372036854775808".to_string()));
}

#[test]
fn metadata_rejects_non_scalar_leaves() {
    assert!(matches!(decode_metadata("{\"a\":[1]}"), Err(BindError::MalformedMetadata(_))));
    assert!(matches!(decode_metadata("{\"a\":{\"b\":1}}"), Err(BindError::MalformedMetadata(_))));
    assert!(matches!(decode_metadata("{\"a\":null}"), Err(BindError::MalformedMetadata(_))));
    assert!(matches!(decode_metadata("[1,2]"), Err(BindError::MalformedMetadata(_))));
    assert!(matches!(decode_metadata("not json"), Err(BindError::MalformedMetadata(_))));
}

#[test]
fn update_metadata_null_means_unset() {
    let m = decode_update_metadata("{\"keep\":1,\"drop\":null}").unwrap();
    assert_eq!(m.pairs[0].1, UpdateMetadataValue::Unset);
    assert_eq!(m.pairs[1].1, UpdateMetadataValue::Int(1));
}

#[test]
fn metadata_batch_decodes_entrywise() {
    let texts = vec![None, Some("{\"a\":1}".to_string())];
    let batch = decode_metadata_batch(&texts).unwrap();
    assert_eq!(batch.len(), 2);
    assert!(batch[0].is_none());
    assert_eq!(batch[1].as_ref().unwrap().pairs[0].1, MetadataValue::Int(1));
    let bad = vec![Some("{\"a\":".to_string())];
    assert!(matches!(decode_metadata_batch(&bad), Err(BindError::MalformedMetadata(_))));
}

#[test]
fn where_empty_and_empty_object_mean_no_filter() {
    assert!(decode_where("").unwrap().is_none());
    assert!(decode_where("{}").unwrap().is_none());
}

#[test]
fn where_bare_scalar_is_equality() {
    let w = decode_where("{\"color\":\"red\"}").unwrap().unwrap();
    match w {
        WhereClause::Compare(f, op, v) => {
            assert_eq!(f, "color");
            assert_eq!(op, CompareOp::Eq);
            assert_eq!(v, MetadataValue::Str("red".to_string()));
        },
        other => panic!("unexpected clause: {:?}", other),
    }
}

#[test]
fn where_comparison_operators_decode() {
    let w = decode_where("{\"n\":{\"$gt\":5}}").unwrap().unwrap();
    assert!(matches!(w, WhereClause::Compare(_, CompareOp::Gt, MetadataValue::Int(5))));
    let w = decode_where("{\"n\":{\"$lte\":2.5}}").unwrap().unwrap();
    assert!(matches!(w, WhereClause::Compare(_, CompareOp::Lte, MetadataValue::Float(_))));
}

#[test]
fn where_membership_decodes() {
    let w = decode_where("{\"tag\":{\"$in\":[\"x\",\"y\"]}}").unwrap().unwrap();
    match w {
        WhereClause::Within(f, vs) => {
            assert_eq!(f, "tag");
            assert_eq!(vs.len(), 2);
            assert_eq!(vs[0], MetadataValue::Str("x".to_string()));
        },
        other => panic!("unexpected clause: {:?}", other),
    }
    let w = decode_where("{\"tag\":{\"$nin\":[1]}}").unwrap().unwrap();
    assert!(matches!(w, WhereClause::Without(_, _)));
}

#[test]
fn where_combinators_decode() {
    let w = decode_where("{\"$and\":[{\"a\":1},{\"b\":2}]}").unwrap().unwrap();
    match w {
        WhereClause::And(subs) => assert_eq!(subs.len(), 2),
        other => panic!("unexpected clause: {:?}", other),
    }
    let w = decode_where("{\"$or\":[{\"a\":1}]}").unwrap().unwrap();
    assert!(matches!(w, WhereClause::Or(_)));
    let w = decode_where("{\"$contains\":\"word\"}").unwrap().unwrap();
    assert!(matches!(w, WhereClause::DocContains(_)));
}

#[test]
fn where_unknown_operator_is_rejected() {
    assert!(matches!(
        decode_where("{\"n\":{\"$between\":5}}"),
        Err(BindError::MalformedFilter(_))
    ));
    assert!(matches!(decode_where("{\"$weird\":1}"), Err(BindError::MalformedFilter(_))));
}

#[test]
fn where_malformed_shapes_are_rejected() {
    assert!(matches!(decode_where("{\"a\":1,\"b\":2}"), Err(BindError::MalformedFilter(_))));
    assert!(matches!(decode_where("not json"), Err(BindError::MalformedFilter(_))));
    assert!(matches!(decode_where("{\"a\":[1]}"), Err(BindError::MalformedFilter(_))));
    assert!(matches!(decode_where("{\"$and\":1}"), Err(BindError::MalformedFilter(_))));
}

#[test]
fn selection_recognizes_tokens_and_drops_unknown_ones() {
    let tokens = vec![
        "documents".to_string(),
        "unknown".to_string(),
        "distances".to_string(),
    ];
    let s = decode_selection(&tokens);
    assert!(s.document);
    assert!(s.distance);
    assert!(!s.embedding);
    assert!(!s.metadata);
    assert!(!s.uri);
    let none = decode_selection(&Vec::new());
    assert!(!none.document && !none.embedding && !none.metadata && !none.distance && !none.uri);
}

#[test]
fn json_number_grammar() {
    assert!(is_json_number_x("0"));
    assert!(is_json_number_x("-12"));
    assert!(is_json_number_x("1.5"));
    assert!(is_json_number_x("1e5"));
    assert!(is_json_number_x("1.25E-3"));
    assert!(!is_json_number_x("01"));
    assert!(!is_json_number_x("1."));
    assert!(!is_json_number_x("-"));
    assert!(!is_json_number_x("1e+"));
    assert!(!is_json_number_x(""));
    assert!(!is_json_number_x("nan"));
}

#[test]
fn integer_text_parsing() {
    assert_eq!(parse_int_text_x("0"), Some(0));
    assert_eq!(parse_int_text_x("-42"), Some(-42));
    assert_eq!(parse_int_text_x("9223372036854775807"), Some(i64::MAX));
    assert_eq!(parse_int_text_x("-9223372036854775808"), Some(i64::MIN));
    assert_eq!(parse_int_text_x("9223372036854775808"), None);
    assert_eq!(parse_int_text_x("-9223372036854775809"), None);
    assert_eq!(parse_int_text_x("007"), None);
    assert_eq!(parse_int_text_x("1.5"), None);
    assert_eq!(parse_int_text_x(""), None);
}
