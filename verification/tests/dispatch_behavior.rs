use chromex_native::dispatch::{prepare_add, prepare_update, prepare_upsert, prepare_get,
    prepare_query, prepare_delete, prepare_count, prepare_create_collection,
    prepare_update_collection};
use chromex_native::engine::{engine_settings, version, HNSW_CACHE_CAPACITY};
use chromex_native::errors::{BindError, ValidationFault};
use chromex_native::ident::parse_collection_id;
use chromex_native::max_batch_size;
use chromex_native::metadata::MetadataValue;
use chromex_native::requests::{build_get, build_query, build_create_tenant};
use chromex_native::results::{CollectionInfo, DatabaseInfo, TenantInfo, encode_collection,
    encode_collection_list, encode_database, encode_tenant, format_collection_id};

const CID: &str = "550e8400-e29b-41d4-a716-446655440000";

fn s(v: &str) -> String {
    v.to_string()
}

#[test]
fn collection_id_parses_as_its_uuid_value() {
    let c = parse_collection_id(CID).unwrap();
    assert_eq!(c.id, uuid::Uuid::parse_str(CID).unwrap().as_u128());
    assert_eq!(format_collection_id(c), CID);
    assert!(matches!(
        parse_collection_id("not-a-uuid"),
        Err(BindError::MalformedIdentifier(_))
    ));
    assert!(matches!(parse_collection_id(""), Err(BindError::MalformedIdentifier(_))));
}

#[test]
fn add_with_mismatched_lengths_fails_before_the_engine() {
    let r = prepare_add(
        CID,
        vec![s("a"), s("b")],
        vec![vec![1, 2]],
        None,
        None,
        None,
        s("t"),
        s("d"),
    );
    assert_eq!(r.err(), Some(BindError::Validation(ValidationFault::LengthMismatch)));
}

#[test]
fn add_with_mismatched_documents_fails() {
    let r = prepare_add(
        CID,
        vec![s("a"), s("b")],
        vec![vec![1], vec![2]],
        None,
        Some(vec![Some(s("only one"))]),
        None,
        s("t"),
        s("d"),
    );
    assert!(matches!(r, Err(BindError::Validation(ValidationFault::LengthMismatch))));
}

#[test]
fn add_with_ragged_embeddings_fails() {
    let r = prepare_add(
        CID,
        vec![s("a"), s("b")],
        vec![vec![1, 2], vec![3]],
        None,
        None,
        None,
        s("t"),
        s("d"),
    );
    assert!(matches!(r, Err(BindError::Validation(ValidationFault::RaggedEmbeddings))));
}

#[test]
fn add_decodes_metadata_batch_and_keeps_fields() {
    let r = prepare_add(
        CID,
        vec![s("a"), s("b")],
        vec![vec![1], vec![2]],
        Some(vec![None, Some(s("{\"k\":3}"))]),
        Some(vec![Some(s("doc a")), None]),
        None,
        s("t"),
        s("d"),
    )
    .unwrap();
    assert_eq!(r.ids, vec![s("a"), s("b")]);
    assert_eq!(r.embeddings, vec![vec![1], vec![2]]);
    assert_eq!(r.tenant, s("t"));
    let mds = r.metadatas.unwrap();
    assert!(mds[0].is_none());
    assert_eq!(mds[1].as_ref().unwrap().pairs[0].1, MetadataValue::Int(3));
}

#[test]
fn add_with_bad_uuid_fails_first() {
    let r = prepare_add(
        "zz",
        vec![s("a")],
        vec![vec![1]],
        Some(vec![Some(s("not json"))]),
        None,
        None,
        s("t"),
        s("d"),
    );
    assert!(matches!(r, Err(BindError::MalformedIdentifier(_))));
}

#[test]
fn add_with_bad_metadata_json_fails() {
    let r = prepare_add(
        CID,
        vec![s("a")],
        vec![vec![1]],
        Some(vec![Some(s("{\"k\":"))]),
        None,
        None,
        s("t"),
        s("d"),
    );
    assert!(matches!(r, Err(BindError::MalformedMetadata(_))));
}

#[test]
fn update_accepts_partial_embeddings_and_checks_dimensions() {
    let ok = prepare_update(
        CID,
        vec![s("a"), s("b"), s("c")],
        Some(vec![Some(vec![1, 2]), None, Some(vec![3, 4])]),
        None,
        None,
        None,
        s("t"),
        s("d"),
    );
    assert!(ok.is_ok());
    let ragged = prepare_update(
        CID,
        vec![s("a"), s("b")],
        Some(vec![Some(vec![1, 2]), Some(vec![3])]),
        None,
        None,
        None,
        s("t"),
        s("d"),
    );
    assert!(matches!(ragged, Err(BindError::Validation(ValidationFault::RaggedEmbeddings))));
}

#[test]
fn upsert_uses_update_metadata() {
    let r = prepare_upsert(
        CID,
        vec![s("a")],
        vec![vec![7]],
        Some(vec![Some(s("{\"gone\":null}"))]),
        None,
        None,
        s("t"),
        s("d"),
    )
    .unwrap();
    let mds = r.metadatas.unwrap();
    assert_eq!(
        mds[0].as_ref().unwrap().pairs[0].1,
        chromex_native::metadata::UpdateMetadataValue::Unset
    );
}

#[test]
fn get_with_empty_id_list_fails() {
    let r = prepare_get(CID, Some(Vec::new()), None, None, None, Vec::new(), s("t"), s("d"));
    assert!(matches!(r, Err(BindError::Validation(ValidationFault::EmptyIdList))));
}

#[test]
fn get_defaults_offset_and_decodes_filter() {
    let r = prepare_get(
        CID,
        None,
        Some(s("{\"a\":1}")),
        Some(10),
        None,
        vec![s("documents")],
        s("t"),
        s("d"),
    )
    .unwrap();
    assert_eq!(r.offset, 0);
    assert_eq!(r.limit, Some(10));
    assert!(r.filter.is_some());
    assert!(r.select.document);
    assert!(!r.select.embedding);
}

#[test]
fn query_with_zero_results_is_not_an_error() {
    let r = prepare_query(CID, vec![vec![1, 2]], 0, None, Vec::new(), s("t"), s("d"));
    let req = r.unwrap();
    assert_eq!(req.n_results, 0);
}

#[test]
fn query_rejects_malformed_filter_before_the_engine() {
    let r = prepare_query(
        CID,
        vec![vec![1]],
        5,
        Some(s("{\"n\":{\"$almost\":1}}")),
        Vec::new(),
        s("t"),
        s("d"),
    );
    assert!(matches!(r, Err(BindError::MalformedFilter(_))));
}

#[test]
fn query_rejects_ragged_embeddings() {
    let r = prepare_query(CID, vec![vec![1, 2], vec![3]], 5, None, Vec::new(), s("t"), s("d"));
    assert!(matches!(r, Err(BindError::Validation(ValidationFault::RaggedEmbeddings))));
}

#[test]
fn delete_without_selection_is_unrestricted() {
    let r = prepare_delete(CID, None, None, s("t"), s("d")).unwrap();
    assert!(r.ids.is_none());
    assert!(r.filter.is_none());
}

#[test]
fn count_requires_nonempty_identifiers() {
    assert!(prepare_count(CID, s("t"), s("d")).is_ok());
    assert!(matches!(
        prepare_count(CID, s(""), s("d")),
        Err(BindError::Validation(ValidationFault::EmptyIdentifier))
    ));
}

#[test]
fn create_collection_checks_decode_then_shape() {
    let bad_md = prepare_create_collection(s("c"), None, Some(s("nope")), false, s("t"), s("d"));
    assert!(matches!(bad_md, Err(BindError::MalformedMetadata(_))));
    let bad_cfg = prepare_create_collection(s("c"), Some(s("{")), None, false, s("t"), s("d"));
    assert!(matches!(bad_cfg, Err(BindError::MalformedConfiguration(_))));
    let empty = prepare_create_collection(s(""), None, None, false, s("t"), s("d"));
    assert!(matches!(empty, Err(BindError::Validation(ValidationFault::EmptyIdentifier))));
    let ok = prepare_create_collection(
        s("c"),
        None,
        Some(s("{\"hnsw\":true}")),
        true,
        s("t"),
        s("d"),
    )
    .unwrap();
    assert!(ok.get_or_create);
    assert_eq!(ok.name, s("c"));
}

#[test]
fn create_collection_is_deterministic_for_get_or_create() {
    let a = prepare_create_collection(s("c"), None, None, true, s("t"), s("d")).unwrap();
    let b = prepare_create_collection(s("c"), None, None, true, s("t"), s("d")).unwrap();
    assert_eq!(a.name, b.name);
    assert_eq!(a.tenant, b.tenant);
    assert_eq!(a.database, b.database);
    assert_eq!(a.get_or_create, b.get_or_create);
}

#[test]
fn tenant_builder_rejects_empty_name() {
    assert!(matches!(
        build_create_tenant(String::new()),
        Err(BindError::Validation(ValidationFault::EmptyIdentifier))
    ));
    assert_eq!(build_create_tenant(s("t")).unwrap().name, s("t"));
}

#[test]
fn builders_validate_directly() {
    let c = parse_collection_id(CID).unwrap();
    let sel = chromex_native::selection::decode_selection(&Vec::new());
    let r = build_get(s("t"), s("d"), c, Some(Vec::new()), None, None, 0, sel);
    assert!(matches!(r, Err(BindError::Validation(ValidationFault::EmptyIdList))));
    let q = build_query(s(""), s("d"), c, None, Vec::new(), 1, sel);
    assert!(matches!(q, Err(BindError::Validation(ValidationFault::EmptyIdentifier))));
}

#[test]
fn engine_settings_are_fixed_and_deterministic() {
    let a = engine_settings(true, None);
    assert!(a.allow_reset);
    assert_eq!(a.storage_path, s("./chroma_data"));
    assert_eq!(a.db_file_path, s("./chroma_data/chroma.db"));
    assert_eq!(a.hnsw_cache_capacity, HNSW_CACHE_CAPACITY);
    assert_eq!(a.log_tenant, s("default"));
    assert_eq!(a.min_records_for_invocation, 100);
    assert!(a.enable_schema);
    let b = engine_settings(true, None);
    assert_eq!(a, b);
    let c = engine_settings(false, Some(s("/tmp/store")));
    assert!(!c.allow_reset);
    assert_eq!(c.db_file_path, s("/tmp/store/chroma.db"));
}

#[test]
fn version_and_capability_queries() {
    assert_eq!(version(), s("0.1.0"));
    assert_eq!(max_batch_size(), 40000);
}

#[test]
fn collection_encodes_to_canonical_json() {
    let c = CollectionInfo {
        id: parse_collection_id(CID).unwrap(),
        name: s("c1"),
        tenant: s("t1"),
        database: s("d1"),
        metadata: None,
        dimension: None,
    };
    let text = encode_collection(&c);
    assert_eq!(
        text,
        format!(
            "{{\"database\":\"d1\",\"dimension\":null,\"id\":\"{}\",\"metadata\":null,\"name\":\"c1\",\"tenant\":\"t1\"}}",
            CID
        )
    );
}

#[test]
fn collection_with_metadata_and_dimension_encodes() {
    let md = chromex_native::codec::decode_metadata("{\"k\":5}").unwrap();
    let c = CollectionInfo {
        id: parse_collection_id(CID).unwrap(),
        name: s("c"),
        tenant: s("t"),
        database: s("d"),
        metadata: Some(md),
        dimension: Some(3),
    };
    let text = encode_collection(&c);
    assert!(text.contains("\"dimension\":3"));
    assert!(text.contains("\"metadata\":{\"k\":5}"));
    let listing = encode_collection_list(&vec![c]);
    assert!(listing.starts_with('['));
    assert!(listing.contains("\"name\":\"c\""));
}

#[test]
fn database_and_tenant_encode() {
    let d = DatabaseInfo { id: parse_collection_id(CID).unwrap(), name: s("db"), tenant: s("t") };
    let text = encode_database(&d);
    assert_eq!(
        text,
        format!("{{\"id\":\"{}\",\"name\":\"db\",\"tenant\":\"t\"}}", CID)
    );
    assert_eq!(encode_tenant(&TenantInfo { name: s("t") }), "{\"name\":\"t\"}");
}

#[test]
fn engine_failures_pass_through_verbatim() {
    let e = chromex_native::errors::engine_failure(s("collection not found"));
    assert_eq!(e, BindError::Engine(s("collection not found")));
}

#[test]
fn poisoned_lock_reports_the_fatal_handle_error() {
    let e = chromex_native::errors::poisoned_handle_failure();
    assert_eq!(e, BindError::Engine(s("engine handle lock poisoned; handle unusable")));
}

#[test]
fn update_collection_decodes_rename_and_patch() {
    let r = prepare_update_collection(CID, Some(s("renamed")), Some(s("{\"drop\":null}"))).unwrap();
    assert_eq!(r.new_name, Some(s("renamed")));
    assert_eq!(
        r.new_metadata.unwrap().pairs[0].1,
        chromex_native::metadata::UpdateMetadataValue::Unset
    );
    let bad = prepare_update_collection("nope", None, None);
    assert!(matches!(bad, Err(BindError::MalformedIdentifier(_))));
    let empty = prepare_update_collection(CID, Some(String::new()), None);
    assert!(matches!(empty, Err(BindError::Validation(ValidationFault::EmptyIdentifier))));
}
