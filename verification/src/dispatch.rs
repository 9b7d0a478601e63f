use vstd::prelude::*;
use crate::errors::BindError;
use crate::ident::{CollectionId, uuid_text_value, parse_collection_id};
use crate::json::{JsonValue, Jv, json_text_value, parse_json_text};
use crate::metadata::{Metadata, Mv, Uv};
use crate::filter::{WhereClause, Wv};
use crate::selection::{Selection, has_token, decode_selection};
use crate::codec::{spec_decode_metadata_text, spec_decode_where_text, spec_md_batch,
    spec_umd_batch, opt_md_view, opt_umd_view, opt_md_wf, opt_umd_wf, decode_metadata,
    decode_where, decode_metadata_batch, decode_update_metadata_batch};
use crate::requests::{CreateCollectionRequest, AddRecordsRequest, UpdateRecordsRequest,
    UpsertRecordsRequest, GetRecordsRequest, QueryRecordsRequest, DeleteRecordsRequest,
    CountRecordsRequest, add_fault, update_fault, get_fault, query_fault, named_fault,
    identifier_fault, opt_len_ok, build_create_collection, build_add, build_update, build_upsert,
    build_get, build_query, build_delete, build_count};

verus! {

/// How an optional metadata text decodes: absent means no metadata.
pub open spec fn spec_opt_md(o: Option<String>) -> Result<Option<Seq<(Seq<char>, Mv)>>, ()> {
    match o {
        None => Ok(None),
        Some(t) => match spec_decode_metadata_text(t@) {
            Ok(s) => Ok(Some(s)),
            Err(_) => Err(()),
        },
    }
}

/// How an optional configuration text decodes: it must be valid JSON, carried
/// through to the engine as decoded.
pub open spec fn spec_opt_config(o: Option<String>) -> Result<Option<Jv>, ()> {
    match o {
        None => Ok(None),
        Some(t) => match json_text_value(t@) {
            Ok(jv) => Ok(Some(jv)),
            Err(_) => Err(()),
        },
    }
}

/// How an optional filter text decodes: absent means no filter.
pub open spec fn spec_opt_where(o: Option<String>) -> Result<Option<Wv>, ()> {
    match o {
        None => Ok(None),
        Some(t) => spec_decode_where_text(t@),
    }
}

/// How an optional batch of metadata texts decodes.
pub open spec fn spec_opt_md_batch(o: Option<Vec<Option<String>>>) -> Result<
    Option<Seq<Option<Seq<(Seq<char>, Mv)>>>>,
    (),
> {
    match o {
        None => Ok(None),
        Some(v) => match spec_md_batch(v@, v@.len() as int) {
            Ok(s) => Ok(Some(s)),
            Err(_) => Err(()),
        },
    }
}

/// How an optional batch of update-metadata texts decodes.
pub open spec fn spec_opt_umd_batch(o: Option<Vec<Option<String>>>) -> Result<
    Option<Seq<Option<Seq<(Seq<char>, Uv)>>>>,
    (),
> {
    match o {
        None => Ok(None),
        Some(v) => match spec_umd_batch(v@, v@.len() as int) {
            Ok(s) => Ok(Some(s)),
            Err(_) => Err(()),
        },
    }
}

/// The decoded filter of a request agrees with the decoded model.
pub open spec fn filter_matches(f: Option<WhereClause>, m: Option<Wv>) -> bool {
    match (f, m) {
        (None, None) => true,
        (Some(w), Some(wm)) => w@ == wm,
        _ => false,
    }
}

/// The decoded selection of a request reflects exactly the recognized tokens.
pub open spec fn selection_matches(s: Selection, tokens: Seq<String>) -> bool {
    &&& s.document == has_token(tokens, "documents"@)
    &&& s.embedding == has_token(tokens, "embeddings"@)
    &&& s.metadata == has_token(tokens, "metadatas"@)
    &&& s.distance == has_token(tokens, "distances"@)
    &&& s.uri == has_token(tokens, "uris"@)
}

/// The decoded metadata batch of a request agrees with the decoded model.
pub open spec fn md_batch_matches(
    got: Option<Vec<Option<Metadata>>>,
    m: Option<Seq<Option<Seq<(Seq<char>, Mv)>>>>,
    n: int,
) -> bool {
    match (got, m) {
        (None, None) => true,
        (Some(v), Some(s)) => opt_md_view(v@) == s && opt_md_wf(v@) && opt_len_ok(Some(v), n),
        _ => false,
    }
}

/// The decoded update-metadata batch of a request agrees with the model.
pub open spec fn umd_batch_matches(
    got: Option<Vec<Option<crate::metadata::UpdateMetadata>>>,
    m: Option<Seq<Option<Seq<(Seq<char>, Uv)>>>>,
    n: int,
) -> bool {
    match (got, m) {
        (None, None) => true,
        (Some(v), Some(s)) => opt_umd_view(v@) == s && opt_umd_wf(v@) && opt_len_ok(Some(v), n),
        _ => false,
    }
}

/// Dispatch, steps one and two, for create-collection: decode the metadata
/// and configuration texts, then build the validated request; abort on the
/// first failure, before the engine is touched.
pub fn prepare_create_collection(
    name: String,
    config_json: Option<String>,
    metadata_json: Option<String>,
    get_or_create: bool,
    tenant: String,
    database: String,
) -> (r: Result<CreateCollectionRequest, BindError>)
    ensures
        match spec_opt_md(metadata_json) {
            Err(_) => r matches Err(e) && e is MalformedMetadata,
            Ok(md_model) => match spec_opt_config(config_json) {
                Err(_) => r matches Err(e) && e is MalformedConfiguration,
                Ok(cfg_model) => match named_fault(tenant@, database@, name@) {
                    Some(f) => r == Err::<CreateCollectionRequest, BindError>(
                        BindError::Validation(f),
                    ),
                    None => r matches Ok(req) && req.tenant == tenant && req.database == database
                        && req.name == name && req.get_or_create == get_or_create && (match (
                        req.metadata,
                        md_model,
                    ) {
                        (None, None) => true,
                        (Some(m), Some(s)) => m@ == s && m.wf(),
                        _ => false,
                    }) && (match (req.configuration, cfg_model) {
                        (None, None) => true,
                        (Some(c), Some(jv)) => c@ == jv,
                        _ => false,
                    }),
                },
            },
        },
{
    let metadata: Option<Metadata> = match metadata_json {
        None => None,
        Some(t) => match decode_metadata(t.as_str()) {
            Ok(m) => Some(m),
            Err(e) => {
                return Err(e);
            },
        },
    };
    let configuration: Option<JsonValue> = match config_json {
        None => None,
        Some(t) => match parse_json_text(t.as_str()) {
            Ok(tree) => Some(tree),
            Err(msg) => {
                return Err(BindError::MalformedConfiguration(msg));
            },
        },
    };
    build_create_collection(tenant, database, name, metadata, configuration, get_or_create)
}

/// Dispatch, steps one and two, for record-add.
pub fn prepare_add(
    collection_id: &str,
    ids: Vec<String>,
    embeddings: Vec<Vec<u32>>,
    metadatas_json: Option<Vec<Option<String>>>,
    documents: Option<Vec<Option<String>>>,
    uris: Option<Vec<Option<String>>>,
    tenant: String,
    database: String,
) -> (r: Result<AddRecordsRequest, BindError>)
    ensures
        match uuid_text_value(collection_id@) {
            None => r matches Err(e) && e is MalformedIdentifier,
            Some(u) => match spec_opt_md_batch(metadatas_json) {
                Err(_) => r matches Err(e) && e is MalformedMetadata,
                Ok(mds_model) => match add_fault(
                    tenant@,
                    database@,
                    ids,
                    embeddings,
                    documents,
                    uris,
                    opt_len_ok(metadatas_json, ids@.len() as int),
                ) {
                    Some(f) => r matches Err(e) && e == BindError::Validation(f),
                    None => r matches Ok(req) && req.tenant == tenant && req.database == database
                        && req.collection_id.id == u && req.ids == ids && req.embeddings
                        == embeddings && req.documents == documents && req.uris == uris
                        && md_batch_matches(req.metadatas, mds_model, ids@.len() as int),
                },
            },
        },
{
    let cid = match parse_collection_id(collection_id) {
        Ok(c) => c,
        Err(e) => {
            return Err(e);
        },
    };
    let metadatas: Option<Vec<Option<Metadata>>> = match metadatas_json {
        None => None,
        Some(v) => match decode_metadata_batch(&v) {
            Ok(mds) => Some(mds),
            Err(e) => {
                return Err(e);
            },
        },
    };
    build_add(tenant, database, cid, ids, embeddings, documents, uris, metadatas)
}

/// Dispatch, steps one and two, for record-update.
pub fn prepare_update(
    collection_id: &str,
    ids: Vec<String>,
    embeddings: Option<Vec<Option<Vec<u32>>>>,
    metadatas_json: Option<Vec<Option<String>>>,
    documents: Option<Vec<Option<String>>>,
    uris: Option<Vec<Option<String>>>,
    tenant: String,
    database: String,
) -> (r: Result<UpdateRecordsRequest, BindError>)
    ensures
        match uuid_text_value(collection_id@) {
            None => r matches Err(e) && e is MalformedIdentifier,
            Some(u) => match spec_opt_umd_batch(metadatas_json) {
                Err(_) => r matches Err(e) && e is MalformedMetadata,
                Ok(mds_model) => match update_fault(
                    tenant@,
                    database@,
                    ids,
                    embeddings,
                    documents,
                    uris,
                    opt_len_ok(metadatas_json, ids@.len() as int),
                ) {
                    Some(f) => r matches Err(e) && e == BindError::Validation(f),
                    None => r matches Ok(req) && req.tenant == tenant && req.database == database
                        && req.collection_id.id == u && req.ids == ids && req.embeddings
                        == embeddings && req.documents == documents && req.uris == uris
                        && umd_batch_matches(req.metadatas, mds_model, ids@.len() as int),
                },
            },
        },
{
    let cid = match parse_collection_id(collection_id) {
        Ok(c) => c,
        Err(e) => {
            return Err(e);
        },
    };
    let metadatas = match metadatas_json {
        None => None,
        Some(v) => match decode_update_metadata_batch(&v) {
            Ok(mds) => Some(mds),
            Err(e) => {
                return Err(e);
            },
        },
    };
    build_update(tenant, database, cid, ids, embeddings, documents, uris, metadatas)
}

/// Dispatch, steps one and two, for record-upsert.
pub fn prepare_upsert(
    collection_id: &str,
    ids: Vec<String>,
    embeddings: Vec<Vec<u32>>,
    metadatas_json: Option<Vec<Option<String>>>,
    documents: Option<Vec<Option<String>>>,
    uris: Option<Vec<Option<String>>>,
    tenant: String,
    database: String,
) -> (r: Result<UpsertRecordsRequest, BindError>)
    ensures
        match uuid_text_value(collection_id@) {
            None => r matches Err(e) && e is MalformedIdentifier,
            Some(u) => match spec_opt_umd_batch(metadatas_json) {
                Err(_) => r matches Err(e) && e is MalformedMetadata,
                Ok(mds_model) => match add_fault(
                    tenant@,
                    database@,
                    ids,
                    embeddings,
                    documents,
                    uris,
                    opt_len_ok(metadatas_json, ids@.len() as int),
                ) {
                    Some(f) => r matches Err(e) && e == BindError::Validation(f),
                    None => r matches Ok(req) && req.tenant == tenant && req.database == database
                        && req.collection_id.id == u && req.ids == ids && req.embeddings
                        == embeddings && req.documents == documents && req.uris == uris
                        && umd_batch_matches(req.metadatas, mds_model, ids@.len() as int),
                },
            },
        },
{
    let cid = match parse_collection_id(collection_id) {
        Ok(c) => c,
        Err(e) => {
            return Err(e);
        },
    };
    let metadatas = match metadatas_json {
        None => None,
        Some(v) => match decode_update_metadata_batch(&v) {
            Ok(mds) => Some(mds),
            Err(e) => {
                return Err(e);
            },
        },
    };
    build_upsert(tenant, database, cid, ids, embeddings, documents, uris, metadatas)
}

/// Dispatch, steps one and two, for record-get.
pub fn prepare_get(
    collection_id: &str,
    ids: Option<Vec<String>>,
    where_json: Option<String>,
    limit: Option<u32>,
    offset: Option<u32>,
    selector_tokens: Vec<String>,
    tenant: String,
    database: String,
) -> (r: Result<GetRecordsRequest, BindError>)
    ensures
        match uuid_text_value(collection_id@) {
            None => r matches Err(e) && e is MalformedIdentifier,
            Some(u) => match spec_opt_where(where_json) {
                Err(_) => r matches Err(e) && e is MalformedFilter,
                Ok(ow) => match get_fault(tenant@, database@, ids) {
                    Some(f) => r matches Err(e) && e == BindError::Validation(f),
                    None => r matches Ok(req) && req.tenant == tenant && req.database == database
                        && req.collection_id.id == u && req.ids == ids && filter_matches(
                        req.filter,
                        ow,
                    ) && req.limit == limit && req.offset == (match offset {
                        Some(o) => o,
                        None => 0u32,
                    }) && selection_matches(req.select, selector_tokens@),
                },
            },
        },
{
    let cid = match parse_collection_id(collection_id) {
        Ok(c) => c,
        Err(e) => {
            return Err(e);
        },
    };
    let filter = match &where_json {
        None => None,
        Some(t) => match decode_where(t.as_str()) {
            Ok(w) => w,
            Err(e) => {
                return Err(e);
            },
        },
    };
    let select = decode_selection(&selector_tokens);
    let off: u32 = match offset {
        Some(o) => o,
        None => 0,
    };
    build_get(tenant, database, cid, ids, filter, limit, off, select)
}

/// Dispatch, steps one and two, for query. A requested result count of zero
/// is accepted and asks for an empty result set.
pub fn prepare_query(
    collection_id: &str,
    query_embeddings: Vec<Vec<u32>>,
    n_results: u32,
    where_json: Option<String>,
    selector_tokens: Vec<String>,
    tenant: String,
    database: String,
) -> (r: Result<QueryRecordsRequest, BindError>)
    ensures
        match uuid_text_value(collection_id@) {
            None => r matches Err(e) && e is MalformedIdentifier,
            Some(u) => match spec_opt_where(where_json) {
                Err(_) => r matches Err(e) && e is MalformedFilter,
                Ok(ow) => match query_fault(tenant@, database@, query_embeddings) {
                    Some(f) => r matches Err(e) && e == BindError::Validation(f),
                    None => r matches Ok(req) && req.tenant == tenant && req.database == database
                        && req.collection_id.id == u && req.embeddings == query_embeddings
                        && req.n_results == n_results && filter_matches(req.filter, ow)
                        && selection_matches(req.select, selector_tokens@),
                },
            },
        },
{
    let cid = match parse_collection_id(collection_id) {
        Ok(c) => c,
        Err(e) => {
            return Err(e);
        },
    };
    let filter = match &where_json {
        None => None,
        Some(t) => match decode_where(t.as_str()) {
            Ok(w) => w,
            Err(e) => {
                return Err(e);
            },
        },
    };
    let select = decode_selection(&selector_tokens);
    build_query(tenant, database, cid, filter, query_embeddings, n_results, select)
}

/// Dispatch, steps one and two, for record-delete.
pub fn prepare_delete(
    collection_id: &str,
    ids: Option<Vec<String>>,
    where_json: Option<String>,
    tenant: String,
    database: String,
) -> (r: Result<DeleteRecordsRequest, BindError>)
    ensures
        match uuid_text_value(collection_id@) {
            None => r matches Err(e) && e is MalformedIdentifier,
            Some(u) => match spec_opt_where(where_json) {
                Err(_) => r matches Err(e) && e is MalformedFilter,
                Ok(ow) => match identifier_fault(tenant@, database@) {
                    Some(f) => r matches Err(e) && e == BindError::Validation(f),
                    None => r matches Ok(req) && req.tenant == tenant && req.database == database
                        && req.collection_id.id == u && req.ids == ids && filter_matches(
                        req.filter,
                        ow,
                    ),
                },
            },
        },
{
    let cid = match parse_collection_id(collection_id) {
        Ok(c) => c,
        Err(e) => {
            return Err(e);
        },
    };
    let filter = match &where_json {
        None => None,
        Some(t) => match decode_where(t.as_str()) {
            Ok(w) => w,
            Err(e) => {
                return Err(e);
            },
        },
    };
    build_delete(tenant, database, cid, ids, filter)
}

/// How an optional update-metadata text decodes: absent means no change.
pub open spec fn spec_opt_umd(o: Option<String>) -> Result<Option<Seq<(Seq<char>, Uv)>>, ()> {
    match o {
        None => Ok(None),
        Some(t) => match crate::codec::spec_decode_update_metadata_text(t@) {
            Ok(s) => Ok(Some(s)),
            Err(_) => Err(()),
        },
    }
}

/// Dispatch, steps one and two, for update-collection: a rename, a metadata
/// patch, or both.
pub fn prepare_update_collection(
    collection_id: &str,
    new_name: Option<String>,
    new_metadata_json: Option<String>,
) -> (r: Result<crate::requests::UpdateCollectionRequest, BindError>)
    ensures
        match uuid_text_value(collection_id@) {
            None => r matches Err(e) && e is MalformedIdentifier,
            Some(u) => match spec_opt_umd(new_metadata_json) {
                Err(_) => r matches Err(e) && e is MalformedMetadata,
                Ok(md_model) => match new_name {
                    Some(n) if n@.len() == 0 => r matches Err(e) && e == BindError::Validation(
                        crate::errors::ValidationFault::EmptyIdentifier,
                    ),
                    _ => r matches Ok(req) && req.collection_id.id == u && req.new_name == new_name
                        && (match (req.new_metadata, md_model) {
                        (None, None) => true,
                        (Some(m), Some(s)) => m@ == s && m.wf(),
                        _ => false,
                    }),
                },
            },
        },
{
    let cid = match parse_collection_id(collection_id) {
        Ok(c) => c,
        Err(e) => {
            return Err(e);
        },
    };
    let new_metadata = match new_metadata_json {
        None => None,
        Some(t) => match crate::codec::decode_update_metadata(t.as_str()) {
            Ok(m) => Some(m),
            Err(e) => {
                return Err(e);
            },
        },
    };
    crate::requests::build_update_collection(cid, new_name, new_metadata)
}

/// Dispatch, steps one and two, for record-count.
pub fn prepare_count(collection_id: &str, tenant: String, database: String) -> (r: Result<
    CountRecordsRequest,
    BindError,
>)
    ensures
        match uuid_text_value(collection_id@) {
            None => r matches Err(e) && e is MalformedIdentifier,
            Some(u) => match identifier_fault(tenant@, database@) {
                Some(f) => r matches Err(e) && e == BindError::Validation(f),
                None => r matches Ok(req) && req.tenant == tenant && req.database == database
                    && req.collection_id.id == u,
            },
        },
{
    let cid = match parse_collection_id(collection_id) {
        Ok(c) => c,
        Err(e) => {
            return Err(e);
        },
    };
    build_count(tenant, database, cid)
}

} // verus!
