use vstd::prelude::*;
use crate::errors::{BindError, ValidationFault};
use crate::ident::CollectionId;
use crate::json::JsonValue;
use crate::metadata::{Metadata, UpdateMetadata};
use crate::filter::WhereClause;
use crate::selection::Selection;

verus! {

/// A typed, validated request for one engine operation. Each struct is built
/// only by its builder below; no partially validated request reaches the
/// engine.
#[derive(Debug)]
pub struct CreateCollectionRequest {
    pub tenant: String,
    pub database: String,
    pub name: String,
    pub metadata: Option<Metadata>,
    pub configuration: Option<JsonValue>,
    pub get_or_create: bool,
}

#[derive(Debug)]
pub struct GetCollectionRequest {
    pub tenant: String,
    pub database: String,
    pub name: String,
}

#[derive(Debug)]
pub struct DeleteCollectionRequest {
    pub tenant: String,
    pub database: String,
    pub name: String,
}

#[derive(Debug)]
pub struct ListCollectionsRequest {
    pub tenant: String,
    pub database: String,
    pub limit: Option<u32>,
    pub offset: u32,
}

#[derive(Debug)]
pub struct UpdateCollectionRequest {
    pub collection_id: CollectionId,
    pub new_name: Option<String>,
    pub new_metadata: Option<UpdateMetadata>,
}

#[derive(Debug)]
pub struct AddRecordsRequest {
    pub tenant: String,
    pub database: String,
    pub collection_id: CollectionId,
    pub ids: Vec<String>,
    pub embeddings: Vec<Vec<u32>>,
    pub documents: Option<Vec<Option<String>>>,
    pub uris: Option<Vec<Option<String>>>,
    pub metadatas: Option<Vec<Option<Metadata>>>,
}

#[derive(Debug)]
pub struct UpdateRecordsRequest {
    pub tenant: String,
    pub database: String,
    pub collection_id: CollectionId,
    pub ids: Vec<String>,
    pub embeddings: Option<Vec<Option<Vec<u32>>>>,
    pub documents: Option<Vec<Option<String>>>,
    pub uris: Option<Vec<Option<String>>>,
    pub metadatas: Option<Vec<Option<UpdateMetadata>>>,
}

#[derive(Debug)]
pub struct UpsertRecordsRequest {
    pub tenant: String,
    pub database: String,
    pub collection_id: CollectionId,
    pub ids: Vec<String>,
    pub embeddings: Vec<Vec<u32>>,
    pub documents: Option<Vec<Option<String>>>,
    pub uris: Option<Vec<Option<String>>>,
    pub metadatas: Option<Vec<Option<UpdateMetadata>>>,
}

#[derive(Debug)]
pub struct GetRecordsRequest {
    pub tenant: String,
    pub database: String,
    pub collection_id: CollectionId,
    pub ids: Option<Vec<String>>,
    pub filter: Option<WhereClause>,
    pub limit: Option<u32>,
    pub offset: u32,
    pub select: Selection,
}

#[derive(Debug)]
pub struct QueryRecordsRequest {
    pub tenant: String,
    pub database: String,
    pub collection_id: CollectionId,
    pub filter: Option<WhereClause>,
    pub embeddings: Vec<Vec<u32>>,
    pub n_results: u32,
    pub select: Selection,
}

#[derive(Debug)]
pub struct DeleteRecordsRequest {
    pub tenant: String,
    pub database: String,
    pub collection_id: CollectionId,
    pub ids: Option<Vec<String>>,
    pub filter: Option<WhereClause>,
}

#[derive(Debug)]
pub struct CountRecordsRequest {
    pub tenant: String,
    pub database: String,
    pub collection_id: CollectionId,
}

#[derive(Debug)]
pub struct CreateDatabaseRequest {
    pub tenant: String,
    pub name: String,
}

#[derive(Debug)]
pub struct GetDatabaseRequest {
    pub tenant: String,
    pub name: String,
}

#[derive(Debug)]
pub struct DeleteDatabaseRequest {
    pub tenant: String,
    pub name: String,
}

#[derive(Debug)]
pub struct ListDatabasesRequest {
    pub tenant: String,
    pub limit: Option<u32>,
    pub offset: u32,
}

#[derive(Debug)]
pub struct CreateTenantRequest {
    pub name: String,
}

#[derive(Debug)]
pub struct GetTenantRequest {
    pub name: String,
}

/// An optional parallel array, when present, matches the record count.
pub open spec fn opt_len_ok<T>(v: Option<Vec<T>>, n: int) -> bool {
    match v {
        None => true,
        Some(x) => x@.len() == n,
    }
}

/// All embeddings share one dimensionality.
pub open spec fn uniform_dims(e: Seq<Vec<u32>>) -> bool {
    forall|a: int| 0 <= a < e.len() ==> (#[trigger] e[a])@.len() == e[0]@.len()
}

/// All embeddings present share one dimensionality.
pub open spec fn uniform_opt_dims(e: Seq<Option<Vec<u32>>>) -> bool {
    forall|a: int, b: int|
        0 <= a < e.len() && 0 <= b < e.len() && (#[trigger] e[a]) is Some && (#[trigger] e[b])
            is Some ==> e[a]->Some_0@.len() == e[b]->Some_0@.len()
}

/// Checks that all embeddings share one dimensionality.
#[verifier::loop_isolation(false)]
pub fn embeddings_uniform(e: &Vec<Vec<u32>>) -> (r: bool)
    ensures
        r == uniform_dims(e@),
{
    let n = e.len();
    if n == 0 {
        return true;
    }
    let d = e[0].len();
    let mut i: usize = 0;
    while i < n
        invariant
            0 <= i <= n,
            d == e@[0]@.len(),
            forall|a: int| 0 <= a < i ==> (#[trigger] e@[a])@.len() == d,
        decreases n - i,
    {
        if e[i].len() != d {
            return false;
        }
        i = i + 1;
    }
    true
}

/// Checks that the embeddings present all share one dimensionality.
#[verifier::loop_isolation(false)]
pub fn opt_embeddings_uniform(e: &Vec<Option<Vec<u32>>>) -> (r: bool)
    ensures
        r == uniform_opt_dims(e@),
{
    let n = e.len();
    let mut dim: Option<usize> = None;
    let mut i: usize = 0;
    while i < n
        invariant
            0 <= i <= n,
            dim is None ==> forall|a: int| 0 <= a < i ==> (#[trigger] e@[a]) is None,
            dim is Some ==> forall|a: int|
                0 <= a < i && (#[trigger] e@[a]) is Some ==> e@[a]->Some_0@.len() == dim->Some_0,
            dim is Some ==> exists|a: int|
                0 <= a < i && (#[trigger] e@[a]) is Some && e@[a]->Some_0@.len() == dim->Some_0,
        decreases n - i,
    {
        match &e[i] {
            Some(v) => {
                match dim {
                    Some(d) => {
                        if v.len() != d {
                            proof {
                                let a = choose|a: int|
                                    0 <= a < i && (#[trigger] e@[a]) is Some && e@[
                                        a]->Some_0@.len() == dim->Some_0;
                                assert(e@[a] is Some && e@[i as int] is Some && e@[
                                    a]->Some_0@.len() != e@[i as int]->Some_0@.len());
                                assert(!uniform_opt_dims(e@));
                            }
                            return false;
                        }
                    },
                    None => {
                        dim = Some(v.len());
                    },
                }
            },
            None => {},
        }
        i = i + 1;
    }
    true
}

/// The first record-batch invariant an add call violates, if any.
pub open spec fn add_fault(
    tenant: Seq<char>,
    database: Seq<char>,
    ids: Vec<String>,
    embeddings: Vec<Vec<u32>>,
    documents: Option<Vec<Option<String>>>,
    uris: Option<Vec<Option<String>>>,
    metadatas_len_ok: bool,
) -> Option<ValidationFault> {
    if tenant.len() == 0 || database.len() == 0 {
        Some(ValidationFault::EmptyIdentifier)
    } else if embeddings@.len() != ids@.len() || !opt_len_ok(documents, ids@.len() as int)
        || !opt_len_ok(uris, ids@.len() as int) || !metadatas_len_ok {
        Some(ValidationFault::LengthMismatch)
    } else if !uniform_dims(embeddings@) {
        Some(ValidationFault::RaggedEmbeddings)
    } else {
        None
    }
}

/// Builds a record-add request; every present array must match `ids` in
/// length and the embeddings must share one dimensionality, or the call fails
/// with the named violation and the engine is never invoked.
pub fn build_add(
    tenant: String,
    database: String,
    collection_id: CollectionId,
    ids: Vec<String>,
    embeddings: Vec<Vec<u32>>,
    documents: Option<Vec<Option<String>>>,
    uris: Option<Vec<Option<String>>>,
    metadatas: Option<Vec<Option<Metadata>>>,
) -> (r: Result<AddRecordsRequest, BindError>)
    ensures
        match add_fault(
            tenant@,
            database@,
            ids,
            embeddings,
            documents,
            uris,
            opt_len_ok(metadatas, ids@.len() as int),
        ) {
            Some(f) => r == Err::<AddRecordsRequest, BindError>(BindError::Validation(f)),
            None => r matches Ok(req) && req == (AddRecordsRequest {
                tenant,
                database,
                collection_id,
                ids,
                embeddings,
                documents,
                uris,
                metadatas,
            }),
        },
{
    if tenant.as_str().is_empty() || database.as_str().is_empty() {
        return Err(BindError::Validation(ValidationFault::EmptyIdentifier));
    }
    let n = ids.len();
    let mut len_ok = embeddings.len() == n;
    if let Some(d) = &documents {
        len_ok = len_ok && d.len() == n;
    }
    if let Some(u) = &uris {
        len_ok = len_ok && u.len() == n;
    }
    if let Some(m) = &metadatas {
        len_ok = len_ok && m.len() == n;
    }
    if !len_ok {
        return Err(BindError::Validation(ValidationFault::LengthMismatch));
    }
    if !embeddings_uniform(&embeddings) {
        return Err(BindError::Validation(ValidationFault::RaggedEmbeddings));
    }
    Ok(
        AddRecordsRequest {
            tenant,
            database,
            collection_id,
            ids,
            embeddings,
            documents,
            uris,
            metadatas,
        },
    )
}

/// The first record-batch invariant an update call violates, if any.
pub open spec fn update_fault(
    tenant: Seq<char>,
    database: Seq<char>,
    ids: Vec<String>,
    embeddings: Option<Vec<Option<Vec<u32>>>>,
    documents: Option<Vec<Option<String>>>,
    uris: Option<Vec<Option<String>>>,
    metadatas_len_ok: bool,
) -> Option<ValidationFault> {
    if tenant.len() == 0 || database.len() == 0 {
        Some(ValidationFault::EmptyIdentifier)
    } else if !opt_len_ok(embeddings, ids@.len() as int) || !opt_len_ok(
        documents,
        ids@.len() as int,
    ) || !opt_len_ok(uris, ids@.len() as int) || !metadatas_len_ok {
        Some(ValidationFault::LengthMismatch)
    } else if !(match embeddings {
        None => true,
        Some(e) => uniform_opt_dims(e@),
    }) {
        Some(ValidationFault::RaggedEmbeddings)
    } else {
        None
    }
}

/// Builds a record-update request; per-record fields are optional, but every
/// array present must match `ids` in length.
pub fn build_update(
    tenant: String,
    database: String,
    collection_id: CollectionId,
    ids: Vec<String>,
    embeddings: Option<Vec<Option<Vec<u32>>>>,
    documents: Option<Vec<Option<String>>>,
    uris: Option<Vec<Option<String>>>,
    metadatas: Option<Vec<Option<UpdateMetadata>>>,
) -> (r: Result<UpdateRecordsRequest, BindError>)
    ensures
        match update_fault(
            tenant@,
            database@,
            ids,
            embeddings,
            documents,
            uris,
            opt_len_ok(metadatas, ids@.len() as int),
        ) {
            Some(f) => r == Err::<UpdateRecordsRequest, BindError>(BindError::Validation(f)),
            None => r matches Ok(req) && req == (UpdateRecordsRequest {
                tenant,
                database,
                collection_id,
                ids,
                embeddings,
                documents,
                uris,
                metadatas,
            }),
        },
{
    if tenant.as_str().is_empty() || database.as_str().is_empty() {
        return Err(BindError::Validation(ValidationFault::EmptyIdentifier));
    }
    let n = ids.len();
    let mut len_ok = true;
    if let Some(e) = &embeddings {
        len_ok = len_ok && e.len() == n;
    }
    if let Some(d) = &documents {
        len_ok = len_ok && d.len() == n;
    }
    if let Some(u) = &uris {
        len_ok = len_ok && u.len() == n;
    }
    if let Some(m) = &metadatas {
        len_ok = len_ok && m.len() == n;
    }
    if !len_ok {
        return Err(BindError::Validation(ValidationFault::LengthMismatch));
    }
    let ragged = match &embeddings {
        None => false,
        Some(e) => !opt_embeddings_uniform(e),
    };
    if ragged {
        return Err(BindError::Validation(ValidationFault::RaggedEmbeddings));
    }
    Ok(
        UpdateRecordsRequest {
            tenant,
            database,
            collection_id,
            ids,
            embeddings,
            documents,
            uris,
            metadatas,
        },
    )
}

/// Builds a record-upsert request; shaped like add, with partial metadata.
pub fn build_upsert(
    tenant: String,
    database: String,
    collection_id: CollectionId,
    ids: Vec<String>,
    embeddings: Vec<Vec<u32>>,
    documents: Option<Vec<Option<String>>>,
    uris: Option<Vec<Option<String>>>,
    metadatas: Option<Vec<Option<UpdateMetadata>>>,
) -> (r: Result<UpsertRecordsRequest, BindError>)
    ensures
        match add_fault(
            tenant@,
            database@,
            ids,
            embeddings,
            documents,
            uris,
            opt_len_ok(metadatas, ids@.len() as int),
        ) {
            Some(f) => r == Err::<UpsertRecordsRequest, BindError>(BindError::Validation(f)),
            None => r matches Ok(req) && req == (UpsertRecordsRequest {
                tenant,
                database,
                collection_id,
                ids,
                embeddings,
                documents,
                uris,
                metadatas,
            }),
        },
{
    if tenant.as_str().is_empty() || database.as_str().is_empty() {
        return Err(BindError::Validation(ValidationFault::EmptyIdentifier));
    }
    let n = ids.len();
    let mut len_ok = embeddings.len() == n;
    if let Some(d) = &documents {
        len_ok = len_ok && d.len() == n;
    }
    if let Some(u) = &uris {
        len_ok = len_ok && u.len() == n;
    }
    if let Some(m) = &metadatas {
        len_ok = len_ok && m.len() == n;
    }
    if !len_ok {
        return Err(BindError::Validation(ValidationFault::LengthMismatch));
    }
    if !embeddings_uniform(&embeddings) {
        return Err(BindError::Validation(ValidationFault::RaggedEmbeddings));
    }
    Ok(
        UpsertRecordsRequest {
            tenant,
            database,
            collection_id,
            ids,
            embeddings,
            documents,
            uris,
            metadatas,
        },
    )
}

/// The first invariant a get call violates, if any: a given `ids` selection
/// must be non-empty; omitting it means "unrestricted".
pub open spec fn get_fault(
    tenant: Seq<char>,
    database: Seq<char>,
    ids: Option<Vec<String>>,
) -> Option<ValidationFault> {
    if tenant.len() == 0 || database.len() == 0 {
        Some(ValidationFault::EmptyIdentifier)
    } else if match ids {
        Some(v) => v@.len() == 0,
        None => false,
    } {
        Some(ValidationFault::EmptyIdList)
    } else {
        None
    }
}

/// Builds a record-get request.
pub fn build_get(
    tenant: String,
    database: String,
    collection_id: CollectionId,
    ids: Option<Vec<String>>,
    filter: Option<WhereClause>,
    limit: Option<u32>,
    offset: u32,
    select: Selection,
) -> (r: Result<GetRecordsRequest, BindError>)
    ensures
        match get_fault(tenant@, database@, ids) {
            Some(f) => r == Err::<GetRecordsRequest, BindError>(BindError::Validation(f)),
            None => r matches Ok(req) && req == (GetRecordsRequest {
                tenant,
                database,
                collection_id,
                ids,
                filter,
                limit,
                offset,
                select,
            }),
        },
{
    if tenant.as_str().is_empty() || database.as_str().is_empty() {
        return Err(BindError::Validation(ValidationFault::EmptyIdentifier));
    }
    let empty_ids = match &ids {
        Some(v) => v.len() == 0,
        None => false,
    };
    if empty_ids {
        return Err(BindError::Validation(ValidationFault::EmptyIdList));
    }
    Ok(GetRecordsRequest { tenant, database, collection_id, ids, filter, limit, offset, select })
}

/// The first invariant a query call violates, if any. A requested result
/// count of zero is allowed: it asks for an empty result set, not an error.
pub open spec fn query_fault(
    tenant: Seq<char>,
    database: Seq<char>,
    embeddings: Vec<Vec<u32>>,
) -> Option<ValidationFault> {
    if tenant.len() == 0 || database.len() == 0 {
        Some(ValidationFault::EmptyIdentifier)
    } else if !uniform_dims(embeddings@) {
        Some(ValidationFault::RaggedEmbeddings)
    } else {
        None
    }
}

/// Builds a query request.
pub fn build_query(
    tenant: String,
    database: String,
    collection_id: CollectionId,
    filter: Option<WhereClause>,
    embeddings: Vec<Vec<u32>>,
    n_results: u32,
    select: Selection,
) -> (r: Result<QueryRecordsRequest, BindError>)
    ensures
        match query_fault(tenant@, database@, embeddings) {
            Some(f) => r == Err::<QueryRecordsRequest, BindError>(BindError::Validation(f)),
            None => r matches Ok(req) && req == (QueryRecordsRequest {
                tenant,
                database,
                collection_id,
                filter,
                embeddings,
                n_results,
                select,
            }),
        },
{
    if tenant.as_str().is_empty() || database.as_str().is_empty() {
        return Err(BindError::Validation(ValidationFault::EmptyIdentifier));
    }
    if !embeddings_uniform(&embeddings) {
        return Err(BindError::Validation(ValidationFault::RaggedEmbeddings));
    }
    Ok(QueryRecordsRequest { tenant, database, collection_id, filter, embeddings, n_results, select })
}

/// Builds a record-delete request; omitting both `ids` and the filter means
/// "unrestricted", as for get and query.
pub fn build_delete(
    tenant: String,
    database: String,
    collection_id: CollectionId,
    ids: Option<Vec<String>>,
    filter: Option<WhereClause>,
) -> (r: Result<DeleteRecordsRequest, BindError>)
    ensures
        match identifier_fault(tenant@, database@) {
            Some(f) => r == Err::<DeleteRecordsRequest, BindError>(BindError::Validation(f)),
            None => r matches Ok(req) && req == (DeleteRecordsRequest {
                tenant,
                database,
                collection_id,
                ids,
                filter,
            }),
        },
{
    if tenant.as_str().is_empty() || database.as_str().is_empty() {
        return Err(BindError::Validation(ValidationFault::EmptyIdentifier));
    }
    Ok(DeleteRecordsRequest { tenant, database, collection_id, ids, filter })
}

/// Builds a record-count request.
pub fn build_count(tenant: String, database: String, collection_id: CollectionId) -> (r: Result<
    CountRecordsRequest,
    BindError,
>)
    ensures
        match identifier_fault(tenant@, database@) {
            Some(f) => r == Err::<CountRecordsRequest, BindError>(BindError::Validation(f)),
            None => r matches Ok(req) && req == (CountRecordsRequest {
                tenant,
                database,
                collection_id,
            }),
        },
{
    if tenant.as_str().is_empty() || database.as_str().is_empty() {
        return Err(BindError::Validation(ValidationFault::EmptyIdentifier));
    }
    Ok(CountRecordsRequest { tenant, database, collection_id })
}

/// An empty tenant or database name, if either is empty.
pub open spec fn identifier_fault(tenant: Seq<char>, database: Seq<char>) -> Option<
    ValidationFault,
> {
    if tenant.len() == 0 || database.len() == 0 {
        Some(ValidationFault::EmptyIdentifier)
    } else {
        None
    }
}

/// A collection-scoped identifier triple, if any part is empty.
pub open spec fn named_fault(tenant: Seq<char>, database: Seq<char>, name: Seq<char>) -> Option<
    ValidationFault,
> {
    if tenant.len() == 0 || database.len() == 0 || name.len() == 0 {
        Some(ValidationFault::EmptyIdentifier)
    } else {
        None
    }
}

/// Builds a create-collection request. `get_or_create` is carried through
/// unchanged: with it set, an existing collection of the same name is
/// returned by the engine rather than re-created.
pub fn build_create_collection(
    tenant: String,
    database: String,
    name: String,
    metadata: Option<Metadata>,
    configuration: Option<JsonValue>,
    get_or_create: bool,
) -> (r: Result<CreateCollectionRequest, BindError>)
    ensures
        match named_fault(tenant@, database@, name@) {
            Some(f) => r == Err::<CreateCollectionRequest, BindError>(BindError::Validation(f)),
            None => r matches Ok(req) && req == (CreateCollectionRequest {
                tenant,
                database,
                name,
                metadata,
                configuration,
                get_or_create,
            }),
        },
{
    if tenant.as_str().is_empty() || database.as_str().is_empty() || name.as_str().is_empty() {
        return Err(BindError::Validation(ValidationFault::EmptyIdentifier));
    }
    Ok(CreateCollectionRequest { tenant, database, name, metadata, configuration, get_or_create })
}

/// Builds a get-collection request.
pub fn build_get_collection(tenant: String, database: String, name: String) -> (r: Result<
    GetCollectionRequest,
    BindError,
>)
    ensures
        match named_fault(tenant@, database@, name@) {
            Some(f) => r == Err::<GetCollectionRequest, BindError>(BindError::Validation(f)),
            None => r matches Ok(req) && req == (GetCollectionRequest { tenant, database, name }),
        },
{
    if tenant.as_str().is_empty() || database.as_str().is_empty() || name.as_str().is_empty() {
        return Err(BindError::Validation(ValidationFault::EmptyIdentifier));
    }
    Ok(GetCollectionRequest { tenant, database, name })
}

/// Builds a delete-collection request.
pub fn build_delete_collection(tenant: String, database: String, name: String) -> (r: Result<
    DeleteCollectionRequest,
    BindError,
>)
    ensures
        match named_fault(tenant@, database@, name@) {
            Some(f) => r == Err::<DeleteCollectionRequest, BindError>(BindError::Validation(f)),
            None => r matches Ok(req) && req == (DeleteCollectionRequest { tenant, database, name }),
        },
{
    if tenant.as_str().is_empty() || database.as_str().is_empty() || name.as_str().is_empty() {
        return Err(BindError::Validation(ValidationFault::EmptyIdentifier));
    }
    Ok(DeleteCollectionRequest { tenant, database, name })
}

/// Builds a list-collections request; a missing offset means the start.
pub fn build_list_collections(
    tenant: String,
    database: String,
    limit: Option<u32>,
    offset: Option<u32>,
) -> (r: Result<ListCollectionsRequest, BindError>)
    ensures
        match identifier_fault(tenant@, database@) {
            Some(f) => r == Err::<ListCollectionsRequest, BindError>(BindError::Validation(f)),
            None => r matches Ok(req) && req == (ListCollectionsRequest {
                tenant,
                database,
                limit,
                offset: (match offset {
                    Some(o) => o,
                    None => 0u32,
                }),
            }),
        },
{
    if tenant.as_str().is_empty() || database.as_str().is_empty() {
        return Err(BindError::Validation(ValidationFault::EmptyIdentifier));
    }
    let off: u32 = match offset {
        Some(o) => o,
        None => 0,
    };
    Ok(ListCollectionsRequest { tenant, database, limit, offset: off })
}

/// Builds an update-collection request; a new name, when given, must be
/// non-empty.
pub fn build_update_collection(
    collection_id: CollectionId,
    new_name: Option<String>,
    new_metadata: Option<UpdateMetadata>,
) -> (r: Result<UpdateCollectionRequest, BindError>)
    ensures
        match new_name {
            Some(n) if n@.len() == 0 => r == Err::<UpdateCollectionRequest, BindError>(
                BindError::Validation(ValidationFault::EmptyIdentifier),
            ),
            _ => r matches Ok(req) && req == (UpdateCollectionRequest {
                collection_id,
                new_name,
                new_metadata,
            }),
        },
{
    let bad = match &new_name {
        Some(n) => n.as_str().is_empty(),
        None => false,
    };
    if bad {
        return Err(BindError::Validation(ValidationFault::EmptyIdentifier));
    }
    Ok(UpdateCollectionRequest { collection_id, new_name, new_metadata })
}

/// Builds a create-database request.
pub fn build_create_database(tenant: String, name: String) -> (r: Result<
    CreateDatabaseRequest,
    BindError,
>)
    ensures
        match identifier_fault(tenant@, name@) {
            Some(f) => r == Err::<CreateDatabaseRequest, BindError>(BindError::Validation(f)),
            None => r matches Ok(req) && req == (CreateDatabaseRequest { tenant, name }),
        },
{
    if tenant.as_str().is_empty() || name.as_str().is_empty() {
        return Err(BindError::Validation(ValidationFault::EmptyIdentifier));
    }
    Ok(CreateDatabaseRequest { tenant, name })
}

/// Builds a get-database request.
pub fn build_get_database(tenant: String, name: String) -> (r: Result<GetDatabaseRequest, BindError>)
    ensures
        match identifier_fault(tenant@, name@) {
            Some(f) => r == Err::<GetDatabaseRequest, BindError>(BindError::Validation(f)),
            None => r matches Ok(req) && req == (GetDatabaseRequest { tenant, name }),
        },
{
    if tenant.as_str().is_empty() || name.as_str().is_empty() {
        return Err(BindError::Validation(ValidationFault::EmptyIdentifier));
    }
    Ok(GetDatabaseRequest { tenant, name })
}

/// Builds a delete-database request.
pub fn build_delete_database(tenant: String, name: String) -> (r: Result<
    DeleteDatabaseRequest,
    BindError,
>)
    ensures
        match identifier_fault(tenant@, name@) {
            Some(f) => r == Err::<DeleteDatabaseRequest, BindError>(BindError::Validation(f)),
            None => r matches Ok(req) && req == (DeleteDatabaseRequest { tenant, name }),
        },
{
    if tenant.as_str().is_empty() || name.as_str().is_empty() {
        return Err(BindError::Validation(ValidationFault::EmptyIdentifier));
    }
    Ok(DeleteDatabaseRequest { tenant, name })
}

/// Builds a list-databases request.
pub fn build_list_databases(tenant: String, limit: Option<u32>, offset: Option<u32>) -> (r: Result<
    ListDatabasesRequest,
    BindError,
>)
    ensures
        match (if tenant@.len() == 0 {
            Some(ValidationFault::EmptyIdentifier)
        } else {
            None
        }) {
            Some(f) => r == Err::<ListDatabasesRequest, BindError>(BindError::Validation(f)),
            None => r matches Ok(req) && req == (ListDatabasesRequest {
                tenant,
                limit,
                offset: (match offset {
                    Some(o) => o,
                    None => 0u32,
                }),
            }),
        },
{
    if tenant.as_str().is_empty() {
        return Err(BindError::Validation(ValidationFault::EmptyIdentifier));
    }
    let off: u32 = match offset {
        Some(o) => o,
        None => 0,
    };
    Ok(ListDatabasesRequest { tenant, limit, offset: off })
}

/// Builds a create-tenant request.
pub fn build_create_tenant(name: String) -> (r: Result<CreateTenantRequest, BindError>)
    ensures
        name@.len() == 0 ==> r == Err::<CreateTenantRequest, BindError>(
            BindError::Validation(ValidationFault::EmptyIdentifier),
        ),
        name@.len() > 0 ==> (r matches Ok(req) && req == (CreateTenantRequest { name })),
{
    if name.as_str().is_empty() {
        return Err(BindError::Validation(ValidationFault::EmptyIdentifier));
    }
    Ok(CreateTenantRequest { name })
}

/// Builds a get-tenant request.
pub fn build_get_tenant(name: String) -> (r: Result<GetTenantRequest, BindError>)
    ensures
        name@.len() == 0 ==> r == Err::<GetTenantRequest, BindError>(
            BindError::Validation(ValidationFault::EmptyIdentifier),
        ),
        name@.len() > 0 ==> (r matches Ok(req) && req == (GetTenantRequest { name })),
{
    if name.as_str().is_empty() {
        return Err(BindError::Validation(ValidationFault::EmptyIdentifier));
    }
    Ok(GetTenantRequest { name })
}

} // verus!
