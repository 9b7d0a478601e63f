use vstd::prelude::*;
use crate::ident::CollectionId;
use crate::json::{JsonValue, Jv, jv_of, jv_of_list, jv_of_fields, lemma_jv_of_list,
    lemma_jv_of_fields, lemma_nums_wf_list, lemma_nums_wf_fields, nums_wf, json_value_text,
    print_json_text};
use crate::metadata::{Metadata, metadata_to_tree, spec_tree_of_metadata};
use crate::numtext::{dec_int, lemma_dec_int_roundtrip, format_i64};

verus! {

/// One nibble of a 128-bit value, counting from the most significant.
pub open spec fn uuid_nibble(u: u128, i: int) -> u128 {
    (u >> (((31 - i) * 4) as u128)) & 0xf
}

pub open spec fn hex_char(d: u128) -> char {
    if d == 0 {
        '0'
    } else if d == 1 {
        '1'
    } else if d == 2 {
        '2'
    } else if d == 3 {
        '3'
    } else if d == 4 {
        '4'
    } else if d == 5 {
        '5'
    } else if d == 6 {
        '6'
    } else if d == 7 {
        '7'
    } else if d == 8 {
        '8'
    } else if d == 9 {
        '9'
    } else if d == 10 {
        'a'
    } else if d == 11 {
        'b'
    } else if d == 12 {
        'c'
    } else if d == 13 {
        'd'
    } else if d == 14 {
        'e'
    } else {
        'f'
    }
}

/// The lower-case hex characters of nibbles `a` to `b` of a 128-bit value.
pub open spec fn uuid_hex_run(u: u128, a: int, b: int) -> Seq<char> {
    Seq::new((b - a) as nat, |k: int| hex_char(uuid_nibble(u, a + k)))
}

/// The canonical hyphenated lower-case text of a 128-bit identifier.
pub open spec fn canonical_uuid_text(u: u128) -> Seq<char> {
    uuid_hex_run(u, 0, 8) + seq!['-'] + uuid_hex_run(u, 8, 12) + seq!['-'] + uuid_hex_run(u, 12, 16)
        + seq!['-'] + uuid_hex_run(u, 16, 20) + seq!['-'] + uuid_hex_run(u, 20, 32)
}

/// Relies on uuid::Uuid::from_u128 and its hyphenated Display: the canonical
/// text of the identifier, lower-case hex in five hyphen-separated groups.
#[verifier::external_body]
pub fn format_collection_id(c: CollectionId) -> (r: String)
    ensures
        r@ == canonical_uuid_text(c.id),
{
    uuid::Uuid::from_u128(c.id).hyphenated().to_string()
}

/// What the engine reports of one collection, as plain values.
#[derive(Debug, Clone)]
pub struct CollectionInfo {
    pub id: CollectionId,
    pub name: String,
    pub tenant: String,
    pub database: String,
    pub metadata: Option<Metadata>,
    /// The embedding dimensionality, once the collection has one.
    pub dimension: Option<u32>,
}

impl CollectionInfo {
    pub open spec fn wf(self) -> bool {
        match self.metadata {
            None => true,
            Some(m) => m.wf(),
        }
    }
}

/// The canonical JSON document for one collection.
pub open spec fn spec_tree_of_collection(c: CollectionInfo) -> Jv {
    Jv::Obj(
        seq![
            ("id"@, Jv::Str(canonical_uuid_text(c.id.id))),
            ("name"@, Jv::Str(c.name@)),
            ("tenant"@, Jv::Str(c.tenant@)),
            ("database"@, Jv::Str(c.database@)),
            (
                "metadata"@,
                match c.metadata {
                    None => Jv::Null,
                    Some(m) => spec_tree_of_metadata(m@),
                },
            ),
            (
                "dimension"@,
                match c.dimension {
                    None => Jv::Null,
                    Some(d) => Jv::Num(dec_int(d as int)),
                },
            ),
        ],
    )
}

/// Builds the JSON document for one collection.
#[verifier::loop_isolation(false)]
pub fn collection_to_tree(c: &CollectionInfo) -> (t: JsonValue)
    requires
        c.wf(),
    ensures
        t@ == spec_tree_of_collection(*c),
        nums_wf(t@),
{
    let id_text = format_collection_id(c.id);
    let md_leaf: JsonValue = match &c.metadata {
        None => JsonValue::Null,
        Some(m) => metadata_to_tree(m),
    };
    let dim_leaf: JsonValue = match c.dimension {
        None => JsonValue::Null,
        Some(d) => {
            proof {
                lemma_dec_int_roundtrip(d as int);
            }
            JsonValue::Num(format_i64(d as i64))
        },
    };
    let mut fields: Vec<(String, JsonValue)> = Vec::new();
    fields.push((string_lit_id(), JsonValue::Str(id_text)));
    fields.push((string_lit_name(), JsonValue::Str(c.name.clone())));
    fields.push((string_lit_tenant(), JsonValue::Str(c.tenant.clone())));
    fields.push((string_lit_database(), JsonValue::Str(c.database.clone())));
    fields.push((string_lit_metadata(), md_leaf));
    fields.push((string_lit_dimension(), dim_leaf));
    proof {
        lemma_jv_of_fields(fields@, fields@.len() as int);
        assert(jv_of_fields(fields@, fields@.len() as int) =~= spec_tree_of_collection(*c)->Obj_0);
        lemma_nums_wf_fields(jv_of_fields(fields@, fields@.len() as int), fields@.len() as int);
    }
    JsonValue::Obj(fields)
}

fn string_lit_id() -> (s: String)
    ensures
        s@ == "id"@,
{
    String::from_str("id")
}

fn string_lit_name() -> (s: String)
    ensures
        s@ == "name"@,
{
    String::from_str("name")
}

fn string_lit_tenant() -> (s: String)
    ensures
        s@ == "tenant"@,
{
    String::from_str("tenant")
}

fn string_lit_database() -> (s: String)
    ensures
        s@ == "database"@,
{
    String::from_str("database")
}

fn string_lit_metadata() -> (s: String)
    ensures
        s@ == "metadata"@,
{
    String::from_str("metadata")
}

fn string_lit_dimension() -> (s: String)
    ensures
        s@ == "dimension"@,
{
    String::from_str("dimension")
}

/// Encodes one collection as canonical JSON text, the success payload of the
/// collection operations.
pub fn encode_collection(c: &CollectionInfo) -> (r: String)
    requires
        c.wf(),
    ensures
        r@ == json_value_text(spec_tree_of_collection(*c)),
{
    let tree = collection_to_tree(c);
    print_json_text(&tree)
}

/// The canonical JSON array for a collection listing.
pub open spec fn spec_tree_of_collections(list: Seq<CollectionInfo>) -> Jv {
    Jv::Arr(list.map_values(|c: CollectionInfo| spec_tree_of_collection(c)))
}

/// Encodes a collection listing as canonical JSON text.
#[verifier::loop_isolation(false)]
pub fn encode_collection_list(list: &Vec<CollectionInfo>) -> (r: String)
    requires
        forall|k: int| 0 <= k < list@.len() ==> (#[trigger] list@[k]).wf(),
    ensures
        r@ == json_value_text(spec_tree_of_collections(list@)),
{
    let n = list.len();
    let mut items: Vec<JsonValue> = Vec::new();
    let mut i: usize = 0;
    while i < n
        invariant
            0 <= i <= n,
            items@.len() == i,
            forall|k: int| 0 <= k < i ==> #[trigger] jv_of_list(items@, items@.len() as int)[k]
                == spec_tree_of_collection(list@[k]),
            jv_of_list(items@, items@.len() as int).len() == i,
            forall|k: int| 0 <= k < i ==> nums_wf(
                #[trigger] jv_of_list(items@, items@.len() as int)[k],
            ),
        decreases n - i,
    {
        let tree = collection_to_tree(&list[i]);
        let ghost tree_model = tree@;
        let ghost prev = items@;
        items.push(tree);
        proof {
            lemma_jv_of_list(items@, items@.len() as int);
            lemma_jv_of_list(prev, prev.len() as int);
            assert forall|k: int|
                0 <= k < i + 1 implies #[trigger] jv_of_list(items@, items@.len() as int)[k]
                == spec_tree_of_collection(list@[k]) && nums_wf(
                jv_of_list(items@, items@.len() as int)[k],
            ) by {
                if k < i {
                    assert(items@[k] == prev[k]);
                    assert(jv_of_list(prev, prev.len() as int)[k] == spec_tree_of_collection(
                        list@[k],
                    ));
                    assert(nums_wf(jv_of_list(prev, prev.len() as int)[k]));
                } else {
                    assert(jv_of(items@[k]) == tree_model);
                }
            }
        }
        i = i + 1;
    }
    proof {
        lemma_jv_of_list(items@, items@.len() as int);
        assert(jv_of_list(items@, items@.len() as int) =~= spec_tree_of_collections(
            list@,
        )->Arr_0);
        lemma_nums_wf_list(jv_of_list(items@, items@.len() as int), n as int);
    }
    let tree = JsonValue::Arr(items);
    print_json_text(&tree)
}

/// What the engine reports of one database.
#[derive(Debug, Clone)]
pub struct DatabaseInfo {
    pub id: CollectionId,
    pub name: String,
    pub tenant: String,
}

/// The canonical JSON document for one database.
pub open spec fn spec_tree_of_database(d: DatabaseInfo) -> Jv {
    Jv::Obj(
        seq![
            ("id"@, Jv::Str(canonical_uuid_text(d.id.id))),
            ("name"@, Jv::Str(d.name@)),
            ("tenant"@, Jv::Str(d.tenant@)),
        ],
    )
}

/// Encodes one database as canonical JSON text.
pub fn encode_database(d: &DatabaseInfo) -> (r: String)
    ensures
        r@ == json_value_text(spec_tree_of_database(*d)),
{
    let id_text = format_collection_id(d.id);
    let mut fields: Vec<(String, JsonValue)> = Vec::new();
    fields.push((string_lit_id(), JsonValue::Str(id_text)));
    fields.push((string_lit_name(), JsonValue::Str(d.name.clone())));
    fields.push((string_lit_tenant(), JsonValue::Str(d.tenant.clone())));
    proof {
        lemma_jv_of_fields(fields@, fields@.len() as int);
        assert(jv_of_fields(fields@, fields@.len() as int) =~= spec_tree_of_database(*d)->Obj_0);
        lemma_nums_wf_fields(jv_of_fields(fields@, fields@.len() as int), fields@.len() as int);
    }
    let tree = JsonValue::Obj(fields);
    print_json_text(&tree)
}

/// The canonical JSON array for a database listing.
pub open spec fn spec_tree_of_databases(list: Seq<DatabaseInfo>) -> Jv {
    Jv::Arr(list.map_values(|d: DatabaseInfo| spec_tree_of_database(d)))
}

/// Encodes a database listing as canonical JSON text.
#[verifier::loop_isolation(false)]
pub fn encode_database_list(list: &Vec<DatabaseInfo>) -> (r: String)
    ensures
        r@ == json_value_text(spec_tree_of_databases(list@)),
{
    let n = list.len();
    let mut items: Vec<JsonValue> = Vec::new();
    let mut i: usize = 0;
    while i < n
        invariant
            0 <= i <= n,
            items@.len() == i,
            forall|k: int| 0 <= k < i ==> #[trigger] jv_of_list(items@, items@.len() as int)[k]
                == spec_tree_of_database(list@[k]),
            jv_of_list(items@, items@.len() as int).len() == i,
            forall|k: int| 0 <= k < i ==> nums_wf(
                #[trigger] jv_of_list(items@, items@.len() as int)[k],
            ),
        decreases n - i,
    {
        let d = &list[i];
        let id_text = format_collection_id(d.id);
        let mut fields: Vec<(String, JsonValue)> = Vec::new();
        fields.push((string_lit_id(), JsonValue::Str(id_text)));
        fields.push((string_lit_name(), JsonValue::Str(d.name.clone())));
        fields.push((string_lit_tenant(), JsonValue::Str(d.tenant.clone())));
        proof {
            lemma_jv_of_fields(fields@, fields@.len() as int);
            assert(jv_of_fields(fields@, fields@.len() as int) =~= spec_tree_of_database(
                list@[i as int],
            )->Obj_0);
            lemma_nums_wf_fields(jv_of_fields(fields@, fields@.len() as int), fields@.len() as int);
        }
        let tree = JsonValue::Obj(fields);
        let ghost tree_model = tree@;
        let ghost prev = items@;
        items.push(tree);
        proof {
            lemma_jv_of_list(items@, items@.len() as int);
            lemma_jv_of_list(prev, prev.len() as int);
            assert forall|k: int|
                0 <= k < i + 1 implies #[trigger] jv_of_list(items@, items@.len() as int)[k]
                == spec_tree_of_database(list@[k]) && nums_wf(
                jv_of_list(items@, items@.len() as int)[k],
            ) by {
                if k < i {
                    assert(items@[k] == prev[k]);
                    assert(jv_of_list(prev, prev.len() as int)[k] == spec_tree_of_database(
                        list@[k],
                    ));
                    assert(nums_wf(jv_of_list(prev, prev.len() as int)[k]));
                } else {
                    assert(jv_of(items@[k]) == tree_model);
                }
            }
        }
        i = i + 1;
    }
    proof {
        lemma_jv_of_list(items@, items@.len() as int);
        assert(jv_of_list(items@, items@.len() as int) =~= spec_tree_of_databases(list@)->Arr_0);
        lemma_nums_wf_list(jv_of_list(items@, items@.len() as int), n as int);
    }
    let tree = JsonValue::Arr(items);
    print_json_text(&tree)
}

/// What the engine reports of one tenant.
#[derive(Debug, Clone)]
pub struct TenantInfo {
    pub name: String,
}

/// The canonical JSON document for one tenant.
pub open spec fn spec_tree_of_tenant(t: TenantInfo) -> Jv {
    Jv::Obj(seq![("name"@, Jv::Str(t.name@))])
}

/// Encodes one tenant as canonical JSON text.
pub fn encode_tenant(t: &TenantInfo) -> (r: String)
    ensures
        r@ == json_value_text(spec_tree_of_tenant(*t)),
{
    let mut fields: Vec<(String, JsonValue)> = Vec::new();
    fields.push((string_lit_name(), JsonValue::Str(t.name.clone())));
    proof {
        lemma_jv_of_fields(fields@, fields@.len() as int);
        assert(jv_of_fields(fields@, fields@.len() as int) =~= spec_tree_of_tenant(*t)->Obj_0);
        lemma_nums_wf_fields(jv_of_fields(fields@, fields@.len() as int), fields@.len() as int);
    }
    let tree = JsonValue::Obj(fields);
    print_json_text(&tree)
}

} // verus!
