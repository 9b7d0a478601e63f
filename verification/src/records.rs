use vstd::prelude::*;
use vstd::string::StringExecFns;
use crate::json::{JsonValue, Jv, jv_of, jv_of_list, jv_of_fields, lemma_jv_of_list,
    lemma_jv_of_list_push, lemma_jv_of_fields, lemma_nums_wf_list, lemma_nums_wf_fields, nums_wf,
    json_value_text, print_json_text};
use crate::metadata::{Metadata, metadata_to_tree, spec_tree_of_metadata};
use crate::codec::opt_md_wf;
use crate::numtext::is_json_number;

verus! {

/// Every entry of the list is well-formed JSON number text.
pub open spec fn all_num_texts(v: Seq<String>) -> bool {
    forall|k: int| 0 <= k < v.len() ==> is_json_number((#[trigger] v[k])@)
}

/// Every row of the table is made of well-formed JSON number texts.
pub open spec fn all_num_rows(v: Seq<Vec<String>>) -> bool {
    forall|k: int| 0 <= k < v.len() ==> all_num_texts((#[trigger] v[k])@)
}

pub open spec fn spec_strs_tree(v: Seq<String>) -> Jv {
    Jv::Arr(v.map_values(|s: String| Jv::Str(s@)))
}

pub open spec fn spec_opt_strs_tree(v: Seq<Option<String>>) -> Jv {
    Jv::Arr(
        v.map_values(
            |o: Option<String>|
                match o {
                    None => Jv::Null,
                    Some(s) => Jv::Str(s@),
                },
        ),
    )
}

pub open spec fn spec_nums_tree(v: Seq<String>) -> Jv {
    Jv::Arr(v.map_values(|s: String| Jv::Num(s@)))
}

pub open spec fn spec_num_rows_tree(v: Seq<Vec<String>>) -> Jv {
    Jv::Arr(v.map_values(|row: Vec<String>| spec_nums_tree(row@)))
}

pub open spec fn spec_str_rows_tree(v: Seq<Vec<String>>) -> Jv {
    Jv::Arr(v.map_values(|row: Vec<String>| spec_strs_tree(row@)))
}

pub open spec fn spec_opt_str_rows_tree(v: Seq<Vec<Option<String>>>) -> Jv {
    Jv::Arr(v.map_values(|row: Vec<Option<String>>| spec_opt_strs_tree(row@)))
}

pub open spec fn spec_opt_mds_tree(v: Seq<Option<Metadata>>) -> Jv {
    Jv::Arr(
        v.map_values(
            |o: Option<Metadata>|
                match o {
                    None => Jv::Null,
                    Some(m) => spec_tree_of_metadata(m@),
                },
        ),
    )
}

pub open spec fn spec_opt_md_rows_tree(v: Seq<Vec<Option<Metadata>>>) -> Jv {
    Jv::Arr(v.map_values(|row: Vec<Option<Metadata>>| spec_opt_mds_tree(row@)))
}

pub open spec fn spec_num_tables_tree(v: Seq<Vec<Vec<String>>>) -> Jv {
    Jv::Arr(v.map_values(|table: Vec<Vec<String>>| spec_num_rows_tree(table@)))
}

/// Builds the JSON array of plain strings.
#[verifier::loop_isolation(false)]
fn strs_tree(v: &Vec<String>) -> (t: JsonValue)
    ensures
        t@ == spec_strs_tree(v@),
        nums_wf(t@),
{
    let ghost target = spec_strs_tree(v@)->Arr_0;
    let n = v.len();
    let mut items: Vec<JsonValue> = Vec::new();
    let mut i: usize = 0;
    while i < n
        invariant
            0 <= i <= n,
            items@.len() == i,
            jv_of_list(items@, items@.len() as int) =~= target.take(i as int),
            forall|k: int| 0 <= k < i ==> nums_wf(#[trigger] target[k]),
        decreases n - i,
    {
        let ghost prev = items@;
        items.push(JsonValue::Str(v[i].clone()));
        proof {
            lemma_jv_of_list_push(prev, items@[i as int]);
            assert(jv_of(items@[i as int]) == target[i as int]);
            assert(target.take((i + 1) as int) =~= target.take(i as int).push(target[i as int]));
            assert(nums_wf(target[i as int]));
        }
        i = i + 1;
    }
    proof {
        assert(target.take(n as int) =~= target);
        lemma_nums_wf_list(jv_of_list(items@, items@.len() as int), n as int);
    }
    JsonValue::Arr(items)
}

/// Builds the JSON array of strings or nulls.
#[verifier::loop_isolation(false)]
fn opt_strs_tree(v: &Vec<Option<String>>) -> (t: JsonValue)
    ensures
        t@ == spec_opt_strs_tree(v@),
        nums_wf(t@),
{
    let ghost target = spec_opt_strs_tree(v@)->Arr_0;
    let n = v.len();
    let mut items: Vec<JsonValue> = Vec::new();
    let mut i: usize = 0;
    while i < n
        invariant
            0 <= i <= n,
            items@.len() == i,
            jv_of_list(items@, items@.len() as int) =~= target.take(i as int),
            forall|k: int| 0 <= k < i ==> nums_wf(#[trigger] target[k]),
        decreases n - i,
    {
        let ghost prev = items@;
        let leaf: JsonValue = match &v[i] {
            None => JsonValue::Null,
            Some(s) => JsonValue::Str(s.clone()),
        };
        items.push(leaf);
        proof {
            lemma_jv_of_list_push(prev, items@[i as int]);
            assert(jv_of(items@[i as int]) == target[i as int]);
            assert(target.take((i + 1) as int) =~= target.take(i as int).push(target[i as int]));
            assert(nums_wf(target[i as int]));
        }
        i = i + 1;
    }
    proof {
        assert(target.take(n as int) =~= target);
        lemma_nums_wf_list(jv_of_list(items@, items@.len() as int), n as int);
    }
    JsonValue::Arr(items)
}

/// Builds the JSON array of numbers carried as their texts.
#[verifier::loop_isolation(false)]
fn nums_tree(v: &Vec<String>) -> (t: JsonValue)
    requires
        all_num_texts(v@),
    ensures
        t@ == spec_nums_tree(v@),
        nums_wf(t@),
{
    let ghost target = spec_nums_tree(v@)->Arr_0;
    let n = v.len();
    let mut items: Vec<JsonValue> = Vec::new();
    let mut i: usize = 0;
    while i < n
        invariant
            0 <= i <= n,
            items@.len() == i,
            jv_of_list(items@, items@.len() as int) =~= target.take(i as int),
            forall|k: int| 0 <= k < i ==> nums_wf(#[trigger] target[k]),
        decreases n - i,
    {
        let ghost prev = items@;
        items.push(JsonValue::Num(v[i].clone()));
        proof {
            lemma_jv_of_list_push(prev, items@[i as int]);
            assert(jv_of(items@[i as int]) == target[i as int]);
            assert(target.take((i + 1) as int) =~= target.take(i as int).push(target[i as int]));
            assert(is_json_number(v@[i as int]@));
            assert(nums_wf(target[i as int]));
        }
        i = i + 1;
    }
    proof {
        assert(target.take(n as int) =~= target);
        lemma_nums_wf_list(jv_of_list(items@, items@.len() as int), n as int);
    }
    JsonValue::Arr(items)
}

/// Builds the JSON array of number rows.
#[verifier::loop_isolation(false)]
fn num_rows_tree(v: &Vec<Vec<String>>) -> (t: JsonValue)
    requires
        all_num_rows(v@),
    ensures
        t@ == spec_num_rows_tree(v@),
        nums_wf(t@),
{
    let ghost target = spec_num_rows_tree(v@)->Arr_0;
    let n = v.len();
    let mut items: Vec<JsonValue> = Vec::new();
    let mut i: usize = 0;
    while i < n
        invariant
            0 <= i <= n,
            items@.len() == i,
            jv_of_list(items@, items@.len() as int) =~= target.take(i as int),
            forall|k: int| 0 <= k < i ==> nums_wf(#[trigger] target[k]),
        decreases n - i,
    {
        let ghost prev = items@;
        let row = nums_tree(&v[i]);
        items.push(row);
        proof {
            lemma_jv_of_list_push(prev, items@[i as int]);
            assert(jv_of(items@[i as int]) == target[i as int]);
            assert(target.take((i + 1) as int) =~= target.take(i as int).push(target[i as int]));
        }
        i = i + 1;
    }
    proof {
        assert(target.take(n as int) =~= target);
        lemma_nums_wf_list(jv_of_list(items@, items@.len() as int), n as int);
    }
    JsonValue::Arr(items)
}

/// Builds the JSON array of string rows.
#[verifier::loop_isolation(false)]
fn str_rows_tree(v: &Vec<Vec<String>>) -> (t: JsonValue)
    ensures
        t@ == spec_str_rows_tree(v@),
        nums_wf(t@),
{
    let ghost target = spec_str_rows_tree(v@)->Arr_0;
    let n = v.len();
    let mut items: Vec<JsonValue> = Vec::new();
    let mut i: usize = 0;
    while i < n
        invariant
            0 <= i <= n,
            items@.len() == i,
            jv_of_list(items@, items@.len() as int) =~= target.take(i as int),
            forall|k: int| 0 <= k < i ==> nums_wf(#[trigger] target[k]),
        decreases n - i,
    {
        let ghost prev = items@;
        let row = strs_tree(&v[i]);
        items.push(row);
        proof {
            lemma_jv_of_list_push(prev, items@[i as int]);
            assert(jv_of(items@[i as int]) == target[i as int]);
            assert(target.take((i + 1) as int) =~= target.take(i as int).push(target[i as int]));
        }
        i = i + 1;
    }
    proof {
        assert(target.take(n as int) =~= target);
        lemma_nums_wf_list(jv_of_list(items@, items@.len() as int), n as int);
    }
    JsonValue::Arr(items)
}

/// Builds the JSON array of string-or-null rows.
#[verifier::loop_isolation(false)]
fn opt_str_rows_tree(v: &Vec<Vec<Option<String>>>) -> (t: JsonValue)
    ensures
        t@ == spec_opt_str_rows_tree(v@),
        nums_wf(t@),
{
    let ghost target = spec_opt_str_rows_tree(v@)->Arr_0;
    let n = v.len();
    let mut items: Vec<JsonValue> = Vec::new();
    let mut i: usize = 0;
    while i < n
        invariant
            0 <= i <= n,
            items@.len() == i,
            jv_of_list(items@, items@.len() as int) =~= target.take(i as int),
            forall|k: int| 0 <= k < i ==> nums_wf(#[trigger] target[k]),
        decreases n - i,
    {
        let ghost prev = items@;
        let row = opt_strs_tree(&v[i]);
        items.push(row);
        proof {
            lemma_jv_of_list_push(prev, items@[i as int]);
            assert(jv_of(items@[i as int]) == target[i as int]);
            assert(target.take((i + 1) as int) =~= target.take(i as int).push(target[i as int]));
        }
        i = i + 1;
    }
    proof {
        assert(target.take(n as int) =~= target);
        lemma_nums_wf_list(jv_of_list(items@, items@.len() as int), n as int);
    }
    JsonValue::Arr(items)
}

/// Builds the JSON array of metadata objects or nulls.
#[verifier::loop_isolation(false)]
fn opt_mds_tree(v: &Vec<Option<Metadata>>) -> (t: JsonValue)
    requires
        opt_md_wf(v@),
    ensures
        t@ == spec_opt_mds_tree(v@),
        nums_wf(t@),
{
    let ghost target = spec_opt_mds_tree(v@)->Arr_0;
    let n = v.len();
    let mut items: Vec<JsonValue> = Vec::new();
    let mut i: usize = 0;
    while i < n
        invariant
            0 <= i <= n,
            items@.len() == i,
            jv_of_list(items@, items@.len() as int) =~= target.take(i as int),
            forall|k: int| 0 <= k < i ==> nums_wf(#[trigger] target[k]),
        decreases n - i,
    {
        let ghost prev = items@;
        let leaf: JsonValue = match &v[i] {
            None => JsonValue::Null,
            Some(m) => metadata_to_tree(m),
        };
        items.push(leaf);
        proof {
            lemma_jv_of_list_push(prev, items@[i as int]);
            assert(jv_of(items@[i as int]) == target[i as int]);
            assert(target.take((i + 1) as int) =~= target.take(i as int).push(target[i as int]));
            assert(nums_wf(target[i as int]));
        }
        i = i + 1;
    }
    proof {
        assert(target.take(n as int) =~= target);
        lemma_nums_wf_list(jv_of_list(items@, items@.len() as int), n as int);
    }
    JsonValue::Arr(items)
}

/// Every present metadata entry of every row is well formed.
pub open spec fn opt_md_rows_wf(v: Seq<Vec<Option<Metadata>>>) -> bool {
    forall|k: int| 0 <= k < v.len() ==> opt_md_wf((#[trigger] v[k])@)
}

/// Builds the JSON array of metadata rows.
#[verifier::loop_isolation(false)]
fn opt_md_rows_tree(v: &Vec<Vec<Option<Metadata>>>) -> (t: JsonValue)
    requires
        opt_md_rows_wf(v@),
    ensures
        t@ == spec_opt_md_rows_tree(v@),
        nums_wf(t@),
{
    let ghost target = spec_opt_md_rows_tree(v@)->Arr_0;
    let n = v.len();
    let mut items: Vec<JsonValue> = Vec::new();
    let mut i: usize = 0;
    while i < n
        invariant
            0 <= i <= n,
            items@.len() == i,
            jv_of_list(items@, items@.len() as int) =~= target.take(i as int),
            forall|k: int| 0 <= k < i ==> nums_wf(#[trigger] target[k]),
        decreases n - i,
    {
        let ghost prev = items@;
        let row = opt_mds_tree(&v[i]);
        items.push(row);
        proof {
            lemma_jv_of_list_push(prev, items@[i as int]);
            assert(jv_of(items@[i as int]) == target[i as int]);
            assert(target.take((i + 1) as int) =~= target.take(i as int).push(target[i as int]));
        }
        i = i + 1;
    }
    proof {
        assert(target.take(n as int) =~= target);
        lemma_nums_wf_list(jv_of_list(items@, items@.len() as int), n as int);
    }
    JsonValue::Arr(items)
}

/// Every table of the list is made of number-text rows.
pub open spec fn all_num_tables(v: Seq<Vec<Vec<String>>>) -> bool {
    forall|k: int| 0 <= k < v.len() ==> all_num_rows((#[trigger] v[k])@)
}

/// Builds the JSON array of number tables.
#[verifier::loop_isolation(false)]
fn num_tables_tree(v: &Vec<Vec<Vec<String>>>) -> (t: JsonValue)
    requires
        all_num_tables(v@),
    ensures
        t@ == spec_num_tables_tree(v@),
        nums_wf(t@),
{
    let ghost target = spec_num_tables_tree(v@)->Arr_0;
    let n = v.len();
    let mut items: Vec<JsonValue> = Vec::new();
    let mut i: usize = 0;
    while i < n
        invariant
            0 <= i <= n,
            items@.len() == i,
            jv_of_list(items@, items@.len() as int) =~= target.take(i as int),
            forall|k: int| 0 <= k < i ==> nums_wf(#[trigger] target[k]),
        decreases n - i,
    {
        let ghost prev = items@;
        let table = num_rows_tree(&v[i]);
        items.push(table);
        proof {
            lemma_jv_of_list_push(prev, items@[i as int]);
            assert(jv_of(items@[i as int]) == target[i as int]);
            assert(target.take((i + 1) as int) =~= target.take(i as int).push(target[i as int]));
        }
        i = i + 1;
    }
    proof {
        assert(target.take(n as int) =~= target);
        lemma_nums_wf_list(jv_of_list(items@, items@.len() as int), n as int);
    }
    JsonValue::Arr(items)
}

/// What the engine reports for a record-get, as plain values. Embedding
/// components arrive as JSON number texts, written by the caller of the
/// boundary before the result reaches this codec.
#[derive(Debug, Clone)]
pub struct GetResult {
    pub ids: Vec<String>,
    pub embeddings: Option<Vec<Vec<String>>>,
    pub documents: Option<Vec<Option<String>>>,
    pub uris: Option<Vec<Option<String>>>,
    pub metadatas: Option<Vec<Option<Metadata>>>,
}

impl GetResult {
    pub open spec fn wf(self) -> bool {
        &&& match self.embeddings {
            None => true,
            Some(e) => all_num_rows(e@),
        }
        &&& match self.metadatas {
            None => true,
            Some(m) => opt_md_wf(m@),
        }
    }
}

/// The canonical JSON document for a record-get result.
pub open spec fn spec_tree_of_get_result(g: GetResult) -> Jv {
    Jv::Obj(
        seq![
            ("ids"@, spec_strs_tree(g.ids@)),
            (
                "embeddings"@,
                match g.embeddings {
                    None => Jv::Null,
                    Some(e) => spec_num_rows_tree(e@),
                },
            ),
            (
                "documents"@,
                match g.documents {
                    None => Jv::Null,
                    Some(d) => spec_opt_strs_tree(d@),
                },
            ),
            (
                "uris"@,
                match g.uris {
                    None => Jv::Null,
                    Some(u) => spec_opt_strs_tree(u@),
                },
            ),
            (
                "metadatas"@,
                match g.metadatas {
                    None => Jv::Null,
                    Some(m) => spec_opt_mds_tree(m@),
                },
            ),
        ],
    )
}

fn lit_ids() -> (s: String)
    ensures
        s@ == "ids"@,
{
    String::from_str("ids")
}

fn lit_embeddings() -> (s: String)
    ensures
        s@ == "embeddings"@,
{
    String::from_str("embeddings")
}

fn lit_documents() -> (s: String)
    ensures
        s@ == "documents"@,
{
    String::from_str("documents")
}

fn lit_uris() -> (s: String)
    ensures
        s@ == "uris"@,
{
    String::from_str("uris")
}

fn lit_metadatas() -> (s: String)
    ensures
        s@ == "metadatas"@,
{
    String::from_str("metadatas")
}

fn lit_distances() -> (s: String)
    ensures
        s@ == "distances"@,
{
    String::from_str("distances")
}

/// Encodes a record-get result as canonical JSON text.
pub fn encode_get_result(g: &GetResult) -> (r: String)
    requires
        g.wf(),
    ensures
        r@ == json_value_text(spec_tree_of_get_result(*g)),
{
    let ids_leaf = strs_tree(&g.ids);
    let emb_leaf: JsonValue = match &g.embeddings {
        None => JsonValue::Null,
        Some(e) => num_rows_tree(e),
    };
    let doc_leaf: JsonValue = match &g.documents {
        None => JsonValue::Null,
        Some(d) => opt_strs_tree(d),
    };
    let uri_leaf: JsonValue = match &g.uris {
        None => JsonValue::Null,
        Some(u) => opt_strs_tree(u),
    };
    let md_leaf: JsonValue = match &g.metadatas {
        None => JsonValue::Null,
        Some(m) => opt_mds_tree(m),
    };
    let mut fields: Vec<(String, JsonValue)> = Vec::new();
    fields.push((lit_ids(), ids_leaf));
    fields.push((lit_embeddings(), emb_leaf));
    fields.push((lit_documents(), doc_leaf));
    fields.push((lit_uris(), uri_leaf));
    fields.push((lit_metadatas(), md_leaf));
    proof {
        lemma_jv_of_fields(fields@, fields@.len() as int);
        assert(jv_of_fields(fields@, fields@.len() as int) =~= spec_tree_of_get_result(*g)->Obj_0);
        lemma_nums_wf_fields(jv_of_fields(fields@, fields@.len() as int), fields@.len() as int);
    }
    let tree = JsonValue::Obj(fields);
    print_json_text(&tree)
}

/// What the engine reports for a query: one row per query embedding.
#[derive(Debug, Clone)]
pub struct QueryResult {
    pub ids: Vec<Vec<String>>,
    pub distances: Option<Vec<Vec<String>>>,
    pub embeddings: Option<Vec<Vec<Vec<String>>>>,
    pub documents: Option<Vec<Vec<Option<String>>>>,
    pub uris: Option<Vec<Vec<Option<String>>>>,
    pub metadatas: Option<Vec<Vec<Option<Metadata>>>>,
}

impl QueryResult {
    pub open spec fn wf(self) -> bool {
        &&& match self.distances {
            None => true,
            Some(d) => all_num_rows(d@),
        }
        &&& match self.embeddings {
            None => true,
            Some(e) => all_num_tables(e@),
        }
        &&& match self.metadatas {
            None => true,
            Some(m) => opt_md_rows_wf(m@),
        }
    }
}

/// The canonical JSON document for a query result.
pub open spec fn spec_tree_of_query_result(q: QueryResult) -> Jv {
    Jv::Obj(
        seq![
            ("ids"@, spec_str_rows_tree(q.ids@)),
            (
                "distances"@,
                match q.distances {
                    None => Jv::Null,
                    Some(d) => spec_num_rows_tree(d@),
                },
            ),
            (
                "embeddings"@,
                match q.embeddings {
                    None => Jv::Null,
                    Some(e) => spec_num_tables_tree(e@),
                },
            ),
            (
                "documents"@,
                match q.documents {
                    None => Jv::Null,
                    Some(d) => spec_opt_str_rows_tree(d@),
                },
            ),
            (
                "uris"@,
                match q.uris {
                    None => Jv::Null,
                    Some(u) => spec_opt_str_rows_tree(u@),
                },
            ),
            (
                "metadatas"@,
                match q.metadatas {
                    None => Jv::Null,
                    Some(m) => spec_opt_md_rows_tree(m@),
                },
            ),
        ],
    )
}

/// Encodes a query result as canonical JSON text.
pub fn encode_query_result(q: &QueryResult) -> (r: String)
    requires
        q.wf(),
    ensures
        r@ == json_value_text(spec_tree_of_query_result(*q)),
{
    let ids_leaf = str_rows_tree(&q.ids);
    let dist_leaf: JsonValue = match &q.distances {
        None => JsonValue::Null,
        Some(d) => num_rows_tree(d),
    };
    let emb_leaf: JsonValue = match &q.embeddings {
        None => JsonValue::Null,
        Some(e) => num_tables_tree(e),
    };
    let doc_leaf: JsonValue = match &q.documents {
        None => JsonValue::Null,
        Some(d) => opt_str_rows_tree(d),
    };
    let uri_leaf: JsonValue = match &q.uris {
        None => JsonValue::Null,
        Some(u) => opt_str_rows_tree(u),
    };
    let md_leaf: JsonValue = match &q.metadatas {
        None => JsonValue::Null,
        Some(m) => opt_md_rows_tree(m),
    };
    let mut fields: Vec<(String, JsonValue)> = Vec::new();
    fields.push((lit_ids(), ids_leaf));
    fields.push((lit_distances(), dist_leaf));
    fields.push((lit_embeddings(), emb_leaf));
    fields.push((lit_documents(), doc_leaf));
    fields.push((lit_uris(), uri_leaf));
    fields.push((lit_metadatas(), md_leaf));
    proof {
        lemma_jv_of_fields(fields@, fields@.len() as int);
        assert(jv_of_fields(fields@, fields@.len() as int) =~= spec_tree_of_query_result(
            *q,
        )->Obj_0);
        lemma_nums_wf_fields(jv_of_fields(fields@, fields@.len() as int), fields@.len() as int);
    }
    let tree = JsonValue::Obj(fields);
    print_json_text(&tree)
}

} // verus!
