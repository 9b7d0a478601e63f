use vstd::prelude::*;

verus! {

/// A decoded JSON document. Numbers keep their source text untouched, so no
/// precision is lost between the wire form and the engine; object fields keep
/// their decoded order.
#[derive(Debug)]
pub enum JsonValue {
    Null,
    Bool(bool),
    /// A number, as its raw JSON text (for example `-12`, `0.5`, `1e-3`).
    Num(String),
    Str(String),
    Arr(Vec<JsonValue>),
    Obj(Vec<(String, JsonValue)>),
}

/// The mathematical model of a JSON document.
#[verifier::ext_equal]
pub enum Jv {
    Null,
    Bool(bool),
    Num(Seq<char>),
    Str(Seq<char>),
    Arr(Seq<Jv>),
    Obj(Seq<(Seq<char>, Jv)>),
}

/// The model of one tree node.
pub open spec fn jv_of(v: JsonValue) -> Jv
    decreases v, 0int,
{
    match v {
        JsonValue::Null => Jv::Null,
        JsonValue::Bool(b) => Jv::Bool(b),
        JsonValue::Num(s) => Jv::Num(s@),
        JsonValue::Str(s) => Jv::Str(s@),
        JsonValue::Arr(items) => Jv::Arr(jv_of_list(items@, items@.len() as int)),
        JsonValue::Obj(fields) => Jv::Obj(jv_of_fields(fields@, fields@.len() as int)),
    }
}

/// The models of the first `n` items of an array.
pub open spec fn jv_of_list(items: Seq<JsonValue>, n: int) -> Seq<Jv>
    decreases items, n,
{
    if n <= 0 || n > items.len() {
        Seq::empty()
    } else {
        jv_of_list(items, n - 1).push(jv_of(items[n - 1]))
    }
}

/// The models of the first `n` fields of an object.
pub open spec fn jv_of_fields(fields: Seq<(String, JsonValue)>, n: int) -> Seq<(Seq<char>, Jv)>
    decreases fields, n,
{
    if n <= 0 || n > fields.len() {
        Seq::empty()
    } else {
        jv_of_fields(fields, n - 1).push((fields[n - 1].0@, jv_of(fields[n - 1].1)))
    }
}

impl View for JsonValue {
    type V = Jv;

    open spec fn view(&self) -> Jv {
        jv_of(*self)
    }
}

/// The model of an array node indexes through to the items' models.
pub proof fn lemma_jv_of_list(items: Seq<JsonValue>, n: int)
    requires
        0 <= n <= items.len(),
    ensures
        jv_of_list(items, n).len() == n,
        forall|i: int| 0 <= i < n ==> jv_of_list(items, n)[i] == jv_of(items[i]),
    decreases n,
{
    if n > 0 {
        lemma_jv_of_list(items, n - 1);
    }
}

/// The model of an object node indexes through to the fields' models.
pub proof fn lemma_jv_of_fields(fields: Seq<(String, JsonValue)>, n: int)
    requires
        0 <= n <= fields.len(),
    ensures
        jv_of_fields(fields, n).len() == n,
        forall|i: int|
            0 <= i < n ==> jv_of_fields(fields, n)[i] == (fields[i].0@, jv_of(fields[i].1)),
    decreases n,
{
    if n > 0 {
        lemma_jv_of_fields(fields, n - 1);
    }
}

/// The keys of a modelled JSON object, in field order.
pub open spec fn obj_keys(fields: Seq<(Seq<char>, Jv)>) -> Seq<Seq<char>> {
    fields.map_values(|f: (Seq<char>, Jv)| f.0)
}

/// True when no two fields of a modelled JSON object share a key.
pub open spec fn obj_keys_unique(fields: Seq<(Seq<char>, Jv)>) -> bool {
    forall|i: int, j: int|
        0 <= i < j < fields.len() ==> fields[i].0 != fields[j].0
}

/// Declares serde_json's document type, so the conversion wrappers below can
/// take and return it; its inside stays opaque here.
#[verifier::external_type_specification]
#[verifier::external_body]
pub struct ExSerdeValue(serde_json::Value);

/// The value, if any, that a JSON text denotes: what `serde_json::from_str`
/// accepts and how the accepted text maps to a `Jv` tree.
pub uninterp spec fn json_text_value(s: Seq<char>) -> Result<Jv, ()>;

/// The canonical text of a JSON value: what `serde_json::to_string` prints
/// for the tree.
pub uninterp spec fn json_value_text(v: Jv) -> Seq<char>;

/// Relies on serde_json::Value: each arm moves one variant of the parsed
/// document into the library's tree; a number is carried as its text, which
/// the `arbitrary_precision` build of serde_json keeps verbatim.
#[verifier::external_body]
fn tree_of_serde(v: serde_json::Value) -> JsonValue {
    match v {
        serde_json::Value::Null => JsonValue::Null,
        serde_json::Value::Bool(b) => JsonValue::Bool(b),
        serde_json::Value::Number(n) => JsonValue::Num(n.to_string()),
        serde_json::Value::String(s) => JsonValue::Str(s),
        serde_json::Value::Array(items) => JsonValue::Arr(
            items.into_iter().map(tree_of_serde).collect(),
        ),
        serde_json::Value::Object(fields) => JsonValue::Obj(
            fields.into_iter().map(|f| (f.0, tree_of_serde(f.1))).collect(),
        ),
    }
}

/// Relies on serde_json::Number::from_str (exact for a valid JSON number under
/// `arbitrary_precision`): each arm moves one variant of the library's tree
/// back into a serde_json document.
#[verifier::external_body]
fn serde_of_tree(v: &JsonValue) -> serde_json::Value
    requires
        nums_wf(v@),
{
    match v {
        JsonValue::Null => serde_json::Value::Null,
        JsonValue::Bool(b) => serde_json::Value::Bool(*b),
        JsonValue::Num(s) => serde_json::Value::Number(s.parse().unwrap()),
        JsonValue::Str(s) => serde_json::Value::String(s.clone()),
        JsonValue::Arr(items) => serde_json::Value::Array(items.iter().map(serde_of_tree).collect()),
        JsonValue::Obj(fields) => serde_json::Value::Object(
            fields.iter().map(|f| (f.0.clone(), serde_of_tree(&f.1))).collect(),
        ),
    }
}

/// Every number node of the tree carries well-formed JSON number text.
pub open spec fn nums_wf(v: Jv) -> bool
    decreases v,
{
    match v {
        Jv::Null => true,
        Jv::Bool(_) => true,
        Jv::Num(s) => crate::numtext::is_json_number(s),
        Jv::Str(_) => true,
        Jv::Arr(items) => nums_wf_list(items, items.len() as int),
        Jv::Obj(fields) => nums_wf_fields(fields, fields.len() as int),
    }
}

/// `nums_wf` over the first `n` items of an array.
pub open spec fn nums_wf_list(items: Seq<Jv>, n: int) -> bool
    decreases items, n,
{
    if n <= 0 || n > items.len() {
        true
    } else {
        nums_wf_list(items, n - 1) && nums_wf(items[n - 1])
    }
}

/// `nums_wf` over the first `n` fields of an object.
pub open spec fn nums_wf_fields(fields: Seq<(Seq<char>, Jv)>, n: int) -> bool
    decreases fields, n,
{
    if n <= 0 || n > fields.len() {
        true
    } else {
        nums_wf_fields(fields, n - 1) && nums_wf(fields[n - 1].1)
    }
}

/// Pushing one item models as pushing the item's model.
pub proof fn lemma_jv_of_list_push(prev: Seq<JsonValue>, x: JsonValue)
    ensures
        jv_of_list(prev.push(x), prev.push(x).len() as int) =~= jv_of_list(
            prev,
            prev.len() as int,
        ).push(jv_of(x)),
{
    let all = prev.push(x);
    lemma_jv_of_list(all, all.len() as int);
    lemma_jv_of_list(prev, prev.len() as int);
    assert(forall|k: int| 0 <= k < prev.len() ==> all[k] == prev[k]);
    assert(all[prev.len() as int] == x);
}

/// Elementwise number well-formedness gives the recursive form, for arrays.
pub proof fn lemma_nums_wf_list(items: Seq<Jv>, n: int)
    requires
        0 <= n <= items.len(),
        forall|k: int| 0 <= k < n ==> nums_wf(#[trigger] items[k]),
    ensures
        nums_wf_list(items, n),
    decreases n,
{
    if n > 0 {
        lemma_nums_wf_list(items, n - 1);
    }
}

/// Elementwise number well-formedness gives the recursive form, for objects.
pub proof fn lemma_nums_wf_fields(fields: Seq<(Seq<char>, Jv)>, n: int)
    requires
        0 <= n <= fields.len(),
        forall|k: int| 0 <= k < n ==> nums_wf(#[trigger] fields[k].1),
    ensures
        nums_wf_fields(fields, n),
    decreases n,
{
    if n > 0 {
        lemma_nums_wf_fields(fields, n - 1);
    }
}

/// Relies on serde_json::from_str::<Value>: the parse of a text is a function
/// of the text alone, named by `json_text_value`. On rejected text the error's
/// own message is handed back.
#[verifier::external_body]
pub fn parse_json_text(s: &str) -> (r: Result<JsonValue, String>)
    ensures
        match json_text_value(s@) {
            Ok(jv) => r matches Ok(t) && t@ == jv,
            Err(_) => r is Err,
        },
{
    match serde_json::from_str::<serde_json::Value>(s) {
        Ok(v) => Ok(tree_of_serde(v)),
        Err(e) => Err(format!("{}", e)),
    }
}

/// Relies on serde_json::to_string::<Value>: printing a tree is a function of
/// the tree alone, named by `json_value_text`; on a `Value` built of these
/// variants it cannot fail.
#[verifier::external_body]
pub fn print_json_text(v: &JsonValue) -> (r: String)
    requires
        nums_wf(v@),
    ensures
        r@ == json_value_text(v@),
{
    match serde_json::to_string(&serde_of_tree(v)) {
        Ok(s) => s,
        Err(e) => format!("{}", e),
    }
}

} // verus!
