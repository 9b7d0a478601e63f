use vstd::prelude::*;
use vstd::string::StringExecFns;
use crate::errors::BindError;
use crate::json::{JsonValue, Jv, jv_of, jv_of_fields, lemma_jv_of_fields, obj_keys_unique, nums_wf,
    lemma_nums_wf_fields};
use crate::numtext::{is_json_number, is_int_text, int_text_value, dec_int, is_json_number_x,
    parse_int_text_x, format_i64, lemma_dec_int_roundtrip};

verus! {

/// One scalar metadata value. A float keeps its JSON number text, so nothing
/// is rounded on the way through this layer.
#[derive(Debug, Clone, PartialEq, Eq)]
pub enum MetadataValue {
    Bool(bool),
    Int(i64),
    Float(String),
    Str(String),
}

/// The model of one scalar metadata value.
pub enum Mv {
    Bool(bool),
    Int(int),
    Float(Seq<char>),
    Str(Seq<char>),
}

impl View for MetadataValue {
    type V = Mv;

    open spec fn view(&self) -> Mv {
        match self {
            MetadataValue::Bool(b) => Mv::Bool(*b),
            MetadataValue::Int(i) => Mv::Int(*i as int),
            MetadataValue::Float(t) => Mv::Float(t@),
            MetadataValue::Str(s) => Mv::Str(s@),
        }
    }
}

/// A float value carries well-formed JSON number text that is not itself a
/// representable integer (such a text decodes as an integer instead); an
/// integer value fits `i64`.
pub open spec fn mv_wf(v: Mv) -> bool {
    match v {
        Mv::Bool(_) => true,
        Mv::Int(i) => i64::MIN <= i <= i64::MAX,
        Mv::Float(t) => is_json_number(t) && !(is_int_text(t) && i64::MIN <= int_text_value(t)
            <= i64::MAX),
        Mv::Str(_) => true,
    }
}

/// Full-replacement metadata: an ordered mapping from keys to scalar values.
#[derive(Debug, Clone, PartialEq, Eq)]
pub struct Metadata {
    pub pairs: Vec<(String, MetadataValue)>,
}

/// The modelled pairs of a metadata mapping.
pub open spec fn md_view(pairs: Seq<(String, MetadataValue)>) -> Seq<(Seq<char>, Mv)> {
    pairs.map_values(|p: (String, MetadataValue)| (p.0@, p.1@))
}

/// No two pairs share a key.
pub open spec fn md_keys_unique(pairs: Seq<(Seq<char>, Mv)>) -> bool {
    forall|i: int, j: int| 0 <= i < j < pairs.len() ==> pairs[i].0 != pairs[j].0
}

/// Keys unique and every value well formed.
pub open spec fn md_pairs_wf(pairs: Seq<(Seq<char>, Mv)>) -> bool {
    &&& md_keys_unique(pairs)
    &&& forall|i: int| 0 <= i < pairs.len() ==> mv_wf(#[trigger] pairs[i].1)
}

impl View for Metadata {
    type V = Seq<(Seq<char>, Mv)>;

    open spec fn view(&self) -> Seq<(Seq<char>, Mv)> {
        md_view(self.pairs@)
    }
}

impl Metadata {
    pub open spec fn wf(self) -> bool {
        md_pairs_wf(self@)
    }
}

/// One value of partial (update) metadata: a scalar, or `Unset` (decoded from
/// JSON `null`), which asks the engine to drop the key.
#[derive(Debug, Clone, PartialEq, Eq)]
pub enum UpdateMetadataValue {
    Unset,
    Bool(bool),
    Int(i64),
    Float(String),
    Str(String),
}

/// The model of one update-metadata value.
pub enum Uv {
    Unset,
    Val(Mv),
}

impl View for UpdateMetadataValue {
    type V = Uv;

    open spec fn view(&self) -> Uv {
        match self {
            UpdateMetadataValue::Unset => Uv::Unset,
            UpdateMetadataValue::Bool(b) => Uv::Val(Mv::Bool(*b)),
            UpdateMetadataValue::Int(i) => Uv::Val(Mv::Int(*i as int)),
            UpdateMetadataValue::Float(t) => Uv::Val(Mv::Float(t@)),
            UpdateMetadataValue::Str(s) => Uv::Val(Mv::Str(s@)),
        }
    }
}

/// Partial metadata used by update and upsert.
#[derive(Debug, Clone, PartialEq, Eq)]
pub struct UpdateMetadata {
    pub pairs: Vec<(String, UpdateMetadataValue)>,
}

/// The modelled pairs of an update-metadata mapping.
pub open spec fn umd_view(pairs: Seq<(String, UpdateMetadataValue)>) -> Seq<(Seq<char>, Uv)> {
    pairs.map_values(|p: (String, UpdateMetadataValue)| (p.0@, p.1@))
}

impl View for UpdateMetadata {
    type V = Seq<(Seq<char>, Uv)>;

    open spec fn view(&self) -> Seq<(Seq<char>, Uv)> {
        umd_view(self.pairs@)
    }
}

pub open spec fn uv_wf(v: Uv) -> bool {
    match v {
        Uv::Unset => true,
        Uv::Val(m) => mv_wf(m),
    }
}

impl UpdateMetadata {
    pub open spec fn wf(self) -> bool {
        &&& forall|i: int, j: int| 0 <= i < j < self@.len() ==> self@[i].0 != self@[j].0
        &&& forall|i: int| 0 <= i < self@.len() ==> uv_wf(#[trigger] self@[i].1)
    }
}

/// How one JSON leaf decodes as a metadata scalar: a number whose text is a
/// representable integer becomes an integer, any other well-formed number a
/// float; nulls, arrays and objects are rejected.
pub open spec fn spec_mv_of_jv(j: Jv) -> Result<Mv, ()> {
    match j {
        Jv::Bool(b) => Ok(Mv::Bool(b)),
        Jv::Str(s) => Ok(Mv::Str(s)),
        Jv::Num(t) => if is_int_text(t) && i64::MIN <= int_text_value(t) <= i64::MAX {
            Ok(Mv::Int(int_text_value(t)))
        } else if is_json_number(t) {
            Ok(Mv::Float(t))
        } else {
            Err(())
        },
        _ => Err(()),
    }
}

/// How one JSON leaf decodes as an update-metadata value: as a scalar, with
/// `null` additionally accepted as `Unset`.
pub open spec fn spec_uv_of_jv(j: Jv) -> Result<Uv, ()> {
    match j {
        Jv::Null => Ok(Uv::Unset),
        _ => match spec_mv_of_jv(j) {
            Ok(v) => Ok(Uv::Val(v)),
            Err(_) => Err(()),
        },
    }
}

/// A decode failure among the first `i` fields fails every longer prefix.
pub proof fn lemma_md_fields_prefix_err(fields: Seq<(Seq<char>, Jv)>, i: int, n: int)
    requires
        0 <= i <= n,
        spec_md_fields(fields, i) is Err,
    ensures
        spec_md_fields(fields, n) is Err,
    decreases n,
{
    if n > i {
        lemma_md_fields_prefix_err(fields, i, n - 1);
    }
}

/// A decode failure among the first `i` fields fails every longer prefix.
pub proof fn lemma_umd_fields_prefix_err(fields: Seq<(Seq<char>, Jv)>, i: int, n: int)
    requires
        0 <= i <= n,
        spec_umd_fields(fields, i) is Err,
    ensures
        spec_umd_fields(fields, n) is Err,
    decreases n,
{
    if n > i {
        lemma_umd_fields_prefix_err(fields, i, n - 1);
    }
}

/// Decode of the first `n` fields of a JSON object as metadata pairs.
pub open spec fn spec_md_fields(fields: Seq<(Seq<char>, Jv)>, n: int) -> Result<
    Seq<(Seq<char>, Mv)>,
    (),
>
    decreases n,
{
    if n <= 0 {
        Ok(Seq::empty())
    } else {
        match spec_md_fields(fields, n - 1) {
            Err(_) => Err(()),
            Ok(s) => match spec_mv_of_jv(fields[n - 1].1) {
                Ok(v) => Ok(s.push((fields[n - 1].0, v))),
                Err(_) => Err(()),
            },
        }
    }
}

/// Decode of the first `n` fields of a JSON object as update-metadata pairs.
pub open spec fn spec_umd_fields(fields: Seq<(Seq<char>, Jv)>, n: int) -> Result<
    Seq<(Seq<char>, Uv)>,
    (),
>
    decreases n,
{
    if n <= 0 {
        Ok(Seq::empty())
    } else {
        match spec_umd_fields(fields, n - 1) {
            Err(_) => Err(()),
            Ok(s) => match spec_uv_of_jv(fields[n - 1].1) {
                Ok(v) => Ok(s.push((fields[n - 1].0, v))),
                Err(_) => Err(()),
            },
        }
    }
}

/// How a JSON document decodes as full metadata: it must be an object with
/// unique keys whose values are all scalars.
pub open spec fn spec_metadata_of(j: Jv) -> Result<Seq<(Seq<char>, Mv)>, ()> {
    match j {
        Jv::Obj(fields) => if obj_keys_unique(fields) {
            spec_md_fields(fields, fields.len() as int)
        } else {
            Err(())
        },
        _ => Err(()),
    }
}

/// How a JSON document decodes as update metadata.
pub open spec fn spec_update_metadata_of(j: Jv) -> Result<Seq<(Seq<char>, Uv)>, ()> {
    match j {
        Jv::Obj(fields) => if obj_keys_unique(fields) {
            spec_umd_fields(fields, fields.len() as int)
        } else {
            Err(())
        },
        _ => Err(()),
    }
}

fn metadata_fault() -> (e: BindError)
    ensures
        e is MalformedMetadata,
{
    BindError::MalformedMetadata(
        String::from_str("metadata must be a JSON object with unique keys and scalar values"),
    )
}

/// Decodes one JSON leaf as a metadata scalar.
pub fn mv_of_tree(j: &JsonValue) -> (r: Result<MetadataValue, BindError>)
    ensures
        match spec_mv_of_jv(j@) {
            Ok(v) => r matches Ok(got) && got@ == v && mv_wf(v),
            Err(_) => r matches Err(e) && e is MalformedMetadata,
        },
{
    match j {
        JsonValue::Bool(b) => Ok(MetadataValue::Bool(*b)),
        JsonValue::Str(s) => Ok(MetadataValue::Str(s.clone())),
        JsonValue::Num(t) => {
            match parse_int_text_x(t.as_str()) {
                Some(v) => Ok(MetadataValue::Int(v)),
                None => {
                    if is_json_number_x(t.as_str()) {
                        Ok(MetadataValue::Float(t.clone()))
                    } else {
                        Err(metadata_fault())
                    }
                },
            }
        },
        _ => Err(metadata_fault()),
    }
}

/// Decodes one JSON leaf as an update-metadata value.
pub fn uv_of_tree(j: &JsonValue) -> (r: Result<UpdateMetadataValue, BindError>)
    ensures
        match spec_uv_of_jv(j@) {
            Ok(v) => r matches Ok(got) && got@ == v && uv_wf(v),
            Err(_) => r matches Err(e) && e is MalformedMetadata,
        },
{
    match j {
        JsonValue::Null => Ok(UpdateMetadataValue::Unset),
        _ => {
            match mv_of_tree(j) {
                Ok(v) => Ok(
                    match v {
                        MetadataValue::Bool(b) => UpdateMetadataValue::Bool(b),
                        MetadataValue::Int(i) => UpdateMetadataValue::Int(i),
                        MetadataValue::Float(t) => UpdateMetadataValue::Float(t),
                        MetadataValue::Str(s) => UpdateMetadataValue::Str(s),
                    },
                ),
                Err(e) => Err(e),
            }
        },
    }
}

/// Checks that no two fields of a decoded JSON object share a key.
#[verifier::loop_isolation(false)]
fn fields_keys_unique(fields: &Vec<(String, JsonValue)>) -> (r: bool)
    ensures
        r == obj_keys_unique(jv_of_fields(fields@, fields@.len() as int)),
{
    proof {
        lemma_jv_of_fields(fields@, fields@.len() as int);
    }
    let ghost model = jv_of_fields(fields@, fields@.len() as int);
    let n = fields.len();
    let mut i: usize = 0;
    while i < n
        invariant
            0 <= i <= n,
            n == fields@.len(),
            model == jv_of_fields(fields@, fields@.len() as int),
            model.len() == n,
            forall|a: int, b: int| 0 <= a < b < i ==> model[a].0 != model[b].0,
            forall|k: int| 0 <= k < n ==> model[k].0 == fields@[k].0@,
        decreases n - i,
    {
        let mut k: usize = 0;
        while k < i
            invariant
                0 <= k <= i < n,
                n == fields@.len(),
                model.len() == n,
                forall|idx: int| 0 <= idx < n ==> model[idx].0 == fields@[idx].0@,
                forall|a: int| 0 <= a < k ==> model[a].0 != model[i as int].0,
            decreases i - k,
        {
            if fields[k].0 == fields[i].0 {
                proof {
                    assert(model[k as int].0 == model[i as int].0);
                    assert(!obj_keys_unique(model));
                }
                return false;
            }
            k = k + 1;
        }
        i = i + 1;
    }
    true
}

/// Decodes a JSON document as full metadata.
#[verifier::loop_isolation(false)]
pub fn metadata_of_tree(j: &JsonValue) -> (r: Result<Metadata, BindError>)
    ensures
        match spec_metadata_of(j@) {
            Ok(s) => r matches Ok(m) && m@ == s && m.wf(),
            Err(_) => r matches Err(e) && e is MalformedMetadata,
        },
{
    match j {
        JsonValue::Obj(fields) => {
            proof {
                lemma_jv_of_fields(fields@, fields@.len() as int);
            }
            let ghost model = jv_of_fields(fields@, fields@.len() as int);
            if !fields_keys_unique(fields) {
                return Err(metadata_fault());
            }
            let n = fields.len();
            let mut out: Vec<(String, MetadataValue)> = Vec::new();
            proof {
                assert(md_view(out@) =~= Seq::<(Seq<char>, Mv)>::empty());
            }
            let mut i: usize = 0;
            while i < n
                invariant
                    0 <= i <= n,
                    n == fields@.len(),
                    model == jv_of_fields(fields@, fields@.len() as int),
                    model.len() == n,
                    forall|k: int| 0 <= k < n ==> model[k] == (fields@[k].0@, jv_of(
                        fields@[k].1,
                    )),
                    spec_md_fields(model, i as int) == Ok::<_, ()>(md_view(out@)),
                    forall|k: int| 0 <= k < out@.len() ==> mv_wf(#[trigger] md_view(out@)[k].1),
                    out@.len() == i,
                    forall|k: int| 0 <= k < i ==> md_view(out@)[k].0 == model[k].0,
                decreases n - i,
            {
                let pair = &fields[i];
                match mv_of_tree(&pair.1) {
                    Ok(v) => {
                        let ghost prev = md_view(out@);
                        out.push((pair.0.clone(), v));
                        proof {
                            assert(md_view(out@) =~= prev.push((fields@[i as int].0@, v@)));
                        }
                    },
                    Err(e) => {
                        proof {
                            assert(spec_md_fields(model, (i + 1) as int) is Err);
                            lemma_md_fields_prefix_err(model, (i + 1) as int, n as int);
                        }
                        return Err(e);
                    },
                }
                i = i + 1;
            }
            proof {
                assert(md_keys_unique(md_view(out@))) by {
                    assert(forall|k: int|
                        0 <= k < n ==> #[trigger] md_view(out@)[k].0 == model[k].0);
                    assert(forall|a: int, b: int|
                        0 <= a < b < n ==> model[a].0 != model[b].0);
                    assert(md_view(out@).len() == n);
                }
            }
            Ok(Metadata { pairs: out })
        },
        _ => Err(metadata_fault()),
    }
}

/// Decodes a JSON document as update metadata.
#[verifier::loop_isolation(false)]
pub fn update_metadata_of_tree(j: &JsonValue) -> (r: Result<UpdateMetadata, BindError>)
    ensures
        match spec_update_metadata_of(j@) {
            Ok(s) => r matches Ok(m) && m@ == s && m.wf(),
            Err(_) => r matches Err(e) && e is MalformedMetadata,
        },
{
    match j {
        JsonValue::Obj(fields) => {
            proof {
                lemma_jv_of_fields(fields@, fields@.len() as int);
            }
            let ghost model = jv_of_fields(fields@, fields@.len() as int);
            if !fields_keys_unique(fields) {
                return Err(metadata_fault());
            }
            let n = fields.len();
            let mut out: Vec<(String, UpdateMetadataValue)> = Vec::new();
            proof {
                assert(umd_view(out@) =~= Seq::<(Seq<char>, Uv)>::empty());
            }
            let mut i: usize = 0;
            while i < n
                invariant
                    0 <= i <= n,
                    n == fields@.len(),
                    model == jv_of_fields(fields@, fields@.len() as int),
                    model.len() == n,
                    forall|k: int| 0 <= k < n ==> model[k] == (fields@[k].0@, jv_of(
                        fields@[k].1,
                    )),
                    spec_umd_fields(model, i as int) == Ok::<_, ()>(umd_view(out@)),
                    forall|k: int| 0 <= k < out@.len() ==> uv_wf(#[trigger] umd_view(out@)[k].1),
                    out@.len() == i,
                    forall|k: int| 0 <= k < i ==> umd_view(out@)[k].0 == model[k].0,
                decreases n - i,
            {
                let pair = &fields[i];
                match uv_of_tree(&pair.1) {
                    Ok(v) => {
                        let ghost prev = umd_view(out@);
                        out.push((pair.0.clone(), v));
                        proof {
                            assert(umd_view(out@) =~= prev.push((fields@[i as int].0@, v@)));
                        }
                    },
                    Err(e) => {
                        proof {
                            assert(spec_umd_fields(model, (i + 1) as int) is Err);
                            lemma_umd_fields_prefix_err(model, (i + 1) as int, n as int);
                        }
                        return Err(e);
                    },
                }
                i = i + 1;
            }
            proof {
                assert(forall|a: int, b: int|
                    0 <= a < b < umd_view(out@).len() ==> umd_view(out@)[a].0 != umd_view(
                        out@,
                    )[b].0) by {
                    assert(forall|k: int|
                        0 <= k < n ==> #[trigger] umd_view(out@)[k].0 == model[k].0);
                    assert(forall|a: int, b: int|
                        0 <= a < b < n ==> model[a].0 != model[b].0);
                    assert(umd_view(out@).len() == n);
                }
            }
            Ok(UpdateMetadata { pairs: out })
        },
        _ => Err(metadata_fault()),
    }
}

/// How one metadata scalar prints as a JSON leaf.
pub open spec fn spec_jv_of_mv(v: Mv) -> Jv {
    match v {
        Mv::Bool(b) => Jv::Bool(b),
        Mv::Int(i) => Jv::Num(dec_int(i)),
        Mv::Float(t) => Jv::Num(t),
        Mv::Str(s) => Jv::Str(s),
    }
}

/// How a metadata mapping prints as a JSON object, field order kept.
pub open spec fn spec_tree_of_metadata(pairs: Seq<(Seq<char>, Mv)>) -> Jv {
    Jv::Obj(pairs.map_values(|p: (Seq<char>, Mv)| (p.0, spec_jv_of_mv(p.1))))
}

/// Encodes a metadata mapping as a JSON document, ready to print.
#[verifier::loop_isolation(false)]
pub fn metadata_to_tree(m: &Metadata) -> (r: JsonValue)
    requires
        m.wf(),
    ensures
        r@ == spec_tree_of_metadata(m@),
        nums_wf(r@),
{
    let ghost target = spec_tree_of_metadata(m@);
    let n = m.pairs.len();
    let mut out: Vec<(String, JsonValue)> = Vec::new();
    let mut i: usize = 0;
    while i < n
        invariant
            0 <= i <= n,
            n == m.pairs@.len(),
            m.wf(),
            out@.len() == i,
            forall|k: int| 0 <= k < i ==> #[trigger] jv_of_fields(out@, out@.len() as int)[k]
                == (m@[k].0, spec_jv_of_mv(m@[k].1)),
            jv_of_fields(out@, out@.len() as int).len() == i,
            forall|k: int| 0 <= k < i ==> nums_wf(
                #[trigger] jv_of_fields(out@, out@.len() as int)[k].1,
            ),
        decreases n - i,
    {
        let pair = &m.pairs[i];
        let leaf: JsonValue = match &pair.1 {
            MetadataValue::Bool(b) => JsonValue::Bool(*b),
            MetadataValue::Int(v) => {
                proof {
                    lemma_dec_int_roundtrip(*v as int);
                }
                JsonValue::Num(format_i64(*v))
            },
            MetadataValue::Float(t) => JsonValue::Num(t.clone()),
            MetadataValue::Str(s) => JsonValue::Str(s.clone()),
        };
        proof {
            assert(mv_wf(m@[i as int].1));
            assert(leaf@ == spec_jv_of_mv(m@[i as int].1));
            assert(nums_wf(leaf@));
        }
        let entry = (pair.0.clone(), leaf);
        let ghost entry_model = (entry.0@, entry.1@);
        proof {
            assert(entry_model == (m@[i as int].0, spec_jv_of_mv(m@[i as int].1)));
        }
        let ghost prev = out@;
        out.push(entry);
        proof {
            lemma_jv_of_fields(out@, out@.len() as int);
            lemma_jv_of_fields(prev, prev.len() as int);
            assert(out@.len() == i + 1);
            assert forall|k: int|
                0 <= k < i + 1 implies #[trigger] jv_of_fields(out@, out@.len() as int)[k] == (
                m@[k].0,
                spec_jv_of_mv(m@[k].1),
            ) by {
                if k < i {
                    assert(out@[k] == prev[k]);
                    assert(jv_of_fields(prev, prev.len() as int)[k] == (
                        m@[k].0,
                        spec_jv_of_mv(m@[k].1),
                    ));
                } else {
                    assert((out@[k].0@, jv_of(out@[k].1)) == entry_model);
                }
            }
            assert forall|k: int|
                0 <= k < i + 1 implies nums_wf(
                #[trigger] jv_of_fields(out@, out@.len() as int)[k].1,
            ) by {
                if k < i {
                    assert(out@[k] == prev[k]);
                    assert(nums_wf(jv_of_fields(prev, prev.len() as int)[k].1));
                } else {
                    assert(jv_of_fields(out@, out@.len() as int)[k].1 == entry_model.1);
                    assert(nums_wf(entry_model.1));
                }
            }
        }
        i = i + 1;
    }
    proof {
        lemma_jv_of_fields(out@, out@.len() as int);
        assert(jv_of_fields(out@, out@.len() as int) =~= spec_tree_of_metadata(m@)->Obj_0);
        lemma_nums_wf_fields(jv_of_fields(out@, out@.len() as int), n as int);
    }
    JsonValue::Obj(out)
}

/// Law: for any well-formed metadata mapping, decoding the JSON object it
/// prints as yields the same mapping — key set and every value preserved.
pub proof fn lemma_metadata_round_trip(pairs: Seq<(Seq<char>, Mv)>)
    requires
        md_pairs_wf(pairs),
    ensures
        spec_metadata_of(spec_tree_of_metadata(pairs)) == Ok::<_, ()>(pairs),
{
    let fields = pairs.map_values(|p: (Seq<char>, Mv)| (p.0, spec_jv_of_mv(p.1)));
    assert(obj_keys_unique(fields));
    lemma_md_fields_round_trip(pairs, pairs.len() as int);
    assert(pairs.take(pairs.len() as int) =~= pairs);
    assert(spec_md_fields(fields, fields.len() as int) == Ok::<_, ()>(pairs));
}

proof fn lemma_md_fields_round_trip(pairs: Seq<(Seq<char>, Mv)>, n: int)
    requires
        0 <= n <= pairs.len(),
        forall|i: int| 0 <= i < pairs.len() ==> mv_wf(#[trigger] pairs[i].1),
    ensures
        spec_md_fields(
            pairs.map_values(|p: (Seq<char>, Mv)| (p.0, spec_jv_of_mv(p.1))),
            n,
        ) == Ok::<_, ()>(pairs.take(n)),
    decreases n,
{
    let fields = pairs.map_values(|p: (Seq<char>, Mv)| (p.0, spec_jv_of_mv(p.1)));
    if n == 0 {
        assert(pairs.take(0) =~= Seq::<(Seq<char>, Mv)>::empty());
    } else {
        lemma_md_fields_round_trip(pairs, n - 1);
        let v = pairs[n - 1].1;
        lemma_mv_round_trip(v);
        assert(spec_mv_of_jv(fields[n - 1].1) == Ok::<_, ()>(v));
        assert(pairs.take(n) =~= pairs.take(n - 1).push(pairs[n - 1]));
        assert(pairs[n - 1] == (pairs[n - 1].0, pairs[n - 1].1));
    }
}

/// Law, leaf case: a well-formed scalar survives print then decode unchanged.
pub proof fn lemma_mv_round_trip(v: Mv)
    requires
        mv_wf(v),
    ensures
        spec_mv_of_jv(spec_jv_of_mv(v)) == Ok::<_, ()>(v),
{
    match v {
        Mv::Int(i) => {
            lemma_dec_int_roundtrip(i);
        },
        _ => {},
    }
}

} // verus!
