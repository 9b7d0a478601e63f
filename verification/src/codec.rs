use vstd::prelude::*;
use crate::errors::BindError;
use crate::json::{JsonValue, Jv, json_text_value, json_value_text, parse_json_text,
    print_json_text, jv_of_fields, lemma_jv_of_fields};
use crate::metadata::{Metadata, UpdateMetadata, Mv, Uv, spec_metadata_of, spec_update_metadata_of,
    metadata_of_tree, update_metadata_of_tree, metadata_to_tree, spec_tree_of_metadata};
use crate::filter::{WhereClause, Wv, spec_where_of, where_of_tree};

verus! {

/// How a metadata text decodes: parse, then read the object as a mapping.
pub open spec fn spec_decode_metadata_text(t: Seq<char>) -> Result<Seq<(Seq<char>, Mv)>, ()> {
    match json_text_value(t) {
        Err(_) => Err(()),
        Ok(jv) => spec_metadata_of(jv),
    }
}

/// How an update-metadata text decodes.
pub open spec fn spec_decode_update_metadata_text(t: Seq<char>) -> Result<Seq<(Seq<char>, Uv)>, ()> {
    match json_text_value(t) {
        Err(_) => Err(()),
        Ok(jv) => spec_update_metadata_of(jv),
    }
}

/// How a filter text decodes: empty text and the empty object mean
/// "no filter"; anything else must follow the filter grammar.
pub open spec fn spec_decode_where_text(t: Seq<char>) -> Result<Option<Wv>, ()> {
    if t.len() == 0 {
        Ok(None)
    } else {
        match json_text_value(t) {
            Err(_) => Err(()),
            Ok(jv) => if jv == Jv::Obj(Seq::<(Seq<char>, Jv)>::empty()) {
                Ok(None)
            } else {
                match spec_where_of(jv) {
                    Ok(w) => Ok(Some(w)),
                    Err(_) => Err(()),
                }
            },
        }
    }
}

/// Decodes full-replacement metadata from JSON text.
pub fn decode_metadata(text: &str) -> (r: Result<Metadata, BindError>)
    ensures
        match spec_decode_metadata_text(text@) {
            Ok(s) => r matches Ok(m) && m@ == s && m.wf(),
            Err(_) => r matches Err(e) && e is MalformedMetadata,
        },
{
    match parse_json_text(text) {
        Err(msg) => Err(BindError::MalformedMetadata(msg)),
        Ok(tree) => metadata_of_tree(&tree),
    }
}

/// Decodes partial (update) metadata from JSON text.
pub fn decode_update_metadata(text: &str) -> (r: Result<UpdateMetadata, BindError>)
    ensures
        match spec_decode_update_metadata_text(text@) {
            Ok(s) => r matches Ok(m) && m@ == s && m.wf(),
            Err(_) => r matches Err(e) && e is MalformedMetadata,
        },
{
    match parse_json_text(text) {
        Err(msg) => Err(BindError::MalformedMetadata(msg)),
        Ok(tree) => update_metadata_of_tree(&tree),
    }
}

/// Decodes an optional filter from JSON text. Malformed text or an
/// unrecognized operator is rejected here, before the engine is touched.
pub fn decode_where(text: &str) -> (r: Result<Option<WhereClause>, BindError>)
    ensures
        match spec_decode_where_text(text@) {
            Ok(ow) => match ow {
                Some(w) => r matches Ok(got) && got matches Some(gw) && gw@ == w,
                None => r matches Ok(got) && got is None,
            },
            Err(_) => r matches Err(e) && e is MalformedFilter,
        },
{
    if text.is_empty() {
        return Ok(None);
    }
    match parse_json_text(text) {
        Err(msg) => Err(BindError::MalformedFilter(msg)),
        Ok(tree) => {
            let mut empty_obj = false;
            match &tree {
                JsonValue::Obj(fields) => {
                    proof {
                        lemma_jv_of_fields(fields@, fields@.len() as int);
                        if fields@.len() == 0 {
                            assert(jv_of_fields(fields@, fields@.len() as int)
                                =~= Seq::<(Seq<char>, Jv)>::empty());
                        }
                    }
                    if fields.len() == 0 {
                        empty_obj = true;
                    }
                },
                _ => {},
            }
            if empty_obj {
                return Ok(None);
            }
            match where_of_tree(&tree) {
                Ok(w) => Ok(Some(w)),
                Err(e) => Err(e),
            }
        },
    }
}

/// How a batch of optional metadata texts decodes, one entry per record.
pub open spec fn spec_md_batch(texts: Seq<Option<String>>, n: int) -> Result<
    Seq<Option<Seq<(Seq<char>, Mv)>>>,
    (),
>
    decreases n,
{
    if n <= 0 {
        Ok(Seq::empty())
    } else {
        match spec_md_batch(texts, n - 1) {
            Err(_) => Err(()),
            Ok(s) => match texts[n - 1] {
                None => Ok(s.push(None)),
                Some(t) => match spec_decode_metadata_text(t@) {
                    Ok(m) => Ok(s.push(Some(m))),
                    Err(_) => Err(()),
                },
            },
        }
    }
}

/// How a batch of optional update-metadata texts decodes.
pub open spec fn spec_umd_batch(texts: Seq<Option<String>>, n: int) -> Result<
    Seq<Option<Seq<(Seq<char>, Uv)>>>,
    (),
>
    decreases n,
{
    if n <= 0 {
        Ok(Seq::empty())
    } else {
        match spec_umd_batch(texts, n - 1) {
            Err(_) => Err(()),
            Ok(s) => match texts[n - 1] {
                None => Ok(s.push(None)),
                Some(t) => match spec_decode_update_metadata_text(t@) {
                    Ok(m) => Ok(s.push(Some(m))),
                    Err(_) => Err(()),
                },
            },
        }
    }
}

/// A decode failure among the first `i` entries fails every longer prefix.
pub proof fn lemma_md_batch_prefix_err(texts: Seq<Option<String>>, i: int, n: int)
    requires
        0 <= i <= n,
        spec_md_batch(texts, i) is Err,
    ensures
        spec_md_batch(texts, n) is Err,
    decreases n,
{
    if n > i {
        lemma_md_batch_prefix_err(texts, i, n - 1);
    }
}

/// A decode failure among the first `i` entries fails every longer prefix.
pub proof fn lemma_umd_batch_prefix_err(texts: Seq<Option<String>>, i: int, n: int)
    requires
        0 <= i <= n,
        spec_umd_batch(texts, i) is Err,
    ensures
        spec_umd_batch(texts, n) is Err,
    decreases n,
{
    if n > i {
        lemma_umd_batch_prefix_err(texts, i, n - 1);
    }
}

/// The models of a batch of decoded optional metadata.
pub open spec fn opt_md_view(v: Seq<Option<Metadata>>) -> Seq<Option<Seq<(Seq<char>, Mv)>>> {
    v.map_values(
        |o: Option<Metadata>|
            match o {
                None => None,
                Some(m) => Some(m@),
            },
    )
}

/// The models of a batch of decoded optional update metadata.
pub open spec fn opt_umd_view(v: Seq<Option<UpdateMetadata>>) -> Seq<Option<Seq<(Seq<char>, Uv)>>> {
    v.map_values(
        |o: Option<UpdateMetadata>|
            match o {
                None => None,
                Some(m) => Some(m@),
            },
    )
}

/// Every present entry of a decoded metadata batch is well formed.
pub open spec fn opt_md_wf(v: Seq<Option<Metadata>>) -> bool {
    forall|k: int| 0 <= k < v.len() ==> (#[trigger] v[k] matches Some(m) ==> m.wf())
}

/// Every present entry of a decoded update-metadata batch is well formed.
pub open spec fn opt_umd_wf(v: Seq<Option<UpdateMetadata>>) -> bool {
    forall|k: int| 0 <= k < v.len() ==> (#[trigger] v[k] matches Some(m) ==> m.wf())
}

/// Decodes a batch of optional metadata texts, aborting on the first
/// undecodable entry.
#[verifier::loop_isolation(false)]
pub fn decode_metadata_batch(texts: &Vec<Option<String>>) -> (r: Result<
    Vec<Option<Metadata>>,
    BindError,
>)
    ensures
        match spec_md_batch(texts@, texts@.len() as int) {
            Ok(s) => r matches Ok(got) && opt_md_view(got@) == s && opt_md_wf(got@) && got@.len()
                == texts@.len(),
            Err(_) => r matches Err(e) && e is MalformedMetadata,
        },
{
    let n = texts.len();
    let mut out: Vec<Option<Metadata>> = Vec::new();
    proof {
        assert(opt_md_view(out@) =~= Seq::<Option<Seq<(Seq<char>, Mv)>>>::empty());
    }
    let mut i: usize = 0;
    while i < n
        invariant
            0 <= i <= n,
            out@.len() == i,
            spec_md_batch(texts@, i as int) == Ok::<_, ()>(opt_md_view(out@)),
            opt_md_wf(out@),
        decreases n - i,
    {
        let ghost prev = opt_md_view(out@);
        match &texts[i] {
            None => {
                out.push(None);
            },
            Some(t) => {
                match decode_metadata(t.as_str()) {
                    Ok(m) => {
                        out.push(Some(m));
                    },
                    Err(e) => {
                        proof {
                            assert(spec_md_batch(texts@, (i + 1) as int) is Err);
                            lemma_md_batch_prefix_err(texts@, (i + 1) as int, n as int);
                        }
                        return Err(e);
                    },
                }
            },
        }
        proof {
            assert(opt_md_view(out@) =~= prev.push(
                match out@[i as int] {
                    None => None,
                    Some(m) => Some(m@),
                },
            ));
        }
        i = i + 1;
    }
    Ok(out)
}

/// Decodes a batch of optional update-metadata texts, aborting on the first
/// undecodable entry.
#[verifier::loop_isolation(false)]
pub fn decode_update_metadata_batch(texts: &Vec<Option<String>>) -> (r: Result<
    Vec<Option<UpdateMetadata>>,
    BindError,
>)
    ensures
        match spec_umd_batch(texts@, texts@.len() as int) {
            Ok(s) => r matches Ok(got) && opt_umd_view(got@) == s && opt_umd_wf(got@) && got@.len()
                == texts@.len(),
            Err(_) => r matches Err(e) && e is MalformedMetadata,
        },
{
    let n = texts.len();
    let mut out: Vec<Option<UpdateMetadata>> = Vec::new();
    proof {
        assert(opt_umd_view(out@) =~= Seq::<Option<Seq<(Seq<char>, Uv)>>>::empty());
    }
    let mut i: usize = 0;
    while i < n
        invariant
            0 <= i <= n,
            out@.len() == i,
            spec_umd_batch(texts@, i as int) == Ok::<_, ()>(opt_umd_view(out@)),
            opt_umd_wf(out@),
        decreases n - i,
    {
        let ghost prev = opt_umd_view(out@);
        match &texts[i] {
            None => {
                out.push(None);
            },
            Some(t) => {
                match decode_update_metadata(t.as_str()) {
                    Ok(m) => {
                        out.push(Some(m));
                    },
                    Err(e) => {
                        proof {
                            assert(spec_umd_batch(texts@, (i + 1) as int) is Err);
                            lemma_umd_batch_prefix_err(texts@, (i + 1) as int, n as int);
                        }
                        return Err(e);
                    },
                }
            },
        }
        proof {
            assert(opt_umd_view(out@) =~= prev.push(
                match out@[i as int] {
                    None => None,
                    Some(m) => Some(m@),
                },
            ));
        }
        i = i + 1;
    }
    Ok(out)
}

/// Encodes a metadata mapping as canonical JSON text, the form results carry
/// back across the boundary.
pub fn encode_metadata(m: &Metadata) -> (r: String)
    requires
        m.wf(),
    ensures
        r@ == json_value_text(spec_tree_of_metadata(m@)),
{
    let tree = metadata_to_tree(m);
    print_json_text(&tree)
}

} // verus!
