use vstd::prelude::*;
use vstd::string::StringExecFns;
use vstd::string::StrSliceExecFns;
use crate::errors::BindError;
use crate::json::{JsonValue, Jv, jv_of_list, jv_of_fields, lemma_jv_of_list,
    lemma_jv_of_fields};
use crate::metadata::{MetadataValue, Mv, spec_mv_of_jv, mv_of_tree};

verus! {

/// A comparison operator of the filter grammar.
#[derive(Clone, Copy, Debug, PartialEq, Eq, Structural)]
pub enum CompareOp {
    Eq,
    Ne,
    Gt,
    Gte,
    Lt,
    Lte,
}

/// A boolean predicate tree over metadata fields and document text, decoded
/// from the JSON filter grammar.
#[derive(Debug)]
pub enum WhereClause {
    /// Every branch must hold.
    And(Vec<WhereClause>),
    /// Some branch must hold.
    Or(Vec<WhereClause>),
    /// One field compared with one scalar.
    Compare(String, CompareOp, MetadataValue),
    /// The field's value must be among the listed scalars.
    Within(String, Vec<MetadataValue>),
    /// The field's value must not be among the listed scalars.
    Without(String, Vec<MetadataValue>),
    /// The record's document must contain the text.
    DocContains(String),
    /// The record's document must not contain the text.
    DocNotContains(String),
}

/// The model of a filter tree.
pub enum Wv {
    And(Seq<Wv>),
    Or(Seq<Wv>),
    Compare(Seq<char>, CompareOp, Mv),
    Within(Seq<char>, Seq<Mv>),
    Without(Seq<char>, Seq<Mv>),
    DocContains(Seq<char>),
    DocNotContains(Seq<char>),
}

/// The models of a list of scalars.
pub open spec fn mv_list_view(items: Seq<MetadataValue>) -> Seq<Mv> {
    items.map_values(|v: MetadataValue| v@)
}

/// The model of one filter node.
pub open spec fn wv_of(w: WhereClause) -> Wv
    decreases w, 0int,
{
    match w {
        WhereClause::And(subs) => Wv::And(wv_of_list(subs@, subs@.len() as int)),
        WhereClause::Or(subs) => Wv::Or(wv_of_list(subs@, subs@.len() as int)),
        WhereClause::Compare(f, op, v) => Wv::Compare(f@, op, v@),
        WhereClause::Within(f, vs) => Wv::Within(f@, mv_list_view(vs@)),
        WhereClause::Without(f, vs) => Wv::Without(f@, mv_list_view(vs@)),
        WhereClause::DocContains(s) => Wv::DocContains(s@),
        WhereClause::DocNotContains(s) => Wv::DocNotContains(s@),
    }
}

/// The models of the first `n` branches of a combinator.
pub open spec fn wv_of_list(subs: Seq<WhereClause>, n: int) -> Seq<Wv>
    decreases subs, n,
{
    if n <= 0 || n > subs.len() {
        Seq::empty()
    } else {
        wv_of_list(subs, n - 1).push(wv_of(subs[n - 1]))
    }
}

impl View for WhereClause {
    type V = Wv;

    open spec fn view(&self) -> Wv {
        wv_of(*self)
    }
}

/// The model of a branch list indexes through to the branches' models.
pub proof fn lemma_wv_of_list(subs: Seq<WhereClause>, n: int)
    requires
        0 <= n <= subs.len(),
    ensures
        wv_of_list(subs, n).len() == n,
        forall|i: int| 0 <= i < n ==> wv_of_list(subs, n)[i] == wv_of(subs[i]),
    decreases n,
{
    if n > 0 {
        lemma_wv_of_list(subs, n - 1);
    }
}

/// Which comparison operator a grammar token names, if any.
pub open spec fn spec_compare_op(op: Seq<char>) -> Option<CompareOp> {
    if op == "$eq"@ {
        Some(CompareOp::Eq)
    } else if op == "$ne"@ {
        Some(CompareOp::Ne)
    } else if op == "$gt"@ {
        Some(CompareOp::Gt)
    } else if op == "$gte"@ {
        Some(CompareOp::Gte)
    } else if op == "$lt"@ {
        Some(CompareOp::Lt)
    } else if op == "$lte"@ {
        Some(CompareOp::Lte)
    } else {
        None
    }
}

/// Decode of the first `n` items of a `$in`/`$nin` operand list: every item
/// must be a scalar.
pub open spec fn spec_scalar_list(items: Seq<Jv>, n: int) -> Result<Seq<Mv>, ()>
    decreases n,
{
    if n <= 0 {
        Ok(Seq::empty())
    } else {
        match spec_scalar_list(items, n - 1) {
            Err(_) => Err(()),
            Ok(s) => match spec_mv_of_jv(items[n - 1]) {
                Ok(v) => Ok(s.push(v)),
                Err(_) => Err(()),
            },
        }
    }
}

/// A scalar-decode failure among the first `i` items fails every longer prefix.
pub proof fn lemma_scalar_list_prefix_err(items: Seq<Jv>, i: int, n: int)
    requires
        0 <= i <= n,
        spec_scalar_list(items, i) is Err,
    ensures
        spec_scalar_list(items, n) is Err,
    decreases n,
{
    if n > i {
        lemma_scalar_list_prefix_err(items, i, n - 1);
    }
}

/// How the condition on one metadata field decodes: a bare scalar is an
/// equality; an operator object names one comparison or membership operator;
/// an unrecognized operator is rejected.
pub open spec fn spec_field_cond(field: Seq<char>, val: Jv) -> Result<Wv, ()> {
    match val {
        Jv::Obj(fields) => if fields.len() != 1 {
            Err(())
        } else {
            let op = fields[0].0;
            let operand = fields[0].1;
            if op == "$in"@ || op == "$nin"@ {
                match operand {
                    Jv::Arr(items) => match spec_scalar_list(items, items.len() as int) {
                        Ok(vs) => Ok(
                            if op == "$in"@ {
                                Wv::Within(field, vs)
                            } else {
                                Wv::Without(field, vs)
                            },
                        ),
                        Err(_) => Err(()),
                    },
                    _ => Err(()),
                }
            } else {
                match spec_compare_op(op) {
                    Some(cop) => match spec_mv_of_jv(operand) {
                        Ok(v) => Ok(Wv::Compare(field, cop, v)),
                        Err(_) => Err(()),
                    },
                    None => Err(()),
                }
            }
        },
        Jv::Arr(_) => Err(()),
        Jv::Null => Err(()),
        _ => match spec_mv_of_jv(val) {
            Ok(v) => Ok(Wv::Compare(field, CompareOp::Eq, v)),
            Err(_) => Err(()),
        },
    }
}

/// How a filter document decodes: an object with exactly one key, which is a
/// logical combinator, a document-text operator, or a metadata field name; an
/// unknown `$`-operator is rejected.
pub open spec fn spec_where_of(j: Jv) -> Result<Wv, ()>
    decreases j, 0int,
{
    match j {
        Jv::Obj(fields) => if fields.len() != 1 {
            Err(())
        } else {
            let key = fields[0].0;
            let val = fields[0].1;
            if key == "$and"@ || key == "$or"@ {
                match val {
                    Jv::Arr(items) => match spec_where_list(items, items.len() as int) {
                        Ok(l) => Ok(
                            if key == "$and"@ {
                                Wv::And(l)
                            } else {
                                Wv::Or(l)
                            },
                        ),
                        Err(_) => Err(()),
                    },
                    _ => Err(()),
                }
            } else if key == "$contains"@ || key == "$not_contains"@ {
                match val {
                    Jv::Str(s) => Ok(
                        if key == "$contains"@ {
                            Wv::DocContains(s)
                        } else {
                            Wv::DocNotContains(s)
                        },
                    ),
                    _ => Err(()),
                }
            } else if key.len() > 0 && key[0] == '$' {
                Err(())
            } else {
                spec_field_cond(key, val)
            }
        },
        _ => Err(()),
    }
}

/// Decode of the first `n` branches of a `$and`/`$or` list.
pub open spec fn spec_where_list(items: Seq<Jv>, n: int) -> Result<Seq<Wv>, ()>
    decreases items, n,
{
    if n <= 0 || n > items.len() {
        Ok(Seq::empty())
    } else {
        match spec_where_list(items, n - 1) {
            Err(_) => Err(()),
            Ok(s) => match spec_where_of(items[n - 1]) {
                Ok(w) => Ok(s.push(w)),
                Err(_) => Err(()),
            },
        }
    }
}

/// A branch-decode failure among the first `i` items fails every longer prefix.
pub proof fn lemma_where_list_prefix_err(items: Seq<Jv>, i: int, n: int)
    requires
        0 <= i <= n <= items.len(),
        spec_where_list(items, i) is Err,
    ensures
        spec_where_list(items, n) is Err,
    decreases n,
{
    if n > i {
        lemma_where_list_prefix_err(items, i, n - 1);
    }
}

fn filter_fault() -> (e: BindError)
    ensures
        e is MalformedFilter,
{
    BindError::MalformedFilter(
        String::from_str("filter must be an object with one recognized operator or field"),
    )
}

/// Decodes the items of a `$in`/`$nin` operand list.
#[verifier::loop_isolation(false)]
fn scalar_list_of_tree(items: &Vec<JsonValue>) -> (r: Result<Vec<MetadataValue>, BindError>)
    ensures
        match spec_scalar_list(jv_of_list(items@, items@.len() as int), items@.len() as int) {
            Ok(vs) => r matches Ok(got) && mv_list_view(got@) == vs,
            Err(_) => r matches Err(e) && e is MalformedFilter,
        },
{
    proof {
        lemma_jv_of_list(items@, items@.len() as int);
    }
    let ghost model = jv_of_list(items@, items@.len() as int);
    let n = items.len();
    let mut out: Vec<MetadataValue> = Vec::new();
    proof {
        assert(mv_list_view(out@) =~= Seq::<Mv>::empty());
    }
    let mut i: usize = 0;
    while i < n
        invariant
            0 <= i <= n,
            out@.len() == i,
            spec_scalar_list(model, i as int) == Ok::<_, ()>(mv_list_view(out@)),
        decreases n - i,
    {
        match mv_of_tree(&items[i]) {
            Ok(v) => {
                let ghost prev = mv_list_view(out@);
                out.push(v);
                proof {
                    assert(mv_list_view(out@) =~= prev.push(out@[i as int]@));
                }
            },
            Err(_) => {
                proof {
                    assert(spec_scalar_list(model, (i + 1) as int) is Err);
                    lemma_scalar_list_prefix_err(model, (i + 1) as int, n as int);
                }
                return Err(filter_fault());
            },
        }
        i = i + 1;
    }
    Ok(out)
}

/// Decodes a filter document into a predicate tree.
#[verifier::loop_isolation(false)]
pub fn where_of_tree(j: &JsonValue) -> (r: Result<WhereClause, BindError>)
    ensures
        match spec_where_of(j@) {
            Ok(w) => r matches Ok(got) && got@ == w,
            Err(_) => r matches Err(e) && e is MalformedFilter,
        },
    decreases *j,
{
    match j {
        JsonValue::Obj(fields) => {
            proof {
                lemma_jv_of_fields(fields@, fields@.len() as int);
            }
            if fields.len() != 1 {
                return Err(filter_fault());
            }
            let pair = &fields[0];
            let key = &pair.0;
            let val = &pair.1;
            if *key == String::from_str("$and") || *key == String::from_str("$or") {
                let is_and = *key == String::from_str("$and");
                match val {
                    JsonValue::Arr(items) => {
                        proof {
                            lemma_jv_of_list(items@, items@.len() as int);
                        }
                        let ghost model = jv_of_list(items@, items@.len() as int);
                        let n = items.len();
                        let mut subs: Vec<WhereClause> = Vec::new();
                        let mut i: usize = 0;
                        while i < n
                            invariant
                                0 <= i <= n,
                                subs@.len() == i,
                                spec_where_list(model, i as int) == Ok::<_, ()>(
                                    wv_of_list(subs@, subs@.len() as int),
                                ),
                            decreases n - i,
                        {
                            proof {
                                assert(decreases_to!(*j => fields@));
                                assert(decreases_to!(fields@ => fields@[0]));
                                assert(decreases_to!(fields@[0] => fields@[0].1));
                                assert(decreases_to!(fields@[0].1 => items@));
                                assert(decreases_to!(items@ => items@[i as int]));
                            }
                            match where_of_tree(&items[i]) {
                                Ok(w) => {
                                    let ghost prevvec = subs@;
                                    let ghost prevlist = wv_of_list(prevvec, prevvec.len() as int);
                                    let ghost wmodel = w@;
                                    subs.push(w);
                                    proof {
                                        lemma_wv_of_list(subs@, subs@.len() as int);
                                        lemma_wv_of_list(prevvec, prevvec.len() as int);
                                        assert(wv_of_list(subs@, subs@.len() as int) =~= prevlist
                                            .push(wmodel));
                                    }
                                },
                                Err(e) => {
                                    proof {
                                        assert(spec_where_list(model, (i + 1) as int) is Err);
                                        lemma_where_list_prefix_err(
                                            model,
                                            (i + 1) as int,
                                            n as int,
                                        );
                                    }
                                    return Err(e);
                                },
                            }
                            i = i + 1;
                        }
                        if is_and {
                            Ok(WhereClause::And(subs))
                        } else {
                            Ok(WhereClause::Or(subs))
                        }
                    },
                    _ => Err(filter_fault()),
                }
            } else if *key == String::from_str("$contains") || *key == String::from_str(
                "$not_contains",
            ) {
                match val {
                    JsonValue::Str(s) => {
                        if *key == String::from_str("$contains") {
                            Ok(WhereClause::DocContains(s.clone()))
                        } else {
                            Ok(WhereClause::DocNotContains(s.clone()))
                        }
                    },
                    _ => Err(filter_fault()),
                }
            } else if key.as_str().unicode_len() > 0 && key.as_str().get_char(0) == '$' {
                Err(filter_fault())
            } else {
                field_cond_of_tree(key, val)
            }
        },
        _ => Err(filter_fault()),
    }
}

/// Decodes the condition attached to one metadata field.
fn field_cond_of_tree(field: &String, val: &JsonValue) -> (r: Result<WhereClause, BindError>)
    ensures
        match spec_field_cond(field@, val@) {
            Ok(w) => r matches Ok(got) && got@ == w,
            Err(_) => r matches Err(e) && e is MalformedFilter,
        },
{
    match val {
        JsonValue::Obj(inner) => {
            proof {
                lemma_jv_of_fields(inner@, inner@.len() as int);
            }
            if inner.len() != 1 {
                return Err(filter_fault());
            }
            let op = &inner[0].0;
            let operand = &inner[0].1;
            if *op == String::from_str("$in") || *op == String::from_str("$nin") {
                match operand {
                    JsonValue::Arr(items) => {
                        proof {
                            lemma_jv_of_list(items@, items@.len() as int);
                        }
                        match scalar_list_of_tree(items) {
                            Ok(vs) => {
                                if *op == String::from_str("$in") {
                                    Ok(WhereClause::Within(field.clone(), vs))
                                } else {
                                    Ok(WhereClause::Without(field.clone(), vs))
                                }
                            },
                            Err(e) => Err(e),
                        }
                    },
                    _ => Err(filter_fault()),
                }
            } else {
                let cop: Option<CompareOp> = if *op == String::from_str("$eq") {
                    Some(CompareOp::Eq)
                } else if *op == String::from_str("$ne") {
                    Some(CompareOp::Ne)
                } else if *op == String::from_str("$gt") {
                    Some(CompareOp::Gt)
                } else if *op == String::from_str("$gte") {
                    Some(CompareOp::Gte)
                } else if *op == String::from_str("$lt") {
                    Some(CompareOp::Lt)
                } else if *op == String::from_str("$lte") {
                    Some(CompareOp::Lte)
                } else {
                    None
                };
                match cop {
                    Some(c) => {
                        match mv_of_tree(operand) {
                            Ok(v) => Ok(WhereClause::Compare(field.clone(), c, v)),
                            Err(_) => Err(filter_fault()),
                        }
                    },
                    None => Err(filter_fault()),
                }
            }
        },
        JsonValue::Arr(_) => Err(filter_fault()),
        JsonValue::Null => Err(filter_fault()),
        _ => {
            match mv_of_tree(val) {
                Ok(v) => Ok(WhereClause::Compare(field.clone(), CompareOp::Eq, v)),
                Err(_) => Err(filter_fault()),
            }
        },
    }
}

} // verus!
