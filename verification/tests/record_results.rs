use chromex_native::codec::decode_metadata;
use chromex_native::records::{GetResult, QueryResult, encode_get_result, encode_query_result};

fn s(v: &str) -> String {
    v.to_string()
}

fn num_text(x: f32) -> String {
    format!("{}", x)
}

#[test]
fn get_result_encodes_to_canonical_json() {
    let g = GetResult {
        ids: vec![s("a"), s("b")],
        embeddings: Some(vec![
            vec![num_text(1.5), num_text(2.0)],
            vec![num_text(-0.25), num_text(3.0)],
        ]),
        documents: Some(vec![Some(s("doc a")), None]),
        uris: None,
        metadatas: Some(vec![None, Some(decode_metadata("{\"k\":7}").unwrap())]),
    };
    let text = encode_get_result(&g);
    assert_eq!(
        text,
        "{\"documents\":[\"doc a\",null],\"embeddings\":[[1.5,2],[-0.25,3]],\"ids\":[\"a\",\"b\"],\"metadatas\":[null,{\"k\":7}],\"uris\":null}"
    );
}

#[test]
fn empty_get_result_encodes() {
    let g = GetResult {
        ids: Vec::new(),
        embeddings: None,
        documents: None,
        uris: None,
        metadatas: None,
    };
    assert_eq!(
        encode_get_result(&g),
        "{\"documents\":null,\"embeddings\":null,\"ids\":[],\"metadatas\":null,\"uris\":null}"
    );
}

#[test]
fn query_result_encodes_per_query_rows() {
    let q = QueryResult {
        ids: vec![vec![s("a"), s("b")], vec![]],
        distances: Some(vec![vec![num_text(0.5), num_text(1.25)], vec![]]),
        embeddings: Some(vec![vec![vec![num_text(1.0), num_text(2.5)]], vec![]]),
        documents: Some(vec![vec![Some(s("d")), None], vec![]]),
        uris: None,
        metadatas: None,
    };
    let text = encode_query_result(&q);
    assert!(text.contains("\"ids\":[[\"a\",\"b\"],[]]"));
    assert!(text.contains("\"distances\":[[0.5,1.25],[]]"));
    assert!(text.contains("\"embeddings\":[[[1,2.5]],[]]"));
    assert!(text.contains("\"documents\":[[\"d\",null],[]]"));
    assert!(text.contains("\"uris\":null"));
}

#[test]
fn empty_query_result_is_an_empty_result_set() {
    let q = QueryResult {
        ids: Vec::new(),
        distances: Some(Vec::new()),
        embeddings: None,
        documents: None,
        uris: None,
        metadatas: None,
    };
    let text = encode_query_result(&q);
    assert!(text.contains("\"ids\":[]"));
    assert!(text.contains("\"distances\":[]"));
}
