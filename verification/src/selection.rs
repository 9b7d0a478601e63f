use vstd::prelude::*;
use vstd::string::StringExecFns;

verus! {

/// The result fields a read operation should populate.
#[derive(Clone, Copy, Debug, PartialEq, Eq, Structural)]
pub struct Selection {
    pub document: bool,
    pub embedding: bool,
    pub metadata: bool,
    pub distance: bool,
    pub uri: bool,
}

/// Whether some token of the sequence reads exactly `t`.
pub open spec fn has_token(tokens: Seq<String>, t: Seq<char>) -> bool {
    exists|i: int| 0 <= i < tokens.len() && tokens[i]@ == t
}

/// Tokens seen one step further: the step adds exactly the next token.
proof fn lemma_has_token_step(tokens: Seq<String>, i: int, s: Seq<char>)
    requires
        0 <= i < tokens.len(),
    ensures
        has_token(tokens.take(i + 1), s) == (has_token(tokens.take(i), s) || tokens[i]@ == s),
{
    let pre = tokens.take(i);
    let post = tokens.take(i + 1);
    assert(post =~= pre.push(tokens[i]));
    if has_token(pre, s) {
        let k = choose|k: int| 0 <= k < pre.len() && pre[k]@ == s;
        assert(post[k]@ == s);
    }
    if tokens[i]@ == s {
        assert(post[i]@ == s);
    }
    if has_token(post, s) {
        let k = choose|k: int| 0 <= k < post.len() && post[k]@ == s;
        if k < i {
            assert(pre[k]@ == s);
        }
    }
}

/// The five selector tokens are pairwise distinct (they differ in their
/// second character).
proof fn lemma_selector_tokens_distinct()
    ensures
        "documents"@ != "embeddings"@,
        "documents"@ != "metadatas"@,
        "documents"@ != "distances"@,
        "documents"@ != "uris"@,
        "embeddings"@ != "metadatas"@,
        "embeddings"@ != "distances"@,
        "embeddings"@ != "uris"@,
        "metadatas"@ != "distances"@,
        "metadatas"@ != "uris"@,
        "distances"@ != "uris"@,
{
    reveal_strlit("documents");
    reveal_strlit("embeddings");
    reveal_strlit("metadatas");
    reveal_strlit("distances");
    reveal_strlit("uris");
    assert("documents"@[1] == 'o');
    assert("embeddings"@[1] == 'm');
    assert("metadatas"@[1] == 'e');
    assert("distances"@[1] == 'i');
    assert("uris"@[1] == 'r');
}

/// Decodes selector tokens into the selection set. Each recognized token turns
/// its field on; unrecognized tokens are dropped, not rejected.
#[verifier::loop_isolation(false)]
pub fn decode_selection(tokens: &Vec<String>) -> (r: Selection)
    ensures
        r.document == has_token(tokens@, "documents"@),
        r.embedding == has_token(tokens@, "embeddings"@),
        r.metadata == has_token(tokens@, "metadatas"@),
        r.distance == has_token(tokens@, "distances"@),
        r.uri == has_token(tokens@, "uris"@),
{
    let mut r = Selection {
        document: false,
        embedding: false,
        metadata: false,
        distance: false,
        uri: false,
    };
    let n = tokens.len();
    let mut i: usize = 0;
    while i < n
        invariant
            0 <= i <= n,
            r.document == has_token(tokens@.take(i as int), "documents"@),
            r.embedding == has_token(tokens@.take(i as int), "embeddings"@),
            r.metadata == has_token(tokens@.take(i as int), "metadatas"@),
            r.distance == has_token(tokens@.take(i as int), "distances"@),
            r.uri == has_token(tokens@.take(i as int), "uris"@),
        decreases n - i,
    {
        let t = &tokens[i];
        if *t == String::from_str("documents") {
            r.document = true;
        } else if *t == String::from_str("embeddings") {
            r.embedding = true;
        } else if *t == String::from_str("metadatas") {
            r.metadata = true;
        } else if *t == String::from_str("distances") {
            r.distance = true;
        } else if *t == String::from_str("uris") {
            r.uri = true;
        }
        proof {
            lemma_selector_tokens_distinct();
            lemma_has_token_step(tokens@, i as int, "documents"@);
            lemma_has_token_step(tokens@, i as int, "embeddings"@);
            lemma_has_token_step(tokens@, i as int, "metadatas"@);
            lemma_has_token_step(tokens@, i as int, "distances"@);
            lemma_has_token_step(tokens@, i as int, "uris"@);
        }
        i = i + 1;
    }
    proof {
        assert(tokens@.take(n as int) =~= tokens@);
    }
    r
}

} // verus!
