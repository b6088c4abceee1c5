//! Text embeddings.
use vstd::prelude::*;

verus! {

/// Length of the embedding vectors.
pub const EMBEDDING_DIMENSIONS: usize = 384;

/// An embedding model for tests: every text maps to the zero vector.
pub struct MockEmbeddingModel;

impl MockEmbeddingModel {
    /// The embedding of `text`, each component given by its IEEE-754
    /// single-precision bit pattern: 384 components, all `0.0` (bits 0).
    pub fn embed(&self, _text: &str) -> (r: Vec<u32>)
        ensures
            r@ == Seq::new(EMBEDDING_DIMENSIONS as nat, |i: int| 0u32),
    {
        let mut v: Vec<u32> = Vec::new();
        let mut i: usize = 0;
        while i < EMBEDDING_DIMENSIONS
            invariant
                i <= EMBEDDING_DIMENSIONS,
                v@ == Seq::new(i as nat, |k: int| 0u32),
            decreases EMBEDDING_DIMENSIONS - i,
        {
            v.push(0);
            i = i + 1;
            assert(v@ =~= Seq::new(i as nat, |k: int| 0u32));
        }
        v
    }
}

/// Retrieval over the browsing history with an embedding model; pages are
/// not yet indexed, so searches find nothing.
pub struct BrowserRag<E> {
    embedding_model: E,
}

impl<E> BrowserRag<E> {
    /// The retrieval system over `embedding_model`.
    pub fn new(embedding_model: E) -> (r: Self)
        ensures
            r.model() == embedding_model,
    {
        BrowserRag { embedding_model }
    }

    /// The embedding model.
    pub closed spec fn model(&self) -> E {
        self.embedding_model
    }

    /// Index the page at `url`; always succeeds.
    pub fn index_page(&self, _url: &str, _content: &str) -> (r: Result<(), String>)
        ensures
            r is Ok,
    {
        Ok(())
    }

    /// Pages of the history matching `query`, at most `limit`: none.
    pub fn search_history(&self, _query: &str, _limit: usize) -> (r: Result<Vec<String>, String>)
        ensures
            r matches Ok(v) && v@.len() == 0,
    {
        Ok(Vec::new())
    }
}

} // verus!
