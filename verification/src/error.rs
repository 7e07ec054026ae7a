//! The ways a pipeline can fail.

use vstd::prelude::*;
use vstd::string::*;

verus! {

/// A failure of the pipeline, with the cause as the failing stage gave it.
#[derive(Debug)]
pub enum SearchError {
    /// The embedding provider or the store connection could not be set up.
    Initialization(String),
    /// The query text could not be encoded.
    Embedding(String),
    /// The vector store's search call failed.
    Store(String),
}

impl SearchError {
    /// The cause, as the failing stage gave it.
    pub open spec fn cause_text(self) -> Seq<char> {
        match self {
            SearchError::Initialization(m) => m@,
            SearchError::Embedding(m) => m@,
            SearchError::Store(m) => m@,
        }
    }

    /// The name of the stage that failed.
    pub open spec fn stage_name(self) -> Seq<char> {
        match self {
            SearchError::Initialization(_) => "initialization"@,
            SearchError::Embedding(_) => "embedding"@,
            SearchError::Store(_) => "store"@,
        }
    }

    /// The cause, as the failing stage gave it.
    pub fn cause(&self) -> (c: &String)
        ensures
            c@ == self.cause_text(),
    {
        match self {
            SearchError::Initialization(m) => m,
            SearchError::Embedding(m) => m,
            SearchError::Store(m) => m,
        }
    }

    /// The name of the stage that failed.
    pub fn stage(&self) -> (s: &'static str)
        ensures
            s@ == self.stage_name(),
    {
        match self {
            SearchError::Initialization(_) => "initialization",
            SearchError::Embedding(_) => "embedding",
            SearchError::Store(_) => "store",
        }
    }

    /// The failure in words: the stage, a colon, and the cause.
    pub fn describe(&self) -> (text: String)
        ensures
            text@ == self.stage_name() + ": "@ + self.cause_text(),
    {
        String::from_str(self.stage()).concat(": ").concat(self.cause().as_str())
    }
}

} // verus!
