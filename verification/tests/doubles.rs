use std::cell::{Cell, RefCell};

use heungguk_poc_rag::config::Config;
use heungguk_poc_rag::error::SearchError;
use heungguk_poc_rag::matches::{Column, MatchGroup};
use heungguk_poc_rag::request::SearchRequest;
use heungguk_poc_rag::search::{Begun, SearchCore, SearchResponse};

/// An embedding provider that records what it was asked.
struct FakeEmbedder {
    fails: bool,
    calls: Cell<u32>,
    last_text: RefCell<String>,
}

impl FakeEmbedder {
    fn new(fails: bool) -> Self {
        FakeEmbedder { fails, calls: Cell::new(0), last_text: RefCell::new(String::new()) }
    }

    fn encode(&self, text: &str) -> Result<Vec<f32>, String> {
        self.calls.set(self.calls.get() + 1);
        *self.last_text.borrow_mut() = text.to_string();
        if self.fails {
            Err(String::from("encoder unavailable"))
        } else {
            Ok(vec![text.chars().count() as f32, 1.0])
        }
    }
}

/// A vector store that records the last request it saw.
struct FakeStore {
    fails: bool,
    rows: usize,
    calls: Cell<u32>,
    last_filter: RefCell<Option<Option<String>>>,
    last_top_k: Cell<i32>,
    last_vector: RefCell<Vec<f32>>,
}

impl FakeStore {
    fn new(fails: bool, rows: usize) -> Self {
        FakeStore {
            fails,
            rows,
            calls: Cell::new(0),
            last_filter: RefCell::new(None),
            last_top_k: Cell::new(0),
            last_vector: RefCell::new(Vec::new()),
        }
    }

    fn search(
        &self,
        vector: &[f32],
        top_k: i32,
        filter: Option<&str>,
    ) -> Result<Vec<MatchGroup<f32>>, String> {
        self.calls.set(self.calls.get() + 1);
        *self.last_filter.borrow_mut() = Some(filter.map(str::to_string));
        self.last_top_k.set(top_k);
        *self.last_vector.borrow_mut() = vector.to_vec();
        if self.fails {
            return Err(String::from("store unreachable"));
        }
        let n = self.rows;
        let ids: Vec<String> = (0..n).map(|i| format!("doc-{}", i)).collect();
        let texts: Vec<String> = (0..n).map(|i| format!("passage number {}", i)).collect();
        let scores: Vec<f32> = (0..n).map(|i| 1.0 / (i as f32 + 1.0)).collect();
        let group = MatchGroup::from_columns(
            vec![Column::Strings(ids), Column::Longs((0..n as i64).collect()), Column::Strings(texts)],
            scores,
        );
        Ok(vec![group.expect("aligned columns")])
    }
}

type Pipe = SearchCore<FakeEmbedder, FakeStore>;

fn pipe(embedder: FakeEmbedder, store: FakeStore) -> Pipe {
    match SearchCore::new(&Config::default(), Ok(embedder), Ok(store)) {
        Ok(built) => built,
        Err(e) => panic!("construction failed: {}", e.describe()),
    }
}

/// Runs one search the way a server would: the outside calls are made
/// between the pipeline's steps, and only when a step asks for them.
fn run(p: &Pipe, query: SearchRequest, started: u64, ended: u64) -> Result<SearchResponse<f32>, SearchError> {
    let task = match p.search::<f32>(query, started) {
        Begun::Respond(response) => return Ok(response),
        Begun::Embed(task) => task,
    };
    let embedding = p.embedder().encode(task.text());
    let task = p.embedded(task, embedding)?;
    let outcome = {
        let request = task.request();
        p.collection().search(&request.vector, request.top_k, request.filter.as_deref())
    };
    p.completed(task, outcome, ended)
}

fn query(text: &str, k: i32, filter: &str, max_chars: i32) -> SearchRequest {
    SearchRequest { query: text.to_string(), num_results: k, filter: filter.to_string(), max_chars }
}

#[test]
fn a_search_calls_each_collaborator_once() {
    let p = pipe(FakeEmbedder::new(false), FakeStore::new(false, 3));
    let response = run(&p, query("network timeout handling", 3, "", 50), 0, 10)
        .unwrap_or_else(|e| panic!("{}", e.describe()));
    assert_eq!(p.embedder().calls.get(), 1);
    assert_eq!(p.collection().calls.get(), 1);
    assert_eq!(*p.embedder().last_text.borrow(), "network timeout handling");
    assert_eq!(response.hits.len(), 3);
    assert_eq!(response.latency_nanos, 10);
}

#[test]
fn the_store_receives_the_embedding_and_the_count() {
    let p = pipe(FakeEmbedder::new(false), FakeStore::new(false, 1));
    run(&p, query("abcd", 7, "", 0), 0, 0).unwrap_or_else(|e| panic!("{}", e.describe()));
    assert_eq!(*p.collection().last_vector.borrow(), vec![4.0f32, 1.0]);
    assert_eq!(p.collection().last_top_k.get(), 7);
}

#[test]
fn the_store_sees_no_filter_for_an_empty_expression() {
    let p = pipe(FakeEmbedder::new(false), FakeStore::new(false, 1));
    run(&p, query("q", 1, "", 0), 0, 0).unwrap_or_else(|e| panic!("{}", e.describe()));
    assert_eq!(*p.collection().last_filter.borrow(), Some(None));
}

#[test]
fn the_store_sees_no_filter_for_a_blank_expression() {
    let p = pipe(FakeEmbedder::new(false), FakeStore::new(false, 1));
    run(&p, query("q", 1, "   ", 0), 0, 0).unwrap_or_else(|e| panic!("{}", e.describe()));
    assert_eq!(*p.collection().last_filter.borrow(), Some(None));
}

#[test]
fn the_store_sees_a_real_filter_unchanged() {
    let p = pipe(FakeEmbedder::new(false), FakeStore::new(false, 1));
    run(&p, query("q", 1, " page >= 2", 0), 0, 0).unwrap_or_else(|e| panic!("{}", e.describe()));
    assert_eq!(*p.collection().last_filter.borrow(), Some(Some(String::from(" page >= 2"))));
}

#[test]
fn embedding_failure_never_reaches_the_store() {
    let p = pipe(FakeEmbedder::new(true), FakeStore::new(false, 3));
    match run(&p, query("q", 3, "", 0), 0, 10) {
        Err(SearchError::Embedding(cause)) => assert_eq!(cause, "encoder unavailable"),
        Err(e) => panic!("the wrong stage was blamed: {}", e.describe()),
        Ok(_) => panic!("a response came of a failed embedding"),
    }
    assert_eq!(p.embedder().calls.get(), 1);
    assert_eq!(p.collection().calls.get(), 0);
}

#[test]
fn store_failure_is_reported_and_the_search_ends() {
    let p = pipe(FakeEmbedder::new(false), FakeStore::new(true, 3));
    match run(&p, query("q", 3, "", 0), 0, 10) {
        Err(SearchError::Store(cause)) => assert_eq!(cause, "store unreachable"),
        Err(e) => panic!("the wrong stage was blamed: {}", e.describe()),
        Ok(_) => panic!("a response came of a failed store call"),
    }
    assert_eq!(p.embedder().calls.get(), 1);
    assert_eq!(p.collection().calls.get(), 1);
}

#[test]
fn a_failed_search_leaves_the_pipeline_usable() {
    let p = pipe(FakeEmbedder::new(false), FakeStore::new(true, 3));
    assert!(run(&p, query("q", 3, "", 0), 0, 10).is_err());
    let fields = p.list_fields();
    assert_eq!(fields.len(), 2);
    assert!(run(&p, query("q", 0, "", 0), 0, 10).is_ok());
}

#[test]
fn a_query_for_no_hits_calls_nobody() {
    let p = pipe(FakeEmbedder::new(false), FakeStore::new(false, 3));
    let response = run(&p, query("q", 0, "", 0), 0, 10).unwrap_or_else(|e| panic!("{}", e.describe()));
    assert!(response.hits.is_empty());
    assert_eq!(p.embedder().calls.get(), 0);
    assert_eq!(p.collection().calls.get(), 0);
}

#[test]
fn the_response_holds_what_the_store_returned() {
    for rows in [0usize, 1, 3] {
        let p = pipe(FakeEmbedder::new(false), FakeStore::new(false, rows));
        let response = run(&p, query("q", 3, "", 9), 100, 350)
            .unwrap_or_else(|e| panic!("{}", e.describe()));
        assert_eq!(response.hits.len(), rows);
        assert!(response.hits.len() <= 3);
        assert_eq!(response.latency_nanos, 250);
        for (i, hit) in response.hits.iter().enumerate() {
            assert_eq!(hit.rank, i as i32 + 1);
            assert_eq!(hit.doc_id, format!("doc-{}", i));
            assert_eq!(hit.page, i as i32);
            assert_eq!(hit.text, "passage n\u{2026}");
            assert_eq!(hit.score, 1.0 / (i as f32 + 1.0));
        }
    }
}
