//! The pipeline: from a query to a ranked response, in steps between which
//! the caller performs the embedding and the store call.

use crate::config::{Config, ConfigView};
use crate::error::SearchError;
use crate::hits::{hits_of, ranked_hits, SearchHit, SearchHitView};
use crate::matches::{MatchGroup, MatchGroupView};
use crate::request::{
    build_store_request, store_request_for, SearchRequest, SearchRequestView, StoreRequest,
    StoreRequestView,
};
use crate::schema::{known_fields, FieldType, FilterField, FilterFieldView};
use vstd::prelude::*;
use vstd::string::*;

verus! {

/// The answer to a query: the hits in rank order and the time the search
/// took, in nanoseconds.
pub struct SearchResponse<S> {
    pub hits: Vec<SearchHit<S>>,
    pub latency_nanos: u64,
}

/// The mathematical content of a [`SearchResponse`].
pub ghost struct SearchResponseView<S> {
    pub hits: Seq<SearchHitView<S>>,
    pub latency_nanos: int,
}

impl<S> View for SearchResponse<S> {
    type V = SearchResponseView<S>;

    open spec fn view(&self) -> SearchResponseView<S> {
        SearchResponseView {
            hits: self.hits.deep_view(),
            latency_nanos: self.latency_nanos as int,
        }
    }
}

/// Time that passed between two readings of a clock that never runs
/// backwards; zero should the second reading lie before the first.
pub open spec fn elapsed(started_at: int, now: int) -> int {
    if now >= started_at {
        now - started_at
    } else {
        0
    }
}

/// The matches that are turned into hits: those of the first group, and
/// none when the store returned no group.
pub open spec fn first_group<S>(groups: Seq<MatchGroup<S>>) -> Option<MatchGroupView<S>> {
    if groups.len() == 0 {
        None
    } else {
        Some(groups[0]@)
    }
}

/// The number of matches that are turned into hits.
pub open spec fn match_count<S>(groups: Seq<MatchGroup<S>>) -> nat {
    match first_group(groups) {
        Some(group) => group.len(),
        None => 0,
    }
}

/// The response to a query whose store call returned `groups`.
pub open spec fn response_for<S>(
    groups: Seq<MatchGroup<S>>,
    max_chars: int,
    latency_nanos: int,
) -> SearchResponseView<S> {
    SearchResponseView {
        hits: match first_group(groups) {
            Some(group) => hits_of(group, max_chars),
            None => Seq::empty(),
        },
        latency_nanos: latency_nanos,
    }
}

/// A search that waits for its query text to be embedded.
pub struct EmbeddingTask {
    query: SearchRequest,
    started_at: u64,
}

/// The mathematical content of an [`EmbeddingTask`].
pub ghost struct EmbeddingTaskView {
    pub query: SearchRequestView,
    pub started_at: int,
}

impl View for EmbeddingTask {
    type V = EmbeddingTaskView;

    closed spec fn view(&self) -> EmbeddingTaskView {
        EmbeddingTaskView { query: self.query@, started_at: self.started_at as int }
    }
}

impl EmbeddingTask {
    /// A search gets this far only if hits were asked for.
    #[verifier::type_invariant]
    closed spec fn well_formed(self) -> bool {
        self.query.num_results > 0
    }

    /// The text to embed.
    pub fn text(&self) -> (t: &str)
        ensures
            t@ == self@.query.query,
            self@.query.num_results > 0,
    {
        proof {
            use_type_invariant(self);
        }
        self.query.query.as_str()
    }
}

/// A search that waits for the store to answer its request.
pub struct StoreTask<V> {
    request: StoreRequest<V>,
    max_chars: i32,
    started_at: u64,
}

/// The mathematical content of a [`StoreTask`].
pub ghost struct StoreTaskView<V> {
    pub request: StoreRequestView<V>,
    pub max_chars: int,
    pub started_at: int,
}

impl<V> View for StoreTask<V> {
    type V = StoreTaskView<V>;

    closed spec fn view(&self) -> StoreTaskView<V> {
        StoreTaskView {
            request: self.request@,
            max_chars: self.max_chars as int,
            started_at: self.started_at as int,
        }
    }
}

impl<V> StoreTask<V> {
    /// The store is only ever asked for a positive number of matches.
    #[verifier::type_invariant]
    closed spec fn well_formed(self) -> bool {
        self.request.top_k > 0
    }

    /// The request to send to the store. It asks for at least one match.
    pub fn request(&self) -> (r: &StoreRequest<V>)
        ensures
            r@ == self@.request,
            r@.top_k > 0,
    {
        proof {
            use_type_invariant(self);
        }
        &self.request
    }
}

/// How a search starts.
pub enum Begun<S> {
    /// The query text has to be embedded next.
    Embed(EmbeddingTask),
    /// The search is over already, with this response.
    Respond(SearchResponse<S>),
}

/// The retrieval pipeline: its two collaborators, its configuration and
/// the snapshot of the index's shape taken when it was built.
pub struct SearchCore<E, C> {
    embedder: E,
    collection: C,
    doc_names: Vec<String>,
    filter_fields: Vec<FilterField>,
    cfg: Config,
}

/// The mathematical content of a [`SearchCore`].
pub ghost struct SearchCoreView<E, C> {
    pub embedder: E,
    pub collection: C,
    pub doc_names: Seq<Seq<char>>,
    pub filter_fields: Seq<FilterFieldView>,
    pub cfg: ConfigView,
}

impl<E, C> View for SearchCore<E, C> {
    type V = SearchCoreView<E, C>;

    closed spec fn view(&self) -> SearchCoreView<E, C> {
        SearchCoreView {
            embedder: self.embedder,
            collection: self.collection,
            doc_names: self.doc_names.deep_view(),
            filter_fields: self.filter_fields.deep_view(),
            cfg: self.cfg@,
        }
    }
}

impl<E, C> SearchCore<E, C> {
    /// The snapshot of filter fields is that of the known schema, from
    /// construction on.
    #[verifier::type_invariant]
    closed spec fn well_formed(self) -> bool {
        self.filter_fields.deep_view() == known_fields()
    }

    /// Builds the pipeline from its configuration and from what came of
    /// acquiring the embedding provider and of connecting to the
    /// collection. A failure of either is fatal and is reported with its
    /// cause, the provider's first. On success the pipeline knows the
    /// schema's filter fields and no document names.
    pub fn new(cfg: &Config, embedder: Result<E, String>, collection: Result<C, String>) -> (core:
        Result<SearchCore<E, C>, SearchError>)
        ensures
            match (embedder, collection) {
                (Err(cause), _) => core matches Err(e) && e == SearchError::Initialization(cause),
                (Ok(_), Err(cause)) => core matches Err(e) && e == SearchError::Initialization(
                    cause,
                ),
                (Ok(e), Ok(c)) => core matches Ok(built) && built@ == (SearchCoreView {
                    embedder: e,
                    collection: c,
                    doc_names: Seq::empty(),
                    filter_fields: known_fields(),
                    cfg: cfg@,
                }),
            },
    {
        let embedder = match embedder {
            Ok(e) => e,
            Err(cause) => {
                return Err(SearchError::Initialization(cause));
            },
        };
        let collection = match collection {
            Ok(c) => c,
            Err(cause) => {
                return Err(SearchError::Initialization(cause));
            },
        };
        let mut filter_fields: Vec<FilterField> = Vec::with_capacity(2);
        filter_fields.push(FilterField { name: String::from_str("doc_id"), dtype: FieldType::String });
        filter_fields.push(FilterField { name: String::from_str("page"), dtype: FieldType::Int });
        let doc_names: Vec<String> = Vec::new();
        assert(filter_fields.deep_view() =~= known_fields());
        assert(doc_names.deep_view() =~= Seq::<Seq<char>>::empty());
        Ok(SearchCore { embedder, collection, doc_names, filter_fields, cfg: cfg.clone() })
    }

    /// The embedding provider.
    pub fn embedder(&self) -> (e: &E)
        ensures
            *e == self@.embedder,
    {
        &self.embedder
    }

    /// The handle of the collection in the vector store.
    pub fn collection(&self) -> (c: &C)
        ensures
            *c == self@.collection,
    {
        &self.collection
    }

    /// The configuration the pipeline was built with.
    pub fn config(&self) -> (cfg: &Config)
        ensures
            cfg@ == self@.cfg,
    {
        &self.cfg
    }

    /// The fields a filter may mention: the snapshot taken at
    /// construction, which is that of the known schema.
    pub fn list_fields(&self) -> (fields: Vec<FilterField>)
        ensures
            fields.deep_view() == self@.filter_fields,
            fields.deep_view() == known_fields(),
    {
        proof {
            use_type_invariant(self);
        }
        let n = self.filter_fields.len();
        let mut fields: Vec<FilterField> = Vec::with_capacity(n);
        let mut i: usize = 0;
        while i < n
            invariant
                n == self.filter_fields.len(),
                i <= n,
                fields.len() == i,
                forall|k: int| 0 <= k < i ==> (#[trigger] fields[k])@ == self.filter_fields[k]@,
            decreases n - i,
        {
            let field = &self.filter_fields[i];
            fields.push(FilterField { name: field.name.clone(), dtype: field.dtype });
            i += 1;
        }
        fields
    }

    /// The names of the known documents: the snapshot taken at construction.
    pub fn list_docs(&self) -> (docs: Vec<String>)
        ensures
            docs.deep_view() == self@.doc_names,
    {
        let n = self.doc_names.len();
        let mut docs: Vec<String> = Vec::with_capacity(n);
        let mut i: usize = 0;
        while i < n
            invariant
                n == self.doc_names.len(),
                i <= n,
                docs.len() == i,
                forall|k: int| 0 <= k < i ==> (#[trigger] docs[k])@ == self.doc_names[k]@,
            decreases n - i,
        {
            docs.push(self.doc_names[i].clone());
            i += 1;
        }
        docs
    }

    /// Starts a search at clock reading `now`. A query that asks for no
    /// hits, or for fewer, is answered at once with no hits; any other
    /// query needs its text embedded first.
    pub fn search<S>(&self, query: SearchRequest, now: u64) -> (begun: Begun<S>)
        ensures
            if query.num_results > 0 {
                begun matches Begun::Embed(task) && task@ == (EmbeddingTaskView {
                    query: query@,
                    started_at: now as int,
                })
            } else {
                begun matches Begun::Respond(response) && response.hits.len() == 0 && response@
                    == (SearchResponseView::<S> { hits: Seq::empty(), latency_nanos: 0 })
            },
    {
        if query.num_results <= 0 {
            let hits: Vec<SearchHit<S>> = Vec::new();
            assert(hits.deep_view() =~= Seq::<SearchHitView<S>>::empty());
            Begun::Respond(SearchResponse { hits, latency_nanos: 0 })
        } else {
            Begun::Embed(EmbeddingTask { query, started_at: now })
        }
    }

    /// Takes what came of embedding the query text. A failure ends the
    /// search with an embedding error and no store request exists; a
    /// vector yields the request to send to the store.
    pub fn embedded<V>(&self, task: EmbeddingTask, outcome: Result<V, String>) -> (next: Result<
        StoreTask<V>,
        SearchError,
    >)
        ensures
            match outcome {
                Ok(vector) => next matches Ok(store_task) && store_task@ == (StoreTaskView {
                    request: store_request_for(self@.cfg.metric_type, task@.query, vector),
                    max_chars: task@.query.max_chars,
                    started_at: task@.started_at,
                }),
                Err(cause) => next matches Err(e) && e == SearchError::Embedding(cause),
            },
    {
        proof {
            use_type_invariant(&task);
        }
        match outcome {
            Ok(vector) => {
                let request = build_store_request(
                    self.cfg.metric_type.as_str(),
                    &task.query,
                    vector,
                );
                Ok(
                    StoreTask {
                        request,
                        max_chars: task.query.max_chars,
                        started_at: task.started_at,
                    },
                )
            },
            Err(cause) => Err(SearchError::Embedding(cause)),
        }
    }

    /// Takes what came of the store call, at clock reading `now`. A
    /// failure ends the search with a store error. Otherwise the matches
    /// of the first group become the hits, in the store's order; no group
    /// at all gives an empty response, which is a success.
    pub fn completed<V, S: Copy>(
        &self,
        task: StoreTask<V>,
        outcome: Result<Vec<MatchGroup<S>>, String>,
        now: u64,
    ) -> (done: Result<SearchResponse<S>, SearchError>)
        ensures
            match outcome {
                Ok(groups) => done matches Ok(response) && response.hits.len() == match_count(
                    groups@,
                ) && response@ == response_for(
                    groups@,
                    task@.max_chars,
                    elapsed(task@.started_at, now as int),
                ),
                Err(cause) => done matches Err(e) && e == SearchError::Store(cause),
            },
    {
        let groups = match outcome {
            Ok(groups) => groups,
            Err(cause) => {
                return Err(SearchError::Store(cause));
            },
        };
        let hits: Vec<SearchHit<S>> = if groups.len() == 0 {
            let none: Vec<SearchHit<S>> = Vec::new();
            assert(none.deep_view() =~= Seq::<SearchHitView<S>>::empty());
            none
        } else {
            ranked_hits(&groups[0], task.max_chars)
        };
        let latency_nanos: u64 = if now >= task.started_at {
            now - task.started_at
        } else {
            0
        };
        Ok(SearchResponse { hits, latency_nanos })
    }
}

/// A response holds exactly one hit per match of the first group the
/// store returned, and none when it returned no group. So where the store
/// returned no more matches than the `k` that were asked for, the
/// response holds no more than `k` hits.
pub proof fn lemma_hits_match_store<S>(
    groups: Seq<MatchGroup<S>>,
    max_chars: int,
    latency_nanos: int,
    k: int,
)
    requires
        k > 0,
        groups.len() > 0 ==> groups[0]@.len() <= k,
    ensures
        response_for(groups, max_chars, latency_nanos).hits.len() == match_count(groups),
        groups.len() == 0 ==> match_count(groups) == 0,
        groups.len() > 0 ==> match_count(groups) == groups[0]@.len(),
        response_for(groups, max_chars, latency_nanos).hits.len() <= k,
{
}

/// The ranks of a response are 1, 2, 3 and so on up to the number of
/// hits, in the order of the store's matches.
pub proof fn lemma_response_ranks<S>(groups: Seq<MatchGroup<S>>, max_chars: int, latency_nanos: int)
    ensures
        forall|i: int|
            0 <= i < response_for(groups, max_chars, latency_nanos).hits.len() ==> (
            #[trigger] response_for(groups, max_chars, latency_nanos).hits[i]).rank == i + 1,
{
}

/// The time a response reports is never negative, and is positive
/// whenever the clock moved on between the start of the search and its
/// end.
pub proof fn lemma_latency_is_elapsed_time(started_at: int, now: int)
    ensures
        elapsed(started_at, now) >= 0,
        now > started_at ==> elapsed(started_at, now) > 0,
{
}

/// Listing the filter fields twice gives the same list both times: both
/// lists are the pipeline's snapshot, which no operation changes.
pub proof fn lemma_fields_snapshot_is_stable<E, C>(
    core: SearchCore<E, C>,
    first: Vec<FilterField>,
    second: Vec<FilterField>,
)
    requires
        first.deep_view() == core@.filter_fields,
        second.deep_view() == core@.filter_fields,
    ensures
        first.deep_view() == second.deep_view(),
{
}

} // verus!
