//! The query a caller sends and the request the vector store receives.

use crate::metric::{metric_or_default, Metric};
use crate::text::{blank, is_blank};
use vstd::prelude::*;
use vstd::string::*;

verus! {

/// Name of the vector field that is searched.
pub const VECTOR_FIELD: &'static str = "embedding";

/// Size of the candidate list the store keeps while searching.
pub const SEARCH_EF: i64 = 100;

/// A caller's query.
pub struct SearchRequest {
    /// The natural-language query text.
    pub query: String,
    /// How many hits are asked for.
    pub num_results: i32,
    /// A filter in the store's expression language; blank for none.
    pub filter: String,
    /// Longest text of a hit, in characters; zero for no limit.
    pub max_chars: i32,
}

/// The mathematical content of a [`SearchRequest`].
pub ghost struct SearchRequestView {
    pub query: Seq<char>,
    pub num_results: int,
    pub filter: Seq<char>,
    pub max_chars: int,
}

impl View for SearchRequest {
    type V = SearchRequestView;

    open spec fn view(&self) -> SearchRequestView {
        SearchRequestView {
            query: self.query@,
            num_results: self.num_results as int,
            filter: self.filter@,
            max_chars: self.max_chars as int,
        }
    }
}

/// What the vector store is asked, with the query vector as `V`.
pub struct StoreRequest<V> {
    /// The query vector.
    pub vector: V,
    /// The vector field to search.
    pub vector_field: String,
    /// How many matches to return.
    pub top_k: i32,
    /// The metric to rank by.
    pub metric: Metric,
    /// The filter expression; `None` when no filter is attached.
    pub filter: Option<String>,
    /// The fields to return with each match, in column order.
    pub output_fields: Vec<String>,
    /// Size of the store's candidate list.
    pub ef: i64,
}

/// The mathematical content of a [`StoreRequest`].
pub ghost struct StoreRequestView<V> {
    pub vector: V,
    pub vector_field: Seq<char>,
    pub top_k: int,
    pub metric: Metric,
    pub filter: Option<Seq<char>>,
    pub output_fields: Seq<Seq<char>>,
    pub ef: int,
}

impl<V> View for StoreRequest<V> {
    type V = StoreRequestView<V>;

    open spec fn view(&self) -> StoreRequestView<V> {
        StoreRequestView {
            vector: self.vector,
            vector_field: self.vector_field@,
            top_k: self.top_k as int,
            metric: self.metric,
            filter: match self.filter {
                Some(f) => Some(f@),
                None => None,
            },
            output_fields: self.output_fields.deep_view(),
            ef: self.ef as int,
        }
    }
}

/// The filter that goes to the store for an expression: none for a blank
/// expression, else the expression as it was given.
pub open spec fn filter_for(expr: Seq<char>) -> Option<Seq<char>> {
    if is_blank(expr) {
        None
    } else {
        Some(expr)
    }
}

/// The fields asked of the store: document id, page and text, in this order.
pub open spec fn requested_fields() -> Seq<Seq<char>> {
    seq!["doc_id"@, "page"@, "text"@]
}

/// The store request for a query, under a configured metric name and
/// with the query's embedding.
pub open spec fn store_request_for<V>(
    metric_name: Seq<char>,
    query: SearchRequestView,
    vector: V,
) -> StoreRequestView<V> {
    StoreRequestView {
        vector: vector,
        vector_field: VECTOR_FIELD@,
        top_k: query.num_results,
        metric: metric_or_default(metric_name),
        filter: filter_for(query.filter),
        output_fields: requested_fields(),
        ef: SEARCH_EF as int,
    }
}

/// Chooses the filter to attach for an expression.
pub fn attach_filter(expr: &String) -> (filter: Option<String>)
    ensures
        match filter {
            Some(f) => Some(f@),
            None => None,
        } == filter_for(expr@),
{
    if blank(expr.as_str()) {
        None
    } else {
        Some(expr.clone())
    }
}

/// Builds the store request for a query.
pub fn build_store_request<V>(metric_name: &str, query: &SearchRequest, vector: V) -> (request:
    StoreRequest<V>)
    ensures
        request@ == store_request_for(metric_name@, query@, vector),
{
    let mut output_fields: Vec<String> = Vec::with_capacity(3);
    output_fields.push(String::from_str("doc_id"));
    output_fields.push(String::from_str("page"));
    output_fields.push(String::from_str("text"));
    assert(output_fields.deep_view() =~= requested_fields());
    StoreRequest {
        vector,
        vector_field: String::from_str(VECTOR_FIELD),
        top_k: query.num_results,
        metric: Metric::resolve(metric_name),
        filter: attach_filter(&query.filter),
        output_fields,
        ef: SEARCH_EF,
    }
}

/// A query whose filter expression is blank, the empty expression and one
/// of three spaces among them, gives a store request with no filter
/// attached; any other expression is attached unchanged.
pub proof fn lemma_blank_filter_is_omitted<V>(
    metric_name: Seq<char>,
    query: SearchRequestView,
    vector: V,
)
    ensures
        is_blank(query.filter) ==> store_request_for(metric_name, query, vector).filter is None,
        !is_blank(query.filter) ==> store_request_for(metric_name, query, vector).filter == Some(
            query.filter,
        ),
        is_blank(Seq::empty()),
        is_blank(seq![' ', ' ', ' ']),
{
}

} // verus!
