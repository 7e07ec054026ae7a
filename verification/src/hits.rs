//! Ranked hits: what a caller sees of the store's matches.

use crate::matches::{MatchGroup, MatchGroupView, MAX_MATCHES};
use crate::text::{
    ends_with_ellipsis, is_cut, lemma_ellipsis_marks_cut, lemma_limit_bounds_text, shortened,
    truncate_text,
};
use vstd::prelude::*;
use vstd::string::*;

verus! {

/// The document id reported for a match whose id field holds no string.
pub const UNKNOWN_DOC: &'static str = "<unknown>";

/// One ranked search result.
pub struct SearchHit<S> {
    /// Position in the store's order, counted from one.
    pub rank: i32,
    /// Identifier of the document the passage comes from.
    pub doc_id: String,
    /// Page of the passage within the document.
    pub page: i32,
    /// The passage, cut to the requested length.
    pub text: String,
    /// The store's relevance score for the match, as the store gave it.
    pub score: S,
}

/// The mathematical content of a [`SearchHit`].
pub ghost struct SearchHitView<S> {
    pub rank: int,
    pub doc_id: Seq<char>,
    pub page: int,
    pub text: Seq<char>,
    pub score: S,
}

impl<S> View for SearchHit<S> {
    type V = SearchHitView<S>;

    open spec fn view(&self) -> SearchHitView<S> {
        SearchHitView {
            rank: self.rank as int,
            doc_id: self.doc_id@,
            page: self.page as int,
            text: self.text@,
            score: self.score,
        }
    }
}

impl<S> DeepView for SearchHit<S> {
    type V = SearchHitView<S>;

    open spec fn deep_view(&self) -> SearchHitView<S> {
        self@
    }
}

/// The document id of a row: the string the store returned, else the
/// unknown-document marker.
pub open spec fn doc_id_at<S>(group: MatchGroupView<S>, row: int) -> Seq<char> {
    match group.doc_ids.text_at(row) {
        Some(id) => id,
        None => UNKNOWN_DOC@,
    }
}

/// The page of a row: the integer the store returned, reduced to 32 bits,
/// else zero.
pub open spec fn page_at<S>(group: MatchGroupView<S>, row: int) -> int {
    match group.pages.number_at(row) {
        Some(page) => page,
        None => 0,
    }
}

/// The full text of a row: the string the store returned, else nothing.
pub open spec fn text_at<S>(group: MatchGroupView<S>, row: int) -> Seq<char> {
    match group.texts.text_at(row) {
        Some(text) => text,
        None => Seq::empty(),
    }
}

/// The hit that a row of a group becomes under the limit `max_chars`.
pub open spec fn hit_at<S>(group: MatchGroupView<S>, row: int, max_chars: int) -> SearchHitView<S> {
    SearchHitView {
        rank: row + 1,
        doc_id: doc_id_at(group, row),
        page: page_at(group, row),
        text: shortened(text_at(group, row), max_chars),
        score: group.scores[row],
    }
}

/// The hits that a group becomes: one per match, in the store's order.
pub open spec fn hits_of<S>(group: MatchGroupView<S>, max_chars: int) -> Seq<SearchHitView<S>> {
    Seq::new(group.len(), |row: int| hit_at(group, row, max_chars))
}

/// Turns the matches of a group into ranked hits. The store's order is
/// kept; texts are cut to `max_chars` characters.
pub fn ranked_hits<S: Copy>(group: &MatchGroup<S>, max_chars: i32) -> (hits: Vec<SearchHit<S>>)
    ensures
        hits.deep_view() == hits_of(group@, max_chars as int),
        hits.len() == group@.len(),
{
    let n = group.len();
    let mut hits: Vec<SearchHit<S>> = Vec::with_capacity(n);
    let mut row: usize = 0;
    while row < n
        invariant
            n == group@.len(),
            n <= MAX_MATCHES,
            group@.aligned(),
            row <= n,
            hits.len() == row,
            forall|i: int| 0 <= i < row ==> (#[trigger] hits[i])@ == hit_at(group@, i, max_chars as int),
        decreases n - row,
    {
        let doc_id = match group.doc_ids().text_at(row) {
            Some(id) => id,
            None => String::from_str(UNKNOWN_DOC),
        };
        let page = match group.pages().number_at(row) {
            Some(page) => page,
            None => 0,
        };
        let full = match group.texts().text_at(row) {
            Some(text) => text,
            None => String::new(),
        };
        let text = truncate_text(full, max_chars);
        let score = group.scores()[row];
        let rank: i32 = (row + 1) as i32;
        hits.push(SearchHit { rank, doc_id, page, text, score });
        row += 1;
    }
    hits
}

/// A group becomes as many hits as it holds matches, ranked 1, 2, 3 and
/// so on in the store's order: ranks rise strictly, and each hit carries
/// the score and the fields of the match in its position.
pub proof fn lemma_ranks_follow_store_order<S>(group: MatchGroupView<S>, max_chars: int)
    ensures
        hits_of(group, max_chars).len() == group.len(),
        forall|i: int|
            0 <= i < group.len() ==> (#[trigger] hits_of(group, max_chars)[i]).rank == i + 1,
        forall|i: int, j: int|
            0 <= i < j < group.len() ==> (#[trigger] hits_of(group, max_chars)[i]).rank < (
            #[trigger] hits_of(group, max_chars)[j]).rank,
        forall|i: int|
            0 <= i < group.len() ==> (#[trigger] hits_of(group, max_chars)[i]).score
                == group.scores[i],
        forall|i: int|
            0 <= i < group.len() ==> (#[trigger] hits_of(group, max_chars)[i]).doc_id == doc_id_at(
                group,
                i,
            ),
        forall|i: int|
            0 <= i < group.len() ==> (#[trigger] hits_of(group, max_chars)[i]).page == page_at(
                group,
                i,
            ),
{
}

/// With the limit at zero no hit's text is cut: each hit carries the full
/// text of its match.
pub proof fn lemma_no_limit_keeps_hit_texts<S>(group: MatchGroupView<S>)
    ensures
        forall|i: int|
            0 <= i < group.len() ==> (#[trigger] hits_of(group, 0)[i]).text == text_at(group, i),
{
}

/// Under a positive limit every hit's text is at most one character
/// longer than the limit, and the text of a match that was too long ends
/// with the ellipsis.
pub proof fn lemma_limit_bounds_hit_texts<S>(group: MatchGroupView<S>, max_chars: int)
    requires
        max_chars > 0,
    ensures
        forall|i: int|
            0 <= i < group.len() ==> (#[trigger] hits_of(group, max_chars)[i]).text.len()
                <= max_chars + 1,
        forall|i: int|
            0 <= i < group.len() && is_cut(text_at(group, i), max_chars) ==> ends_with_ellipsis(
                (#[trigger] hits_of(group, max_chars)[i]).text,
            ),
        forall|i: int|
            0 <= i < group.len() && !is_cut(text_at(group, i), max_chars) ==> (
            #[trigger] hits_of(group, max_chars)[i]).text == text_at(group, i),
{
    assert forall|i: int| 0 <= i < group.len() implies (#[trigger] hits_of(
        group,
        max_chars,
    )[i]).text.len() <= max_chars + 1 by {
        lemma_limit_bounds_text(text_at(group, i), max_chars);
    }
}

/// Under a positive limit a hit's text ends with the ellipsis exactly
/// when it was cut, for every match whose own text does not end with an
/// ellipsis while fitting the limit.
pub proof fn lemma_ellipsis_marks_cut_hits<S>(group: MatchGroupView<S>, max_chars: int, row: int)
    requires
        max_chars > 0,
        0 <= row < group.len(),
        is_cut(text_at(group, row), max_chars) || !ends_with_ellipsis(text_at(group, row)),
    ensures
        ends_with_ellipsis(hits_of(group, max_chars)[row].text) <==> is_cut(
            text_at(group, row),
            max_chars,
        ),
{
    lemma_ellipsis_marks_cut(text_at(group, row), max_chars);
}

} // verus!
