//! Raw results of a vector-store search: parallel columns of field values
//! with one score per match.

use vstd::prelude::*;

verus! {

/// The values one output field takes over the matches of a group.
pub enum Column {
    /// A field of strings.
    Strings(Vec<String>),
    /// A field of 32-bit integers.
    Ints(Vec<i32>),
    /// A field of 64-bit integers.
    Longs(Vec<i64>),
    /// A field of any other type; its values are not read.
    Other,
}

/// The mathematical content of a [`Column`].
pub ghost enum ColumnView {
    Strings(Seq<Seq<char>>),
    Ints(Seq<i32>),
    Longs(Seq<i64>),
    Other,
}

impl View for Column {
    type V = ColumnView;

    open spec fn view(&self) -> ColumnView {
        match self {
            Column::Strings(v) => ColumnView::Strings(v.deep_view()),
            Column::Ints(v) => ColumnView::Ints(v@),
            Column::Longs(v) => ColumnView::Longs(v@),
            Column::Other => ColumnView::Other,
        }
    }
}

/// An integer reduced to 32 bits: the signed 32-bit integer that agrees
/// with it modulo 2^32. An integer that fits in 32 bits is left as it is.
pub open spec fn narrowed(v: int) -> int {
    let low = v % 0x1_0000_0000;
    if low < 0x8000_0000 {
        low
    } else {
        low - 0x1_0000_0000
    }
}

impl ColumnView {
    /// Whether the column can belong to a group of `n` matches: a column of
    /// a read type holds exactly one value per match.
    pub open spec fn fits(self, n: nat) -> bool {
        match self {
            ColumnView::Strings(s) => s.len() == n,
            ColumnView::Ints(s) => s.len() == n,
            ColumnView::Longs(s) => s.len() == n,
            ColumnView::Other => true,
        }
    }

    /// Whether the column holds a value in a row. A column whose values
    /// are not read holds none.
    pub open spec fn has_row(self, row: int) -> bool {
        match self {
            ColumnView::Strings(s) => 0 <= row < s.len(),
            ColumnView::Ints(s) => 0 <= row < s.len(),
            ColumnView::Longs(s) => 0 <= row < s.len(),
            ColumnView::Other => false,
        }
    }

    /// The string in a row; `None` when the column holds no strings.
    pub open spec fn text_at(self, row: int) -> Option<Seq<char>> {
        match self {
            ColumnView::Strings(s) => Some(s[row]),
            _ => None,
        }
    }

    /// The integer in a row, reduced to 32 bits; `None` when the column
    /// holds no integers.
    pub open spec fn number_at(self, row: int) -> Option<int> {
        match self {
            ColumnView::Ints(s) => Some(s[row] as int),
            ColumnView::Longs(s) => Some(narrowed(s[row] as int)),
            _ => None,
        }
    }
}

/// Reduces a 64-bit integer to 32 bits by keeping its low 32 bits.
pub fn narrow(v: i64) -> (n: i32)
    ensures
        n == narrowed(v as int),
{
    let n =
    #[verifier::truncate]
    (v as i32);
    assert(n == narrowed(v as int)) by {
        assert((v as i32) == (if v % 0x1_0000_0000 < 0x8000_0000 {
            v % 0x1_0000_0000 + 0
        } else {
            v % 0x1_0000_0000 - 0x1_0000_0000
        })) by (bit_vector);
    }
    n
}

/// Reducing to 32 bits leaves every integer that fits in 32 bits as it
/// is, and always yields an integer that fits.
pub proof fn lemma_narrowed_in_range(v: int)
    ensures
        i32::MIN <= narrowed(v) <= i32::MAX,
        i32::MIN <= v <= i32::MAX ==> narrowed(v) == v,
        (v - narrowed(v)) % 0x1_0000_0000 == 0,
{
}

impl Column {
    /// Decides whether the column can belong to a group of `n` matches.
    pub fn fits(&self, n: usize) -> (b: bool)
        ensures
            b == self@.fits(n as nat),
    {
        match self {
            Column::Strings(v) => v.len() == n,
            Column::Ints(v) => v.len() == n,
            Column::Longs(v) => v.len() == n,
            Column::Other => true,
        }
    }

    /// The string in a row, if the column holds strings and has that row.
    pub fn text_at(&self, row: usize) -> (out: Option<String>)
        ensures
            match out {
                Some(s) => self@.has_row(row as int) && Some(s@) == self@.text_at(row as int),
                None => !(self@.has_row(row as int) && self@.text_at(row as int) is Some),
            },
    {
        match self {
            Column::Strings(v) => {
                if row < v.len() {
                    Some(v[row].clone())
                } else {
                    None
                }
            },
            _ => None,
        }
    }

    /// The integer in a row, reduced to 32 bits, if the column holds
    /// integers and has that row.
    pub fn number_at(&self, row: usize) -> (out: Option<i32>)
        ensures
            match out {
                Some(n) => self@.has_row(row as int) && Some(n as int) == self@.number_at(
                    row as int,
                ),
                None => !(self@.has_row(row as int) && self@.number_at(row as int) is Some),
            },
    {
        match self {
            Column::Ints(v) => {
                if row < v.len() {
                    Some(v[row])
                } else {
                    None
                }
            },
            Column::Longs(v) => {
                if row < v.len() {
                    Some(narrow(v[row]))
                } else {
                    None
                }
            },
            _ => None,
        }
    }
}

/// The most matches a group can hold: ranks are 32-bit and start at one.
pub const MAX_MATCHES: usize = 0x7FFF_FFFF;

/// One group of matches, as the store returns it for one query vector:
/// the document-id, page and text columns, and one score per match.
///
/// Every column of a read type is as long as the score column, so each
/// row is a complete match.
pub struct MatchGroup<S> {
    doc_ids: Column,
    pages: Column,
    texts: Column,
    scores: Vec<S>,
}

/// The mathematical content of a [`MatchGroup`].
pub ghost struct MatchGroupView<S> {
    pub doc_ids: ColumnView,
    pub pages: ColumnView,
    pub texts: ColumnView,
    pub scores: Seq<S>,
}

impl<S> MatchGroupView<S> {
    /// The number of matches in the group.
    pub open spec fn len(self) -> nat {
        self.scores.len()
    }

    /// Whether the columns are aligned and the matches can all be ranked.
    pub open spec fn aligned(self) -> bool {
        &&& self.scores.len() <= MAX_MATCHES
        &&& self.doc_ids.fits(self.scores.len())
        &&& self.pages.fits(self.scores.len())
        &&& self.texts.fits(self.scores.len())
    }
}

/// The group that the store's columns make up, read in the order of the
/// fields asked for: document id first, then page, then text.
pub open spec fn arranged<S>(columns: Seq<Column>, scores: Seq<S>) -> MatchGroupView<S> {
    MatchGroupView {
        doc_ids: columns[0]@,
        pages: columns[1]@,
        texts: columns[2]@,
        scores: scores,
    }
}

impl<S> View for MatchGroup<S> {
    type V = MatchGroupView<S>;

    closed spec fn view(&self) -> MatchGroupView<S> {
        MatchGroupView {
            doc_ids: self.doc_ids@,
            pages: self.pages@,
            texts: self.texts@,
            scores: self.scores@,
        }
    }
}

impl<S> MatchGroup<S> {
    #[verifier::type_invariant]
    closed spec fn well_formed(self) -> bool {
        self@.aligned()
    }

    /// Assembles a group from its columns. Succeeds exactly when the
    /// columns are aligned with the scores and the matches can be ranked.
    pub fn new(doc_ids: Column, pages: Column, texts: Column, scores: Vec<S>) -> (group: Option<
        MatchGroup<S>,
    >)
        ensures
            group is Some <==> (MatchGroupView {
                doc_ids: doc_ids@,
                pages: pages@,
                texts: texts@,
                scores: scores@,
            }).aligned(),
            group matches Some(g) ==> g@ == (MatchGroupView {
                doc_ids: doc_ids@,
                pages: pages@,
                texts: texts@,
                scores: scores@,
            }),
    {
        let n = scores.len();
        if n <= MAX_MATCHES && doc_ids.fits(n) && pages.fits(n) && texts.fits(n) {
            Some(MatchGroup { doc_ids, pages, texts, scores })
        } else {
            None
        }
    }

    /// Assembles a group from the columns in the order in which the store
    /// returns them, which is that of the fields asked for: document id,
    /// page, text. Further columns are not read. Succeeds exactly when
    /// the three columns are there and [`MatchGroup::new`] accepts them.
    pub fn from_columns(columns: Vec<Column>, scores: Vec<S>) -> (group: Option<MatchGroup<S>>)
        ensures
            group is Some <==> columns.len() >= 3 && arranged(columns@, scores@).aligned(),
            group matches Some(g) ==> g@ == arranged(columns@, scores@),
    {
        let mut columns = columns;
        if columns.len() < 3 {
            return None;
        }
        let texts = columns.remove(2);
        let pages = columns.remove(1);
        let doc_ids = columns.remove(0);
        MatchGroup::new(doc_ids, pages, texts, scores)
    }

    /// The number of matches in the group.
    pub fn len(&self) -> (n: usize)
        ensures
            n == self@.len(),
            n <= MAX_MATCHES,
            self@.aligned(),
    {
        proof {
            use_type_invariant(self);
        }
        self.scores.len()
    }

    /// Whether the group holds no match.
    pub fn is_empty(&self) -> (b: bool)
        ensures
            b == (self@.len() == 0),
    {
        self.scores.len() == 0
    }

    /// The document-id column.
    pub fn doc_ids(&self) -> (c: &Column)
        ensures
            c@ == self@.doc_ids,
    {
        &self.doc_ids
    }

    /// The page column.
    pub fn pages(&self) -> (c: &Column)
        ensures
            c@ == self@.pages,
    {
        &self.pages
    }

    /// The text column.
    pub fn texts(&self) -> (c: &Column)
        ensures
            c@ == self@.texts,
    {
        &self.texts
    }

    /// The scores, one per match, in the store's order.
    pub fn scores(&self) -> (s: &Vec<S>)
        ensures
            s@ == self@.scores,
    {
        &self.scores
    }
}

} // verus!
