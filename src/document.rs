use vstd::prelude::*;
use crate::row::Row;

verus! {

/// An ordered sequence of rows, in the order of the lines they came from.
pub struct Document {
    rows: Vec<Row>,
}

/// The length of row `y`, or 0 where `y` names no row (the end-of-document line).
pub open spec fn row_length(doc: Seq<Seq<u8>>, y: int) -> int {
    if 0 <= y < doc.len() {
        doc[y].len() as int
    } else {
        0
    }
}

/// Every count in `doc` fits in a `usize`, as it does for any document in memory.
pub open spec fn doc_fits(doc: Seq<Seq<u8>>) -> bool {
    &&& doc.len() <= usize::MAX
    &&& forall|i: int| 0 <= i < doc.len() ==> #[trigger] doc[i].len() <= usize::MAX
}

impl View for Document {
    type V = Seq<Seq<u8>>;

    closed spec fn view(&self) -> Seq<Seq<u8>> {
        self.rows@.map_values(|r: Row| r@)
    }
}

impl Document {
    /// A document made of the given rows, in order.
    pub fn new(rows: Vec<Row>) -> (d: Document)
        ensures
            d@ == rows@.map_values(|r: Row| r@),
    {
        Document { rows }
    }

    /// The document with no rows.
    pub fn empty() -> (d: Document)
        ensures
            d@ == Seq::<Seq<u8>>::empty(),
    {
        let d = Document { rows: Vec::new() };
        assert(d@ =~= Seq::<Seq<u8>>::empty());
        d
    }

    /// The row at `index`, if there is one.
    pub fn row(&self, index: usize) -> (r: Option<&Row>)
        ensures
            r.is_some() == (index < self@.len()),
            r.is_some() ==> r.unwrap()@ == self@[index as int],
    {
        if index < self.rows.len() {
            Some(&self.rows[index])
        } else {
            None
        }
    }

    /// The number of rows.
    pub fn len(&self) -> (r: usize)
        ensures
            r == self@.len(),
    {
        self.rows.len()
    }

    /// Whether the document has no rows.
    pub fn is_empty(&self) -> (r: bool)
        ensures
            r == (self@.len() == 0),
    {
        self.rows.len() == 0
    }

    /// The length of row `y`, or 0 past the last row.
    pub fn row_len(&self, y: usize) -> (r: usize)
        ensures
            r == row_length(self@, y as int),
    {
        match self.row(y) {
            Some(row) => row.len(),
            None => 0,
        }
    }

    /// Any document held in memory has counts that fit in a `usize`.
    pub proof fn lemma_fits(&self)
        ensures
            doc_fits(self@),
    {
        assert(self.rows.len() == self.rows@.len());
        assert forall|i: int| 0 <= i < self@.len() implies #[trigger] self@[i].len() <= usize::MAX by {
            self.rows@[i].lemma_len_fits();
        }
    }
}

} // verus!
