use vstd::prelude::*;

verus! {

/// One line of document text, addressed by byte column.
pub struct Row {
    bytes: Vec<u8>,
}

/// The part of `text` between columns `start` and `end`, clipped to the text.
pub open spec fn window(text: Seq<u8>, start: int, end: int) -> Seq<u8> {
    let e = if end < text.len() { end } else { text.len() as int };
    let s = if start < e { start } else { e };
    text.subrange(s, e)
}

impl View for Row {
    type V = Seq<u8>;

    closed spec fn view(&self) -> Seq<u8> {
        self.bytes@
    }
}

impl Row {
    /// A row holding the given bytes.
    pub fn new(bytes: Vec<u8>) -> (r: Row)
        ensures
            r@ == bytes@,
    {
        Row { bytes }
    }

    /// A row's length always fits in a `usize`.
    pub proof fn lemma_len_fits(&self)
        ensures
            self@.len() <= usize::MAX,
    {
        assert(self.bytes.len() == self.bytes@.len());
    }

    /// The number of columns in the row.
    pub fn len(&self) -> (r: usize)
        ensures
            r == self@.len(),
    {
        self.bytes.len()
    }

    /// Whether the row holds no text.
    pub fn is_empty(&self) -> (r: bool)
        ensures
            r == (self@.len() == 0),
    {
        self.bytes.len() == 0
    }

    /// The text visible between columns `start` and `end`: clipped to the row,
    /// and empty where the window lies past the end or `start > end`.
    pub fn render(&self, start: usize, end: usize) -> (r: Vec<u8>)
        ensures
            r@ == window(self@, start as int, end as int),
    {
        let e: usize = if end < self.bytes.len() { end } else { self.bytes.len() };
        let s: usize = if start < e { start } else { e };
        let mut out: Vec<u8> = Vec::new();
        let mut i: usize = s;
        while i < e
            invariant
                s <= i <= e,
                e <= self.bytes@.len(),
                out@ == self.bytes@.subrange(s as int, i as int),
            decreases e - i,
        {
            out.push(self.bytes[i]);
            i = i + 1;
        }
        assert(out@ == self.bytes@.subrange(s as int, e as int));
        out
    }
}

} // verus!

verus! {

/// A window never holds more than the columns of the row between its clipped
/// ends: `min(end, len) - min(start, len)`.
pub proof fn lemma_window_length(text: Seq<u8>, start: int, end: int)
    requires
        0 <= start <= end,
    ensures
        window(text, start, end).len() <= (if end < text.len() { end } else { text.len() as int }) - (
        if start < text.len() { start } else { text.len() as int }),
{
}

} // verus!
