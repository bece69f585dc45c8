//! A record of one text mutation: the position range it covered, the raw
//! offset span it removed, the text it put in, and the file it belongs to.
//! Handed to the surrounding application so that external collaborators can
//! be told what changed.

use crate::document::ByteRange;
use crate::selection::Range;
use vstd::prelude::*;

verus! {

pub struct DocumentChange {
    pub range: Range,
    pub byte_range: ByteRange,
    pub text: String,
    pub file: String,
}

impl DocumentChange {
    pub fn new(range: Range, byte_range: ByteRange, text: String, file: String) -> (r: Self)
        ensures
            r.range == range,
            r.byte_range == byte_range,
            r.text == text,
            r.file == file,
    {
        Self { range, byte_range, text, file }
    }
}

} // verus!
