//! The core of a terminal text viewer: a document of rows, a cursor that moves
//! over it, and a viewport that scrolls to keep the cursor on screen.
use vstd::prelude::*;

pub mod row;
pub mod document;
pub mod editor;

verus! {

} // verus!
