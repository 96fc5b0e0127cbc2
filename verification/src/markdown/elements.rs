//! The blocks of a markdown document.

use vstd::prelude::*;

verus! {

/// How an indented block is marked: as a plain quotation, or as one of the
/// kinds of notice.
#[derive(Clone, Debug, PartialEq, Eq, PartialOrd, Ord, Structural)]
pub enum IndentationDecoration {
    Indentation,
    Note,
    Important,
    Tip,
    Warning,
    Caution,
}

} // verus!
