//! The kind of an entry.

use vstd::prelude::*;

verus! {

/// The kind of an entry, as the caller has classified it. A symbolic link
/// is a kind of its own: what it points to plays no part here.
#[derive(Clone, Copy, Debug, PartialEq, Eq, Structural)]
pub enum FileType {
    Regular,
    Directory,
    SymbolicLink,
}

} // verus!
