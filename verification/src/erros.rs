//! Structured error values. The library never renders errors as text;
//! a frontend is expected to translate them for display.

use vstd::prelude::*;

verus! {

/// Why a mutation was rejected. Failed operations leave the collection
/// they would have touched unchanged.
#[derive(Clone, Copy, PartialEq, Eq, Structural, Debug)]
pub enum Erro {
    /// A member with the same name is already in the group.
    MembroDuplicado,
    /// A file with the same name is already in the directory.
    ArquivoDuplicado,
}

} // verus!
