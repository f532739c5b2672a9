use vstd::prelude::*;

use super::keys::Keys;
use super::RawSelect;

verus! {

/// A menu that owns its entries.
pub struct SelectNonBlock<Type> {
    pub owner: Vec<Type>,
    pub keys: Keys,
    pub inner: RawSelect,
}

} // verus!
