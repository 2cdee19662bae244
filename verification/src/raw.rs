use vstd::prelude::*;

verus! {

/// A token that names one value in the host heap.
///
/// It carries no lifetime and no type: it is a borrow descriptor, and the host
/// heap owns what it names. Two tokens are the same exactly when they name the
/// same slot.
#[derive(Clone, Copy, PartialEq, Eq, Structural, Debug)]
pub struct RawReference {
    pub slot: usize,
}

} // verus!
