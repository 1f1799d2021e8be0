//! The marker that vector types share.

use vstd::prelude::*;

verus! {

/// Marks a type as a vector of this library.
pub trait Vector {

}

} // verus!
