//! One of two futures with the same output, chosen at run time, without
//! boxing either.
use vstd::prelude::*;

verus! {

/// Either a future of type `A` or one of type `B`; polling it polls the one
/// it holds.
pub enum Either<A, B> {
    A(A),
    B(B),
}

} // verus!
