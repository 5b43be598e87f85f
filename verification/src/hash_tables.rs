//! The hasher of the file writer's `ahash` tables.
use vstd::prelude::*;

verus! {

/// `ahash::RandomState`, the hasher builder of `ahash::HashMap`.
#[verifier::external_type_specification]
#[verifier::external_body]
pub struct ExAHashRandomState(ahash::RandomState);

} // verus!
