//! Core logic of a user/auth backend: the staged-record model, the pre-save
//! normalizer that derives bookkeeping fields on every insert or update,
//! response views, an email validator, and the schema descriptors consumed by
//! the migration runner.
pub mod model;
pub mod normalize;
pub mod schema;
pub mod validate;
pub mod views;

use vstd::prelude::*;

verus! {

} // verus!
