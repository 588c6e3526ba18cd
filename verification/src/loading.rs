//! The dynamic loader's error type.

use libloading::Error as LoadingError;
use vstd::prelude::*;

verus! {

/// `libloading::Error`, carried as the cause of a failed load. Nothing is
/// claimed of its contents.
#[verifier::external_type_specification]
#[verifier::external_body]
pub struct ExLoadingError(LoadingError);

} // verus!
