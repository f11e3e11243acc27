//! Types of the host system that the library carries without looking inside.
use vstd::prelude::*;

verus! {

/// A path in the host's file system (`std::path::PathBuf`), carried as it is.
#[verifier::external_type_specification]
#[verifier::external_body]
pub struct ExPathBuf(std::path::PathBuf);

} // verus!
