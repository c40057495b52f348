//! The staging plan: how a fetched formula body is laid down on disk for the
//! external installer.

use vstd::prelude::*;

verus! {

/// How the fetched body is staged: inside a fresh scoped temporary directory,
/// one scoped temporary file named `<prefix><entropy><suffix>`. Both handles
/// are deleted when their owning scope ends, whether or not the install that
/// follows succeeds.
pub struct StagingPlan {
    pub prefix: String,
    pub suffix: String,
    pub rand_bytes: usize,
}

/// The staging plan for one formula: the file is named after the formula,
/// carries the definition-file suffix, and takes eight random characters of
/// entropy so that concurrent runs on the same formula cannot collide.
pub fn staging_plan(name: &str) -> (p: StagingPlan)
    ensures
        p.prefix@ == name@,
        p.suffix@ == ".rb"@,
        p.rand_bytes == 8,
{
    StagingPlan { prefix: name.to_owned(), suffix: String::from_str(".rb"), rand_bytes: 8 }
}

} // verus!
