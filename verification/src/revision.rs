//! Pinned-revision validation: a local source tree is usable only when the
//! HEAD its version control reports equals the pinned commit exactly, once
//! surrounding whitespace is trimmed.

use vstd::prelude::*;

use crate::text::{spec_trim, str_eq, trim};

verus! {

/// A pinned source revision: the repository it comes from and the exact
/// commit every build must compile. Both are build-time constants, injected
/// once at orchestration start.
#[derive(Debug)]
pub struct RevisionPin {
    pub repository_url: String,
    pub commit_hash: String,
}

/// A failed revision check, naming the pinned value and what version control
/// actually reported so the pin can be updated.
#[derive(Debug)]
pub struct RevisionMismatch {
    pub expected: String,
    pub actual: String,
}

/// Confirms that the HEAD a local tree reports matches the pinned commit,
/// byte for byte after trimming whitespace; any other value, the empty
/// string included, is a mismatch naming both the expected and the actual
/// value.
pub fn validate_revision(head: &str, pinned: &str) -> (r: Result<(), RevisionMismatch>)
    ensures
        r is Ok <==> spec_trim(head@) == pinned@,
        r is Err ==> r->Err_0.expected@ == pinned@ && r->Err_0.actual@ == head@,
{
    let trimmed = trim(head);
    if str_eq(trimmed, pinned) {
        Ok(())
    } else {
        Err(RevisionMismatch { expected: pinned.to_owned(), actual: head.to_owned() })
    }
}

} // verus!
