//! The verified half of the extract engine. The byte-level archive codec
//! is an external capability; what belongs to this engine is the
//! validation of its result: the convention for these tool archives is a
//! single root folder, and the committer must be told the true layout so
//! it can place the contents correctly.

use vstd::prelude::*;
use crate::installer::RootShape;
use crate::store::DirEntry;

verus! {

/// Classifies the top level of a finished extraction. Exactly one
/// top-level entry that is a directory is the conventional single
/// well-formed root; any other layout is still accepted, reported as
/// flat so the whole staging tree is committed under the version
/// identifier.
pub fn classify_extracted(entries: &Vec<DirEntry>) -> (r: RootShape)
    ensures
        (r matches RootShape::SingleDir(_)) <==> (entries@.len() == 1 && entries@[0].is_directory),
        r matches RootShape::SingleDir(n) ==> n@ == entries@[0].name@,
{
    if entries.len() == 1 && entries[0].is_directory {
        RootShape::SingleDir(entries[0].name.clone())
    } else {
        RootShape::Flat
    }
}

} // verus!
