//! Per-application registry of installed versions, backed by the
//! filesystem layout itself: each immediate subdirectory of the resolved
//! tool directory is one installed version, and the directory name is the
//! version identifier. The scan itself is I/O and lives with the caller;
//! this module holds the rules that interpret a scan and the containment
//! guarantee for removals.

use vstd::prelude::*;
use crate::errors::StoreError;

verus! {

/// One immediate child of a directory, as reported by a filesystem scan.
#[derive(Clone, Debug)]
pub struct DirEntry {
    pub name: String,
    pub is_directory: bool,
}

/// A compatibility-tool version present on disk for one application: the
/// version identifier and the absolute path of its installed directory.
#[derive(Clone, Debug)]
pub struct InstalledVersion {
    pub version_id: String,
    pub install_path: String,
}

/// A scanned entry counts as an installed version exactly when it is a
/// directory and not hidden.
pub open spec fn counts_as_installed(e: DirEntry) -> bool {
    e.is_directory && e.name@.len() > 0 && e.name@[0] != '.'
}

/// A version identifier is acceptable as a directory name when it is
/// non-empty, not hidden, and contains no path separator: a path built
/// from it can then name only one immediate child of the tool directory.
pub open spec fn valid_version_id(id: Seq<char>) -> bool {
    id.len() > 0 && id[0] != '.' && (forall|i: int|
        0 <= i < id.len() ==> id[i] != '/' && id[i] != '\\')
}

/// The listing contains an installed version with this identifier.
pub open spec fn listing_has_version(entries: Seq<DirEntry>, id: Seq<char>) -> bool {
    exists|i: int| 0 <= i < entries.len() && counts_as_installed(entries[i]) && entries[i].name@ == id
}

/// Checks a version identifier against [`valid_version_id`].
pub fn is_valid_version_id(id: &str) -> (r: bool)
    ensures
        r == valid_version_id(id@),
{
    let n = id.unicode_len();
    if n == 0 {
        return false;
    }
    if id.get_char(0) == '.' {
        return false;
    }
    let mut i: usize = 0;
    while i < n
        invariant
            i <= n,
            n == id@.len(),
            id@.len() > 0,
            id@[0] != '.',
            forall|k: int| 0 <= k < i ==> id@[k] != '/' && id@[k] != '\\',
        decreases n - i,
    {
        let c = id.get_char(i);
        if c == '/' || c == '\\' {
            return false;
        }
        i = i + 1;
    }
    true
}

/// Checks a scanned entry against [`counts_as_installed`].
pub fn entry_counts(e: &DirEntry) -> (r: bool)
    ensures
        r == counts_as_installed(*e),
{
    if !e.is_directory {
        return false;
    }
    let n = e.name.as_str().unicode_len();
    if n == 0 {
        return false;
    }
    e.name.as_str().get_char(0) != '.'
}

/// Joins a directory path and a child name with a single separator.
pub fn join_path(dir: &String, name: &str) -> (r: String)
    ensures
        r@ == dir@ + "/"@ + name@,
{
    let mut p = dir.clone();
    p.append("/");
    p.append(name);
    p
}

/// Does the listing contain an installed version named `version_id`?
/// The listing is re-read by the caller on every call: the directory is
/// authoritative, there is no cache to drift.
pub fn has_version(entries: &Vec<DirEntry>, version_id: &String) -> (r: bool)
    ensures
        r == listing_has_version(entries@, version_id@),
{
    let mut j: usize = 0;
    while j < entries.len()
        invariant
            j <= entries@.len(),
            forall|k: int|
                0 <= k < j ==> !(counts_as_installed(entries@[k]) && entries@[k].name@
                    == version_id@),
        decreases entries@.len() - j,
    {
        if entry_counts(&entries[j]) && entries[j].name == *version_id {
            proof {
                assert(counts_as_installed(entries@[j as int]) && entries@[j as int].name@
                    == version_id@);
            }
            return true;
        }
        j = j + 1;
    }
    false
}

/// The installed versions a scan of the tool directory `root` denotes, in
/// scan order: one `(version identifier, install path)` pair per entry
/// that counts as installed.
pub open spec fn spec_installed(root: Seq<char>, entries: Seq<DirEntry>) -> Seq<
    (Seq<char>, Seq<char>),
>
    decreases entries.len(),
{
    if entries.len() == 0 {
        Seq::empty()
    } else {
        let rest = spec_installed(root, entries.drop_last());
        let e = entries.last();
        if counts_as_installed(e) {
            rest.push((e.name@, root + "/"@ + e.name@))
        } else {
            rest
        }
    }
}

/// Lists the installed versions the scanned entries denote, ignoring
/// hidden and non-directory entries, in scan order.
pub fn list_installed(root: &String, entries: &Vec<DirEntry>) -> (r: Vec<InstalledVersion>)
    ensures
        r@.len() == spec_installed(root@, entries@).len(),
        forall|i: int|
            0 <= i < r@.len() ==> r@[i].version_id@ == spec_installed(root@, entries@)[i].0
                && r@[i].install_path@ == spec_installed(root@, entries@)[i].1,
{
    let mut out: Vec<InstalledVersion> = Vec::new();
    let mut j: usize = 0;
    while j < entries.len()
        invariant
            j <= entries@.len(),
            out@.len() == spec_installed(root@, entries@.take(j as int)).len(),
            forall|i: int|
                0 <= i < out@.len() ==> out@[i].version_id@ == spec_installed(
                    root@,
                    entries@.take(j as int),
                )[i].0 && out@[i].install_path@ == spec_installed(root@, entries@.take(j as int))[i].1,
        decreases entries@.len() - j,
    {
        proof {
            assert(entries@.take(j + 1).drop_last() =~= entries@.take(j as int));
            assert(entries@.take(j + 1).last() == entries@[j as int]);
        }
        let e = &entries[j];
        if entry_counts(e) {
            let path = join_path(root, e.name.as_str());
            out.push(InstalledVersion { version_id: e.name.clone(), install_path: path });
        }
        j = j + 1;
    }
    proof {
        assert(entries@.take(entries@.len() as int) =~= entries@);
    }
    out
}

/// Resolves a removal request to the single path it may delete. Never
/// names anything outside the tool directory: an identifier with a path
/// separator or a leading dot is rejected as invalid rather than acted
/// on, and an identifier that is not present fails with `NotFound`. The
/// caller performs the actual recursive delete of the returned path and
/// reports `PermissionDenied` if the filesystem rejects it.
pub fn remove_plan(root: &String, version_id: &String, entries: &Vec<DirEntry>) -> (r: Result<
    String,
    StoreError,
>)
    ensures
        (r matches Ok(p)) <==> (valid_version_id(version_id@) && listing_has_version(
            entries@,
            version_id@,
        )),
        r matches Ok(p) ==> p@ == root@ + "/"@ + version_id@,
        !valid_version_id(version_id@) ==> (r matches Err(e) && e == StoreError::InvalidVersionId),
        valid_version_id(version_id@) && !listing_has_version(entries@, version_id@) ==> (
        r matches Err(e) && e == StoreError::NotFound),
{
    if !is_valid_version_id(version_id.as_str()) {
        return Err(StoreError::InvalidVersionId);
    }
    if !has_version(entries, version_id) {
        return Err(StoreError::NotFound);
    }
    Ok(join_path(root, version_id.as_str()))
}

/// Containment: a path a removal may act on extends the tool directory
/// `root` by exactly one separator and a valid name, so it lies strictly
/// inside `root` and names one immediate child of it — no traversal
/// sequence in a crafted identifier can reach outside, because a valid
/// identifier contains no separator and does not begin with a dot.
pub proof fn lemma_remove_containment(root: Seq<char>, id: Seq<char>, p: Seq<char>)
    requires
        valid_version_id(id),
        p == root + "/"@ + id,
    ensures
        p.len() == root.len() + 1 + id.len(),
        p.subrange(0, root.len() as int) == root,
        p[root.len() as int] == '/',
        forall|i: int| root.len() + 1 <= i < p.len() ==> p[i] != '/' && p[i] != '\\',
        p[root.len() as int + 1] != '.',
{
    reveal_strlit("/");
    assert("/"@.len() == 1);
    assert(p.subrange(0, root.len() as int) =~= root);
    assert forall|i: int| root.len() + 1 <= i < p.len() implies p[i] != '/' && p[i] != '\\' by {
        assert(p[i] == id[i - root.len() - 1]);
    }
    assert(p[root.len() as int + 1] == id[0]);
}

} // verus!
