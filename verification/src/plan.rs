//! The reconciliation core: for each source entry, decide whether it is
//! excluded, skipped, copied, or descended into.

use vstd::prelude::*;
use vstd::string::StrSliceExecFns;
use crate::config::Args;
use crate::entry::DirEntry;
use crate::exclude::{is_excluded, name_excluded};

verus! {

/// What the synchronizer does with one source entry.
#[derive(Clone, Copy, Debug, PartialEq, Eq, Structural)]
pub enum Decision {
    /// The name matches an exclusion pattern: no copy, no recursion.
    Exclude,
    /// A destination entry of the same name exists and neither `update` nor
    /// `force` is set: the safety default forbids the overwrite.
    SkipExistsNoForce,
    /// Source and destination modification times are exactly equal: the file
    /// is taken for unchanged and not rewritten.
    SkipUnchanged,
    /// The regular file's bytes are copied, overwriting any destination file.
    CopyFile,
    /// The directory is synchronized recursively with a derived configuration.
    RecurseDir,
    /// The entry is a directory but recursion is not enabled: silently skipped.
    SkipRecursionDisabled,
}

/// The decision for one source entry, evaluated in this fixed order:
/// exclusion first, then the overwrite gate, then the staleness check,
/// then copy for files, recursion (if enabled) for directories.
/// `dest_mtime` is the modification time of the destination entry of the
/// same name, if one exists.
pub open spec fn decision_of(
    force: bool,
    update: bool,
    recursive: bool,
    excluded: bool,
    is_file: bool,
    src_mtime: u128,
    dest_mtime: Option<u128>,
) -> Decision {
    if excluded {
        Decision::Exclude
    } else if dest_mtime is Some && !update && !force {
        Decision::SkipExistsNoForce
    } else if is_file && dest_mtime == Some(src_mtime) {
        Decision::SkipUnchanged
    } else if is_file {
        Decision::CopyFile
    } else if recursive {
        Decision::RecurseDir
    } else {
        Decision::SkipRecursionDisabled
    }
}

/// The modification time of the first entry of the listing that bears the
/// given name, if any.
pub open spec fn lookup_mtime(dest: Seq<DirEntry>, name: Seq<char>) -> Option<u128>
    decreases dest.len(),
{
    if dest.len() == 0 {
        None
    } else if dest[0].name@ == name {
        Some(dest[0].mtime)
    } else {
        lookup_mtime(dest.drop_first(), name)
    }
}

/// The decision for one source entry against a whole destination listing.
pub open spec fn entry_decision(cfg: Args, e: DirEntry, dest: Seq<DirEntry>) -> Decision {
    decision_of(
        cfg.force,
        cfg.update,
        cfg.recursive,
        is_excluded(cfg.exclude_patterns.deep_view(), e.name@),
        e.is_file,
        e.mtime,
        lookup_mtime(dest, e.name@),
    )
}

/// Character-for-character string equality.
fn str_eq(a: &str, b: &str) -> (r: bool)
    ensures
        r == (a@ == b@),
{
    let la = a.unicode_len();
    let lb = b.unicode_len();
    if la != lb {
        return false;
    }
    let mut i: usize = 0;
    while i < la
        invariant
            la == a@.len(),
            la == b@.len(),
            i <= la,
            forall|j: int| 0 <= j < i ==> a@[j] == b@[j],
        decreases la - i,
    {
        if a.get_char(i) != b.get_char(i) {
            return false;
        }
        i += 1;
    }
    proof {
        assert(a@ =~= b@);
    }
    true
}

/// Finds the destination entry with the given name and hands back its
/// modification time; `None` when no destination entry bears the name.
pub fn lookup_dest(dest: &Vec<DirEntry>, name: &str) -> (r: Option<u128>)
    ensures
        r == lookup_mtime(dest@, name@),
{
    let mut k: usize = 0;
    proof {
        assert(dest@.skip(0) =~= dest@);
    }
    while k < dest.len()
        invariant
            k <= dest@.len(),
            lookup_mtime(dest@, name@) == lookup_mtime(dest@.skip(k as int), name@),
        decreases dest@.len() - k,
    {
        if str_eq(dest[k].name.as_str(), name) {
            proof {
                assert(dest@.skip(k as int)[0] == dest@[k as int]);
            }
            return Some(dest[k].mtime);
        }
        proof {
            assert(dest@.skip(k as int).drop_first() =~= dest@.skip(k as int + 1));
        }
        k += 1;
    }
    proof {
        assert(dest@.skip(k as int).len() == 0);
    }
    None
}

/// Decides what to do with one source entry, given the destination listing.
pub fn decide_entry(cfg: &Args, e: &DirEntry, dest: &Vec<DirEntry>) -> (d: Decision)
    ensures
        d == entry_decision(*cfg, *e, dest@),
{
    if name_excluded(&cfg.exclude_patterns, e.name.as_str()) {
        return Decision::Exclude;
    }
    let dest_mtime = lookup_dest(dest, e.name.as_str());
    if dest_mtime.is_some() && !cfg.update && !cfg.force {
        Decision::SkipExistsNoForce
    } else if e.is_file && dest_mtime.is_some() {
        let dm = dest_mtime.unwrap();
        if dm == e.mtime {
            Decision::SkipUnchanged
        } else {
            Decision::CopyFile
        }
    } else if e.is_file {
        Decision::CopyFile
    } else if cfg.recursive {
        Decision::RecurseDir
    } else {
        Decision::SkipRecursionDisabled
    }
}

/// Reconciles one directory level: the decision for every source entry, in
/// listing order, against the same destination listing.
pub fn plan_level(cfg: &Args, src: &Vec<DirEntry>, dest: &Vec<DirEntry>) -> (r: Vec<Decision>)
    ensures
        r@.len() == src@.len(),
        forall|i: int| 0 <= i < src@.len() ==> r@[i] == entry_decision(*cfg, src@[i], dest@),
{
    let mut r: Vec<Decision> = Vec::new();
    let mut k: usize = 0;
    while k < src.len()
        invariant
            k <= src@.len(),
            r@.len() == k,
            forall|i: int| 0 <= i < k ==> r@[i] == entry_decision(*cfg, src@[i], dest@),
        decreases src@.len() - k,
    {
        let d = decide_entry(cfg, &src[k], dest);
        r.push(d);
        k += 1;
    }
    r
}

/// The decision when the source itself is a single regular file: only the
/// overwrite gate applies — the staleness check has no part in this path.
pub open spec fn single_file_decision(force: bool, update: bool, dest_found: bool) -> Decision {
    if dest_found && !update && !force {
        Decision::SkipExistsNoForce
    } else {
        Decision::CopyFile
    }
}

/// Decides the single-file copy: skipped only when a destination entry of the
/// same name exists and neither flag allows overwriting.
pub fn decide_single_file(cfg: &Args, name: &str, dest: &Vec<DirEntry>) -> (d: Decision)
    ensures
        d == single_file_decision(cfg.force, cfg.update, lookup_mtime(dest@, name@) is Some),
{
    let dest_mtime = lookup_dest(dest, name);
    if dest_mtime.is_some() && !cfg.update && !cfg.force {
        Decision::SkipExistsNoForce
    } else {
        Decision::CopyFile
    }
}

} // verus!
