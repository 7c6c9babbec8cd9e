//! Proved guarantees of the reconciliation logic.

use vstd::prelude::*;
use crate::config::Args;
use crate::entry::DirEntry;
use crate::exclude::is_excluded;
use crate::plan::{entry_decision, lookup_mtime, Decision};

verus! {

/// With recursion disabled no entry is ever descended into, and a copy
/// happens only for a regular file whose name matches no exclusion pattern:
/// the destination receives only such top-level files, and subdirectories
/// are untouched.
pub proof fn lemma_flat_run(cfg: Args, e: DirEntry, dest: Seq<DirEntry>)
    requires
        !cfg.recursive,
    ensures
        entry_decision(cfg, e, dest) != Decision::RecurseDir,
        entry_decision(cfg, e, dest) == Decision::CopyFile ==> e.is_file
            && !is_excluded(cfg.exclude_patterns.deep_view(), e.name@),
{
}

/// An entry whose name matches an exclusion pattern is excluded — never
/// copied and never descended into — whatever `force` and `update` say.
pub proof fn lemma_excluded_wins(cfg: Args, e: DirEntry, dest: Seq<DirEntry>)
    requires
        is_excluded(cfg.exclude_patterns.deep_view(), e.name@),
    ensures
        entry_decision(cfg, e, dest) == Decision::Exclude,
{
}

/// Idempotence: a second run with no exclusion patterns and both `force` and
/// `update` off copies nothing. Every source entry whose name the destination
/// already holds — after the first run, all of them — is skipped at the
/// overwrite gate, so the destination stays byte-identical.
pub proof fn lemma_second_run_copies_nothing(cfg: Args, src: Seq<DirEntry>, dest: Seq<DirEntry>)
    requires
        !cfg.force,
        !cfg.update,
        cfg.exclude_patterns@.len() == 0,
        forall|i: int| 0 <= i < src.len() ==> lookup_mtime(dest, #[trigger] src[i].name@) is Some,
    ensures
        forall|i: int| 0 <= i < src.len()
            ==> #[trigger] entry_decision(cfg, src[i], dest) == Decision::SkipExistsNoForce,
{
    assert forall|i: int| 0 <= i < src.len()
        implies #[trigger] entry_decision(cfg, src[i], dest) == Decision::SkipExistsNoForce by {
        assert(!is_excluded(cfg.exclude_patterns.deep_view(), src[i].name@));
    }
}

/// The overwrite gate: a regular file whose destination counterpart has a
/// different modification time — older or newer — is never overwritten
/// without `force` or `update`; with `force` set (and the name not excluded)
/// it is always copied, whatever the timestamps say.
pub proof fn lemma_overwrite_gate(cfg: Args, e: DirEntry, dest: Seq<DirEntry>)
    requires
        e.is_file,
        lookup_mtime(dest, e.name@) is Some,
        lookup_mtime(dest, e.name@) != Some(e.mtime),
    ensures
        !cfg.force && !cfg.update ==> entry_decision(cfg, e, dest) != Decision::CopyFile,
        !cfg.force && !cfg.update && !is_excluded(cfg.exclude_patterns.deep_view(), e.name@)
            ==> entry_decision(cfg, e, dest) == Decision::SkipExistsNoForce,
        cfg.force && !is_excluded(cfg.exclude_patterns.deep_view(), e.name@)
            ==> entry_decision(cfg, e, dest) == Decision::CopyFile,
{
}

/// The staleness check: a regular file whose destination counterpart has the
/// exact same modification time is never rewritten, with any combination of
/// `force` and `update`.
pub proof fn lemma_unchanged_never_rewritten(cfg: Args, e: DirEntry, dest: Seq<DirEntry>)
    requires
        e.is_file,
        lookup_mtime(dest, e.name@) == Some(e.mtime),
    ensures
        entry_decision(cfg, e, dest) != Decision::CopyFile,
{
}

} // verus!
