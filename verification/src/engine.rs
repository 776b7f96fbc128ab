//! The relocation engine: the collision-safe move/skip/dedupe/trash state
//! machine applied to one (source, destination) pair, and the sidecar rule
//! that repeats it for an accompanying `.xmp`/`.XMP` file.
//!
//! The engine itself only decides; the caller observes the filesystem (does
//! the destination exist, what are the sizes) and carries the decided action
//! out. A file leaves its source location only when a size-identical copy is
//! confirmed at the destination and the run is not dry, or by a rename onto a
//! destination that does not yet exist; an existing destination path is never
//! overwritten.

use vstd::prelude::*;
use vstd::string::*;
use crate::config::DeletionPolicy;
use crate::resolve::{folded_name, spec_destination_file};
use crate::text::{ascii_lower, concat_str, lemma_ascii_lower_idempotent};
use crate::timestamp::{CaptureTimestamp, DayWrapOffset};

verus! {

/// What the engine decided happened (or would happen) to one file; drives
/// logging and the halt-on-errors gate.
#[derive(Clone, Copy, Debug, PartialEq, Eq, Structural)]
pub enum RelocationOutcome {
    /// The destination is absent: the file moves there.
    Moved,
    /// Source and destination are the same path: nothing to do.
    SkippedAlreadyInPlace,
    /// The destination holds a file of a different size: the source stays.
    SkippedExistsDifferentSize,
    /// The destination holds a size-identical copy and a deleting policy is
    /// in force: the source is removed or trashed.
    DeletedDuplicate,
    /// The destination holds a size-identical copy and no deleting policy is
    /// in force: the duplicate is only reported.
    SkippedDuplicateReported,
}

/// The one filesystem mutation (at most) the caller is to perform.
#[derive(Clone, Copy, Debug, PartialEq, Eq, Structural)]
pub enum RelocationAction {
    /// Touch nothing.
    DoNothing,
    /// Atomically rename the source onto the (absent) destination.
    Rename,
    /// Delete the source file permanently.
    DeleteSource,
    /// Move the source file to the system trash.
    MoveToTrash,
}

/// One relocation decision: the reported outcome and the action to carry out.
#[derive(Clone, Copy, Debug, PartialEq, Eq, Structural)]
pub struct Decision {
    pub outcome: RelocationOutcome,
    pub action: RelocationAction,
}

/// The state machine, evaluated in order: identical path, destination absent,
/// destination present with equal size (the configured deletion policy
/// applies), destination present with different size. Dry-run turns every
/// action into `DoNothing` and never changes the outcome.
pub open spec fn spec_decide(
    source: Seq<char>,
    dest: Seq<char>,
    dest_exists: bool,
    source_size: u64,
    dest_size: u64,
    policy: DeletionPolicy,
    dry_run: bool,
) -> Decision {
    if source == dest {
        Decision { outcome: RelocationOutcome::SkippedAlreadyInPlace, action: RelocationAction::DoNothing }
    } else if !dest_exists {
        Decision {
            outcome: RelocationOutcome::Moved,
            action: if dry_run {
                RelocationAction::DoNothing
            } else {
                RelocationAction::Rename
            },
        }
    } else if source_size == dest_size {
        match policy {
            DeletionPolicy::RemoveSource => Decision {
                outcome: RelocationOutcome::DeletedDuplicate,
                action: if dry_run {
                    RelocationAction::DoNothing
                } else {
                    RelocationAction::DeleteSource
                },
            },
            DeletionPolicy::TrashSource => Decision {
                outcome: RelocationOutcome::DeletedDuplicate,
                action: if dry_run {
                    RelocationAction::DoNothing
                } else {
                    RelocationAction::MoveToTrash
                },
            },
            DeletionPolicy::ReportOnly => Decision {
                outcome: RelocationOutcome::SkippedDuplicateReported,
                action: RelocationAction::DoNothing,
            },
        }
    } else {
        Decision {
            outcome: RelocationOutcome::SkippedExistsDifferentSize,
            action: RelocationAction::DoNothing,
        }
    }
}

/// Decides the fate of one (source, destination) pair. `dest_exists`,
/// `source_size` and `dest_size` are the caller's observations of the
/// filesystem; the sizes matter only when the destination exists. No content
/// comparison happens anywhere: size equality is the only similarity test.
pub fn decide_relocation(
    source: &str,
    dest: &str,
    dest_exists: bool,
    source_size: u64,
    dest_size: u64,
    policy: DeletionPolicy,
    dry_run: bool,
) -> (r: Decision)
    ensures
        r == spec_decide(source@, dest@, dest_exists, source_size, dest_size, policy, dry_run),
{
    let same: bool = source.unicode_len() == dest.unicode_len() && {
        let n: usize = source.unicode_len();
        let mut i: usize = 0;
        let mut eq: bool = true;
        while i < n
            invariant
                n == source@.len(),
                n == dest@.len(),
                i <= n,
                eq == (forall|j: int| 0 <= j < i ==> source@[j] == dest@[j]),
            decreases n - i,
        {
            if source.get_char(i) != dest.get_char(i) {
                eq = false;
                i = n;
            } else {
                i = i + 1;
            }
        }
        proof {
            if eq {
                assert(source@ =~= dest@);
            }
        }
        eq
    };
    if same {
        Decision {
            outcome: RelocationOutcome::SkippedAlreadyInPlace,
            action: RelocationAction::DoNothing,
        }
    } else if !dest_exists {
        Decision {
            outcome: RelocationOutcome::Moved,
            action: if dry_run {
                RelocationAction::DoNothing
            } else {
                RelocationAction::Rename
            },
        }
    } else if source_size == dest_size {
        match policy {
            DeletionPolicy::RemoveSource => Decision {
                outcome: RelocationOutcome::DeletedDuplicate,
                action: if dry_run {
                    RelocationAction::DoNothing
                } else {
                    RelocationAction::DeleteSource
                },
            },
            DeletionPolicy::TrashSource => Decision {
                outcome: RelocationOutcome::DeletedDuplicate,
                action: if dry_run {
                    RelocationAction::DoNothing
                } else {
                    RelocationAction::MoveToTrash
                },
            },
            DeletionPolicy::ReportOnly => Decision {
                outcome: RelocationOutcome::SkippedDuplicateReported,
                action: RelocationAction::DoNothing,
            },
        }
    } else {
        Decision {
            outcome: RelocationOutcome::SkippedExistsDifferentSize,
            action: RelocationAction::DoNothing,
        }
    }
}

/// Whether an outcome is logged: the non-mutating outcomes only when the run
/// is verbose or dry; a carried-out deletion is silent.
pub open spec fn spec_should_log(outcome: RelocationOutcome, verbose: bool, dry_run: bool) -> bool {
    match outcome {
        RelocationOutcome::DeletedDuplicate => dry_run,
        _ => verbose || dry_run,
    }
}

pub fn should_log(outcome: &RelocationOutcome, verbose: bool, dry_run: bool) -> (r: bool)
    ensures
        r == spec_should_log(*outcome, verbose, dry_run),
{
    match outcome {
        RelocationOutcome::DeletedDuplicate => dry_run,
        _ => verbose || dry_run,
    }
}

/// The sidecar of a source file: its path with the given suffix appended
/// (`IMG_0001.ARW.xmp`, not `IMG_0001.xmp`).
pub open spec fn sidecar_path(path: Seq<char>, suffix: Seq<char>) -> Seq<char> {
    path + suffix
}

/// The sidecar pair to relocate, if any: the sidecar's source path and its
/// destination path. The lowercase suffix is tried first; an uppercase match
/// keeps its casing at the destination unless the lowercase option re-cases
/// it. A failed primary relocation leaves the sidecar untouched.
pub open spec fn spec_resolve_sidecar(
    source: Seq<char>,
    dest: Seq<char>,
    lower_exists: bool,
    upper_exists: bool,
    make_lowercase: bool,
    primary_failed: bool,
) -> Option<(Seq<char>, Seq<char>)> {
    if primary_failed {
        None
    } else if lower_exists {
        Some((sidecar_path(source, ".xmp"@), sidecar_path(dest, ".xmp"@)))
    } else if upper_exists {
        Some(
            (
                sidecar_path(source, ".XMP"@),
                sidecar_path(
                    dest,
                    if make_lowercase {
                        ".xmp"@
                    } else {
                        ".XMP"@
                    },
                ),
            ),
        )
    } else {
        None
    }
}

/// The two candidate sidecar paths of a source file, lowercase suffix first;
/// the caller checks case-sensitively, in this order, which one exists.
pub fn sidecar_candidates(source: &str) -> (r: (String, String))
    ensures
        r.0@ == sidecar_path(source@, ".xmp"@),
        r.1@ == sidecar_path(source@, ".XMP"@),
{
    (concat_str(source, ".xmp"), concat_str(source, ".XMP"))
}

/// Resolves the sidecar relocation pair from the caller's two existence
/// observations, after the primary file's relocation completed (or failed).
pub fn resolve_sidecar(
    source: &str,
    dest: &str,
    lower_exists: bool,
    upper_exists: bool,
    make_lowercase: bool,
    primary_failed: bool,
) -> (r: Option<(String, String)>)
    ensures
        match spec_resolve_sidecar(
            source@,
            dest@,
            lower_exists,
            upper_exists,
            make_lowercase,
            primary_failed,
        ) {
            Some(pair) => r matches Some(p) && p.0@ == pair.0 && p.1@ == pair.1,
            None => r is None,
        },
{
    if primary_failed {
        None
    } else if lower_exists {
        Some((concat_str(source, ".xmp"), concat_str(dest, ".xmp")))
    } else if upper_exists {
        let dest_suffix: &str = if make_lowercase {
            ".xmp"
        } else {
            ".XMP"
        };
        Some((concat_str(source, ".XMP"), concat_str(dest, dest_suffix)))
    } else {
        None
    }
}

/// Law: relocation is idempotent for a file whose destination does not yet
/// exist. The first run decides `Moved` (a rename, outside dry-run); a file
/// found at its own resolved destination on a later run — its metadata
/// unchanged by the move, its name now the folded one — resolves to the very
/// same path and is decided `SkippedAlreadyInPlace` with no action, whatever
/// the policy, the sizes or the dry-run flag.
pub proof fn lemma_relocation_idempotent(
    root: Seq<char>,
    ts: CaptureTimestamp,
    offset: DayWrapOffset,
    lowercase: bool,
    name: Seq<char>,
    source: Seq<char>,
    sizes: (u64, u64),
    policy: DeletionPolicy,
    dry_run: bool,
)
    ensures
        ({
            let first = spec_destination_file(root, ts, offset, lowercase, name);
            let second = spec_destination_file(
                root,
                ts,
                offset,
                lowercase,
                folded_name(name, lowercase),
            );
            &&& second == first
            &&& source != first ==> spec_decide(source, first, false, sizes.0, sizes.1, policy, false)
                == Decision { outcome: RelocationOutcome::Moved, action: RelocationAction::Rename }
            &&& spec_decide(first, second, true, sizes.0, sizes.1, policy, dry_run) == Decision {
                outcome: RelocationOutcome::SkippedAlreadyInPlace,
                action: RelocationAction::DoNothing,
            }
        }),
{
    if lowercase {
        lemma_ascii_lower_idempotent(name);
    }
}

/// Law: the decision is a pure function of the paths, the existence and size
/// observations and the policy — equal-sized files at the same destination
/// path are treated as confirmed duplicates with no content comparison of any
/// kind, a documented design limitation. The duplicate's fate follows the
/// policy deterministically.
pub proof fn lemma_equal_size_is_duplicate(
    source: Seq<char>,
    dest: Seq<char>,
    size: u64,
    policy: DeletionPolicy,
    dry_run: bool,
)
    requires
        source != dest,
    ensures
        ({
            let d = spec_decide(source, dest, true, size, size, policy, dry_run);
            &&& policy == DeletionPolicy::RemoveSource ==> d.outcome
                == RelocationOutcome::DeletedDuplicate && d.action == (if dry_run {
                RelocationAction::DoNothing
            } else {
                RelocationAction::DeleteSource
            })
            &&& policy == DeletionPolicy::TrashSource ==> d.outcome
                == RelocationOutcome::DeletedDuplicate && d.action == (if dry_run {
                RelocationAction::DoNothing
            } else {
                RelocationAction::MoveToTrash
            })
            &&& policy == DeletionPolicy::ReportOnly ==> d == Decision {
                outcome: RelocationOutcome::SkippedDuplicateReported,
                action: RelocationAction::DoNothing,
            }
        }),
{
}

/// Law: a dry run never mutates the filesystem. Whatever the paths, the
/// observations and the policy, the decided action under dry-run is to touch
/// nothing.
pub proof fn lemma_dry_run_never_mutates(
    source: Seq<char>,
    dest: Seq<char>,
    dest_exists: bool,
    source_size: u64,
    dest_size: u64,
    policy: DeletionPolicy,
)
    ensures
        spec_decide(source, dest, dest_exists, source_size, dest_size, policy, true).action
            == RelocationAction::DoNothing,
{
}

/// Law: a sidecar is relocated only when the primary relocation did not fail,
/// and then into the primary's own destination bucket: its destination is the
/// primary's destination path extended by exactly the suffix, and the suffix
/// is folded by the same lowercase decision as the primary's name (an
/// uppercase-matched sidecar keeps its casing only when the lowercase option
/// is off).
pub proof fn lemma_sidecar_follows_primary(
    source: Seq<char>,
    dest: Seq<char>,
    lower_exists: bool,
    upper_exists: bool,
    make_lowercase: bool,
    primary_failed: bool,
)
    ensures
        primary_failed ==> spec_resolve_sidecar(
            source,
            dest,
            lower_exists,
            upper_exists,
            make_lowercase,
            primary_failed,
        ) is None,
        ({
            let r = spec_resolve_sidecar(
                source,
                dest,
                lower_exists,
                upper_exists,
                make_lowercase,
                primary_failed,
            );
            r matches Some(pair) ==> {
                let suffix = pair.0.skip(source.len() as int);
                &&& pair.0.take(source.len() as int) == source
                &&& suffix == ".xmp"@ || suffix == ".XMP"@
                &&& pair.1 == dest + folded_name(suffix, make_lowercase)
            }
        }),
{
    let r = spec_resolve_sidecar(source, dest, lower_exists, upper_exists, make_lowercase, primary_failed);
    if r is Some {
        let pair = r->Some_0;
        if !primary_failed && lower_exists {
            assert((source + ".xmp"@).skip(source.len() as int) =~= ".xmp"@);
            assert((source + ".xmp"@).take(source.len() as int) =~= source);
            if make_lowercase {
                proof_xmp_suffixes_fold();
            }
        } else if !primary_failed && upper_exists {
            assert((source + ".XMP"@).skip(source.len() as int) =~= ".XMP"@);
            assert((source + ".XMP"@).take(source.len() as int) =~= source);
            if make_lowercase {
                proof_xmp_suffixes_fold();
            }
        }
    }
}

/// The uppercase sidecar suffix folds to the lowercase one, which folds to
/// itself.
proof fn proof_xmp_suffixes_fold()
    ensures
        ascii_lower(".XMP"@) == ".xmp"@,
        ascii_lower(".xmp"@) == ".xmp"@,
{
    reveal_strlit(".XMP");
    reveal_strlit(".xmp");
    assert(ascii_lower(".XMP"@) =~= ".xmp"@);
    assert(ascii_lower(".xmp"@) =~= ".xmp"@);
}

} // verus!
