//! The archive resolver: turning an optional archive name, the picker's
//! outcome and the existence of the candidate file into a validated archive
//! path, or the exact error owed.

use vstd::prelude::*;
use crate::errors::CommandError;
use crate::paths::ends_with_tar;
use crate::paths::is_tar_path;
use crate::paths::join_archive_path;
use crate::paths::joined_path;
use crate::paths::lemma_named_candidate_ends_with_tar;
use crate::paths::save_destination;
use crate::paths::tar_file_name;

verus! {

/// What the interactive picker reported: one chosen file name, or abort.
#[derive(Debug, Clone, PartialEq, Eq)]
pub enum SelectionOutcome {
    /// Exactly one file name was chosen, already complete (not re-suffixed).
    Selected(String),
    /// The picker was cancelled.
    Aborted,
}

/// The candidate path, before validation: a given name is joined as
/// `dir/<name>.tar`; with no name, the selected file name is joined as it
/// stands, and an aborted selection yields no candidate.
pub open spec fn spec_candidate(
    dir: Seq<char>,
    name: Option<Seq<char>>,
    sel: SelectionOutcome,
) -> Option<Seq<char>> {
    match name {
        Some(n) => Some(joined_path(dir, tar_file_name(n))),
        None => match sel {
            SelectionOutcome::Selected(f) => Some(joined_path(dir, f@)),
            SelectionOutcome::Aborted => None,
        },
    }
}

/// Validation of a candidate path `c` that exists on disk iff `exists`:
/// the existence check comes first, then the `.tar` suffix check, and a
/// candidate that passes both is returned unchanged.
pub open spec fn validated(c: Seq<char>, exists: bool, r: Result<String, CommandError>) -> bool {
    if !exists {
        r matches Err(CommandError::ArchiveNotFound(p)) && p@ == c
    } else if !ends_with_tar(c) {
        r matches Err(CommandError::InvalidExtension(p)) && p@ == c
    } else {
        r matches Ok(p) && p@ == c
    }
}

/// The whole resolution: an aborted selection fails with SelectionAborted;
/// otherwise the candidate is validated.
pub open spec fn resolves_to(
    dir: Seq<char>,
    name: Option<Seq<char>>,
    sel: SelectionOutcome,
    exists: bool,
    r: Result<String, CommandError>,
) -> bool {
    match spec_candidate(dir, name, sel) {
        Some(c) => validated(c, exists, r),
        None => r matches Err(CommandError::SelectionAborted),
    }
}

/// Applies the two validation checks to a candidate path, where `exists`
/// says whether that path currently exists on disk.
pub fn validate_archive_path(path: String, exists: bool) -> (r: Result<String, CommandError>)
    ensures
        validated(path@, exists, r),
{
    if !exists {
        Err(CommandError::ArchiveNotFound(path))
    } else if !is_tar_path(path.as_str()) {
        Err(CommandError::InvalidExtension(path))
    } else {
        Ok(path)
    }
}

/// Resolves the archive that Load or Remove acts on. `name` is the
/// user-supplied name, `selection` what the picker reported (consulted only
/// when no name was given), and `exists` whether the candidate path exists
/// on disk.
pub fn determine_image_path(
    dir: &str,
    name: &Option<String>,
    selection: &SelectionOutcome,
    exists: bool,
) -> (r: Result<String, CommandError>)
    ensures
        resolves_to(dir@, name.deep_view(), *selection, exists, r),
{
    let candidate = match name {
        Some(n) => save_destination(dir, n.as_str()),
        None => match selection {
            SelectionOutcome::Selected(f) => join_archive_path(dir, f.as_str()),
            SelectionOutcome::Aborted => {
                return Err(CommandError::SelectionAborted);
            },
        },
    };
    validate_archive_path(candidate, exists)
}

/// Law: resolving a given name whose archive file exists always succeeds
/// and yields exactly `dir/<name>.tar` — the candidate carries the `.tar`
/// suffix by construction, so only existence can fail it.
pub proof fn lemma_named_existing_archive_resolves(
    dir: Seq<char>,
    n: Seq<char>,
    sel: SelectionOutcome,
    r: Result<String, CommandError>,
)
    requires
        resolves_to(dir, Some(n), sel, true, r),
    ensures
        r matches Ok(p) && p@ == joined_path(dir, tar_file_name(n)),
{
    lemma_named_candidate_ends_with_tar(dir, n);
}

/// Law: resolving a candidate whose file does not exist fails with
/// ArchiveNotFound carrying that exact path.
pub proof fn lemma_missing_archive_not_found(
    dir: Seq<char>,
    name: Option<Seq<char>>,
    sel: SelectionOutcome,
    r: Result<String, CommandError>,
    c: Seq<char>,
)
    requires
        resolves_to(dir, name, sel, false, r),
        spec_candidate(dir, name, sel) == Some(c),
    ensures
        r matches Err(CommandError::ArchiveNotFound(p)) && p@ == c,
{
}

/// Law: a candidate that exists but lacks the `.tar` suffix is rejected
/// with InvalidExtension carrying that exact path.
pub proof fn lemma_wrong_extension_rejected(
    dir: Seq<char>,
    name: Option<Seq<char>>,
    sel: SelectionOutcome,
    r: Result<String, CommandError>,
    c: Seq<char>,
)
    requires
        resolves_to(dir, name, sel, true, r),
        spec_candidate(dir, name, sel) == Some(c),
        !ends_with_tar(c),
    ensures
        r matches Err(CommandError::InvalidExtension(p)) && p@ == c,
{
}

/// Law: when no name is given and the picker aborts, resolution fails with
/// SelectionAborted and produces no path.
pub proof fn lemma_abort_resolves_nothing(
    dir: Seq<char>,
    sel: SelectionOutcome,
    exists: bool,
    r: Result<String, CommandError>,
)
    requires
        resolves_to(dir, None, SelectionOutcome::Aborted, exists, r),
    ensures
        r matches Err(CommandError::SelectionAborted),
{
}

/// Law: once an archive has been removed, resolving its name again finds no
/// file (`exists` is false for the very path the deletion emptied) and
/// fails with ArchiveNotFound identifying `dir/<name>.tar`.
pub proof fn lemma_removed_archive_resolves_not_found(
    dir: Seq<char>,
    n: Seq<char>,
    sel: SelectionOutcome,
    r: Result<String, CommandError>,
)
    requires
        resolves_to(dir, Some(n), sel, false, r),
    ensures
        r matches Err(CommandError::ArchiveNotFound(p)) && p@ == joined_path(
            dir,
            tar_file_name(n),
        ),
{
}

} // verus!
