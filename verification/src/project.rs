//! What the plugin knows of a project directory, and the two questions it
//! answers from that: is this a Go project, and which file does the build
//! start from.
//!
//! The plugin never reads the file system. The embedding program looks up the
//! paths that `paths_to_probe` names, lists the directory once, and hands the
//! findings over as a `ProjectSnapshot`. The listing says of each entry
//! whether it is a regular file: a directory that is named like a source file
//! is no source file.

use crate::path::{extension_of, joined, PathKind};
use crate::text::lowercase_of;
use vstd::prelude::*;

verus! {

/// One entry of the listing of a directory.
#[derive(Debug)]
pub struct DirectoryEntry {
    /// The path of the entry.
    pub path: String,
    /// Whether a regular file stands at the path, and not a directory or
    /// anything else.
    pub is_file: bool,
}

/// A `DirectoryEntry` with its path as a sequence of characters.
pub struct DirectoryEntryView {
    pub path: Seq<char>,
    pub is_file: bool,
}

impl View for DirectoryEntry {
    type V = DirectoryEntryView;

    open spec fn view(&self) -> DirectoryEntryView {
        DirectoryEntryView { path: self.path@, is_file: self.is_file }
    }
}

impl DeepView for DirectoryEntry {
    type V = DirectoryEntryView;

    open spec fn deep_view(&self) -> DirectoryEntryView {
        self@
    }
}

impl Clone for DirectoryEntry {
    fn clone(&self) -> (copy: Self)
        ensures
            copy@ == self@,
    {
        DirectoryEntry { path: self.path.clone(), is_file: self.is_file }
    }
}

/// The findings of the embedding program on one project directory.
#[derive(Debug)]
pub struct ProjectSnapshot {
    /// What stands at the project path itself.
    pub kind: PathKind,
    /// Those of the probed paths at which something was found.
    pub existing: Vec<String>,
    /// The entries of the directory, of every kind, in the order in which the
    /// listing gave them; `None` where the directory could not be listed.
    pub entries: Option<Vec<DirectoryEntry>>,
}

/// A `ProjectSnapshot` with its paths as sequences of characters.
pub struct ProjectSnapshotView {
    pub kind: PathKind,
    pub existing: Seq<Seq<char>>,
    pub entries: Option<Seq<DirectoryEntryView>>,
}

impl View for ProjectSnapshot {
    type V = ProjectSnapshotView;

    open spec fn view(&self) -> ProjectSnapshotView {
        ProjectSnapshotView {
            kind: self.kind,
            existing: self.existing.deep_view(),
            entries: self.entries.deep_view(),
        }
    }
}

/// The path of the module file that marks a Go project.
pub open spec fn marker_path(directory: Seq<char>) -> Seq<char> {
    joined(directory, "go.mod"@)
}

/// The paths whose existence the plugin wants to know: the module file, then
/// each entry file candidate, all below `directory`.
pub open spec fn paths_to_probe(directory: Seq<char>, candidates: Seq<Seq<char>>) -> Seq<
    Seq<char>,
> {
    seq![marker_path(directory)] + Seq::new(
        candidates.len(),
        |i: int| joined(directory, candidates[i]),
    )
}

/// Whether `path` has one of `extensions`, compared in lowercase.
pub open spec fn is_supported(extensions: Seq<Seq<char>>, path: Seq<char>) -> bool {
    match extension_of(path) {
        Some(extension) => extensions.contains(lowercase_of(extension)),
        None => false,
    }
}

/// Whether `entry` is a regular file with one of `extensions`.
pub open spec fn is_supported_file(extensions: Seq<Seq<char>>, entry: DirectoryEntryView) -> bool {
    entry.is_file && is_supported(extensions, entry.path)
}

/// Whether one of `entries` is a regular file with one of `extensions`.
pub open spec fn has_supported_file(
    extensions: Seq<Seq<char>>,
    entries: Seq<DirectoryEntryView>,
) -> bool {
    exists|i: int| 0 <= i < entries.len() && is_supported_file(extensions, #[trigger] entries[i])
}

/// Whether the directory is a project for a plugin with these `extensions`:
/// it holds the module file, or a regular file with one of the extensions.
pub open spec fn is_project(
    extensions: Seq<Seq<char>>,
    directory: Seq<char>,
    snapshot: ProjectSnapshotView,
) -> bool {
    snapshot.existing.contains(marker_path(directory)) || match snapshot.entries {
        Some(entries) => has_supported_file(extensions, entries),
        None => false,
    }
}

/// Whether `entry` is a Go source file: a regular file with the extension
/// `go`.
pub open spec fn is_source_file(entry: DirectoryEntryView) -> bool {
    entry.is_file && extension_of(entry.path) == Some("go"@)
}

/// The path of the first of `candidates` that is there, below `directory`.
pub open spec fn first_existing(
    directory: Seq<char>,
    candidates: Seq<Seq<char>>,
    existing: Seq<Seq<char>>,
) -> Option<Seq<char>>
    decreases candidates.len(),
{
    if candidates.len() == 0 {
        None
    } else if existing.contains(joined(directory, candidates[0])) {
        Some(joined(directory, candidates[0]))
    } else {
        first_existing(directory, candidates.drop_first(), existing)
    }
}

/// The path of the first of `entries` that is a Go source file.
pub open spec fn first_source_file(entries: Seq<DirectoryEntryView>) -> Option<Seq<char>>
    decreases entries.len(),
{
    if entries.len() == 0 {
        None
    } else if is_source_file(entries[0]) {
        Some(entries[0].path)
    } else {
        first_source_file(entries.drop_first())
    }
}

/// The file that a build starts from: the first candidate that is there, or
/// else the first Go source file that the listing of the directory gave.
pub open spec fn entry_file_of(
    directory: Seq<char>,
    candidates: Seq<Seq<char>>,
    snapshot: ProjectSnapshotView,
) -> Option<Seq<char>> {
    match first_existing(directory, candidates, snapshot.existing) {
        Some(path) => Some(path),
        None => match snapshot.entries {
            Some(entries) => first_source_file(entries),
            None => None,
        },
    }
}

/// `first_existing` gives the earliest candidate that is there, and nothing
/// exactly where none of them is.
pub proof fn lemma_first_existing(
    directory: Seq<char>,
    candidates: Seq<Seq<char>>,
    existing: Seq<Seq<char>>,
)
    ensures
        match first_existing(directory, candidates, existing) {
            Some(path) => exists|i: int|
                0 <= i < candidates.len() && path == joined(directory, #[trigger] candidates[i])
                    && existing.contains(path) && forall|j: int|
                    0 <= j < i ==> !existing.contains(joined(directory, #[trigger] candidates[j])),
            None => forall|j: int|
                0 <= j < candidates.len() ==> !existing.contains(
                    joined(directory, #[trigger] candidates[j]),
                ),
        },
    decreases candidates.len(),
{
    if candidates.len() > 0 && !existing.contains(joined(directory, candidates[0])) {
        let rest = candidates.drop_first();
        lemma_first_existing(directory, rest, existing);
        match first_existing(directory, rest, existing) {
            Some(path) => {
                let i = choose|i: int|
                    0 <= i < rest.len() && path == joined(directory, #[trigger] rest[i])
                        && existing.contains(path) && forall|j: int|
                        0 <= j < i ==> !existing.contains(joined(directory, #[trigger] rest[j]));
                assert forall|j: int| 0 <= j < i + 1 implies !existing.contains(
                    joined(directory, #[trigger] candidates[j]),
                ) by {
                    if j > 0 {
                        assert(candidates[j] == rest[j - 1]);
                    }
                }
            },
            None => {
                assert forall|j: int| 0 <= j < candidates.len() implies !existing.contains(
                    joined(directory, #[trigger] candidates[j]),
                ) by {
                    if j > 0 {
                        assert(candidates[j] == rest[j - 1]);
                    }
                }
            },
        }
    }
}

/// `first_source_file` gives the earliest listed Go source file, and nothing
/// exactly where the listing holds none.
pub proof fn lemma_first_source_file(entries: Seq<DirectoryEntryView>)
    ensures
        match first_source_file(entries) {
            Some(path) => exists|k: int|
                0 <= k < entries.len() && path == (#[trigger] entries[k]).path && is_source_file(
                    entries[k],
                ) && forall|m: int| 0 <= m < k ==> !is_source_file(#[trigger] entries[m]),
            None => forall|m: int| 0 <= m < entries.len() ==> !is_source_file(#[trigger] entries[m]),
        },
    decreases entries.len(),
{
    if entries.len() > 0 && !is_source_file(entries[0]) {
        let rest = entries.drop_first();
        lemma_first_source_file(rest);
        match first_source_file(rest) {
            Some(path) => {
                let k = choose|k: int|
                    0 <= k < rest.len() && path == (#[trigger] rest[k]).path && is_source_file(
                        rest[k],
                    ) && forall|m: int| 0 <= m < k ==> !is_source_file(#[trigger] rest[m]);
                assert forall|m: int| 0 <= m < k + 1 implies !is_source_file(
                    #[trigger] entries[m],
                ) by {
                    if m > 0 {
                        assert(entries[m] == rest[m - 1]);
                    }
                }
            },
            None => {
                assert forall|m: int| 0 <= m < entries.len() implies !is_source_file(
                    #[trigger] entries[m],
                ) by {
                    if m > 0 {
                        assert(entries[m] == rest[m - 1]);
                    }
                }
            },
        }
    }
}

/// A directory that holds the module file is a project, whatever else it
/// holds or lacks.
pub proof fn lemma_marker_makes_project(
    extensions: Seq<Seq<char>>,
    directory: Seq<char>,
    snapshot: ProjectSnapshotView,
)
    requires
        snapshot.existing.contains(marker_path(directory)),
    ensures
        is_project(extensions, directory, snapshot),
{
}

/// A directory without the module file is a project exactly if its listing
/// holds a regular file whose extension, in lowercase, is a supported one.
pub proof fn lemma_project_without_marker(
    extensions: Seq<Seq<char>>,
    directory: Seq<char>,
    snapshot: ProjectSnapshotView,
)
    requires
        !snapshot.existing.contains(marker_path(directory)),
    ensures
        is_project(extensions, directory, snapshot) <==> (snapshot.entries is Some && exists|
            i: int,
        |
            0 <= i < snapshot.entries->0.len() && (#[trigger] snapshot.entries->0[i]).is_file
                && extension_of(snapshot.entries->0[i].path) is Some && extensions.contains(
                lowercase_of(extension_of(snapshot.entries->0[i].path)->0),
            )),
{
}

/// Entries that are no regular files count for nothing: a directory without
/// the module file whose listing holds no regular file is no project, and
/// only a candidate can be its entry file, however the entries are named.
pub proof fn lemma_only_files_count(
    extensions: Seq<Seq<char>>,
    directory: Seq<char>,
    candidates: Seq<Seq<char>>,
    snapshot: ProjectSnapshotView,
)
    requires
        !snapshot.existing.contains(marker_path(directory)),
        snapshot.entries is Some ==> forall|i: int|
            0 <= i < snapshot.entries->0.len() ==> !(#[trigger] snapshot.entries->0[i]).is_file,
    ensures
        !is_project(extensions, directory, snapshot),
        entry_file_of(directory, candidates, snapshot) == first_existing(
            directory,
            candidates,
            snapshot.existing,
        ),
{
    if snapshot.entries is Some {
        lemma_first_source_file(snapshot.entries->0);
    }
}

/// Where one candidate is there, and no candidate at another path is, the
/// entry file is that candidate's path.
pub proof fn lemma_only_candidate_is_entry(
    directory: Seq<char>,
    candidates: Seq<Seq<char>>,
    snapshot: ProjectSnapshotView,
    i: int,
)
    requires
        0 <= i < candidates.len(),
        snapshot.existing.contains(joined(directory, candidates[i])),
        forall|j: int|
            0 <= j < candidates.len() && snapshot.existing.contains(
                joined(directory, #[trigger] candidates[j]),
            ) ==> joined(directory, candidates[j]) == joined(directory, candidates[i]),
    ensures
        entry_file_of(directory, candidates, snapshot) == Some(joined(directory, candidates[i])),
{
    lemma_first_existing(directory, candidates, snapshot.existing);
}

/// Where none of the candidates is there and one listed entry is a Go source
/// file, and no listed entry at another path is, the entry file is that file.
pub proof fn lemma_only_source_file_is_entry(
    directory: Seq<char>,
    candidates: Seq<Seq<char>>,
    snapshot: ProjectSnapshotView,
    k: int,
)
    requires
        forall|j: int|
            0 <= j < candidates.len() ==> !snapshot.existing.contains(
                joined(directory, #[trigger] candidates[j]),
            ),
        snapshot.entries is Some,
        0 <= k < snapshot.entries->0.len(),
        is_source_file(snapshot.entries->0[k]),
        forall|m: int|
            0 <= m < snapshot.entries->0.len() && is_source_file(#[trigger] snapshot.entries->0[m])
                ==> snapshot.entries->0[m].path == snapshot.entries->0[k].path,
    ensures
        entry_file_of(directory, candidates, snapshot) == Some(snapshot.entries->0[k].path),
{
    lemma_first_existing(directory, candidates, snapshot.existing);
    lemma_first_source_file(snapshot.entries->0);
}

/// There is no entry file exactly where none of the candidates is there and
/// the listing, if there is one, holds no Go source file.
pub proof fn lemma_no_entry_file(
    directory: Seq<char>,
    candidates: Seq<Seq<char>>,
    snapshot: ProjectSnapshotView,
)
    ensures
        entry_file_of(directory, candidates, snapshot) is None <==> ((forall|j: int|
            0 <= j < candidates.len() ==> !snapshot.existing.contains(
                joined(directory, #[trigger] candidates[j]),
            )) && (snapshot.entries is Some ==> forall|m: int|
            0 <= m < snapshot.entries->0.len() ==> !is_source_file(
                #[trigger] snapshot.entries->0[m],
            ))),
{
    lemma_first_existing(directory, candidates, snapshot.existing);
    if snapshot.entries is Some {
        lemma_first_source_file(snapshot.entries->0);
    }
}

} // verus!
