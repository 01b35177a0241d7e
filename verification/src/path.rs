//! Paths as texts with `/` between their components: joining, the file name
//! of a path, its stem and its extension, and the checks that the plugin makes
//! on directories.

use crate::error::{PluginError, PluginErrorView, PluginResult};
use crate::text::chars_of;
use vstd::prelude::*;
use vstd::string::*;

verus! {

/// What stands at a path, as the embedding program found it.
#[derive(Debug, Clone, Copy, PartialEq, Eq, Structural)]
pub enum PathKind {
    /// Nothing is there.
    Missing,
    /// Something is there that is not a directory.
    File,
    /// A directory is there.
    Directory,
}

/// `relative` adjoined to `base`: a `relative` that starts at the root stands
/// for itself; otherwise it follows `base`, with one separator in between
/// unless `base` is empty or already ends with one.
pub open spec fn joined(base: Seq<char>, relative: Seq<char>) -> Seq<char> {
    if relative.len() > 0 && relative[0] == '/' {
        relative
    } else if base.len() == 0 || base.last() == '/' {
        base + relative
    } else {
        base + seq!['/'] + relative
    }
}

/// The position of the last `mark` in `text`, or -1 where there is none.
pub open spec fn last_index_of(text: Seq<char>, mark: char) -> int
    decreases text.len(),
{
    if text.len() == 0 {
        -1
    } else if text.last() == mark {
        text.len() - 1
    } else {
        last_index_of(text.drop_last(), mark)
    }
}

/// Whether `path` ends in a component that is a single dot.
pub open spec fn ends_with_dot_component(path: Seq<char>) -> bool {
    path.len() > 0 && path.last() == '.' && (path.len() == 1 || path[path.len() - 2] == '/')
}

/// Where the last component of `path` ends, once trailing separators and
/// trailing single-dot components are set aside.
pub open spec fn component_end(path: Seq<char>) -> int
    decreases path.len(),
{
    if path.len() == 0 {
        0
    } else if path.last() == '/' || ends_with_dot_component(path) {
        component_end(path.drop_last())
    } else {
        path.len() as int
    }
}

/// The last component of `path`, whatever it is; empty where there is none.
pub open spec fn last_component(path: Seq<char>) -> Seq<char> {
    let end = component_end(path);
    let kept = path.subrange(0, end);
    kept.subrange(last_index_of(kept, '/') + 1, end)
}

/// The file name of `path`: its last component, unless there is none or it is
/// the parent directory `..`.
pub open spec fn file_name_of(path: Seq<char>) -> Option<Seq<char>> {
    let name = last_component(path);
    if name.len() == 0 || name == seq!['.', '.'] {
        None
    } else {
        Some(name)
    }
}

/// The stem of a file name: what stands before its last dot, or the whole
/// name where it has no dot or only a leading one.
pub open spec fn stem_of_name(name: Seq<char>) -> Seq<char> {
    let dot = last_index_of(name, '.');
    if dot <= 0 {
        name
    } else {
        name.subrange(0, dot)
    }
}

/// The extension of a file name: what stands after its last dot, where it has
/// a dot that is not its first character.
pub open spec fn extension_of_name(name: Seq<char>) -> Option<Seq<char>> {
    let dot = last_index_of(name, '.');
    if dot <= 0 {
        None
    } else {
        Some(name.subrange(dot + 1, name.len() as int))
    }
}

/// The stem of the file name of `path`.
pub open spec fn file_stem_of(path: Seq<char>) -> Option<Seq<char>> {
    match file_name_of(path) {
        Some(name) => Some(stem_of_name(name)),
        None => None,
    }
}

/// The extension of the file name of `path`.
pub open spec fn extension_of(path: Seq<char>) -> Option<Seq<char>> {
    match file_name_of(path) {
        Some(name) => extension_of_name(name),
        None => None,
    }
}

/// Whether `path` holds two dots in a row.
pub open spec fn has_dot_dot(path: Seq<char>) -> bool {
    exists|i: int| 0 <= i && i + 1 < path.len() && #[trigger] path[i] == '.' && path[i + 1] == '.'
}

/// `last_index_of` gives a position of `mark`, and `mark` does not occur
/// after it.
pub proof fn lemma_last_index_of(text: Seq<char>, mark: char)
    ensures
        -1 <= last_index_of(text, mark) < text.len(),
        last_index_of(text, mark) >= 0 ==> text[last_index_of(text, mark)] == mark,
        forall|k: int| last_index_of(text, mark) < k < text.len() ==> text[k] != mark,
    decreases text.len(),
{
    if text.len() > 0 && text.last() != mark {
        let shorter = text.drop_last();
        lemma_last_index_of(shorter, mark);
        assert forall|k: int| last_index_of(text, mark) < k < text.len() implies text[k] != mark by {
            if k < shorter.len() {
                assert(shorter[k] == text[k]);
            }
        }
    }
}

/// The last component of a path ends within the path, holds no separator and
/// is not a single dot.
pub proof fn lemma_last_component(path: Seq<char>)
    ensures
        0 <= component_end(path) <= path.len(),
        last_component(path).len() <= path.len(),
        forall|k: int| 0 <= k < last_component(path).len() ==> last_component(path)[k] != '/',
        last_component(path) != seq!['.'],
        component_end(path) > 0 ==> last_component(path).len() > 0,
{
    lemma_component_end(path);
    let kept = path.subrange(0, component_end(path));
    lemma_last_index_of(kept, '/');
    let name = last_component(path);
    if name == seq!['.'] {
        assert(name.len() == 1);
        assert(name[0] == '.');
    }
}

/// Where the last component ends, the path holds neither a separator nor the
/// end of a single-dot component.
pub proof fn lemma_component_end(path: Seq<char>)
    ensures
        0 <= component_end(path) <= path.len(),
        component_end(path) > 0 ==> path[component_end(path) - 1] != '/'
            && !ends_with_dot_component(path.subrange(0, component_end(path))),
    decreases path.len(),
{
    if path.len() > 0 && (path.last() == '/' || ends_with_dot_component(path)) {
        lemma_component_end(path.drop_last());
    }
}

/// A file name is never empty, holds no separator, and is neither `.` nor
/// `..`; its stem is never empty and holds no separator either.
pub proof fn lemma_file_name(path: Seq<char>)
    requires
        file_name_of(path) is Some,
    ensures
        file_name_of(path)->0.len() > 0,
        forall|k: int| 0 <= k < file_name_of(path)->0.len() ==> file_name_of(path)->0[k] != '/',
        file_name_of(path)->0 != seq!['.'],
        file_name_of(path)->0 != seq!['.', '.'],
        file_stem_of(path)->0.len() > 0,
        forall|k: int| 0 <= k < file_stem_of(path)->0.len() ==> file_stem_of(path)->0[k] != '/',
{
    lemma_last_component(path);
    lemma_last_index_of(file_name_of(path)->0, '.');
}

/// The helper of the two checks and the path arithmetic of the plugin.
pub struct PathResolver;

impl PathResolver {
    /// Adjoins `relative_path` to `base_path`.
    pub fn join_paths(base_path: &str, relative_path: &str) -> (path: String)
        ensures
            path@ == joined(base_path@, relative_path@),
    {
        let relative_len = relative_path.unicode_len();
        if relative_len > 0 && relative_path.get_char(0) == '/' {
            return String::from_str(relative_path);
        }
        let base_len = base_path.unicode_len();
        let path = String::from_str(base_path);
        if base_len == 0 || base_path.get_char(base_len - 1) == '/' {
            path.concat(relative_path)
        } else {
            proof {
                reveal_strlit("/");
            }
            path.concat("/").concat(relative_path)
        }
    }

    /// The file name of `path`, where it has one.
    pub fn file_name(path: &str) -> (name: Option<String>)
        ensures
            name.deep_view() == file_name_of(path@),
    {
        let chars = chars_of(path);
        let end = Self::end_of_last_component(&chars);
        let start = Self::start_of_component(&chars, end);
        proof {
            lemma_component_end(path@);
            lemma_last_index_of(path@.subrange(0, end as int), '/');
            assert(last_component(path@) =~= path@.subrange(start as int, end as int));
        }
        if start == end {
            return None;
        }
        if end - start == 2 && chars[start] == '.' && chars[start + 1] == '.' {
            assert(last_component(path@) =~= seq!['.', '.']);
            return None;
        }
        Some(String::from_str(path.substring_char(start, end)))
    }

    /// The stem of the file name of `path`, where it has a file name.
    pub fn file_stem(path: &str) -> (stem: Option<String>)
        ensures
            stem.deep_view() == file_stem_of(path@),
    {
        match Self::file_name(path) {
            None => None,
            Some(name) => {
                let chars = chars_of(name.as_str());
                let dot = Self::position_of_last(&chars, chars.len(), '.');
                if dot <= 1 {
                    assert(name@.subrange(0, name@.len() as int) =~= name@);
                    Some(name)
                } else {
                    proof {
                        lemma_last_index_of(name@, '.');
                    }
                    Some(String::from_str(name.as_str().substring_char(0, dot - 1)))
                }
            },
        }
    }

    /// The extension of the file name of `path`, where it has one.
    pub fn extension(path: &str) -> (extension: Option<String>)
        ensures
            extension.deep_view() == extension_of(path@),
    {
        match Self::file_name(path) {
            None => None,
            Some(name) => {
                let chars = chars_of(name.as_str());
                let dot = Self::position_of_last(&chars, chars.len(), '.');
                proof {
                    lemma_last_index_of(name@, '.');
                    assert(name@.subrange(0, name@.len() as int) =~= name@);
                }
                if dot <= 1 {
                    None
                } else {
                    Some(String::from_str(name.as_str().substring_char(dot, chars.len())))
                }
            },
        }
    }

    /// Reports on a directory that was looked up: it must be there, and be a
    /// directory.
    pub fn validate_directory_exists(directory_path: &str, kind: PathKind) -> (result: PluginResult<
        (),
    >)
        ensures
            match kind {
                PathKind::Directory => result is Ok,
                PathKind::Missing => result matches Err(error) && error@ == (
                PluginErrorView::InvalidProjectStructure {
                    reason: "Directory does not exist: "@ + directory_path@,
                }),
                PathKind::File => result matches Err(error) && error@ == (
                PluginErrorView::InvalidProjectStructure {
                    reason: "Path is not a directory: "@ + directory_path@,
                }),
            },
    {
        match kind {
            PathKind::Directory => Ok(()),
            PathKind::Missing => Err(
                PluginError::InvalidProjectStructure {
                    reason: String::from_str("Directory does not exist: ").concat(directory_path),
                },
            ),
            PathKind::File => Err(
                PluginError::InvalidProjectStructure {
                    reason: String::from_str("Path is not a directory: ").concat(directory_path),
                },
            ),
        }
    }

    /// Reports on the attempt to create the output directory with all its
    /// parents: `created` says whether it is there now.
    pub fn ensure_output_directory_exists(directory_path: &str, created: bool) -> (result:
        PluginResult<()>)
        ensures
            created ==> result is Ok,
            !created ==> (result matches Err(error) && error@ == (
            PluginErrorView::OutputDirectoryCreationFailed { path: directory_path@ })),
    {
        if created {
            Ok(())
        } else {
            Err(PluginError::OutputDirectoryCreationFailed { path: String::from_str(directory_path) })
        }
    }

    /// Whether `path_to_check` is free of `..`.
    pub fn is_safe_path(path_to_check: &str) -> (safe: bool)
        ensures
            safe == !has_dot_dot(path_to_check@),
    {
        let chars = chars_of(path_to_check);
        let mut i: usize = 1;
        while i < chars.len()
            invariant
                1 <= i,
                chars@ == path_to_check@,
                forall|k: int| 0 <= k && k + 1 < i ==> !(#[trigger] chars@[k] == '.' && chars@[k + 1] == '.'),
            decreases chars.len() - i,
        {
            if chars[i - 1] == '.' && chars[i] == '.' {
                return false;
            }
            i += 1;
        }
        true
    }

    /// Where the last component of the path ends.
    fn end_of_last_component(chars: &Vec<char>) -> (end: usize)
        ensures
            end == component_end(chars@),
            end <= chars.len(),
    {
        let mut end: usize = chars.len();
        assert(chars@.subrange(0, end as int) =~= chars@);
        while end > 0 && (chars[end - 1] == '/' || (chars[end - 1] == '.' && (end == 1 || chars[end
            - 2] == '/')))
            invariant
                end <= chars.len(),
                component_end(chars@) == component_end(chars@.subrange(0, end as int)),
            decreases end,
        {
            assert(chars@.subrange(0, end as int).drop_last() =~= chars@.subrange(0, end - 1));
            end -= 1;
        }
        end
    }

    /// One past the position of the last `mark` among the first `end`
    /// characters, or 0 where there is none.
    fn position_of_last(chars: &Vec<char>, end: usize, mark: char) -> (next: usize)
        requires
            end <= chars.len(),
        ensures
            next == last_index_of(chars@.subrange(0, end as int), mark) + 1,
            next <= end,
    {
        let mut next: usize = end;
        while next > 0 && chars[next - 1] != mark
            invariant
                next <= end <= chars.len(),
                last_index_of(chars@.subrange(0, end as int), mark) == last_index_of(
                    chars@.subrange(0, next as int),
                    mark,
                ),
            decreases next,
        {
            assert(chars@.subrange(0, next as int).drop_last() =~= chars@.subrange(0, next - 1));
            next -= 1;
        }
        next
    }

    /// Where the component that ends at `end` starts.
    fn start_of_component(chars: &Vec<char>, end: usize) -> (start: usize)
        requires
            end <= chars.len(),
        ensures
            start == last_index_of(chars@.subrange(0, end as int), '/') + 1,
            start <= end,
    {
        Self::position_of_last(chars, end, '/')
    }
}

} // verus!
