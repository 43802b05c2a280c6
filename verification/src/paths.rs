//! How the files that a job writes are named: both lie beside the input.

use vstd::prelude::*;
use vstd::string::*;
use crate::config::OutputFormat;

verus! {

/// The last component of a path where it names a file or a directory, as
/// `std::path::Path::file_name` finds it by the path rules of the platform.
pub uninterp spec fn path_file_name(path: Seq<char>) -> Option<Seq<char>>;

/// The path that `std::path::Path::with_file_name` makes of `path` and a
/// new file name.
pub uninterp spec fn path_with_file_name(path: Seq<char>, name: Seq<char>) -> Seq<char>;

/// Whether the last components of `path` are those of `suffix`, whole
/// component by whole component, as `std::path::Path::ends_with` finds it by
/// the path rules of the platform.
pub uninterp spec fn path_ends_with(path: Seq<char>, suffix: Seq<char>) -> bool;

/// `name` is a plain file name: it is the whole of its own last component.
pub open spec fn plain_name(name: Seq<char>) -> bool {
    path_file_name(name) == Some(name)
}

/// Position of the last dot of `name`, -1 where it has none.
pub open spec fn last_dot(name: Seq<char>) -> int
    decreases name.len(),
{
    if name.len() == 0 {
        -1
    } else if name.last() == '.' {
        name.len() - 1
    } else {
        last_dot(name.drop_last())
    }
}

/// The stem of a file name: what stands before its last dot; the whole name
/// where it has no dot, or none but one at its beginning.
pub open spec fn stem_of_name(name: Seq<char>) -> Seq<char> {
    let at = last_dot(name);
    if name == ".."@ || at <= 0 {
        name
    } else {
        name.subrange(0, at)
    }
}

/// The extension of a file name: what stands after its last dot; none where
/// it has no dot, or none but one at its beginning.
pub open spec fn extension_of_name(name: Seq<char>) -> Option<Seq<char>> {
    let at = last_dot(name);
    if name == ".."@ || at <= 0 {
        None
    } else {
        Some(name.subrange(at + 1, name.len() as int))
    }
}

/// The stem of the file that `path` names.
pub open spec fn path_stem(path: Seq<char>) -> Option<Seq<char>> {
    match path_file_name(path) {
        Some(name) => Some(stem_of_name(name)),
        None => None,
    }
}

/// The extension of the file that `path` names.
pub open spec fn path_extension(path: Seq<char>) -> Option<Seq<char>> {
    match path_file_name(path) {
        Some(name) => extension_of_name(name),
        None => None,
    }
}

/// The characters of an optional text.
pub open spec fn held_text(text: Option<String>) -> Option<Seq<char>> {
    match text {
        Some(held) => Some(held@),
        None => None,
    }
}

/// Name of the file that the normalization pass writes.
pub open spec fn temp_file_name(stem: Seq<char>, extension: Seq<char>) -> Seq<char> {
    stem + "_temp_fixed_cfr."@ + extension
}

/// Name of the file that the encode pass writes.
pub open spec fn output_file_name(stem: Seq<char>, format: OutputFormat) -> Seq<char> {
    stem + "_compressed."@ + format.spec_extension()
}

/// Path of the file that the normalization pass writes for `input`: beside
/// it, with the same extension. None where `input` names no file or the
/// name has no extension.
pub open spec fn temp_path_of(input: Seq<char>) -> Option<Seq<char>> {
    match (path_stem(input), path_extension(input)) {
        (Some(stem), Some(extension)) => Some(
            path_with_file_name(input, temp_file_name(stem, extension)),
        ),
        _ => None,
    }
}

/// Path of the file that the encode pass writes for `input`: beside it,
/// with the extension of the profile. None where `input` names no file.
pub open spec fn output_path_of(input: Seq<char>, format: OutputFormat) -> Option<Seq<char>> {
    match path_stem(input) {
        Some(stem) => Some(path_with_file_name(input, output_file_name(stem, format))),
        None => None,
    }
}

/// Calls `std::path::Path::file_stem`. As std documents it, the stem is
/// taken from the file name: all of it before its last dot, all of it where
/// it has no dot or only one at its beginning, and there is none where the
/// path has no file name.
#[verifier::external_body]
fn file_stem(path: &str) -> (stem: Option<String>)
    ensures
        held_text(stem) == match path_file_name(path@) {
            Some(name) => Some(stem_of_name(name)),
            None => None,
        },
{
    std::path::Path::new(path).file_stem().and_then(|stem| stem.to_str()).map(
        |stem| stem.to_string(),
    )
}

/// Calls `std::path::Path::extension`. As std documents it, the extension
/// is taken from the file name: what follows its last dot, and none where
/// the path has no file name or the name has no dot or only one at its
/// beginning.
#[verifier::external_body]
fn extension(path: &str) -> (extension: Option<String>)
    ensures
        held_text(extension) == match path_file_name(path@) {
            Some(name) => extension_of_name(name),
            None => None,
        },
{
    std::path::Path::new(path).extension().and_then(|extension| extension.to_str()).map(
        |extension| extension.to_string(),
    )
}

/// Calls `std::path::Path::file_name`: the last component of the path
/// where it names a file or a directory. The contract claims only that the
/// result is a function of the text.
#[verifier::external_body]
fn file_name(path: &str) -> (name: Option<String>)
    ensures
        held_text(name) == path_file_name(path@),
{
    std::path::Path::new(path).file_name().and_then(|name| name.to_str()).map(
        |name| name.to_string(),
    )
}

/// Calls `std::path::Path::ends_with`. The contract claims only that the
/// result is a function of the two texts.
#[verifier::external_body]
fn ends_with(path: &str, suffix: &str) -> (ends: bool)
    ensures
        ends == path_ends_with(path@, suffix@),
{
    std::path::Path::new(path).ends_with(suffix)
}

/// Calls `std::path::Path::with_file_name`: the path with its file name
/// replaced. The contract claims that the result is a function of the two
/// texts and, as std documents it, that the file name of the result is the
/// new name, where that is a plain file name.
#[verifier::external_body]
fn with_file_name(path: &str, name: &str) -> (sibling: String)
    ensures
        sibling@ == path_with_file_name(path@, name@),
        path_file_name(name@) == Some(name@) ==> path_file_name(sibling@) == Some(name@),
{
    std::path::Path::new(path).with_file_name(name).to_string_lossy().into_owned()
}

/// The last dot of a name lies within it and is a dot.
pub proof fn last_dot_is_a_dot(name: Seq<char>)
    ensures
        -1 <= last_dot(name) < name.len(),
        last_dot(name) >= 0 ==> name[last_dot(name)] == '.',
    decreases name.len(),
{
    if name.len() > 0 && name.last() != '.' {
        last_dot_is_a_dot(name.drop_last());
    }
}

/// No file name is its own stem with a mark and more put behind it, where
/// the mark begins with something other than a dot: what is written for a
/// file never bears the name of that file.
pub proof fn marked_name_differs(name: Seq<char>, mark: Seq<char>, rest: Seq<char>)
    requires
        mark.len() > 0,
        mark[0] != '.',
    ensures
        stem_of_name(name) + mark + rest != name,
{
    let stem = stem_of_name(name);
    let marked = stem + mark + rest;
    last_dot_is_a_dot(name);
    if stem == name {
        assert(marked.len() > name.len());
    } else {
        let at = last_dot(name);
        assert(stem.len() == at);
        assert(marked[at] == mark[0]);
        assert(name[at] == '.');
    }
}

/// The file name of an entry of an archive where the entry lies at
/// `place`, which is a file in a folder; `None` where it lies elsewhere.
pub open spec fn entry_name_at(entry: Seq<char>, place: Seq<char>) -> Option<Seq<char>> {
    if path_ends_with(entry, place) {
        path_file_name(entry)
    } else {
        None
    }
}

/// The file name of an entry of an archive where the entry lies at `place`.
pub fn entry_at(entry: &str, place: &str) -> (name: Option<String>)
    ensures
        held_text(name) == entry_name_at(entry@, place@),
{
    if ends_with(entry, place) {
        file_name(entry)
    } else {
        None
    }
}

/// Name of the file that the normalization pass writes for a file with
/// this stem and extension.
pub fn temp_name(stem: &str, extension: &str) -> (name: String)
    ensures
        name@ == temp_file_name(stem@, extension@),
{
    let mut name = String::from_str(stem);
    name.append("_temp_fixed_cfr.");
    name.append(extension);
    name
}

/// Name of the file that the encode pass writes for a file with this stem.
pub fn output_name(stem: &str, format: OutputFormat) -> (name: String)
    ensures
        name@ == output_file_name(stem@, format),
{
    let mut name = String::from_str(stem);
    name.append("_compressed.");
    name.append(format.extension());
    name
}

/// Path of the file that the normalization pass writes for `input`. It is
/// another path than `input` where the name of the file is a plain file
/// name.
pub fn temp_path(input: &str) -> (path: Option<String>)
    ensures
        held_text(path) == temp_path_of(input@),
        path matches Some(written) ==> (plain_name(
            temp_file_name(path_stem(input@).unwrap(), path_extension(input@).unwrap()),
        ) ==> written@ != input@),
{
    let stem = match file_stem(input) {
        Some(stem) => stem,
        None => {
            return None;
        },
    };
    let kept = match extension(input) {
        Some(kept) => kept,
        None => {
            return None;
        },
    };
    let name = temp_name(stem.as_str(), kept.as_str());
    let written = with_file_name(input, name.as_str());
    proof {
        reveal_strlit("_temp_fixed_cfr.");
        marked_name_differs(path_file_name(input@).unwrap(), "_temp_fixed_cfr."@, kept@);
    }
    Some(written)
}

/// Path of the file that the encode pass writes for `input`. It is another
/// path than `input` where the name of the file is a plain file name.
pub fn output_path(input: &str, format: OutputFormat) -> (path: Option<String>)
    ensures
        held_text(path) == output_path_of(input@, format),
        path matches Some(written) ==> (plain_name(
            output_file_name(path_stem(input@).unwrap(), format),
        ) ==> written@ != input@),
{
    let stem = match file_stem(input) {
        Some(stem) => stem,
        None => {
            return None;
        },
    };
    let name = output_name(stem.as_str(), format);
    let written = with_file_name(input, name.as_str());
    proof {
        reveal_strlit("_compressed.");
        marked_name_differs(
            path_file_name(input@).unwrap(),
            "_compressed."@,
            format.spec_extension(),
        );
    }
    Some(written)
}

} // verus!
