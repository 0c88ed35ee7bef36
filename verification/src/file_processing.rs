//! The decision whether a path is kept or skipped, and the two documents
//! that are made of the kept paths: the directory tree and the joined file
//! contents.
//!
//! A path is judged on its own: by the names of the directories on it, by
//! the ignore patterns, and, for a file, by its name and its extension.
//! Names are compared without regard to case. Where a name is on a list of
//! exclusions and on a list of inclusions, the exclusion wins.

use vstd::prelude::*;
use vstd::string::StringExecFns;
use vstd::utf8::{decode_utf8, valid_utf8};
use ignore::gitignore::Gitignore;
use crate::config::{Config, ConfigView};
use crate::gitignore::{ignored_paths, is_ignored};
use crate::number::{decimal_text, push_decimal};
use crate::paths::{
    components_of, extension, extension_of, file_name, file_name_of, path_components,
    paths_equal, same_path,
};
use crate::text::{
    chars_of, eq_ignore_ascii_case, lowercase, optional_texts, same_ignoring_ascii_case,
    slice_texts, texts, unicode_lower,
};

verus! {

// ---------------------------------------------------------------------------
// Names and lists of names
// ---------------------------------------------------------------------------

/// A lower-cased name is on a list: it equals one of the entries up to the
/// case of ASCII letters.
pub open spec fn is_listed(list: Seq<Seq<char>>, lowered: Seq<char>) -> bool {
    exists|j: int| 0 <= j < list.len() && same_ignoring_ascii_case(#[trigger] list[j], lowered)
}

/// One of several lower-cased names is on a list.
pub open spec fn any_listed(list: Seq<Seq<char>>, names: Seq<Seq<char>>) -> bool {
    exists|i: int| 0 <= i < names.len() && is_listed(list, #[trigger] names[i])
}

/// The components of a path, each in lower case.
pub open spec fn lowered_names(path: Seq<char>) -> Seq<Seq<char>> {
    components_of(path).map_values(|name: Seq<char>| unicode_lower(name))
}

/// Whether the list of wanted directories lets a path through: there is no
/// such list, or one of the path's components is on it.
pub open spec fn in_included_dir(path: Seq<char>, wanted: Option<Seq<Seq<char>>>) -> bool {
    match wanted {
        Some(list) => any_listed(list, lowered_names(path)),
        None => true,
    }
}

/// Whether a path lies in an unwanted directory: one of its components is a
/// built-in ignored directory name or is on the user's list of exclusions.
pub open spec fn in_ignored_dir(
    path: Seq<char>,
    builtin: Seq<Seq<char>>,
    excluded: Option<Seq<Seq<char>>>,
) -> bool {
    ||| any_listed(builtin, lowered_names(path))
    ||| (excluded matches Some(list) && any_listed(list, lowered_names(path)))
}

/// The lower-cased name of the file that a path leads to; empty where the
/// path has no file name.
pub open spec fn lowered_file_name(path: Seq<char>) -> Seq<char> {
    match file_name_of(path) {
        Some(name) => unicode_lower(name),
        None => seq![],
    }
}

/// The lower-cased extension of a file; empty for a file without one.
pub open spec fn lowered_extension(extension: Option<Seq<char>>) -> Seq<char> {
    match extension {
        Some(extension) => unicode_lower(extension),
        None => seq![],
    }
}

/// Whether the two lists of file names let a lower-cased file name through:
/// it is not excluded, and it is wanted where there is a list of wanted
/// names.
pub open spec fn file_name_allowed(
    lowered: Seq<char>,
    wanted: Option<Seq<Seq<char>>>,
    excluded: Option<Seq<Seq<char>>>,
) -> bool {
    &&& !(excluded matches Some(list) && is_listed(list, lowered))
    &&& (wanted matches Some(list) ==> is_listed(list, lowered))
}

/// Whether the two lists of extensions let an extension through. The
/// extension is compared in lower case, letter for letter, and a file
/// without extension has the empty one: an empty entry on a list stands for
/// such files.
pub open spec fn extension_allowed(
    extension: Option<Seq<char>>,
    wanted: Option<Seq<Seq<char>>>,
    excluded: Option<Seq<Seq<char>>>,
) -> bool {
    &&& !(excluded matches Some(list) && list.contains(lowered_extension(extension)))
    &&& (wanted matches Some(list) ==> list.contains(lowered_extension(extension)))
}

/// Whether a path is skipped.
///
/// `ignored` is what the pattern set ignores and `builtin` the built-in
/// ignored directory names. The path is skipped where the list of wanted
/// directories does not let it through, where it lies in an unwanted
/// directory, where the patterns are respected and ignore it, and, for a
/// file, where its name or its extension is not let through.
pub open spec fn should_skip(
    path: Seq<char>,
    is_dir: bool,
    ignored: Set<(Seq<char>, bool)>,
    builtin: Seq<Seq<char>>,
    config: ConfigView,
) -> bool {
    ||| !in_included_dir(path, config.include_dirs)
    ||| in_ignored_dir(path, builtin, config.exclude_dirs)
    ||| (config.respect_gitignore && ignored.contains((path, is_dir)))
    ||| (!is_dir && !file_name_allowed(
        lowered_file_name(path),
        config.include_files,
        config.exclude_files,
    ))
    ||| (!is_dir && !extension_allowed(extension_of(path), config.include_ext, config.exclude_ext))
}

/// The character sequences of a list of character vectors.
pub open spec fn char_lists(list: Seq<Vec<char>>) -> Seq<Seq<char>> {
    list.map_values(|chars: Vec<char>| chars@)
}

fn list_chars(list: &Vec<String>) -> (chars: Vec<Vec<char>>)
    ensures
        char_lists(chars@) == texts(list@),
{
    let mut chars: Vec<Vec<char>> = Vec::new();
    let mut j: usize = 0;
    while j < list.len()
        invariant
            j <= list.len(),
            char_lists(chars@) == texts(list@).take(j as int),
        decreases list.len() - j,
    {
        let entry = chars_of(list[j].as_str());
        let ghost before = char_lists(chars@);
        chars.push(entry);
        assert(char_lists(chars@) == before.push(entry@));
        assert(texts(list@).take(j + 1) == texts(list@).take(j as int).push(list@[j as int]@));
        j = j + 1;
    }
    assert(texts(list@).take(j as int) == texts(list@));
    chars
}

fn slice_chars(list: &[&str]) -> (chars: Vec<Vec<char>>)
    ensures
        char_lists(chars@) == slice_texts(list@),
{
    let mut chars: Vec<Vec<char>> = Vec::new();
    let mut j: usize = 0;
    while j < list.len()
        invariant
            j <= list.len(),
            char_lists(chars@) == slice_texts(list@).take(j as int),
        decreases list.len() - j,
    {
        let entry = chars_of(list[j]);
        let ghost before = char_lists(chars@);
        chars.push(entry);
        assert(char_lists(chars@) == before.push(entry@));
        assert(slice_texts(list@).take(j + 1) == slice_texts(list@).take(j as int).push(
            list@[j as int]@,
        ));
        j = j + 1;
    }
    assert(slice_texts(list@).take(j as int) == slice_texts(list@));
    chars
}

fn lowered_components(path: &str) -> (names: Vec<Vec<char>>)
    ensures
        char_lists(names@) == lowered_names(path@),
{
    let components = path_components(path);
    let ghost lower = |name: Seq<char>| unicode_lower(name);
    let mut names: Vec<Vec<char>> = Vec::new();
    let mut i: usize = 0;
    while i < components.len()
        invariant
            i <= components.len(),
            texts(components@) == components_of(path@),
            lower == |name: Seq<char>| unicode_lower(name),
            char_lists(names@) == texts(components@).take(i as int).map_values(lower),
        decreases components.len() - i,
    {
        let lowered = lowercase(components[i].as_str());
        let name = chars_of(lowered.as_str());
        let ghost before = char_lists(names@);
        names.push(name);
        assert(char_lists(names@) == before.push(name@));
        assert(texts(components@).take(i + 1).map_values(lower) == texts(components@).take(
            i as int,
        ).map_values(lower).push(unicode_lower(components@[i as int]@)));
        i = i + 1;
    }
    assert(texts(components@).take(i as int) == texts(components@));
    names
}

fn listed(list: &Vec<Vec<char>>, lowered: &Vec<char>) -> (found: bool)
    ensures
        found == is_listed(char_lists(list@), lowered@),
{
    let mut j: usize = 0;
    while j < list.len()
        invariant
            j <= list.len(),
            forall|k: int|
                0 <= k < j ==> !same_ignoring_ascii_case(
                    #[trigger] char_lists(list@)[k],
                    lowered@,
                ),
        decreases list.len() - j,
    {
        if eq_ignore_ascii_case(&list[j], lowered) {
            assert(same_ignoring_ascii_case(char_lists(list@)[j as int], lowered@));
            return true;
        }
        j = j + 1;
    }
    false
}

fn any_name_listed(list: &Vec<Vec<char>>, names: &Vec<Vec<char>>) -> (found: bool)
    ensures
        found == any_listed(char_lists(list@), char_lists(names@)),
{
    let mut i: usize = 0;
    while i < names.len()
        invariant
            i <= names.len(),
            forall|k: int|
                0 <= k < i ==> !is_listed(char_lists(list@), #[trigger] char_lists(names@)[k]),
        decreases names.len() - i,
    {
        if listed(list, &names[i]) {
            assert(is_listed(char_lists(list@), char_lists(names@)[i as int]));
            return true;
        }
        i = i + 1;
    }
    false
}

fn names_in_included_dir(names: &Vec<Vec<char>>, include_dirs: &Option<Vec<String>>) -> (inside:
    bool)
    ensures
        inside == match optional_texts(*include_dirs) {
            Some(list) => any_listed(list, char_lists(names@)),
            None => true,
        },
{
    match include_dirs {
        Some(dirs) => {
            let list = list_chars(dirs);
            any_name_listed(&list, names)
        },
        None => true,
    }
}

fn names_in_ignored_dir(
    names: &Vec<Vec<char>>,
    ignored_dirs: &[&str],
    exclude_dirs: &Option<Vec<String>>,
) -> (inside: bool)
    ensures
        inside == (any_listed(slice_texts(ignored_dirs@), char_lists(names@)) || (optional_texts(
            *exclude_dirs,
        ) matches Some(list) && any_listed(list, char_lists(names@)))),
{
    let builtin = slice_chars(ignored_dirs);
    if any_name_listed(&builtin, names) {
        return true;
    }
    match exclude_dirs {
        Some(dirs) => {
            let list = list_chars(dirs);
            any_name_listed(&list, names)
        },
        None => false,
    }
}

// ---------------------------------------------------------------------------
// The filters
// ---------------------------------------------------------------------------

/// Whether `path` lies in an unwanted directory: one of its components is,
/// up to case, among `ignored_dirs` or among `exclude_dirs`.
pub fn is_in_ignored_dir(path: &str, ignored_dirs: &[&str], exclude_dirs: &Option<Vec<String>>) -> (inside:
    bool)
    ensures
        inside == in_ignored_dir(path@, slice_texts(ignored_dirs@), optional_texts(*exclude_dirs)),
{
    let names = lowered_components(path);
    names_in_ignored_dir(&names, ignored_dirs, exclude_dirs)
}

/// Whether the list of wanted directories lets `path` through: there is no
/// list, or one of the components of `path` is, up to case, on it.
pub fn is_in_included_dir(path: &str, include_dirs: &Option<Vec<String>>) -> (inside: bool)
    ensures
        inside == in_included_dir(path@, optional_texts(*include_dirs)),
{
    let names = lowered_components(path);
    names_in_included_dir(&names, include_dirs)
}

/// Whether the lists of file names let a file name through. The name is
/// taken as it is given, so a caller that wants to ignore case hands it in
/// in lower case. An exclusion wins over an inclusion.
pub fn is_file_included_excluded(
    file_name: &str,
    include_files: &Option<Vec<String>>,
    exclude_files: &Option<Vec<String>>,
) -> (allowed: bool)
    ensures
        allowed == file_name_allowed(
            file_name@,
            optional_texts(*include_files),
            optional_texts(*exclude_files),
        ),
{
    let name = chars_of(file_name);
    match exclude_files {
        Some(excluded) => {
            let list = list_chars(excluded);
            if listed(&list, &name) {
                return false;
            }
        },
        None => {},
    }
    match include_files {
        Some(wanted) => {
            let list = list_chars(wanted);
            listed(&list, &name)
        },
        None => true,
    }
}

fn holds(list: &Vec<String>, text: &String) -> (found: bool)
    ensures
        found == texts(list@).contains(text@),
{
    let mut j: usize = 0;
    while j < list.len()
        invariant
            j <= list.len(),
            forall|k: int| 0 <= k < j ==> texts(list@)[k] != text@,
        decreases list.len() - j,
    {
        if list[j] == *text {
            assert(texts(list@)[j as int] == text@);
            return true;
        }
        j = j + 1;
    }
    false
}

/// Whether the lists of extensions let an extension through. The extension
/// is compared in lower case with the entries as they stand; `None`, no
/// extension, counts as the empty extension. An exclusion wins over an
/// inclusion.
pub fn is_ext_included_excluded(
    ext: Option<&str>,
    include_ext: &Option<Vec<String>>,
    exclude_ext: &Option<Vec<String>>,
) -> (allowed: bool)
    ensures
        allowed == extension_allowed(
            match ext {
                Some(ext) => Some(ext@),
                None => None,
            },
            optional_texts(*include_ext),
            optional_texts(*exclude_ext),
        ),
{
    let lowered = match ext {
        Some(ext) => lowercase(ext),
        None => String::new(),
    };
    match exclude_ext {
        Some(excluded) => {
            if holds(excluded, &lowered) {
                return false;
            }
        },
        None => {},
    }
    match include_ext {
        Some(wanted) => holds(wanted, &lowered),
        None => true,
    }
}

/// Decides whether a path is skipped.
///
/// The checks run in this order and stop at the first that skips: the list
/// of wanted directories; the built-in and the user's unwanted directories;
/// the ignore patterns, where the configuration respects them; and, for a
/// file only, the lists of file names and of extensions. Size limits are
/// not looked at here.
pub fn should_skip_path_advanced(
    path: &str,
    is_dir: bool,
    gitignore: &Gitignore,
    ignored_dirs: &[&str],
    config: &Config,
) -> (skip: bool)
    ensures
        skip == should_skip(
            path@,
            is_dir,
            ignored_paths(*gitignore),
            slice_texts(ignored_dirs@),
            config@,
        ),
{
    let names = lowered_components(path);
    if !names_in_included_dir(&names, &config.include_dirs) {
        return true;
    }
    if names_in_ignored_dir(&names, ignored_dirs, &config.exclude_dirs) {
        return true;
    }
    if config.respect_gitignore && is_ignored(gitignore, path, is_dir) {
        return true;
    }
    if is_dir {
        return false;
    }
    let lowered = match file_name(path) {
        Some(name) => lowercase(name.as_str()),
        None => String::new(),
    };
    if !is_file_included_excluded(lowered.as_str(), &config.include_files, &config.exclude_files) {
        return true;
    }
    let extension = extension(path);
    let ext: Option<&str> = match &extension {
        Some(extension) => Some(extension.as_str()),
        None => None,
    };
    !is_ext_included_excluded(ext, &config.include_ext, &config.exclude_ext)
}

// ---------------------------------------------------------------------------
// The directory tree
// ---------------------------------------------------------------------------

/// One path that a walk of the root directory met.
#[derive(Debug, Clone, PartialEq, Eq)]
pub struct WalkEntry {
    /// The path, as the walk gives it.
    pub path: String,
    /// Whether the path is a directory.
    pub is_dir: bool,
    /// How many directories lie between the root and the path; the root
    /// itself has depth 0.
    pub depth: usize,
}

/// A `WalkEntry` as plain mathematical values.
pub struct WalkEntryView {
    pub path: Seq<char>,
    pub is_dir: bool,
    pub depth: nat,
}

impl View for WalkEntry {
    type V = WalkEntryView;

    open spec fn view(&self) -> WalkEntryView {
        WalkEntryView { path: self.path@, is_dir: self.is_dir, depth: self.depth as nat }
    }
}

/// The views of a list of entries.
pub open spec fn entry_views(entries: Seq<WalkEntry>) -> Seq<WalkEntryView> {
    entries.map_values(|entry: WalkEntry| entry@)
}

/// The line that opens the tree, and the empty line behind it.
pub open spec fn tree_header() -> Seq<char> {
    "=== Project Directory Structure ===\n\n"@
}

/// The line that stands for the entries of an empty root directory.
pub open spec fn empty_notice() -> Seq<char> {
    "The directory is empty.\n"@
}

/// Two spaces for each level of depth.
pub open spec fn indent(depth: nat) -> Seq<char> {
    Seq::new(2 * depth, |i: int| ' ')
}

/// The line of one entry in the tree: nothing for a skipped path and for a
/// path without a name, else the name, indented by its depth, with a `/`
/// behind the name of a directory.
pub open spec fn tree_line(
    entry: WalkEntryView,
    ignored: Set<(Seq<char>, bool)>,
    builtin: Seq<Seq<char>>,
    config: ConfigView,
) -> Seq<char> {
    if should_skip(entry.path, entry.is_dir, ignored, builtin, config) {
        seq![]
    } else {
        match file_name_of(entry.path) {
            Some(name) => indent(entry.depth) + name + if entry.is_dir {
                seq!['/', '\n']
            } else {
                seq!['\n']
            },
            None => seq![],
        }
    }
}

/// The lines of a list of entries, in the order of the list.
pub open spec fn tree_lines(
    entries: Seq<WalkEntryView>,
    ignored: Set<(Seq<char>, bool)>,
    builtin: Seq<Seq<char>>,
    config: ConfigView,
) -> Seq<char>
    decreases entries.len(),
{
    if entries.len() == 0 {
        seq![]
    } else {
        tree_lines(entries.drop_last(), ignored, builtin, config) + tree_line(
            entries.last(),
            ignored,
            builtin,
            config,
        )
    }
}

/// The text of the directory tree: the header, then either the notice for
/// an empty root directory or the lines of the entries and an empty line.
pub open spec fn tree_text(
    root_is_empty: bool,
    entries: Seq<WalkEntryView>,
    ignored: Set<(Seq<char>, bool)>,
    builtin: Seq<Seq<char>>,
    config: ConfigView,
) -> Seq<char> {
    if root_is_empty {
        tree_header() + empty_notice()
    } else {
        tree_header() + tree_lines(entries, ignored, builtin, config) + seq!['\n']
    }
}

fn push_indent(out: &mut String, depth: usize)
    ensures
        final(out)@ == old(out)@ + indent(depth as nat),
{
    let ghost base = out@;
    let mut i: usize = 0;
    assert(base + indent(0) == base);
    while i < depth
        invariant
            i <= depth,
            out@ == base + indent(i as nat),
        decreases depth - i,
    {
        out.push(' ');
        out.push(' ');
        assert(base + indent(i as nat) + seq![' ', ' '] == base + indent((i + 1) as nat));
        i = i + 1;
    }
}

/// Writes the directory tree.
///
/// `entries` are the paths that a walk of the root directory met, in the
/// order of the walk, and `root_is_empty` says whether the root directory
/// holds nothing at all. Each entry that `should_skip_path_advanced` keeps
/// gets a line.
pub fn get_directory_structure(
    root_is_empty: bool,
    entries: &Vec<WalkEntry>,
    gitignore: &Gitignore,
    ignored_dirs: &[&str],
    config: &Config,
) -> (structure: String)
    ensures
        structure@ == tree_text(
            root_is_empty,
            entry_views(entries@),
            ignored_paths(*gitignore),
            slice_texts(ignored_dirs@),
            config@,
        ),
{
    let mut structure = "=== Project Directory Structure ===\n\n".to_string();
    if root_is_empty {
        structure.append("The directory is empty.\n");
        return structure;
    }
    let ghost views = entry_views(entries@);
    let ghost ignored = ignored_paths(*gitignore);
    let ghost builtin = slice_texts(ignored_dirs@);
    let mut k: usize = 0;
    assert(tree_header() + tree_lines(views.take(0), ignored, builtin, config@) == tree_header());
    while k < entries.len()
        invariant
            k <= entries.len(),
            views == entry_views(entries@),
            ignored == ignored_paths(*gitignore),
            builtin == slice_texts(ignored_dirs@),
            structure@ == tree_header() + tree_lines(views.take(k as int), ignored, builtin, config@),
        decreases entries.len() - k,
    {
        let entry = &entries[k];
        let ghost before = structure@;
        proof {
            assert(views.take(k + 1).drop_last() == views.take(k as int));
            assert(views.take(k + 1).last() == entry@);
        }
        if !should_skip_path_advanced(
            entry.path.as_str(),
            entry.is_dir,
            gitignore,
            ignored_dirs,
            config,
        ) {
            match file_name(entry.path.as_str()) {
                Some(name) => {
                    push_indent(&mut structure, entry.depth);
                    structure.append(name.as_str());
                    if entry.is_dir {
                        structure.push('/');
                    }
                    structure.push('\n');
                    assert(structure@ == before + tree_line(entry@, ignored, builtin, config@));
                },
                None => {
                    assert(structure@ == before + tree_line(entry@, ignored, builtin, config@));
                },
            }
        } else {
            assert(structure@ == before + tree_line(entry@, ignored, builtin, config@));
        }
        k = k + 1;
    }
    assert(views.take(k as int) == views);
    structure.push('\n');
    structure
}

// ---------------------------------------------------------------------------
// The joined file contents
// ---------------------------------------------------------------------------

/// One path that a walk met, with what is needed to join its contents.
#[derive(Debug, Clone, PartialEq, Eq)]
pub struct FileRecord {
    /// The path, as the walk gives it.
    pub path: String,
    /// Whether the path is a directory.
    pub is_dir: bool,
    /// The size of the file in bytes.
    pub size: u64,
    /// The bytes of the file.
    pub contents: Vec<u8>,
}

/// A `FileRecord` as plain mathematical values.
pub struct FileRecordView {
    pub path: Seq<char>,
    pub is_dir: bool,
    pub size: u64,
    pub contents: Seq<u8>,
}

impl View for FileRecord {
    type V = FileRecordView;

    open spec fn view(&self) -> FileRecordView {
        FileRecordView {
            path: self.path@,
            is_dir: self.is_dir,
            size: self.size,
            contents: self.contents@,
        }
    }
}

/// The views of a list of records.
pub open spec fn record_views(records: Seq<FileRecord>) -> Seq<FileRecordView> {
    records.map_values(|record: FileRecord| record@)
}

/// Whether the contents of a path are wanted as far as the path tells: it
/// is not the output file, it is not skipped, and it is a file.
pub open spec fn is_candidate(
    path: Seq<char>,
    is_dir: bool,
    ignored: Set<(Seq<char>, bool)>,
    builtin: Seq<Seq<char>>,
    config: ConfigView,
) -> bool {
    &&& !same_path(path, config.output)
    &&& !should_skip(path, is_dir, ignored, builtin, config)
    &&& !is_dir
}

/// Whether a size lies within the limits of the configuration. Both limits
/// are inclusive, and an absent limit does not limit.
pub open spec fn size_in_range(size: u64, config: ConfigView) -> bool {
    &&& (config.min_size matches Some(least) ==> size >= least)
    &&& (config.max_size matches Some(most) ==> size <= most)
}

/// The name in the heading of a file; empty for a path without a name.
pub open spec fn heading_name(path: Seq<char>) -> Seq<char> {
    match file_name_of(path) {
        Some(name) => name,
        None => seq![],
    }
}

/// The heading of a file: an empty line, the line with the name and the
/// size of the file, and another empty line.
pub open spec fn file_heading(name: Seq<char>, size: u64) -> Seq<char> {
    "\n=== File: "@ + name + " ("@ + decimal_text(size as nat) + " bytes) ===\n\n"@
}

/// What one record adds to the joined text: its heading and its contents,
/// as they are, where the path is a candidate, the size is within the
/// limits and the contents are valid UTF-8; else nothing.
pub open spec fn file_section(
    record: FileRecordView,
    ignored: Set<(Seq<char>, bool)>,
    builtin: Seq<Seq<char>>,
    config: ConfigView,
) -> Seq<char> {
    if is_candidate(record.path, record.is_dir, ignored, builtin, config) && size_in_range(
        record.size,
        config,
    ) && valid_utf8(record.contents) {
        file_heading(heading_name(record.path), record.size) + decode_utf8(record.contents)
    } else {
        seq![]
    }
}

/// The sections of a list of records, in the order of the list.
pub open spec fn file_sections(
    records: Seq<FileRecordView>,
    ignored: Set<(Seq<char>, bool)>,
    builtin: Seq<Seq<char>>,
    config: ConfigView,
) -> Seq<char>
    decreases records.len(),
{
    if records.len() == 0 {
        seq![]
    } else {
        file_sections(records.drop_last(), ignored, builtin, config) + file_section(
            records.last(),
            ignored,
            builtin,
            config,
        )
    }
}

/// Trusted: calls `std::str::from_utf8`, which checks that the bytes are
/// valid UTF-8 and, where they are, hands them back as the text that they
/// encode.
#[verifier::external_body]
fn utf8_text(bytes: &[u8]) -> (text: Option<&str>)
    ensures
        text is Some <==> valid_utf8(bytes@),
        text matches Some(decoded) ==> decoded@ == decode_utf8(bytes@),
{
    std::str::from_utf8(bytes).ok()
}

/// Whether the contents of `path` are wanted as far as the path tells. A
/// caller can ask this before it reads the size or the contents of a file.
pub fn wants_contents(
    path: &str,
    is_dir: bool,
    gitignore: &Gitignore,
    ignored_dirs: &[&str],
    config: &Config,
) -> (wanted: bool)
    ensures
        wanted == is_candidate(
            path@,
            is_dir,
            ignored_paths(*gitignore),
            slice_texts(ignored_dirs@),
            config@,
        ),
{
    if paths_equal(path, config.output.as_str()) {
        return false;
    }
    if should_skip_path_advanced(path, is_dir, gitignore, ignored_dirs, config) {
        return false;
    }
    !is_dir
}

/// Whether `size` lies within the limits of the configuration.
pub fn accepts_size(size: u64, config: &Config) -> (accepted: bool)
    ensures
        accepted == size_in_range(size, config@),
{
    match config.min_size {
        Some(least) => {
            if size < least {
                return false;
            }
        },
        None => {},
    }
    match config.max_size {
        Some(most) => size <= most,
        None => true,
    }
}

fn push_section(
    out: &mut String,
    record: &FileRecord,
    gitignore: &Gitignore,
    ignored_dirs: &[&str],
    config: &Config,
)
    ensures
        final(out)@ == old(out)@ + file_section(
            record@,
            ignored_paths(*gitignore),
            slice_texts(ignored_dirs@),
            config@,
        ),
{
    let ghost base = out@;
    assert(base + Seq::<char>::empty() == base);
    if !wants_contents(record.path.as_str(), record.is_dir, gitignore, ignored_dirs, config) {
        return ;
    }
    if !accepts_size(record.size, config) {
        return ;
    }
    match utf8_text(record.contents.as_slice()) {
        Some(text) => {
            out.append("\n=== File: ");
            match file_name(record.path.as_str()) {
                Some(name) => {
                    out.append(name.as_str());
                },
                None => {
                    assert(out@ + heading_name(record.path@) == out@);
                },
            }
            out.append(" (");
            push_decimal(out, record.size);
            out.append(" bytes) ===\n\n");
            out.append(text);
            assert(out@ == base + (file_heading(heading_name(record.path@), record.size)
                + decode_utf8(record.contents@)));
        },
        None => {},
    }
}

/// Joins the tree and the contents of the wanted files into one text.
///
/// `files` are the paths that a walk of the root directory met, in the
/// order of the walk. The text starts with `dir_structure`. Behind it
/// stands, for each file that is wanted, a heading with the name and the
/// size of the file and then the contents of the file as they are. A file
/// is wanted where it is not the output file, `should_skip_path_advanced`
/// keeps it, and its size is within the limits. A wanted file whose
/// contents are not valid UTF-8 is left out without notice.
pub fn process_files(
    config: &Config,
    gitignore: &Gitignore,
    dir_structure: &str,
    ignored_dirs: &[&str],
    files: &Vec<FileRecord>,
) -> (combined: String)
    ensures
        combined@ == dir_structure@ + file_sections(
            record_views(files@),
            ignored_paths(*gitignore),
            slice_texts(ignored_dirs@),
            config@,
        ),
{
    let mut combined = dir_structure.to_string();
    let ghost views = record_views(files@);
    let ghost ignored = ignored_paths(*gitignore);
    let ghost builtin = slice_texts(ignored_dirs@);
    let mut k: usize = 0;
    assert(dir_structure@ + file_sections(views.take(0), ignored, builtin, config@)
        == dir_structure@);
    while k < files.len()
        invariant
            k <= files.len(),
            views == record_views(files@),
            ignored == ignored_paths(*gitignore),
            builtin == slice_texts(ignored_dirs@),
            combined@ == dir_structure@ + file_sections(
                views.take(k as int),
                ignored,
                builtin,
                config@,
            ),
        decreases files.len() - k,
    {
        proof {
            assert(views.take(k + 1).drop_last() == views.take(k as int));
            assert(views.take(k + 1).last() == files@[k as int]@);
        }
        push_section(&mut combined, &files[k], gitignore, ignored_dirs, config);
        k = k + 1;
    }
    assert(views.take(k as int) == views);
    combined
}

// ---------------------------------------------------------------------------
// Laws
// ---------------------------------------------------------------------------

/// The decision has no hidden state: it is settled by the path, its kind,
/// what the pattern set ignores, the built-in names and the values of the
/// configuration. Two calls that agree in these agree in their result,
/// whichever pattern set and whichever configuration stand behind them.
pub proof fn should_skip_is_deterministic(
    path: Seq<char>,
    is_dir: bool,
    first_patterns: Gitignore,
    second_patterns: Gitignore,
    builtin: Seq<Seq<char>>,
    first_config: Config,
    second_config: Config,
)
    requires
        ignored_paths(first_patterns) == ignored_paths(second_patterns),
        first_config@ == second_config@,
    ensures
        should_skip(path, is_dir, ignored_paths(first_patterns), builtin, first_config@)
            == should_skip(path, is_dir, ignored_paths(second_patterns), builtin, second_config@),
{
}

/// Exclusion wins over inclusion: a file whose name is on the list of
/// excluded file names is skipped, whether or not the name is on the list
/// of wanted file names as well.
pub proof fn excluded_file_name_is_skipped(
    path: Seq<char>,
    ignored: Set<(Seq<char>, bool)>,
    builtin: Seq<Seq<char>>,
    config: ConfigView,
)
    requires
        config.exclude_files matches Some(excluded) && is_listed(
            excluded,
            lowered_file_name(path),
        ),
    ensures
        should_skip(path, false, ignored, builtin, config),
{
}

/// The same for extensions: a file whose extension is on the list of
/// excluded extensions is skipped, whatever the list of wanted extensions
/// says.
pub proof fn excluded_extension_is_skipped(
    path: Seq<char>,
    ignored: Set<(Seq<char>, bool)>,
    builtin: Seq<Seq<char>>,
    config: ConfigView,
)
    requires
        config.exclude_ext matches Some(excluded) && excluded.contains(
            lowered_extension(extension_of(path)),
        ),
    ensures
        should_skip(path, false, ignored, builtin, config),
{
}

/// A list of wanted directories denies what it does not name: a path none
/// of whose components is on the list is skipped, although no exclusion
/// mentions it.
pub proof fn unlisted_directory_is_skipped(
    path: Seq<char>,
    is_dir: bool,
    ignored: Set<(Seq<char>, bool)>,
    builtin: Seq<Seq<char>>,
    config: ConfigView,
)
    requires
        config.include_dirs matches Some(wanted) && !any_listed(wanted, lowered_names(path)),
    ensures
        should_skip(path, is_dir, ignored, builtin, config),
{
}

/// An empty entry on the list of wanted extensions stands for the files
/// without extension.
pub proof fn empty_entry_admits_no_extension(wanted: Seq<Seq<char>>, i: int)
    requires
        0 <= i < wanted.len(),
        wanted[i].len() == 0,
    ensures
        extension_allowed(None, Some(wanted), None),
{
    assert(wanted[i] == lowered_extension(None));
}

/// A name that a list holds up to case is held whatever the case: two
/// lower-cased names that differ in the case of ASCII letters alone are on
/// the same lists.
pub proof fn listing_ignores_case(list: Seq<Seq<char>>, first: Seq<char>, second: Seq<char>)
    requires
        same_ignoring_ascii_case(first, second),
    ensures
        is_listed(list, first) == is_listed(list, second),
{
    if is_listed(list, first) {
        let j = choose|j: int|
            0 <= j < list.len() && same_ignoring_ascii_case(#[trigger] list[j], first);
        crate::text::ascii_case_equivalence(list[j], first, second);
    }
    if is_listed(list, second) {
        let j = choose|j: int|
            0 <= j < list.len() && same_ignoring_ascii_case(#[trigger] list[j], second);
        crate::text::ascii_case_equivalence(first, second, first);
        crate::text::ascii_case_equivalence(list[j], second, first);
    }
}

/// The names of two paths agree up to case, component by component.
pub open spec fn same_names_ignoring_case(first: Seq<char>, second: Seq<char>) -> bool {
    &&& lowered_names(first).len() == lowered_names(second).len()
    &&& forall|i: int|
        0 <= i < lowered_names(first).len() ==> same_ignoring_ascii_case(
            #[trigger] lowered_names(first)[i],
            lowered_names(second)[i],
        )
}

/// The directory filters do not see case: two paths whose components agree
/// up to case are let through by the same lists of wanted directories and
/// lie in the same unwanted directories.
pub proof fn directory_filters_ignore_case(
    first: Seq<char>,
    second: Seq<char>,
    wanted: Option<Seq<Seq<char>>>,
    builtin: Seq<Seq<char>>,
    excluded: Option<Seq<Seq<char>>>,
)
    requires
        same_names_ignoring_case(first, second),
    ensures
        in_included_dir(first, wanted) == in_included_dir(second, wanted),
        in_ignored_dir(first, builtin, excluded) == in_ignored_dir(second, builtin, excluded),
{
    let a = lowered_names(first);
    let b = lowered_names(second);
    assert forall|list: Seq<Seq<char>>| any_listed(list, a) == any_listed(list, b) by {
        if any_listed(list, a) {
            let i = choose|i: int| 0 <= i < a.len() && is_listed(list, #[trigger] a[i]);
            listing_ignores_case(list, a[i], b[i]);
            assert(is_listed(list, b[i]));
        }
        if any_listed(list, b) {
            let i = choose|i: int| 0 <= i < b.len() && is_listed(list, #[trigger] b[i]);
            listing_ignores_case(list, a[i], b[i]);
            assert(is_listed(list, a[i]));
        }
    }
}

/// The tree of an empty root directory is the header and one line of
/// notice, whatever entries, patterns and configuration come with it.
pub proof fn empty_root_has_one_notice(
    entries: Seq<WalkEntryView>,
    ignored: Set<(Seq<char>, bool)>,
    builtin: Seq<Seq<char>>,
    config: ConfigView,
)
    ensures
        tree_text(true, entries, ignored, builtin, config) == tree_header() + empty_notice(),
{
}

/// A record that is a directory, that lies outside the size limits or that
/// is no valid UTF-8 adds nothing to the joined text.
pub proof fn unwanted_record_adds_nothing(
    record: FileRecordView,
    ignored: Set<(Seq<char>, bool)>,
    builtin: Seq<Seq<char>>,
    config: ConfigView,
)
    requires
        record.is_dir || !size_in_range(record.size, config) || !valid_utf8(record.contents),
    ensures
        file_section(record, ignored, builtin, config) == Seq::<char>::empty(),
{
}

} // verus!
