//! The set of ignore patterns of a run.
//!
//! The patterns are compiled and matched by the `ignore` crate. This module
//! decides which pattern lines go into the set and in which order: the lines
//! of a pattern file found in the root directory, then the built-in file
//! names, then the built-in directory names, then the directories that the
//! user excluded. Nothing is ever taken out again, and no file is written.

use vstd::prelude::*;
use ignore::gitignore::{Gitignore, GitignoreBuilder};
use ignore::Match;
use crate::config::Config;
use crate::text::{chars_of, slice_texts, string_of, texts, trim_end};

verus! {

// ---------------------------------------------------------------------------
// The pattern matcher of the `ignore` crate
// ---------------------------------------------------------------------------

/// Trusted: `ignore::gitignore::Gitignore`, a compiled set of patterns.
#[verifier::external_type_specification]
#[verifier::external_body]
pub struct ExGitignore(Gitignore);

/// Trusted: `ignore::gitignore::GitignoreBuilder`, a set of patterns in the
/// making.
#[verifier::external_type_specification]
#[verifier::external_body]
pub struct ExGitignoreBuilder(GitignoreBuilder);

/// Trusted: `ignore::Error`, here the reason why a pattern was refused.
#[verifier::external_type_specification]
#[verifier::external_body]
pub struct ExIgnoreError(ignore::Error);

/// What a compiled set ignores: the pairs of a path and its kind (`true` for
/// a directory) on which `Gitignore::matched` answers `Match::Ignore`.
pub uninterp spec fn ignored_paths(patterns: Gitignore) -> Set<(Seq<char>, bool)>;

/// The pattern lines that a compiled set holds, in the order in which they
/// were added.
pub uninterp spec fn pattern_lines(patterns: Gitignore) -> Seq<Seq<char>>;

/// The directory that a compiled set matches paths against.
pub uninterp spec fn pattern_root(patterns: Gitignore) -> Seq<char>;

/// The pattern lines that a builder holds, in the order in which they were
/// added.
pub uninterp spec fn builder_lines(builder: GitignoreBuilder) -> Seq<Seq<char>>;

/// The directory that a builder was made for.
pub uninterp spec fn builder_root(builder: GitignoreBuilder) -> Seq<char>;

/// The builder has the options that `GitignoreBuilder::new` sets: patterns
/// match case-sensitively, and an unclosed character class is read
/// literally.
pub uninterp spec fn has_default_options(builder: GitignoreBuilder) -> bool;

/// The directory that `GitignoreBuilder::new` keeps for the directory it is
/// given: the same, without one leading `./`.
pub open spec fn matching_root(directory: Seq<char>) -> Seq<char> {
    if directory.len() >= 2 && directory[0] == '.' && directory[1] == '/' {
        directory.skip(2)
    } else {
        directory
    }
}

/// Whether `GitignoreBuilder::add_line`, on a builder with default options,
/// accepts a line: it refuses the lines that hold no valid glob.
pub uninterp spec fn pattern_accepted(line: Seq<char>) -> bool;

/// Whether `GitignoreBuilder::build`, on a builder with default options,
/// can compile the lines that the builder holds.
pub uninterp spec fn set_compiles(lines: Seq<Seq<char>>) -> bool;

/// A line ends with an escaped space, which is then not trailing
/// whitespace.
pub open spec fn ends_with_escaped_space(line: Seq<char>) -> bool {
    line.len() >= 2 && line[line.len() - 2] == '\\' && line[line.len() - 1] == ' '
}

/// What a builder keeps of a line that it accepts: nothing for a comment
/// (a line that starts with `#`) and for a line that is blank once its
/// trailing whitespace is cut, else the line without its trailing
/// whitespace.
pub open spec fn stored_pattern(line: Seq<char>) -> Seq<Seq<char>> {
    if line.len() > 0 && line[0] == '#' {
        seq![]
    } else {
        let kept = if ends_with_escaped_space(line) {
            line
        } else {
            trim_end(line)
        };
        if kept.len() == 0 {
            seq![]
        } else {
            seq![kept]
        }
    }
}

/// Trusted: calls `GitignoreBuilder::new`, which makes a builder without
/// patterns, with default options, for the directory given.
#[verifier::external_body]
fn new_builder(directory: &str) -> (builder: GitignoreBuilder)
    ensures
        builder_lines(builder) == Seq::<Seq<char>>::empty(),
        builder_root(builder) == matching_root(directory@),
        has_default_options(builder),
{
    GitignoreBuilder::new(directory)
}

/// Trusted: calls `GitignoreBuilder::add_line`. A comment or a blank line
/// is accepted and adds nothing. Any other line is parsed as a glob: where
/// that fails the builder is left as it was, else the line, without its
/// trailing whitespace, is added behind the lines that are there. `from`
/// names the file that the line was read in; it is kept for reports and has
/// no part in matching.
#[verifier::external_body]
fn add_line(builder: &mut GitignoreBuilder, from: Option<&str>, line: &str) -> (added: Result<
    (),
    ignore::Error,
>)
    requires
        has_default_options(*old(builder)),
    ensures
        has_default_options(*final(builder)),
        builder_root(*final(builder)) == builder_root(*old(builder)),
        added is Ok <==> pattern_accepted(line@),
        stored_pattern(line@).len() == 0 ==> added is Ok,
        builder_lines(*final(builder)) == if added is Ok {
            builder_lines(*old(builder)) + stored_pattern(line@)
        } else {
            builder_lines(*old(builder))
        },
{
    match builder.add_line(from.map(std::path::PathBuf::from), line) {
        Ok(_) => Ok(()),
        Err(error) => Err(error),
    }
}

/// Trusted: calls `GitignoreBuilder::build`, which compiles the lines of
/// the builder into a set that holds the same lines and matches against the
/// same directory, or fails where the lines cannot be compiled together.
#[verifier::external_body]
fn build(builder: &GitignoreBuilder) -> (built: Result<Gitignore, ignore::Error>)
    requires
        has_default_options(*builder),
    ensures
        built is Ok <==> set_compiles(builder_lines(*builder)),
        built matches Ok(patterns) ==> pattern_lines(patterns) == builder_lines(*builder)
            && pattern_root(patterns) == builder_root(*builder),
{
    builder.build()
}

/// Trusted: calls `Gitignore::matched`, which matches one path against the
/// set, without looking at the file system or at any other path, and says
/// whether the last pattern that applies ignores the path.
#[verifier::external_body]
pub(crate) fn is_ignored(patterns: &Gitignore, path: &str, is_dir: bool) -> (ignored: bool)
    ensures
        ignored == ignored_paths(*patterns).contains((path@, is_dir)),
{
    matches!(patterns.matched(path, is_dir), Match::Ignore(_))
}

// ---------------------------------------------------------------------------
// Building the set
// ---------------------------------------------------------------------------

/// A pattern file as it was read: where it lies, and its lines in order,
/// each without its line ending.
#[derive(Debug, Clone)]
pub struct PatternFile {
    pub path: String,
    pub lines: Vec<String>,
}

/// Why no set of patterns could be built.
#[derive(Debug, Clone, PartialEq, Eq)]
pub enum IgnoreError {
    /// A built-in name or a directory that the user excluded gives no
    /// valid pattern. `pattern` is the line that was refused.
    InvalidPattern { pattern: String },
    /// Every line is valid, but the lines cannot be compiled together.
    InvalidSet,
}

/// `line` without the byte-order marks that it starts with.
pub open spec fn without_marks(line: Seq<char>) -> Seq<char>
    decreases line.len(),
{
    if line.len() > 0 && line[0] == '\u{feff}' {
        without_marks(line.skip(1))
    } else {
        line
    }
}

/// Line `k` of a pattern file as it is handed to the builder: the first
/// line loses its byte-order marks, every other line is taken as it is.
pub open spec fn file_line(lines: Seq<Seq<char>>, k: int) -> Seq<char> {
    if k == 0 {
        without_marks(lines[0])
    } else {
        lines[k]
    }
}

/// What the first `k` lines of a pattern file leave in the set. A line
/// that is no valid pattern is passed over; it does not fail the build.
pub open spec fn file_patterns(lines: Seq<Seq<char>>, k: nat) -> Seq<Seq<char>>
    decreases k,
{
    if k == 0 {
        seq![]
    } else {
        let line = file_line(lines, k - 1);
        if pattern_accepted(line) {
            file_patterns(lines, (k - 1) as nat) + stored_pattern(line)
        } else {
            file_patterns(lines, (k - 1) as nat)
        }
    }
}

/// What a pattern file, where there is one, leaves in the set.
pub open spec fn loaded_patterns(file: Option<PatternFile>) -> Seq<Seq<char>> {
    match file {
        Some(file) => file_patterns(texts(file.lines@), file.lines@.len()),
        None => seq![],
    }
}

/// The pattern for a directory and everything beneath it: the name of the
/// directory, followed by `/`.
pub open spec fn directory_pattern(name: Seq<char>) -> Seq<char> {
    name.push('/')
}

/// The lines that a build asks for beyond the pattern file, in order: one
/// for each built-in file name, one for each built-in directory name, one
/// for each directory that the user excluded.
pub open spec fn requested_lines(
    files: Seq<Seq<char>>,
    dirs: Seq<Seq<char>>,
    excluded: Option<Seq<Seq<char>>>,
) -> Seq<Seq<char>> {
    files + dirs.map_values(|name: Seq<char>| directory_pattern(name)) + match excluded {
        Some(list) => list.map_values(|name: Seq<char>| directory_pattern(name)),
        None => seq![],
    }
}

/// What a list of lines leaves in the set where every line is accepted.
pub open spec fn stored_patterns(lines: Seq<Seq<char>>) -> Seq<Seq<char>>
    decreases lines.len(),
{
    if lines.len() == 0 {
        seq![]
    } else {
        stored_patterns(lines.drop_last()) + stored_pattern(lines.last())
    }
}

/// Every line of a list is a valid pattern.
pub open spec fn all_accepted(lines: Seq<Seq<char>>) -> bool {
    forall|i: int| 0 <= i < lines.len() ==> pattern_accepted(#[trigger] lines[i])
}

/// Line `i` is the first of a list that is no valid pattern.
pub open spec fn first_refused(lines: Seq<Seq<char>>, i: int) -> bool {
    &&& 0 <= i < lines.len()
    &&& !pattern_accepted(lines[i])
    &&& all_accepted(lines.take(i))
}

fn strip_marks(line: &str) -> (stripped: String)
    ensures
        stripped@ == without_marks(line@),
{
    let chars = chars_of(line);
    let mut start: usize = 0;
    assert(chars@.skip(0) == chars@);
    while start < chars.len() && chars[start] == '\u{feff}'
        invariant
            start <= chars.len(),
            without_marks(chars@) == without_marks(chars@.skip(start as int)),
        decreases chars.len() - start,
    {
        assert(chars@.skip(start as int).skip(1) == chars@.skip(start + 1));
        start = start + 1;
    }
    assert(chars@.subrange(start as int, chars@.len() as int) == chars@.skip(start as int));
    string_of(&chars, start, chars.len())
}

fn directory_line(name: &str) -> (line: String)
    ensures
        line@ == directory_pattern(name@),
{
    let mut line = name.to_string();
    line.push('/');
    line
}

fn collect_requested(
    ignored_files: &[&str],
    ignored_dirs: &[&str],
    exclude_dirs: &Option<Vec<String>>,
) -> (lines: Vec<String>)
    ensures
        texts(lines@) == requested_lines(
            slice_texts(ignored_files@),
            slice_texts(ignored_dirs@),
            crate::text::optional_texts(*exclude_dirs),
        ),
{
    let ghost pattern = |name: Seq<char>| directory_pattern(name);
    let ghost files = slice_texts(ignored_files@);
    let ghost dirs = slice_texts(ignored_dirs@);
    let mut lines: Vec<String> = Vec::new();
    let mut i: usize = 0;
    while i < ignored_files.len()
        invariant
            i <= ignored_files.len(),
            files == slice_texts(ignored_files@),
            texts(lines@) == files.take(i as int),
        decreases ignored_files.len() - i,
    {
        let line = ignored_files[i].to_string();
        let ghost before = texts(lines@);
        lines.push(line);
        assert(texts(lines@) == before.push(line@));
        assert(files.take(i + 1) == files.take(i as int).push(files[i as int]));
        i = i + 1;
    }
    assert(files.take(i as int) == files);
    let mut j: usize = 0;
    assert(dirs.take(0).map_values(pattern) == Seq::<Seq<char>>::empty());
    while j < ignored_dirs.len()
        invariant
            j <= ignored_dirs.len(),
            dirs == slice_texts(ignored_dirs@),
            pattern == |name: Seq<char>| directory_pattern(name),
            texts(lines@) == files + dirs.take(j as int).map_values(pattern),
        decreases ignored_dirs.len() - j,
    {
        let line = directory_line(ignored_dirs[j]);
        let ghost before = texts(lines@);
        lines.push(line);
        assert(texts(lines@) == before.push(line@));
        assert(dirs.take(j + 1).map_values(pattern) == dirs.take(j as int).map_values(pattern).push(
            directory_pattern(dirs[j as int]),
        ));
        j = j + 1;
    }
    assert(dirs.take(j as int) == dirs);
    match exclude_dirs {
        Some(list) => {
            let ghost excluded = texts(list@);
            let mut k: usize = 0;
            assert(excluded.take(0).map_values(pattern) == Seq::<Seq<char>>::empty());
            while k < list.len()
                invariant
                    k <= list.len(),
                    excluded == texts(list@),
                    pattern == |name: Seq<char>| directory_pattern(name),
                    texts(lines@) == files + dirs.map_values(pattern) + excluded.take(
                        k as int,
                    ).map_values(pattern),
                decreases list.len() - k,
            {
                let line = directory_line(list[k].as_str());
                let ghost before = texts(lines@);
                lines.push(line);
                assert(texts(lines@) == before.push(line@));
                assert(excluded.take(k + 1).map_values(pattern) == excluded.take(
                    k as int,
                ).map_values(pattern).push(directory_pattern(excluded[k as int])));
                k = k + 1;
            }
            assert(excluded.take(k as int) == excluded);
        },
        None => {
            assert(texts(lines@) == files + dirs.map_values(pattern) + Seq::<Seq<char>>::empty());
        },
    }
    lines
}

/// Adds the lines of a pattern file, passing over those that are no valid
/// pattern.
fn load_file(builder: &mut GitignoreBuilder, file: &PatternFile)
    requires
        has_default_options(*old(builder)),
    ensures
        has_default_options(*final(builder)),
        builder_root(*final(builder)) == builder_root(*old(builder)),
        builder_lines(*final(builder)) == builder_lines(*old(builder)) + file_patterns(
            texts(file.lines@),
            file.lines@.len(),
        ),
{
    let ghost base = builder_lines(*builder);
    let ghost root = builder_root(*builder);
    let ghost lines = texts(file.lines@);
    let mut k: usize = 0;
    assert(base + file_patterns(lines, 0) == base);
    while k < file.lines.len()
        invariant
            k <= file.lines.len(),
            lines == texts(file.lines@),
            has_default_options(*builder),
            builder_root(*builder) == root,
            builder_lines(*builder) == base + file_patterns(lines, k as nat),
        decreases file.lines.len() - k,
    {
        let _ = if k == 0 {
            let first = strip_marks(file.lines[k].as_str());
            add_line(builder, Some(file.path.as_str()), first.as_str())
        } else {
            add_line(builder, Some(file.path.as_str()), file.lines[k].as_str())
        };
        assert(builder_lines(*builder) == base + file_patterns(lines, (k + 1) as nat));
        k = k + 1;
    }
}

/// Builds the set of ignore patterns of a run.
///
/// The set matches against `dir_path`. It holds, in this order: the
/// patterns of `pattern_file`, the pattern file of the root directory where
/// there is one; one pattern for each name in `ignored_files`; one
/// directory pattern for each name in `ignored_dirs`; and one directory
/// pattern for each directory that the configuration excludes.
///
/// A line of the pattern file that is no valid pattern is passed over. A
/// built-in name or an excluded directory that gives no valid pattern fails
/// the build with `InvalidPattern`, which carries the first such line.
pub fn build_gitignore(
    dir_path: &str,
    pattern_file: &Option<PatternFile>,
    ignored_files: &[&str],
    ignored_dirs: &[&str],
    config: &Config,
) -> (result: Result<Gitignore, IgnoreError>)
    ensures
        ({
            let requested = requested_lines(
                slice_texts(ignored_files@),
                slice_texts(ignored_dirs@),
                config@.exclude_dirs,
            );
            let lines = loaded_patterns(*pattern_file) + stored_patterns(requested);
            match result {
                Ok(patterns) => {
                    &&& all_accepted(requested)
                    &&& set_compiles(lines)
                    &&& pattern_lines(patterns) == lines
                    &&& pattern_root(patterns) == matching_root(dir_path@)
                },
                Err(IgnoreError::InvalidPattern { pattern }) => exists|i: int|
                    first_refused(requested, i) && pattern@ == requested[i],
                Err(IgnoreError::InvalidSet) => all_accepted(requested) && !set_compiles(lines),
            }
        }),
{
    let mut builder = new_builder(dir_path);
    match pattern_file {
        Some(file) => {
            load_file(&mut builder, file);
        },
        None => {},
    }
    let requested = collect_requested(ignored_files, ignored_dirs, &config.exclude_dirs);
    let ghost loaded = loaded_patterns(*pattern_file);
    let ghost wanted = texts(requested@);
    assert(builder_lines(builder) == loaded + stored_patterns(wanted.take(0))) by {
        assert(wanted.take(0) == Seq::<Seq<char>>::empty());
        assert(loaded + Seq::<Seq<char>>::empty() == loaded);
    }
    let mut k: usize = 0;
    while k < requested.len()
        invariant
            k <= requested.len(),
            wanted == texts(requested@),
            wanted == requested_lines(
                slice_texts(ignored_files@),
                slice_texts(ignored_dirs@),
                config@.exclude_dirs,
            ),
            has_default_options(builder),
            builder_root(builder) == matching_root(dir_path@),
            all_accepted(wanted.take(k as int)),
            builder_lines(builder) == loaded + stored_patterns(wanted.take(k as int)),
        decreases requested.len() - k,
    {
        let added = add_line(&mut builder, None, requested[k].as_str());
        if added.is_err() {
            let pattern = requested[k].clone();
            assert(first_refused(wanted, k as int) && pattern@ == wanted[k as int]);
            return Err(IgnoreError::InvalidPattern { pattern });
        }
        proof {
            assert(wanted.take(k + 1).drop_last() == wanted.take(k as int));
            assert forall|i: int| 0 <= i < k + 1 implies pattern_accepted(
                #[trigger] wanted.take(k + 1)[i],
            ) by {
                if i < k {
                    assert(wanted.take(k as int)[i] == wanted.take(k + 1)[i]);
                }
            }
        }
        k = k + 1;
    }
    assert(wanted.take(k as int) == wanted);
    match build(&builder) {
        Ok(patterns) => Ok(patterns),
        Err(_) => Err(IgnoreError::InvalidSet),
    }
}

} // verus!
