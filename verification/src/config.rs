//! The configuration of a run and how it is resolved from its two sources:
//! the command line and an optional configuration file.
//!
//! The command line wins wherever the user typed something; the file fills
//! what the user left open. Every list of names is normalized on the way:
//! entries are trimmed and lower-cased, empty entries are dropped, and a list
//! that ends up empty is stored as `None`, "no constraint", never as an
//! empty list that would reject everything.

use vstd::prelude::*;
use vstd::string::StringExecFns;
use clap::ArgMatches;
use crate::args::{raw_values, read_matches, ArgValue, RawCliValues, RawCliView};
use crate::number::{parse_u64, parsed_u64};
use crate::text::{
    chars_of, lowercase, optional_text, optional_texts, pieces, split, split_ranges, string_of,
    texts, trim_range, trimmed, unicode_lower,
};

verus! {

/// The resolved configuration that every later step reads.
#[derive(Debug, Clone, PartialEq, Eq)]
pub struct Config {
    pub directory: String,
    pub output: String,
    pub include_dirs: Option<Vec<String>>,
    pub exclude_dirs: Option<Vec<String>>,
    pub include_ext: Option<Vec<String>>,
    pub exclude_ext: Option<Vec<String>>,
    pub include_files: Option<Vec<String>>,
    pub exclude_files: Option<Vec<String>>,
    pub min_size: Option<u64>,
    pub max_size: Option<u64>,
    pub respect_gitignore: bool,
    pub tree_only: bool,
}

/// A `Config` as plain mathematical values.
pub struct ConfigView {
    pub directory: Seq<char>,
    pub output: Seq<char>,
    pub include_dirs: Option<Seq<Seq<char>>>,
    pub exclude_dirs: Option<Seq<Seq<char>>>,
    pub include_ext: Option<Seq<Seq<char>>>,
    pub exclude_ext: Option<Seq<Seq<char>>>,
    pub include_files: Option<Seq<Seq<char>>>,
    pub exclude_files: Option<Seq<Seq<char>>>,
    pub min_size: Option<u64>,
    pub max_size: Option<u64>,
    pub respect_gitignore: bool,
    pub tree_only: bool,
}

impl View for Config {
    type V = ConfigView;

    open spec fn view(&self) -> ConfigView {
        ConfigView {
            directory: self.directory@,
            output: self.output@,
            include_dirs: optional_texts(self.include_dirs),
            exclude_dirs: optional_texts(self.exclude_dirs),
            include_ext: optional_texts(self.include_ext),
            exclude_ext: optional_texts(self.exclude_ext),
            include_files: optional_texts(self.include_files),
            exclude_files: optional_texts(self.exclude_files),
            min_size: self.min_size,
            max_size: self.max_size,
            respect_gitignore: self.respect_gitignore,
            tree_only: self.tree_only,
        }
    }
}

/// What a configuration file holds. Every key is optional: an absent key
/// leaves the matter to the command line and its defaults.
#[derive(Debug, Clone)]
pub struct FileConfig {
    pub directory: Option<String>,
    pub output: Option<String>,
    pub include_dirs: Option<Vec<String>>,
    pub exclude_dirs: Option<Vec<String>>,
    pub include_ext: Option<Vec<String>>,
    pub exclude_ext: Option<Vec<String>>,
    pub include_files: Option<Vec<String>>,
    pub exclude_files: Option<Vec<String>>,
    pub min_size: Option<u64>,
    pub max_size: Option<u64>,
    pub respect_gitignore: Option<bool>,
    pub tree_only: Option<bool>,
}

/// A `FileConfig` as plain mathematical values.
pub struct FileConfigView {
    pub directory: Option<Seq<char>>,
    pub output: Option<Seq<char>>,
    pub include_dirs: Option<Seq<Seq<char>>>,
    pub exclude_dirs: Option<Seq<Seq<char>>>,
    pub include_ext: Option<Seq<Seq<char>>>,
    pub exclude_ext: Option<Seq<Seq<char>>>,
    pub include_files: Option<Seq<Seq<char>>>,
    pub exclude_files: Option<Seq<Seq<char>>>,
    pub min_size: Option<u64>,
    pub max_size: Option<u64>,
    pub respect_gitignore: Option<bool>,
    pub tree_only: Option<bool>,
}

impl View for FileConfig {
    type V = FileConfigView;

    open spec fn view(&self) -> FileConfigView {
        FileConfigView {
            directory: optional_text(self.directory),
            output: optional_text(self.output),
            include_dirs: optional_texts(self.include_dirs),
            exclude_dirs: optional_texts(self.exclude_dirs),
            include_ext: optional_texts(self.include_ext),
            exclude_ext: optional_texts(self.exclude_ext),
            include_files: optional_texts(self.include_files),
            exclude_files: optional_texts(self.exclude_files),
            min_size: self.min_size,
            max_size: self.max_size,
            respect_gitignore: self.respect_gitignore,
            tree_only: self.tree_only,
        }
    }
}

/// The file configuration of a run without a configuration file.
pub open spec fn empty_file_config() -> FileConfigView {
    FileConfigView {
        directory: None,
        output: None,
        include_dirs: None,
        exclude_dirs: None,
        include_ext: None,
        exclude_ext: None,
        include_files: None,
        exclude_files: None,
        min_size: None,
        max_size: None,
        respect_gitignore: None,
        tree_only: None,
    }
}

impl Default for FileConfig {
    fn default() -> (file: FileConfig)
        ensures
            file@ == empty_file_config(),
    {
        FileConfig {
            directory: None,
            output: None,
            include_dirs: None,
            exclude_dirs: None,
            include_ext: None,
            exclude_ext: None,
            include_files: None,
            exclude_files: None,
            min_size: None,
            max_size: None,
            respect_gitignore: None,
            tree_only: None,
        }
    }
}

/// Which of the settings that have a default the user typed on the command
/// line. Only a typed value overrides the configuration file.
#[derive(Debug, Clone, Copy, PartialEq, Eq, Structural)]
pub struct ExplicitFlags {
    pub directory: bool,
    pub output: bool,
    pub respect_gitignore: bool,
    pub tree_only: bool,
}

// ---------------------------------------------------------------------------
// Normalizing lists of names
// ---------------------------------------------------------------------------

/// The normal form of one list entry: trimmed, then lower-cased. An entry
/// of nothing but whitespace has the empty normal form.
pub open spec fn normal_entry(raw: Seq<char>) -> Seq<char> {
    if trimmed(raw).len() == 0 {
        seq![]
    } else {
        unicode_lower(trimmed(raw))
    }
}

/// The normal forms of the entries of a list, without those that are empty.
pub open spec fn normal_entries(raw: Seq<Seq<char>>) -> Seq<Seq<char>> {
    raw.map_values(|entry: Seq<char>| normal_entry(entry)).filter(
        |entry: Seq<char>| entry.len() > 0,
    )
}

/// The normal form of a list: its normalized entries, or `None` where none
/// is left.
pub open spec fn normal_list(raw: Seq<Seq<char>>) -> Option<Seq<Seq<char>>> {
    let kept = normal_entries(raw);
    if kept.len() == 0 {
        None
    } else {
        Some(kept)
    }
}

/// The normal form of a list that may be absent.
pub open spec fn normal_optional_list(raw: Option<Seq<Seq<char>>>) -> Option<Seq<Seq<char>>> {
    match raw {
        Some(entries) => normal_list(entries),
        None => None,
    }
}

/// The list that a comma-separated argument stands for.
pub open spec fn parsed_list(arg: Seq<char>) -> Option<Seq<Seq<char>>> {
    normal_list(split(arg, ','))
}

/// A list as a resolved configuration holds it: it has entries, and none of
/// them is empty.
pub open spec fn is_normal_list(list: Option<Seq<Seq<char>>>) -> bool {
    match list {
        Some(entries) => entries.len() > 0 && forall|i: int|
            0 <= i < entries.len() ==> (#[trigger] entries[i]).len() > 0,
        None => true,
    }
}

/// Normalizing one more entry adds its normal form, unless that is empty.
proof fn normal_entries_step(raw: Seq<Seq<char>>, k: int)
    requires
        0 <= k < raw.len(),
    ensures
        normal_entries(raw.take(k + 1)) == if normal_entry(raw[k]).len() > 0 {
            normal_entries(raw.take(k)).push(normal_entry(raw[k]))
        } else {
            normal_entries(raw.take(k))
        },
{
    let normal = |entry: Seq<char>| normal_entry(entry);
    assert(raw.take(k + 1).map_values(normal) == raw.take(k).map_values(normal).push(
        normal_entry(raw[k]),
    ));
    crate::text::filter_push(
        raw.take(k).map_values(normal),
        normal_entry(raw[k]),
        |entry: Seq<char>| entry.len() > 0,
    );
}

/// What normalization yields is a list as a resolved configuration holds it.
pub proof fn normal_list_is_normal(raw: Seq<Seq<char>>)
    ensures
        is_normal_list(normal_list(raw)),
{
    let kept = normal_entries(raw);
    let mapped = raw.map_values(|entry: Seq<char>| normal_entry(entry));
    let nonempty = |entry: Seq<char>| entry.len() > 0;
    assert forall|i: int| 0 <= i < kept.len() implies (#[trigger] kept[i]).len() > 0 by {
        mapped.lemma_filter_pred(nonempty, i);
    }
}

/// The normal form of `chars[from..to]`.
fn normalize_piece(chars: &Vec<char>, from: usize, to: usize) -> (entry: String)
    requires
        from <= to <= chars.len(),
    ensures
        entry@ == normal_entry(chars@.subrange(from as int, to as int)),
{
    let (start, end) = trim_range(chars, from, to);
    if start == end {
        return String::new();
    }
    let kept = string_of(chars, start, end);
    lowercase(kept.as_str())
}

/// Normalizes a list of names: every entry is trimmed and lower-cased, empty
/// entries are dropped, and `None` is returned where nothing is left.
pub fn normalize_list(entries: &Vec<String>) -> (list: Option<Vec<String>>)
    ensures
        optional_texts(list) == normal_list(texts(entries@)),
        is_normal_list(optional_texts(list)),
{
    let ghost raw = texts(entries@);
    let mut kept: Vec<String> = Vec::new();
    let mut k: usize = 0;
    assert(normal_entries(raw.take(0)) == Seq::<Seq<char>>::empty()) by {
        reveal(Seq::filter);
    }
    while k < entries.len()
        invariant
            k <= entries.len(),
            raw == texts(entries@),
            texts(kept@) == normal_entries(raw.take(k as int)),
        decreases entries.len() - k,
    {
        let chars = chars_of(entries[k].as_str());
        assert(chars@.subrange(0, chars@.len() as int) == raw[k as int]);
        let entry = normalize_piece(&chars, 0, chars.len());
        proof {
            normal_entries_step(raw, k as int);
        }
        if !entry.as_str().is_empty() {
            let ghost before = texts(kept@);
            kept.push(entry);
            assert(texts(kept@) == before.push(entry@));
        }
        k = k + 1;
    }
    proof {
        assert(raw.take(k as int) == raw);
        normal_list_is_normal(raw);
    }
    if kept.len() == 0 {
        None
    } else {
        Some(kept)
    }
}

/// Reads a comma-separated list of names and normalizes it.
pub fn parse_list(arg: &str) -> (list: Option<Vec<String>>)
    ensures
        optional_texts(list) == parsed_list(arg@),
        is_normal_list(optional_texts(list)),
{
    let chars = chars_of(arg);
    let cuts = split_ranges(&chars, ',');
    let ghost raw = split(arg@, ',');
    let mut kept: Vec<String> = Vec::new();
    let mut k: usize = 0;
    assert(normal_entries(raw.take(0)) == Seq::<Seq<char>>::empty()) by {
        reveal(Seq::filter);
    }
    while k < cuts.len()
        invariant
            k <= cuts.len(),
            chars@ == arg@,
            raw == pieces(chars@, cuts@),
            crate::text::cuts_within(cuts@, chars@.len()),
            texts(kept@) == normal_entries(raw.take(k as int)),
        decreases cuts.len() - k,
    {
        let (from, to) = cuts[k];
        let entry = normalize_piece(&chars, from, to);
        proof {
            normal_entries_step(raw, k as int);
        }
        if !entry.as_str().is_empty() {
            let ghost before = texts(kept@);
            kept.push(entry);
            assert(texts(kept@) == before.push(entry@));
        }
        k = k + 1;
    }
    proof {
        assert(raw.take(k as int) == raw);
        normal_list_is_normal(raw);
    }
    if kept.len() == 0 {
        None
    } else {
        Some(kept)
    }
}

// ---------------------------------------------------------------------------
// Merging the two sources
// ---------------------------------------------------------------------------

/// A list setting after the merge: the normal form of the command line's
/// list, or, where that is absent or normalizes to nothing, the normal form
/// of the file's.
pub open spec fn merged_list(
    cli: Option<Seq<Seq<char>>>,
    file: Option<Seq<Seq<char>>>,
) -> Option<Seq<Seq<char>>> {
    match normal_optional_list(cli) {
        Some(list) => Some(list),
        None => normal_optional_list(file),
    }
}

/// A size limit after the merge: the command line's, else the file's.
pub open spec fn merged_size(cli: Option<u64>, file: Option<u64>) -> Option<u64> {
    match cli {
        Some(limit) => Some(limit),
        None => file,
    }
}

/// A setting with a default after the merge: the command line's value where
/// the user typed it; else the file's, where the file has one; else the
/// command line's default.
pub open spec fn merged_scalar<T>(typed: bool, cli: T, file: Option<T>) -> T {
    if typed {
        cli
    } else {
        match file {
            Some(value) => value,
            None => cli,
        }
    }
}

/// The configuration that results from a file configuration, a command-line
/// configuration and the record of what the user typed.
pub open spec fn merged(file: FileConfigView, cli: ConfigView, explicit: ExplicitFlags)
    -> ConfigView {
    ConfigView {
        directory: merged_scalar(explicit.directory, cli.directory, file.directory),
        output: merged_scalar(explicit.output, cli.output, file.output),
        include_dirs: merged_list(cli.include_dirs, file.include_dirs),
        exclude_dirs: merged_list(cli.exclude_dirs, file.exclude_dirs),
        include_ext: merged_list(cli.include_ext, file.include_ext),
        exclude_ext: merged_list(cli.exclude_ext, file.exclude_ext),
        include_files: merged_list(cli.include_files, file.include_files),
        exclude_files: merged_list(cli.exclude_files, file.exclude_files),
        min_size: merged_size(cli.min_size, file.min_size),
        max_size: merged_size(cli.max_size, file.max_size),
        respect_gitignore: merged_scalar(
            explicit.respect_gitignore,
            cli.respect_gitignore,
            file.respect_gitignore,
        ),
        tree_only: merged_scalar(explicit.tree_only, cli.tree_only, file.tree_only),
    }
}

/// The invariant of a resolved configuration: every list that is present
/// has entries, and none of its entries is empty.
pub open spec fn well_formed(config: ConfigView) -> bool {
    &&& is_normal_list(config.include_dirs)
    &&& is_normal_list(config.exclude_dirs)
    &&& is_normal_list(config.include_ext)
    &&& is_normal_list(config.exclude_ext)
    &&& is_normal_list(config.include_files)
    &&& is_normal_list(config.exclude_files)
}

fn normalize_optional_list(list: Option<Vec<String>>) -> (normal: Option<Vec<String>>)
    ensures
        optional_texts(normal) == normal_optional_list(optional_texts(list)),
        is_normal_list(optional_texts(normal)),
{
    match list {
        Some(entries) => normalize_list(&entries),
        None => None,
    }
}

fn merge_list(cli: Option<Vec<String>>, file: Option<Vec<String>>) -> (list: Option<Vec<String>>)
    ensures
        optional_texts(list) == merged_list(optional_texts(cli), optional_texts(file)),
        is_normal_list(optional_texts(list)),
{
    match normalize_optional_list(cli) {
        Some(list) => Some(list),
        None => normalize_optional_list(file),
    }
}

/// Merges the configuration file into the command line's configuration.
///
/// A setting with a default (directory, output file, the two switches) is
/// taken from the command line where `explicit` says that the user typed
/// it, else from the file where the file has it, else from the command
/// line's default. A list or a size limit is the command line's where it
/// has one, else the file's. Lists are normalized.
pub fn merge_config_with_explicit(file: FileConfig, cli: Config, explicit: ExplicitFlags) -> (config:
    Config)
    ensures
        config@ == merged(file@, cli@, explicit),
        well_formed(config@),
{
    let directory = if explicit.directory {
        cli.directory
    } else {
        match file.directory {
            Some(directory) => directory,
            None => cli.directory,
        }
    };
    let output = if explicit.output {
        cli.output
    } else {
        match file.output {
            Some(output) => output,
            None => cli.output,
        }
    };
    let respect_gitignore = if explicit.respect_gitignore {
        cli.respect_gitignore
    } else {
        match file.respect_gitignore {
            Some(respect) => respect,
            None => cli.respect_gitignore,
        }
    };
    let tree_only = if explicit.tree_only {
        cli.tree_only
    } else {
        match file.tree_only {
            Some(tree_only) => tree_only,
            None => cli.tree_only,
        }
    };
    let min_size = match cli.min_size {
        Some(limit) => Some(limit),
        None => file.min_size,
    };
    let max_size = match cli.max_size {
        Some(limit) => Some(limit),
        None => file.max_size,
    };
    Config {
        directory,
        output,
        include_dirs: merge_list(cli.include_dirs, file.include_dirs),
        exclude_dirs: merge_list(cli.exclude_dirs, file.exclude_dirs),
        include_ext: merge_list(cli.include_ext, file.include_ext),
        exclude_ext: merge_list(cli.exclude_ext, file.exclude_ext),
        include_files: merge_list(cli.include_files, file.include_files),
        exclude_files: merge_list(cli.exclude_files, file.exclude_files),
        min_size,
        max_size,
        respect_gitignore,
        tree_only,
    }
}

// ---------------------------------------------------------------------------
// Errors
// ---------------------------------------------------------------------------

/// The settings that resolving the command line can fail on.
#[derive(Debug, Clone, Copy, PartialEq, Eq, Structural)]
pub enum ConfigField {
    Directory,
    Output,
    MinSize,
    MaxSize,
}

/// Why a configuration could not be resolved.
#[derive(Debug, Clone, Copy, PartialEq, Eq, Structural)]
pub enum ConfigError {
    /// The command line holds no value for a setting that must have one.
    MissingArgument { field: ConfigField },
    /// A size limit is not a number.
    InvalidNumber { field: ConfigField },
    /// The configuration file is malformed. The caller recovers from this:
    /// it warns and goes on as if there were no file.
    InvalidFormat,
}

/// The name of a setting in messages.
pub open spec fn field_name(field: ConfigField) -> Seq<char> {
    match field {
        ConfigField::Directory => "directory"@,
        ConfigField::Output => "output"@,
        ConfigField::MinSize => "min-size"@,
        ConfigField::MaxSize => "max-size"@,
    }
}

/// The message of an error.
pub open spec fn error_message(error: ConfigError) -> Seq<char> {
    match error {
        ConfigError::MissingArgument { field } => "Missing "@ + field_name(field),
        ConfigError::InvalidNumber { field } => "Invalid "@ + field_name(field),
        ConfigError::InvalidFormat => "Invalid configuration file"@,
    }
}

impl ConfigField {
    /// The name of the setting in messages.
    pub fn name(&self) -> (name: &'static str)
        ensures
            name@ == field_name(*self),
    {
        match self {
            ConfigField::Directory => "directory",
            ConfigField::Output => "output",
            ConfigField::MinSize => "min-size",
            ConfigField::MaxSize => "max-size",
        }
    }
}

impl ConfigError {
    /// The message of the error, for the user.
    pub fn to_string(&self) -> (message: String)
        ensures
            message@ == error_message(*self),
    {
        match self {
            ConfigError::MissingArgument { field } => {
                let mut message = "Missing ".to_string();
                message.append(field.name());
                message
            },
            ConfigError::InvalidNumber { field } => {
                let mut message = "Invalid ".to_string();
                message.append(field.name());
                message
            },
            ConfigError::InvalidFormat => "Invalid configuration file".to_string(),
        }
    }
}

// ---------------------------------------------------------------------------
// Resolving the command line
// ---------------------------------------------------------------------------

/// The list that a list argument stands for.
pub open spec fn list_setting(arg: ArgValue<Seq<char>>) -> Option<Seq<Seq<char>>> {
    match arg.value() {
        Some(text) => parsed_list(text),
        None => None,
    }
}

/// The limit that a size argument stands for, where it stands for one.
pub open spec fn size_setting(arg: ArgValue<Seq<char>>) -> Option<u64> {
    match arg.value() {
        Some(text) => parsed_u64(text),
        None => None,
    }
}

/// A size argument has a value, and the value is not a number.
pub open spec fn size_is_invalid(arg: ArgValue<Seq<char>>) -> bool {
    match arg.value() {
        Some(text) => parsed_u64(text) is None,
        None => false,
    }
}

/// Whether ignore patterns are respected: they are, unless the argument has
/// a value other than `true` and `1`.
pub open spec fn respect_setting(arg: ArgValue<Seq<char>>) -> bool {
    match arg.value() {
        Some(text) => text == "true"@ || text == "1"@,
        None => true,
    }
}

/// Whether only the tree is wanted: it is not, unless the switch is on.
pub open spec fn tree_setting(arg: ArgValue<bool>) -> bool {
    match arg.value() {
        Some(on) => on,
        None => false,
    }
}

/// Which settings with a default the user typed.
pub open spec fn typed_flags(raw: RawCliView) -> ExplicitFlags {
    ExplicitFlags {
        directory: raw.directory.is_typed(),
        output: raw.output.is_typed(),
        respect_gitignore: raw.respect_gitignore.is_typed(),
        tree_only: raw.tree_only.is_typed(),
    }
}

/// The first thing wrong with the command line's values, if anything is:
/// the directory is looked at first, then the output file, then the lower
/// and the upper size limit.
pub open spec fn cli_error(raw: RawCliView) -> Option<ConfigError> {
    if raw.directory.value() is None {
        Some(ConfigError::MissingArgument { field: ConfigField::Directory })
    } else if raw.output.value() is None {
        Some(ConfigError::MissingArgument { field: ConfigField::Output })
    } else if size_is_invalid(raw.min_size) {
        Some(ConfigError::InvalidNumber { field: ConfigField::MinSize })
    } else if size_is_invalid(raw.max_size) {
        Some(ConfigError::InvalidNumber { field: ConfigField::MaxSize })
    } else {
        None
    }
}

/// The configuration that the command line's values stand for, where
/// nothing is wrong with them.
pub open spec fn cli_config(raw: RawCliView) -> ConfigView {
    ConfigView {
        directory: raw.directory.value().unwrap(),
        output: raw.output.value().unwrap(),
        include_dirs: list_setting(raw.include_dirs),
        exclude_dirs: list_setting(raw.exclude_dirs),
        include_ext: list_setting(raw.include_ext),
        exclude_ext: list_setting(raw.exclude_ext),
        include_files: list_setting(raw.include_files),
        exclude_files: list_setting(raw.exclude_files),
        min_size: size_setting(raw.min_size),
        max_size: size_setting(raw.max_size),
        respect_gitignore: respect_setting(raw.respect_gitignore),
        tree_only: tree_setting(raw.tree_only),
    }
}

/// What resolving the command line's values gives.
pub open spec fn cli_outcome(raw: RawCliView) -> Result<(ConfigView, ExplicitFlags), ConfigError> {
    match cli_error(raw) {
        Some(error) => Err(error),
        None => Ok((cli_config(raw), typed_flags(raw))),
    }
}

/// The outcome of a resolution as plain mathematical values.
pub open spec fn outcome_view(outcome: Result<(Config, ExplicitFlags), ConfigError>) -> Result<
    (ConfigView, ExplicitFlags),
    ConfigError,
> {
    match outcome {
        Ok((config, flags)) => Ok((config@, flags)),
        Err(error) => Err(error),
    }
}

fn take_value<T>(arg: ArgValue<T>) -> (value: Option<T>)
    ensures
        value == arg.value(),
{
    match arg {
        ArgValue::Typed(value) => Some(value),
        ArgValue::Defaulted(value) => Some(value),
        ArgValue::Absent => None,
        ArgValue::Unknown => None,
    }
}

fn typed<T>(arg: &ArgValue<T>) -> (typed: bool)
    ensures
        typed == arg.is_typed(),
{
    match arg {
        ArgValue::Typed(_) => true,
        _ => false,
    }
}

fn read_list(arg: ArgValue<String>) -> (list: Option<Vec<String>>)
    ensures
        optional_texts(list) == list_setting(crate::args::text_value(arg)),
        is_normal_list(optional_texts(list)),
{
    match take_value(arg) {
        Some(text) => parse_list(text.as_str()),
        None => None,
    }
}

fn read_size(arg: ArgValue<String>, field: ConfigField) -> (limit: Result<Option<u64>, ConfigError>)
    ensures
        match limit {
            Ok(limit) => !size_is_invalid(crate::args::text_value(arg)) && limit == size_setting(
                crate::args::text_value(arg),
            ),
            Err(error) => size_is_invalid(crate::args::text_value(arg)) && error
                == (ConfigError::InvalidNumber { field }),
        },
{
    match take_value(arg) {
        Some(text) => match parse_u64(text.as_str()) {
            Some(limit) => Ok(Some(limit)),
            None => Err(ConfigError::InvalidNumber { field }),
        },
        None => Ok(None),
    }
}

fn read_respect(arg: ArgValue<String>) -> (respect: bool)
    ensures
        respect == respect_setting(crate::args::text_value(arg)),
{
    match take_value(arg) {
        Some(text) => text == "true".to_string() || text == "1".to_string(),
        None => true,
    }
}

/// Resolves the values that the command line's parser holds into a
/// configuration and the record of what the user typed.
///
/// The directory and the output file must have a value. A list argument is
/// split at its commas and normalized. A size limit must be a decimal
/// number that fits in 64 bits. Ignore patterns are respected unless the
/// argument says otherwise, and the tree alone is written only where the
/// switch is on.
pub fn resolve_cli(raw: RawCliValues) -> (outcome: Result<(Config, ExplicitFlags), ConfigError>)
    ensures
        outcome_view(outcome) == cli_outcome(raw@),
        outcome matches Ok((config, _)) ==> well_formed(config@),
{
    let flags = ExplicitFlags {
        directory: typed(&raw.directory),
        output: typed(&raw.output),
        respect_gitignore: typed(&raw.respect_gitignore),
        tree_only: typed(&raw.tree_only),
    };
    let directory = match take_value(raw.directory) {
        Some(directory) => directory,
        None => {
            return Err(ConfigError::MissingArgument { field: ConfigField::Directory });
        },
    };
    let output = match take_value(raw.output) {
        Some(output) => output,
        None => {
            return Err(ConfigError::MissingArgument { field: ConfigField::Output });
        },
    };
    let include_dirs = read_list(raw.include_dirs);
    let exclude_dirs = read_list(raw.exclude_dirs);
    let include_ext = read_list(raw.include_ext);
    let exclude_ext = read_list(raw.exclude_ext);
    let include_files = read_list(raw.include_files);
    let exclude_files = read_list(raw.exclude_files);
    let min_size = match read_size(raw.min_size, ConfigField::MinSize) {
        Ok(limit) => limit,
        Err(error) => {
            return Err(error);
        },
    };
    let max_size = match read_size(raw.max_size, ConfigField::MaxSize) {
        Ok(limit) => limit,
        Err(error) => {
            return Err(error);
        },
    };
    let respect_gitignore = read_respect(raw.respect_gitignore);
    let tree_only = match take_value(raw.tree_only) {
        Some(on) => on,
        None => false,
    };
    Ok(
        (
            Config {
                directory,
                output,
                include_dirs,
                exclude_dirs,
                include_ext,
                exclude_ext,
                include_files,
                exclude_files,
                min_size,
                max_size,
                respect_gitignore,
                tree_only,
            },
            flags,
        ),
    )
}

/// Resolves a parsed command line into a configuration and the record of
/// what the user typed: `resolve_cli` on what `matches` holds.
pub fn config_from_matches_with_explicit(matches: ArgMatches) -> (outcome: Result<
    (Config, ExplicitFlags),
    ConfigError,
>)
    ensures
        outcome_view(outcome) == cli_outcome(raw_values(matches)),
        outcome matches Ok((config, _)) ==> well_formed(config@),
{
    let raw = read_matches(&matches);
    resolve_cli(raw)
}

// ---------------------------------------------------------------------------
// Resolving both sources
// ---------------------------------------------------------------------------

/// The file configuration that a run goes on with: the one that was
/// loaded, or the empty one where there is no file or the file could not be
/// loaded.
pub open spec fn usable_file_config(loaded: Option<Result<FileConfig, ConfigError>>)
    -> FileConfigView {
    match loaded {
        Some(Ok(file)) => file@,
        _ => empty_file_config(),
    }
}

/// What the user is warned of after loading: the error, where there was
/// one.
pub open spec fn load_warning(loaded: Option<Result<FileConfig, ConfigError>>) -> Option<
    ConfigError,
> {
    match loaded {
        Some(Err(error)) => Some(error),
        _ => None,
    }
}

/// Recovers from a configuration file that could not be loaded.
///
/// `loaded` is `None` where no configuration file was found, and else what
/// loading the file gave. A failure does not end the run: the run goes on
/// as if there were no file, and the error is handed back for a warning.
pub fn file_config_or_default(loaded: Option<Result<FileConfig, ConfigError>>) -> (recovered: (
    FileConfig,
    Option<ConfigError>,
))
    ensures
        recovered.0@ == usable_file_config(loaded),
        recovered.1 == load_warning(loaded),
{
    match loaded {
        Some(Ok(file)) => (file, None),
        Some(Err(error)) => (FileConfig::default(), Some(error)),
        None => (FileConfig::default(), None),
    }
}

/// The configuration of a run, from what the command line's parser holds
/// and what the configuration file holds, where there is a file.
pub open spec fn resolved(raw: RawCliView, file: Option<FileConfigView>) -> Result<
    ConfigView,
    ConfigError,
> {
    match cli_outcome(raw) {
        Ok((cli, explicit)) => Ok(
            merged(
                match file {
                    Some(file) => file,
                    None => empty_file_config(),
                },
                cli,
                explicit,
            ),
        ),
        Err(error) => Err(error),
    }
}

/// Resolves the configuration of a run: the command line's values are
/// resolved as `resolve_cli` does, and the result is merged with the file
/// configuration as `merge_config_with_explicit` does. Without a file the
/// command line's values and defaults stand alone.
pub fn resolve(raw: RawCliValues, file: Option<FileConfig>) -> (outcome: Result<Config, ConfigError>)
    ensures
        match outcome {
            Ok(config) => resolved(
                raw@,
                match file {
                    Some(file) => Some(file@),
                    None => None,
                },
            ) == Ok::<ConfigView, ConfigError>(config@) && well_formed(config@),
            Err(error) => resolved(
                raw@,
                match file {
                    Some(file) => Some(file@),
                    None => None,
                },
            ) == Err::<ConfigView, ConfigError>(error),
        },
{
    match resolve_cli(raw) {
        Ok((cli, explicit)) => {
            let file = match file {
                Some(file) => file,
                None => FileConfig::default(),
            };
            Ok(merge_config_with_explicit(file, cli, explicit))
        },
        Err(error) => Err(error),
    }
}

// ---------------------------------------------------------------------------
// Laws
// ---------------------------------------------------------------------------

/// A list argument of nothing but commas and whitespace stands for no list
/// at all, not for an empty list that would reject everything.
pub proof fn blank_argument_is_no_list(arg: Seq<char>)
    requires
        forall|i: int| 0 <= i < arg.len() ==> (#[trigger] arg[i]) == ',' || crate::text::white_space(
            arg[i],
        ),
    ensures
        parsed_list(arg) is None,
{
    let parts = split(arg, ',');
    let normal = parts.map_values(|entry: Seq<char>| normal_entry(entry));
    crate::text::pieces_come_from_text(arg, ',');
    assert forall|k: int| 0 <= k < normal.len() implies !((#[trigger] normal[k]).len() > 0) by {
        let part = parts[k];
        assert forall|j: int| 0 <= j < part.len() implies crate::text::white_space(
            #[trigger] part[j],
        ) by {
            assert(parts[k][j] != ',' && arg.contains(parts[k][j]));
            let at = choose|at: int| 0 <= at < arg.len() && arg[at] == part[j];
            assert(arg[at] == ',' || crate::text::white_space(arg[at]));
        }
        crate::text::blank_trims_to_nothing(part);
    }
    crate::text::filter_of_none(normal, |entry: Seq<char>| entry.len() > 0);
}

/// A list without entries, or with blank entries alone, is merged as no
/// list: the merged configuration never holds an empty list.
pub proof fn merged_lists_are_normal(file: FileConfigView, cli: ConfigView, explicit: ExplicitFlags)
    ensures
        well_formed(merged(file, cli, explicit)),
{
    assert forall|a: Option<Seq<Seq<char>>>, b: Option<Seq<Seq<char>>>| #[trigger]
        is_normal_list(merged_list(a, b)) by {
        if a is Some {
            normal_list_is_normal(a->0);
        }
        if b is Some {
            normal_list_is_normal(b->0);
        }
    }
}

/// Precedence of the size limits: a limit that the command line gives
/// wins; a limit that the command line leaves open is the file's.
pub proof fn merge_takes_sizes_in_order(file: FileConfigView, cli: ConfigView, explicit: ExplicitFlags)
    ensures
        cli.min_size is Some ==> merged(file, cli, explicit).min_size == cli.min_size,
        cli.min_size is None ==> merged(file, cli, explicit).min_size == file.min_size,
        cli.max_size is Some ==> merged(file, cli, explicit).max_size == cli.max_size,
        cli.max_size is None ==> merged(file, cli, explicit).max_size == file.max_size,
{
}

/// Precedence of the settings with a default: what the user typed wins
/// outright; else the file's value is taken where the file has one, and the
/// command line's default where it has none.
pub proof fn merge_takes_typed_values_first(
    file: FileConfigView,
    cli: ConfigView,
    explicit: ExplicitFlags,
)
    ensures
        explicit.directory ==> merged(file, cli, explicit).directory == cli.directory,
        explicit.output ==> merged(file, cli, explicit).output == cli.output,
        explicit.respect_gitignore ==> merged(file, cli, explicit).respect_gitignore
            == cli.respect_gitignore,
        explicit.tree_only ==> merged(file, cli, explicit).tree_only == cli.tree_only,
        !explicit.directory && file.directory is Some ==> merged(file, cli, explicit).directory
            == file.directory->0,
        !explicit.output && file.output is Some ==> merged(file, cli, explicit).output
            == file.output->0,
        !explicit.respect_gitignore && file.respect_gitignore is Some ==> merged(
            file,
            cli,
            explicit,
        ).respect_gitignore == file.respect_gitignore->0,
        !explicit.tree_only && file.tree_only is Some ==> merged(file, cli, explicit).tree_only
            == file.tree_only->0,
        merged(empty_file_config(), cli, explicit).directory == cli.directory,
        merged(empty_file_config(), cli, explicit).output == cli.output,
        merged(empty_file_config(), cli, explicit).respect_gitignore == cli.respect_gitignore,
        merged(empty_file_config(), cli, explicit).tree_only == cli.tree_only,
{
}

} // verus!
