//! What the command line's parser found, read out of clap's `ArgMatches`
//! into plain values.
//!
//! The parser fills in defaults that look like typed values. Each value is
//! therefore read together with its origin, so that the resolver can tell
//! what the user typed from what the parser filled in.

use vstd::prelude::*;
use clap::ArgMatches;
use clap::parser::ValueSource;
use crate::text::optional_text;

verus! {

/// Trusted: clap's `ArgMatches`, the parsed command line. It is opaque here;
/// `text_args`, `flag_args` and `default_args` name what it holds.
#[verifier::external_type_specification]
#[verifier::external_body]
pub struct ExArgMatches(ArgMatches);

/// The arguments of `matches` that can be read as text: each id that
/// `ArgMatches::try_get_one::<String>` accepts, with the first value that the
/// argument holds, if it holds one.
pub uninterp spec fn text_args(matches: ArgMatches) -> Map<Seq<char>, Option<Seq<char>>>;

/// The arguments of `matches` that can be read as a switch: each id that
/// `ArgMatches::try_get_one::<bool>` accepts, with the value that the
/// argument holds, if it holds one.
pub uninterp spec fn flag_args(matches: ArgMatches) -> Map<Seq<char>, Option<bool>>;

/// The ids of the arguments of `matches` whose value is the argument's
/// default: those for which `ArgMatches::value_source` reports
/// `ValueSource::DefaultValue`.
pub uninterp spec fn default_args(matches: ArgMatches) -> Set<Seq<char>>;

/// Trusted: calls `ArgMatches::try_get_one::<String>`. That function
/// returns an error where `id` names no argument or the argument does not
/// hold text (here `None`), and otherwise the argument's first value, if it
/// has one. It looks the id up and changes nothing.
#[verifier::external_body]
fn try_get_text(matches: &ArgMatches, id: &str) -> (found: Option<Option<String>>)
    ensures
        match found {
            Some(value) => text_args(*matches).dom().contains(id@) && text_args(*matches)[id@]
                == optional_text(value),
            None => !text_args(*matches).dom().contains(id@),
        },
{
    match matches.try_get_one::<String>(id) {
        Ok(value) => Some(value.cloned()),
        Err(_) => None,
    }
}

/// Trusted: calls `ArgMatches::try_get_one::<bool>`, which behaves as
/// described for `try_get_text`, for arguments that hold a `bool`.
#[verifier::external_body]
fn try_get_flag(matches: &ArgMatches, id: &str) -> (found: Option<Option<bool>>)
    ensures
        match found {
            Some(value) => flag_args(*matches).dom().contains(id@) && flag_args(*matches)[id@]
                == value,
            None => !flag_args(*matches).dom().contains(id@),
        },
{
    match matches.try_get_one::<bool>(id) {
        Ok(value) => Some(value.copied()),
        Err(_) => None,
    }
}

/// Trusted: calls `ArgMatches::value_source`, which reports where the value
/// of an argument came from. In debug builds it panics on an id that names
/// no argument, hence the `requires`: an id that one of the two `try_get`
/// functions accepted names an argument.
#[verifier::external_body]
fn has_default_value(matches: &ArgMatches, id: &str) -> (by_default: bool)
    requires
        text_args(*matches).dom().contains(id@) || flag_args(*matches).dom().contains(id@),
    ensures
        by_default == default_args(*matches).contains(id@),
{
    matches!(matches.value_source(id), Some(ValueSource::DefaultValue))
}

/// What the parser holds for one argument.
#[derive(Debug, Clone, PartialEq, Eq)]
pub enum ArgValue<T> {
    /// The user supplied the value.
    Typed(T),
    /// The user supplied nothing; the value is the argument's default.
    Defaulted(T),
    /// The argument is known and has no value.
    Absent,
    /// The parser does not know the argument, or not with this type.
    Unknown,
}

impl<T> ArgValue<T> {
    /// The value, wherever it came from.
    pub open spec fn value(self) -> Option<T> {
        match self {
            ArgValue::Typed(value) => Some(value),
            ArgValue::Defaulted(value) => Some(value),
            _ => None,
        }
    }

    /// Whether the user supplied the value.
    pub open spec fn is_typed(self) -> bool {
        self is Typed
    }
}

/// An `ArgValue<String>` as plain mathematical values.
pub open spec fn text_value(value: ArgValue<String>) -> ArgValue<Seq<char>> {
    match value {
        ArgValue::Typed(text) => ArgValue::Typed(text@),
        ArgValue::Defaulted(text) => ArgValue::Defaulted(text@),
        ArgValue::Absent => ArgValue::Absent,
        ArgValue::Unknown => ArgValue::Unknown,
    }
}

/// What `matches` holds for the text argument `id`.
pub open spec fn text_lookup(matches: ArgMatches, id: Seq<char>) -> ArgValue<Seq<char>> {
    if !text_args(matches).dom().contains(id) {
        ArgValue::Unknown
    } else {
        match text_args(matches)[id] {
            None => ArgValue::Absent,
            Some(text) => if default_args(matches).contains(id) {
                ArgValue::Defaulted(text)
            } else {
                ArgValue::Typed(text)
            },
        }
    }
}

/// What `matches` holds for the switch `id`.
pub open spec fn flag_lookup(matches: ArgMatches, id: Seq<char>) -> ArgValue<bool> {
    if !flag_args(matches).dom().contains(id) {
        ArgValue::Unknown
    } else {
        match flag_args(matches)[id] {
            None => ArgValue::Absent,
            Some(on) => if default_args(matches).contains(id) {
                ArgValue::Defaulted(on)
            } else {
                ArgValue::Typed(on)
            },
        }
    }
}

/// Reads the text argument `id` with its origin.
pub fn lookup_text(matches: &ArgMatches, id: &str) -> (value: ArgValue<String>)
    ensures
        text_value(value) == text_lookup(*matches, id@),
{
    match try_get_text(matches, id) {
        None => ArgValue::Unknown,
        Some(None) => ArgValue::Absent,
        Some(Some(text)) => if has_default_value(matches, id) {
            ArgValue::Defaulted(text)
        } else {
            ArgValue::Typed(text)
        },
    }
}

/// Reads the switch `id` with its origin.
pub fn lookup_flag(matches: &ArgMatches, id: &str) -> (value: ArgValue<bool>)
    ensures
        value == flag_lookup(*matches, id@),
{
    match try_get_flag(matches, id) {
        None => ArgValue::Unknown,
        Some(None) => ArgValue::Absent,
        Some(Some(on)) => if has_default_value(matches, id) {
            ArgValue::Defaulted(on)
        } else {
            ArgValue::Typed(on)
        },
    }
}

/// The command line's side of the configuration, as the parser holds it:
/// one entry for each argument, each with its origin.
#[derive(Debug, Clone)]
pub struct RawCliValues {
    pub directory: ArgValue<String>,
    pub output: ArgValue<String>,
    pub include_dirs: ArgValue<String>,
    pub exclude_dirs: ArgValue<String>,
    pub include_ext: ArgValue<String>,
    pub exclude_ext: ArgValue<String>,
    pub include_files: ArgValue<String>,
    pub exclude_files: ArgValue<String>,
    pub min_size: ArgValue<String>,
    pub max_size: ArgValue<String>,
    pub respect_gitignore: ArgValue<String>,
    pub tree_only: ArgValue<bool>,
}

/// `RawCliValues` as plain mathematical values.
pub struct RawCliView {
    pub directory: ArgValue<Seq<char>>,
    pub output: ArgValue<Seq<char>>,
    pub include_dirs: ArgValue<Seq<char>>,
    pub exclude_dirs: ArgValue<Seq<char>>,
    pub include_ext: ArgValue<Seq<char>>,
    pub exclude_ext: ArgValue<Seq<char>>,
    pub include_files: ArgValue<Seq<char>>,
    pub exclude_files: ArgValue<Seq<char>>,
    pub min_size: ArgValue<Seq<char>>,
    pub max_size: ArgValue<Seq<char>>,
    pub respect_gitignore: ArgValue<Seq<char>>,
    pub tree_only: ArgValue<bool>,
}

impl View for RawCliValues {
    type V = RawCliView;

    open spec fn view(&self) -> RawCliView {
        RawCliView {
            directory: text_value(self.directory),
            output: text_value(self.output),
            include_dirs: text_value(self.include_dirs),
            exclude_dirs: text_value(self.exclude_dirs),
            include_ext: text_value(self.include_ext),
            exclude_ext: text_value(self.exclude_ext),
            include_files: text_value(self.include_files),
            exclude_files: text_value(self.exclude_files),
            min_size: text_value(self.min_size),
            max_size: text_value(self.max_size),
            respect_gitignore: text_value(self.respect_gitignore),
            tree_only: self.tree_only,
        }
    }
}

/// What `matches` holds for the arguments of a run, under the ids that the
/// command line registers them with.
pub open spec fn raw_values(matches: ArgMatches) -> RawCliView {
    RawCliView {
        directory: text_lookup(matches, "directory"@),
        output: text_lookup(matches, "output"@),
        include_dirs: text_lookup(matches, "include_dirs"@),
        exclude_dirs: text_lookup(matches, "exclude_dirs"@),
        include_ext: text_lookup(matches, "include_ext"@),
        exclude_ext: text_lookup(matches, "exclude_ext"@),
        include_files: text_lookup(matches, "include_files"@),
        exclude_files: text_lookup(matches, "exclude_files"@),
        min_size: text_lookup(matches, "min_size"@),
        max_size: text_lookup(matches, "max_size"@),
        respect_gitignore: text_lookup(matches, "respect_gitignore"@),
        tree_only: flag_lookup(matches, "tree_only"@),
    }
}

/// Reads every argument of a run out of `matches`.
pub fn read_matches(matches: &ArgMatches) -> (raw: RawCliValues)
    ensures
        raw@ == raw_values(*matches),
{
    RawCliValues {
        directory: lookup_text(matches, "directory"),
        output: lookup_text(matches, "output"),
        include_dirs: lookup_text(matches, "include_dirs"),
        exclude_dirs: lookup_text(matches, "exclude_dirs"),
        include_ext: lookup_text(matches, "include_ext"),
        exclude_ext: lookup_text(matches, "exclude_ext"),
        include_files: lookup_text(matches, "include_files"),
        exclude_files: lookup_text(matches, "exclude_files"),
        min_size: lookup_text(matches, "min_size"),
        max_size: lookup_text(matches, "max_size"),
        respect_gitignore: lookup_text(matches, "respect_gitignore"),
        tree_only: lookup_flag(matches, "tree_only"),
    }
}

} // verus!
