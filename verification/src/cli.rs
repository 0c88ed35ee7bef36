//! The command line read without regard to what the user typed and what
//! the parser filled in: for callers that have no configuration file to
//! merge.

use vstd::prelude::*;
use clap::ArgMatches;
use crate::args::{
    flag_args, lookup_flag, lookup_text, raw_values, read_matches, text_args, ArgValue,
};
use crate::config::{cli_outcome, resolve_cli, well_formed, ConfigError, ConfigView};

pub use crate::config::Config;

verus! {

/// Every argument of a run is known to the parser, each with its type, and
/// the switch for the tree has a value.
pub open spec fn all_arguments_registered(matches: ArgMatches) -> bool {
    &&& text_args(matches).dom().contains("directory"@)
    &&& text_args(matches).dom().contains("output"@)
    &&& text_args(matches).dom().contains("include_dirs"@)
    &&& text_args(matches).dom().contains("exclude_dirs"@)
    &&& text_args(matches).dom().contains("include_ext"@)
    &&& text_args(matches).dom().contains("exclude_ext"@)
    &&& text_args(matches).dom().contains("include_files"@)
    &&& text_args(matches).dom().contains("exclude_files"@)
    &&& text_args(matches).dom().contains("min_size"@)
    &&& text_args(matches).dom().contains("max_size"@)
    &&& text_args(matches).dom().contains("respect_gitignore"@)
    &&& flag_args(matches).dom().contains("tree_only"@)
    &&& flag_args(matches)["tree_only"@] is Some
}

/// The configuration that a resolution gives, or its error.
pub open spec fn config_view(outcome: Result<Config, ConfigError>) -> Result<
    ConfigView,
    ConfigError,
> {
    match outcome {
        Ok(config) => Ok(config@),
        Err(error) => Err(error),
    }
}

/// The configuration that the command line stands for, or what is wrong
/// with the command line.
pub open spec fn cli_config_outcome(matches: ArgMatches) -> Result<ConfigView, ConfigError> {
    match cli_outcome(raw_values(matches)) {
        Ok((config, _)) => Ok(config),
        Err(error) => Err(error),
    }
}

/// Resolves a parsed command line into a configuration.
///
/// Every argument of a run must be registered with the parser: a caller
/// that cannot vouch for that uses `try_config_from_matches`, which tests
/// it first, or `config_from_matches_with_explicit`, which reads an
/// argument that the parser does not know as absent.
pub fn config_from_matches(matches: ArgMatches) -> (outcome: Result<Config, ConfigError>)
    requires
        all_arguments_registered(matches),
    ensures
        config_view(outcome) == cli_config_outcome(matches),
        outcome matches Ok(config) ==> well_formed(config@),
{
    let raw = read_matches(&matches);
    match resolve_cli(raw) {
        Ok((config, _)) => Ok(config),
        Err(error) => Err(error),
    }
}

fn knows_text(matches: &ArgMatches, id: &str) -> (known: bool)
    ensures
        known == text_args(*matches).dom().contains(id@),
{
    match lookup_text(matches, id) {
        ArgValue::Unknown => false,
        _ => true,
    }
}

fn holds_flag(matches: &ArgMatches, id: &str) -> (held: bool)
    ensures
        held == (flag_args(*matches).dom().contains(id@) && flag_args(*matches)[id@] is Some),
{
    match lookup_flag(matches, id) {
        ArgValue::Typed(_) => true,
        ArgValue::Defaulted(_) => true,
        _ => false,
    }
}

/// Whether every argument of a run is registered with the parser that made
/// `matches`.
pub fn arguments_registered(matches: &ArgMatches) -> (registered: bool)
    ensures
        registered == all_arguments_registered(*matches),
{
    knows_text(matches, "directory")
        && knows_text(matches, "output")
        && knows_text(matches, "include_dirs")
        && knows_text(matches, "exclude_dirs")
        && knows_text(matches, "include_ext")
        && knows_text(matches, "exclude_ext")
        && knows_text(matches, "include_files")
        && knows_text(matches, "exclude_files")
        && knows_text(matches, "min_size")
        && knows_text(matches, "max_size")
        && knows_text(matches, "respect_gitignore")
        && holds_flag(matches, "tree_only")
}

/// Resolves a parsed command line whose parser may lack an argument:
/// `None` where one is not registered, and else what `config_from_matches`
/// gives.
pub fn try_config_from_matches(matches: ArgMatches) -> (outcome: Option<
    Result<Config, ConfigError>,
>)
    ensures
        match outcome {
            Some(outcome) => all_arguments_registered(matches) && config_view(outcome)
                == cli_config_outcome(matches) && (outcome matches Ok(config) ==> well_formed(
                config@,
            )),
            None => !all_arguments_registered(matches),
        },
{
    if arguments_registered(&matches) {
        Some(config_from_matches(matches))
    } else {
        None
    }
}

} // verus!
