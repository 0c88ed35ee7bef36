//! Where the configuration file lies, and the writing of a first one.
//!
//! Nothing here touches the file system. The caller looks, and tells what
//! it saw; the decisions are made here.

use vstd::prelude::*;
use vstd::string::StringExecFns;
use crate::text::{chars_of, optional_text};

verus! {

/// The name of the configuration file.
pub const CONFIG_FILE_NAME: &'static str = "fyai.yaml";

/// The configuration file of the project, in the working directory.
pub const LOCAL_CONFIG_PATH: &'static str = "./fyai.yaml";

/// A path below a directory: the name itself where the directory is the
/// empty path, else the directory, a `/` unless the directory ends with
/// one, and the name.
pub open spec fn joined(directory: Seq<char>, name: Seq<char>) -> Seq<char> {
    if directory.len() == 0 {
        name
    } else if directory.last() == '/' {
        directory + name
    } else {
        directory.push('/') + name
    }
}

/// The path of `name` below `directory`.
pub fn join_path(directory: &str, name: &str) -> (path: String)
    ensures
        path@ == joined(directory@, name@),
{
    let chars = chars_of(directory);
    let mut path = directory.to_string();
    if chars.len() > 0 && chars[chars.len() - 1] != '/' {
        path.push('/');
    }
    path.append(name);
    path
}

/// Which configuration file a run reads: the file of the project where
/// there is one, else the file of the user where there is one, else none.
pub open spec fn discovered(
    local_exists: bool,
    config_dir: Option<Seq<char>>,
    global_exists: bool,
) -> Option<Seq<char>> {
    if local_exists {
        Some(LOCAL_CONFIG_PATH@)
    } else {
        match config_dir {
            Some(directory) => if global_exists {
                Some(joined(directory, CONFIG_FILE_NAME@))
            } else {
                None
            },
            None => None,
        }
    }
}

/// The path of the user's configuration file below the user's directory for
/// configurations.
pub fn global_config_path(config_dir: &str) -> (path: String)
    ensures
        path@ == joined(config_dir@, CONFIG_FILE_NAME@),
{
    join_path(config_dir, CONFIG_FILE_NAME)
}

/// Chooses the configuration file of a run.
///
/// `local_exists` says whether the project has a configuration file,
/// `config_dir` is the user's directory for configurations, where the
/// system has one, and `global_exists` says whether the user's
/// configuration file, `global_config_path(config_dir)`, exists.
pub fn discover_config_file(local_exists: bool, config_dir: Option<&str>, global_exists: bool) -> (found:
    Option<String>)
    ensures
        optional_text(found) == discovered(
            local_exists,
            match config_dir {
                Some(directory) => Some(directory@),
                None => None,
            },
            global_exists,
        ),
{
    if local_exists {
        return Some(LOCAL_CONFIG_PATH.to_string());
    }
    match config_dir {
        Some(directory) => {
            if global_exists {
                Some(global_config_path(directory))
            } else {
                None
            }
        },
        None => None,
    }
}

/// Where a first configuration file is written: into the project, or, for
/// the user's file, into the user's directory for configurations, which is
/// `.config` below the home directory where the system names no other.
pub open spec fn init_target(
    global: bool,
    config_dir: Option<Seq<char>>,
    home_dir: Option<Seq<char>>,
) -> Option<Seq<char>> {
    if !global {
        Some(LOCAL_CONFIG_PATH@)
    } else {
        match config_dir {
            Some(directory) => Some(joined(directory, CONFIG_FILE_NAME@)),
            None => match home_dir {
                Some(home) => Some(joined(joined(home, ".config"@), CONFIG_FILE_NAME@)),
                None => None,
            },
        }
    }
}

/// The path at which a first configuration file is written, or `None`
/// where the user's file is asked for and the system names neither a
/// directory for configurations nor a home directory.
pub fn init_path(global: bool, config_dir: Option<&str>, home_dir: Option<&str>) -> (path: Option<
    String,
>)
    ensures
        optional_text(path) == init_target(
            global,
            match config_dir {
                Some(directory) => Some(directory@),
                None => None,
            },
            match home_dir {
                Some(home) => Some(home@),
                None => None,
            },
        ),
{
    if !global {
        return Some(LOCAL_CONFIG_PATH.to_string());
    }
    match config_dir {
        Some(directory) => Some(join_path(directory, CONFIG_FILE_NAME)),
        None => match home_dir {
            Some(home) => {
                let directory = join_path(home, ".config");
                Some(join_path(directory.as_str(), CONFIG_FILE_NAME))
            },
            None => None,
        },
    }
}

/// The refusal to overwrite the configuration file at `path`.
pub open spec fn refusal(path: Seq<char>) -> Seq<char> {
    "Config file already exists at "@ + path + ". Use --force to overwrite."@
}

/// Decides whether a first configuration file may be written at `path`: it
/// may, unless a file is there already and the user did not force the
/// matter. The error is the message for the user.
pub fn check_overwrite(path: &str, present: bool, force: bool) -> (allowed: Result<(), String>)
    ensures
        match allowed {
            Ok(_) => !present || force,
            Err(message) => present && !force && message@ == refusal(path@),
        },
{
    if !present || force {
        return Ok(());
    }
    let mut message = "Config file already exists at ".to_string();
    message.append(path);
    message.append(". Use --force to overwrite.");
    assert(message@ == refusal(path@));
    Err(message)
}

/// The configuration file that `init` writes: every setting with an
/// example, for the user to edit.
pub const CONFIG_TEMPLATE: &'static str = "# fyai.yaml - Configuration file for fyai
# All options are optional. CLI flags override config values.
# See README.md for details.

directory: .                # Input directory
output: fyai.txt            # Output file
include_dirs:               # Directories to include (list)
  - src
  - docs
exclude_dirs:               # Directories to exclude (list)
  - node_modules
  - dist
include_ext:                # File extensions to include (list)
  - md
  - txt
exclude_ext:                # File extensions to exclude (list)
  - log
  - tmp
include_files:              # File names to include (list)
  - README.md
  - main.rs
exclude_files:              # File names to exclude (list)
  - LICENSE
  - config.json
min_size: 10240             # Minimum file size in bytes
max_size: 512000            # Maximum file size in bytes
respect_gitignore: true     # Respect .gitignore rules
tree_only: false            # Only output directory tree, no file contents
";

} // verus!
