//! The built-in names that are ignored whatever the configuration says.

use vstd::prelude::*;

verus! {

/// File names that are never wanted: lock files of package managers and
/// the metadata files that operating systems leave behind.
pub const IGNORED_FILES: [&'static str; 10] = [
    "Cargo.lock",
    "package-lock.json",
    "yarn.lock",
    "pnpm-lock.yaml",
    "poetry.lock",
    "Gemfile.lock",
    "composer.lock",
    ".DS_Store",
    "Thumbs.db",
    "desktop.ini",
];

/// Directory names that are never wanted, with everything beneath them:
/// the directories of version control, of build outputs and of caches.
pub const IGNORED_DIRS: [&'static str; 14] = [
    ".git",
    ".svn",
    ".hg",
    "node_modules",
    "target",
    "dist",
    "build",
    "__pycache__",
    ".cache",
    ".idea",
    ".vscode",
    ".venv",
    "venv",
    ".pytest_cache",
];

} // verus!
