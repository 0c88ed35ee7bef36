use fyai::args::{ArgValue, RawCliValues};
use fyai::config::{
    file_config_or_default, merge_config_with_explicit, normalize_list, parse_list, resolve,
    resolve_cli, Config, ConfigError, ConfigField, ExplicitFlags, FileConfig,
};
use fyai::setup::{
    check_overwrite, discover_config_file, global_config_path, init_path, join_path,
    CONFIG_TEMPLATE,
};

fn cli() -> Config {
    Config {
        directory: ".".to_string(),
        output: "fyai.txt".to_string(),
        include_dirs: None,
        exclude_dirs: None,
        include_ext: None,
        exclude_ext: None,
        include_files: None,
        exclude_files: None,
        min_size: None,
        max_size: None,
        respect_gitignore: true,
        tree_only: false,
    }
}

fn nothing_typed() -> ExplicitFlags {
    ExplicitFlags { directory: false, output: false, respect_gitignore: false, tree_only: false }
}

#[test]
fn lists_are_trimmed_lowered_and_freed_of_empty_entries() {
    assert_eq!(parse_list("src,, Tests ,DOCS"), Some(vec!["src".to_string(), "tests".to_string(), "docs".to_string()]));
    assert_eq!(parse_list(" , ,"), None);
    assert_eq!(parse_list(""), None);
    assert_eq!(parse_list("ÉCOLE"), Some(vec!["école".to_string()]));
    let raw = vec![" A ".to_string(), "".to_string(), "\t".to_string(), "b".to_string()];
    assert_eq!(normalize_list(&raw), Some(vec!["a".to_string(), "b".to_string()]));
    assert_eq!(normalize_list(&vec![" ".to_string()]), None);
    assert_eq!(normalize_list(&vec![]), None);
}

#[test]
fn the_file_fills_what_the_command_line_leaves_open() {
    let file = FileConfig { min_size: Some(1), max_size: Some(100), ..Default::default() };
    let explicit =
        ExplicitFlags { directory: true, output: true, respect_gitignore: false, tree_only: false };
    let merged = merge_config_with_explicit(file.clone(), cli(), explicit);
    assert_eq!(merged.min_size, Some(1));
    assert_eq!(merged.max_size, Some(100));

    let typed = Config { min_size: Some(5), ..cli() };
    let merged = merge_config_with_explicit(file, typed, explicit);
    assert_eq!(merged.min_size, Some(5));
    assert_eq!(merged.max_size, Some(100));
}

#[test]
fn only_typed_values_override_the_file() {
    let file = FileConfig {
        directory: Some("from_file".to_string()),
        output: Some("file.txt".to_string()),
        respect_gitignore: Some(false),
        tree_only: Some(true),
        ..Default::default()
    };
    let merged = merge_config_with_explicit(file.clone(), cli(), nothing_typed());
    assert_eq!(merged.directory, "from_file");
    assert_eq!(merged.output, "file.txt");
    assert!(!merged.respect_gitignore);
    assert!(merged.tree_only);

    let typed =
        ExplicitFlags { directory: true, output: true, respect_gitignore: true, tree_only: true };
    let merged = merge_config_with_explicit(file, cli(), typed);
    assert_eq!(merged.directory, ".");
    assert_eq!(merged.output, "fyai.txt");
    assert!(merged.respect_gitignore);
    assert!(!merged.tree_only);

    let merged = merge_config_with_explicit(FileConfig::default(), cli(), nothing_typed());
    assert_eq!(merged, cli());
}

#[test]
fn merged_lists_are_normalized() {
    let file = FileConfig {
        include_dirs: Some(vec![" Docs ".to_string(), "".to_string()]),
        exclude_ext: Some(vec![" ".to_string()]),
        ..Default::default()
    };
    let typed = Config { include_dirs: Some(vec!["  ".to_string()]), ..cli() };
    let merged = merge_config_with_explicit(file, typed, nothing_typed());
    assert_eq!(merged.include_dirs, Some(vec!["docs".to_string()]));
    assert_eq!(merged.exclude_ext, None);
}

#[test]
fn errors_have_messages() {
    assert_eq!(
        ConfigError::MissingArgument { field: ConfigField::Directory }.to_string(),
        "Missing directory"
    );
    assert_eq!(
        ConfigError::MissingArgument { field: ConfigField::Output }.to_string(),
        "Missing output"
    );
    assert_eq!(
        ConfigError::InvalidNumber { field: ConfigField::MinSize }.to_string(),
        "Invalid min-size"
    );
    assert_eq!(
        ConfigError::InvalidNumber { field: ConfigField::MaxSize }.to_string(),
        "Invalid max-size"
    );
    assert_eq!(ConfigError::InvalidFormat.to_string(), "Invalid configuration file");
    assert_eq!(ConfigField::MaxSize.name(), "max-size");
}

#[test]
fn paths_are_joined_with_one_separator() {
    assert_eq!(join_path("/home/me", "x"), "/home/me/x");
    assert_eq!(join_path("/home/me/", "x"), "/home/me/x");
    assert_eq!(join_path("", "x"), "x");
    assert_eq!(join_path("/", "x"), "/x");
    assert_eq!(global_config_path("/home/me/.config"), "/home/me/.config/fyai.yaml");
}

#[test]
fn the_project_file_comes_before_the_users() {
    assert_eq!(discover_config_file(true, Some("/c"), true), Some("./fyai.yaml".to_string()));
    assert_eq!(discover_config_file(true, None, false), Some("./fyai.yaml".to_string()));
    assert_eq!(discover_config_file(false, Some("/c"), true), Some("/c/fyai.yaml".to_string()));
    assert_eq!(discover_config_file(false, Some("/c"), false), None);
    assert_eq!(discover_config_file(false, None, true), None);
}

#[test]
fn the_first_file_goes_where_it_is_asked_for() {
    assert_eq!(init_path(false, Some("/c"), Some("/h")), Some("./fyai.yaml".to_string()));
    assert_eq!(init_path(true, Some("/c"), Some("/h")), Some("/c/fyai.yaml".to_string()));
    assert_eq!(init_path(true, None, Some("/h")), Some("/h/.config/fyai.yaml".to_string()));
    assert_eq!(init_path(true, None, None), None);
}

#[test]
fn an_existing_file_is_kept_unless_forced() {
    assert_eq!(check_overwrite("./fyai.yaml", false, false), Ok(()));
    assert_eq!(check_overwrite("./fyai.yaml", true, true), Ok(()));
    assert_eq!(check_overwrite("./fyai.yaml", false, true), Ok(()));
    assert_eq!(
        check_overwrite("./fyai.yaml", true, false),
        Err("Config file already exists at ./fyai.yaml. Use --force to overwrite.".to_string())
    );
}

#[test]
fn the_template_names_every_setting() {
    assert!(CONFIG_TEMPLATE.starts_with("# fyai.yaml - Configuration file for fyai"));
    for key in [
        "directory:", "output:", "include_dirs:", "exclude_dirs:", "include_ext:", "exclude_ext:",
        "include_files:", "exclude_files:", "min_size:", "max_size:", "respect_gitignore:",
        "tree_only:",
    ] {
        assert!(CONFIG_TEMPLATE.contains(key), "{}", key);
    }
}

fn raw() -> RawCliValues {
    RawCliValues {
        directory: ArgValue::Defaulted(".".to_string()),
        output: ArgValue::Typed("out.txt".to_string()),
        include_dirs: ArgValue::Absent,
        exclude_dirs: ArgValue::Typed("Target, ,dist".to_string()),
        include_ext: ArgValue::Unknown,
        exclude_ext: ArgValue::Absent,
        include_files: ArgValue::Absent,
        exclude_files: ArgValue::Absent,
        min_size: ArgValue::Absent,
        max_size: ArgValue::Typed("2048".to_string()),
        respect_gitignore: ArgValue::Absent,
        tree_only: ArgValue::Defaulted(false),
    }
}

#[test]
fn raw_values_are_resolved_field_by_field() {
    let (config, explicit) = resolve_cli(raw()).unwrap();
    assert_eq!(config.directory, ".");
    assert_eq!(config.output, "out.txt");
    assert_eq!(config.exclude_dirs, Some(vec!["target".to_string(), "dist".to_string()]));
    assert_eq!(config.include_ext, None);
    assert_eq!(config.max_size, Some(2048));
    assert!(config.respect_gitignore);
    assert!(!config.tree_only);
    assert_eq!(
        explicit,
        ExplicitFlags { directory: false, output: true, respect_gitignore: false, tree_only: false }
    );
}

#[test]
fn raw_values_fail_on_the_first_fault() {
    let missing = RawCliValues { directory: ArgValue::Absent, output: ArgValue::Unknown, ..raw() };
    assert_eq!(
        resolve_cli(missing).unwrap_err(),
        ConfigError::MissingArgument { field: ConfigField::Directory }
    );
    let missing = RawCliValues { output: ArgValue::Unknown, min_size: ArgValue::Typed("x".to_string()), ..raw() };
    assert_eq!(
        resolve_cli(missing).unwrap_err(),
        ConfigError::MissingArgument { field: ConfigField::Output }
    );
    let bad = RawCliValues { max_size: ArgValue::Defaulted("1.5".to_string()), ..raw() };
    assert_eq!(
        resolve_cli(bad).unwrap_err(),
        ConfigError::InvalidNumber { field: ConfigField::MaxSize }
    );
}

#[test]
fn the_switch_for_patterns_is_off_only_when_told() {
    for (text, expected) in [("true", true), ("1", true), ("false", false), ("0", false), ("TRUE", false), ("", false)] {
        let raw = RawCliValues { respect_gitignore: ArgValue::Typed(text.to_string()), ..raw() };
        assert_eq!(resolve_cli(raw).unwrap().0.respect_gitignore, expected, "{:?}", text);
    }
}

#[test]
fn both_sources_are_resolved_in_one_step() {
    let file = FileConfig {
        directory: Some("from_file".to_string()),
        output: Some("file.txt".to_string()),
        min_size: Some(1),
        max_size: Some(100),
        exclude_dirs: Some(vec!["Docs".to_string()]),
        include_ext: Some(vec!["RS".to_string()]),
        ..Default::default()
    };
    let config = resolve(raw(), Some(file)).unwrap();
    assert_eq!(config.directory, "from_file");
    assert_eq!(config.output, "out.txt");
    assert_eq!(config.min_size, Some(1));
    assert_eq!(config.max_size, Some(2048));
    assert_eq!(config.exclude_dirs, Some(vec!["target".to_string(), "dist".to_string()]));
    assert_eq!(config.include_ext, Some(vec!["rs".to_string()]));

    let alone = resolve(raw(), None).unwrap();
    assert_eq!(alone.directory, ".");
    assert_eq!(alone.min_size, None);

    let bad = RawCliValues { min_size: ArgValue::Typed("-1".to_string()), ..raw() };
    assert_eq!(
        resolve(bad, None),
        Err(ConfigError::InvalidNumber { field: ConfigField::MinSize })
    );
}

#[test]
fn a_file_that_cannot_be_loaded_is_passed_over_with_a_warning() {
    let file = FileConfig { min_size: Some(3), ..Default::default() };
    let (kept, warning) = file_config_or_default(Some(Ok(file)));
    assert_eq!(kept.min_size, Some(3));
    assert_eq!(warning, None);

    let (kept, warning) = file_config_or_default(Some(Err(ConfigError::InvalidFormat)));
    assert_eq!(kept.min_size, None);
    assert_eq!(kept.directory, None);
    assert_eq!(warning, Some(ConfigError::InvalidFormat));

    let (kept, warning) = file_config_or_default(None);
    assert_eq!(kept.include_dirs, None);
    assert_eq!(warning, None);
}
