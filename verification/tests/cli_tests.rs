use clap::{Arg, ArgAction, Command};
use fyai::cli::{arguments_registered, config_from_matches, try_config_from_matches};
use fyai::config::{config_from_matches_with_explicit, ConfigError, ConfigField};

/// The command line of the program, with every argument of a run.
fn create_commands() -> Command {
    Command::new("fyai")
        .arg(Arg::new("directory").short('d').long("dir").value_name("DIR").default_value("."))
        .arg(
            Arg::new("output")
                .short('o')
                .long("output")
                .value_name("FILE")
                .default_value("fyai.txt"),
        )
        .arg(Arg::new("include_dirs").long("include-dirs").value_name("DIRS"))
        .arg(Arg::new("exclude_dirs").long("exclude-dirs").value_name("DIRS"))
        .arg(Arg::new("include_ext").long("include-ext").value_name("EXT"))
        .arg(Arg::new("exclude_ext").long("exclude-ext").value_name("EXT"))
        .arg(Arg::new("include_files").long("include-files").value_name("FILES"))
        .arg(Arg::new("exclude_files").long("exclude-files").value_name("FILES"))
        .arg(Arg::new("respect_gitignore").long("respect-gitignore").value_name("BOOL"))
        .arg(Arg::new("min_size").short('n').long("min-size").value_name("BYTES"))
        .arg(Arg::new("max_size").short('m').long("max-size").value_name("BYTES"))
        .arg(Arg::new("tree_only").long("tree-only").action(ArgAction::SetTrue))
        .arg(Arg::new("test").short('t').long("test").action(ArgAction::SetTrue))
}

#[test]
fn test_default_config() {
    let args = create_commands().get_matches_from(vec!["fyai"]);
    let (config, _explicit) = config_from_matches_with_explicit(args).unwrap();

    assert_eq!(config.directory, ".");
    assert_eq!(config.output, "fyai.txt");
    assert!(config.include_ext.is_none());
    assert!(config.exclude_ext.is_none());
    assert!(config.min_size.is_none());
    assert!(config.max_size.is_none());
    assert!(config.exclude_dirs.is_none());
    assert!(!config.tree_only);
}

#[test]
fn test_custom_directory_and_output() {
    let args = create_commands().get_matches_from(vec![
        "fyai",
        "--dir",
        "/path/to/dir",
        "--output",
        "custom.txt",
    ]);
    let (config, _explicit) = config_from_matches_with_explicit(args).unwrap();

    assert_eq!(config.directory, "/path/to/dir");
    assert_eq!(config.output, "custom.txt");
    assert!(config.include_ext.is_none());
    assert!(config.exclude_ext.is_none());
    assert!(config.min_size.is_none());
    assert!(config.max_size.is_none());
    assert!(config.exclude_dirs.is_none());
    assert!(!config.tree_only);
}

#[test]
fn test_extensions_parsing() {
    let args = create_commands().get_matches_from(vec!["fyai", "--include-ext", "txt, md, pdf"]);
    let (config, _explicit) = config_from_matches_with_explicit(args).unwrap();

    assert_eq!(
        config.include_ext,
        Some(vec!["txt".to_string(), "md".to_string(), "pdf".to_string()])
    );
}

#[test]
fn test_exclude_dirs_parsing() {
    let args = create_commands().get_matches_from(vec!["fyai", "--exclude-dirs", "src,tests"]);
    let (config, _explicit) = config_from_matches_with_explicit(args).unwrap();

    assert_eq!(config.exclude_dirs, Some(vec!["src".to_string(), "tests".to_string()]));
}

#[test]
fn test_exclude_dirs_with_empty_and_spaces() {
    let args =
        create_commands().get_matches_from(vec!["fyai", "--exclude-dirs", "src,, tests ,docs"]);
    let (config, _explicit) = config_from_matches_with_explicit(args).unwrap();

    assert_eq!(
        config.exclude_dirs,
        Some(vec!["src".to_string(), "tests".to_string(), "docs".to_string()])
    );
}

#[test]
fn test_size_filters() {
    let args = create_commands().get_matches_from(vec![
        "fyai",
        "--min-size",
        "1000",
        "--max-size",
        "5000",
    ]);
    let (config, _explicit) = config_from_matches_with_explicit(args).unwrap();

    assert_eq!(config.min_size, Some(1000));
    assert_eq!(config.max_size, Some(5000));
}

#[test]
fn test_invalid_min_size() {
    let args = create_commands().get_matches_from(vec!["fyai", "--min-size", "invalid"]);
    let result = config_from_matches_with_explicit(args);

    assert!(result.is_err());
    assert_eq!(result.unwrap_err().to_string(), "Invalid min-size");
}

#[test]
fn test_invalid_max_size() {
    let args = create_commands().get_matches_from(vec!["fyai", "--max-size", "invalid"]);
    let result = config_from_matches_with_explicit(args);

    assert!(result.is_err());
    assert_eq!(result.unwrap_err().to_string(), "Invalid max-size");
}

#[test]
fn test_extensions_with_empty_and_spaces() {
    let args = create_commands().get_matches_from(vec!["fyai", "--include-ext", "txt,, md ,pdf"]);
    let (config, _explicit) = config_from_matches_with_explicit(args).unwrap();

    assert_eq!(
        config.include_ext,
        Some(vec!["txt".to_string(), "md".to_string(), "pdf".to_string()])
    );
}

#[test]
fn test_tree_only_flag() {
    let args = create_commands().get_matches_from(vec!["fyai", "--tree-only"]);
    let (config, _explicit) = config_from_matches_with_explicit(args).unwrap();

    assert!(config.tree_only);
}

#[test]
fn blank_list_argument_gives_no_list() {
    let args = create_commands().get_matches_from(vec!["fyai", "--include-dirs", " , ,"]);
    let (config, _explicit) = config_from_matches_with_explicit(args).unwrap();
    assert_eq!(config.include_dirs, None);
}

#[test]
fn defaults_are_not_taken_for_typed_values() {
    let args = create_commands().get_matches_from(vec!["fyai"]);
    let (config, explicit) = config_from_matches_with_explicit(args).unwrap();
    assert_eq!(config.directory, ".");
    assert!(!explicit.directory);
    assert!(!explicit.output);
    assert!(!explicit.respect_gitignore);
    assert!(!explicit.tree_only);
}

#[test]
fn typed_values_are_marked_explicit() {
    let args = create_commands().get_matches_from(vec![
        "fyai",
        "--dir",
        "src",
        "--output",
        "out.txt",
        "--respect-gitignore",
        "0",
        "--tree-only",
    ]);
    let (config, explicit) = config_from_matches_with_explicit(args).unwrap();
    assert!(explicit.directory);
    assert!(explicit.output);
    assert!(explicit.respect_gitignore);
    assert!(explicit.tree_only);
    assert!(!config.respect_gitignore);
    assert!(config.tree_only);
}

#[test]
fn config_from_matches_reads_the_whole_command_line() {
    let args = create_commands().get_matches_from(vec![
        "fyai",
        "--dir",
        "work",
        "--exclude-files",
        "LICENSE, Notes.TXT",
        "--max-size",
        "+77",
    ]);
    let config = config_from_matches(args).unwrap();
    assert_eq!(config.directory, "work");
    assert_eq!(config.output, "fyai.txt");
    assert_eq!(config.exclude_files, Some(vec!["license".to_string(), "notes.txt".to_string()]));
    assert_eq!(config.max_size, Some(77));
    assert!(config.respect_gitignore);
}

#[test]
fn config_from_matches_names_the_bad_size() {
    let args = create_commands().get_matches_from(vec!["fyai", "--max-size", "12kb"]);
    assert_eq!(
        config_from_matches(args),
        Err(ConfigError::InvalidNumber { field: ConfigField::MaxSize })
    );
}

#[test]
fn the_lower_limit_is_looked_at_before_the_upper() {
    let args =
        create_commands().get_matches_from(vec!["fyai", "--min-size", "x", "--max-size", "y"]);
    assert_eq!(
        config_from_matches_with_explicit(args).unwrap_err(),
        ConfigError::InvalidNumber { field: ConfigField::MinSize }
    );
}

#[test]
fn a_full_command_line_has_every_argument_registered() {
    let args = create_commands().get_matches_from(vec!["fyai", "--min-size", "3"]);
    assert!(arguments_registered(&args));
    let config = try_config_from_matches(args).unwrap().unwrap();
    assert_eq!(config.directory, ".");
    assert_eq!(config.min_size, Some(3));
    assert!(!config.tree_only);
}

#[test]
fn a_command_line_without_the_tree_switch_is_not_resolved() {
    let command = Command::new("fyai")
        .arg(Arg::new("directory").long("dir").default_value("."))
        .arg(Arg::new("output").long("output").default_value("fyai.txt"));
    let args = command.get_matches_from(vec!["fyai"]);
    assert!(!arguments_registered(&args));
    assert_eq!(try_config_from_matches(args), None);
}

#[test]
fn a_switch_registered_as_text_is_not_resolved() {
    let command = create_commands().mut_arg("tree_only", |arg| arg.action(ArgAction::Set));
    let args = command.get_matches_from(vec!["fyai", "--tree-only", "yes"]);
    assert!(!arguments_registered(&args));
    assert_eq!(try_config_from_matches(args), None);
}
