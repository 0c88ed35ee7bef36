use fyai::config::Config;
use fyai::data::IGNORED_DIRS;
use fyai::file_processing::{
    is_ext_included_excluded, is_file_included_excluded, is_in_included_dir,
    should_skip_path_advanced,
};
use fyai::gitignore::{build_gitignore, PatternFile};
use ignore::gitignore::Gitignore;

fn config() -> Config {
    Config {
        directory: ".".to_string(),
        output: "out.txt".to_string(),
        include_dirs: None,
        exclude_dirs: None,
        include_ext: None,
        exclude_ext: None,
        include_files: None,
        exclude_files: None,
        min_size: None,
        max_size: None,
        respect_gitignore: true,
        tree_only: false,
    }
}

fn names(list: &[&str]) -> Option<Vec<String>> {
    Some(list.iter().map(|name| name.to_string()).collect())
}

#[test]
fn the_decision_is_the_same_each_time() {
    let file = PatternFile { path: ".gitignore".to_string(), lines: vec!["*.log".to_string()] };
    let config = Config { include_ext: names(&["rs", "log"]), ..config() };
    let gitignore = build_gitignore(".", &Some(file), &[], &IGNORED_DIRS, &config).expect("build");
    for path in ["src/main.rs", "src/debug.log", "node_modules/x.rs", "README.md", ""] {
        for is_dir in [false, true] {
            let first = should_skip_path_advanced(path, is_dir, &gitignore, &IGNORED_DIRS, &config);
            let second = should_skip_path_advanced(path, is_dir, &gitignore, &IGNORED_DIRS, &config);
            assert_eq!(first, second);
        }
    }
    assert!(!should_skip_path_advanced("src/main.rs", false, &gitignore, &IGNORED_DIRS, &config));
    assert!(should_skip_path_advanced("src/debug.log", false, &gitignore, &IGNORED_DIRS, &config));
}

#[test]
fn an_excluded_file_name_wins_over_its_inclusion() {
    let config = Config {
        include_files: names(&["main.rs", "lib.rs"]),
        exclude_files: names(&["main.rs"]),
        ..config()
    };
    let gitignore = Gitignore::empty();
    assert!(should_skip_path_advanced("src/main.rs", false, &gitignore, &IGNORED_DIRS, &config));
    assert!(should_skip_path_advanced("src/MAIN.rs", false, &gitignore, &IGNORED_DIRS, &config));
    assert!(!should_skip_path_advanced("src/lib.rs", false, &gitignore, &IGNORED_DIRS, &config));
    assert!(should_skip_path_advanced("src/other.rs", false, &gitignore, &IGNORED_DIRS, &config));
    // the lists of file names say nothing of directories
    assert!(!should_skip_path_advanced("src/main.rs", true, &gitignore, &IGNORED_DIRS, &config));
}

#[test]
fn an_excluded_extension_wins_over_its_inclusion() {
    let config =
        Config { include_ext: names(&["rs", "md"]), exclude_ext: names(&["md"]), ..config() };
    let gitignore = Gitignore::empty();
    assert!(should_skip_path_advanced("a/b.md", false, &gitignore, &IGNORED_DIRS, &config));
    assert!(should_skip_path_advanced("a/b.MD", false, &gitignore, &IGNORED_DIRS, &config));
    assert!(!should_skip_path_advanced("a/b.rs", false, &gitignore, &IGNORED_DIRS, &config));
    assert!(should_skip_path_advanced("a/b.txt", false, &gitignore, &IGNORED_DIRS, &config));
    assert!(should_skip_path_advanced("a/b", false, &gitignore, &IGNORED_DIRS, &config));
}

#[test]
fn case_does_not_matter_for_directory_names() {
    for config in [
        config(),
        Config { include_dirs: names(&["node_modules"]), ..config() },
        Config { include_dirs: names(&["src"]), ..config() },
        Config { respect_gitignore: false, exclude_dirs: names(&["x"]), ..config() },
    ] {
        let gitignore = Gitignore::empty();
        let upper =
            should_skip_path_advanced("NODE_MODULES/x.txt", false, &gitignore, &IGNORED_DIRS, &config);
        let lower =
            should_skip_path_advanced("node_modules/x.txt", false, &gitignore, &IGNORED_DIRS, &config);
        assert_eq!(upper, lower);
        assert!(upper);
    }
}

#[test]
fn a_list_of_wanted_directories_denies_the_others() {
    let config = Config { include_dirs: names(&["docs"]), ..config() };
    let gitignore = Gitignore::empty();
    let none: Vec<&str> = vec![];
    assert!(should_skip_path_advanced("src/main.rs", false, &gitignore, &none, &config));
    assert!(should_skip_path_advanced("src", true, &gitignore, &none, &config));
    assert!(!should_skip_path_advanced("docs/guide.md", false, &gitignore, &none, &config));
    assert!(!should_skip_path_advanced("a/DOCS/guide.md", false, &gitignore, &none, &config));
    assert!(is_in_included_dir("x/docs", &config.include_dirs));
    assert!(!is_in_included_dir("x/docs2", &config.include_dirs));
    assert!(is_in_included_dir("anything", &None));
}

#[test]
fn patterns_count_only_where_they_are_respected() {
    let file = PatternFile { path: ".gitignore".to_string(), lines: vec!["*.log".to_string()] };
    let none: Vec<&str> = vec![];
    let gitignore = build_gitignore(".", &Some(file), &[], &none, &config()).expect("build");
    assert!(should_skip_path_advanced("a.log", false, &gitignore, &none, &config()));
    let careless = Config { respect_gitignore: false, ..config() };
    assert!(!should_skip_path_advanced("a.log", false, &gitignore, &none, &careless));
}

#[test]
fn file_names_are_compared_up_to_ascii_case() {
    assert!(is_file_included_excluded("readme.md", &names(&["README.md"]), &None));
    assert!(!is_file_included_excluded("readme.md", &names(&["README.md"]), &names(&["ReadMe.MD"])));
    assert!(!is_file_included_excluded("notes.md", &names(&["README.md"]), &None));
    assert!(is_file_included_excluded("notes.md", &None, &names(&["README.md"])));
    assert!(is_file_included_excluded("", &None, &None));
}

#[test]
fn extensions_are_lower_cased_and_compared_exactly() {
    assert!(is_ext_included_excluded(Some("RS"), &names(&["rs"]), &None));
    assert!(!is_ext_included_excluded(Some("rs"), &names(&["RS"]), &None));
    assert!(!is_ext_included_excluded(Some("rs"), &names(&["rs"]), &names(&["rs"])));
    assert!(is_ext_included_excluded(None, &names(&[""]), &None));
    assert!(!is_ext_included_excluded(None, &names(&["rs"]), &None));
    assert!(!is_ext_included_excluded(None, &None, &names(&[""])));
    assert!(is_ext_included_excluded(None, &None, &None));
}
