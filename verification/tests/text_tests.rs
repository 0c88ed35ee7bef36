use fyai::number::{parse_u64, u64_to_string};
use fyai::paths::{extension, extension_of_file_name, file_name, path_components, paths_equal};
use fyai::text::{chars_of, eq_ignore_ascii_case, split_ranges, string_of, to_ascii_lower, trim_range};
use std::path::Path;

#[test]
fn chars_of_keeps_every_character() {
    assert_eq!(chars_of("aé/b"), vec!['a', 'é', '/', 'b']);
    assert_eq!(chars_of(""), Vec::<char>::new());
}

#[test]
fn string_of_cuts_by_characters() {
    let chars = chars_of("héllo");
    assert_eq!(string_of(&chars, 1, 4), "éll");
    assert_eq!(string_of(&chars, 2, 2), "");
}

#[test]
fn ascii_letters_are_folded_and_nothing_else() {
    assert_eq!(to_ascii_lower('A'), 'a');
    assert_eq!(to_ascii_lower('Z'), 'z');
    assert_eq!(to_ascii_lower('@'), '@');
    assert_eq!(to_ascii_lower('['), '[');
    assert_eq!(to_ascii_lower('É'), 'É');
    assert!(eq_ignore_ascii_case(&chars_of("Node_Modules"), &chars_of("nODE_mODULES")));
    assert!(!eq_ignore_ascii_case(&chars_of("É"), &chars_of("é")));
    assert!(!eq_ignore_ascii_case(&chars_of("ab"), &chars_of("abc")));
}

#[test]
fn trimming_cuts_whitespace_at_both_ends() {
    let chars = chars_of(" \t a b \u{a0}\n");
    assert_eq!(trim_range(&chars, 0, chars.len()), (3, 6));
    let blank = chars_of("   ");
    let (start, end) = trim_range(&blank, 0, blank.len());
    assert_eq!(start, end);
}

#[test]
fn splitting_keeps_empty_pieces() {
    assert_eq!(split_ranges(&chars_of("a,,b"), ','), vec![(0, 1), (2, 2), (3, 4)]);
    assert_eq!(split_ranges(&chars_of(""), ','), vec![(0, 0)]);
    assert_eq!(split_ranges(&chars_of(","), ','), vec![(0, 0), (1, 1)]);
}

#[test]
fn numbers_are_read_as_plain_decimals() {
    assert_eq!(parse_u64("0"), Some(0));
    assert_eq!(parse_u64("42"), Some(42));
    assert_eq!(parse_u64("+42"), Some(42));
    assert_eq!(parse_u64("0007"), Some(7));
    assert_eq!(parse_u64("18446744073709551615"), Some(u64::MAX));
    assert_eq!(parse_u64("18446744073709551616"), None);
    assert_eq!(parse_u64("99999999999999999999999"), None);
    assert_eq!(parse_u64(""), None);
    assert_eq!(parse_u64("+"), None);
    assert_eq!(parse_u64("-1"), None);
    assert_eq!(parse_u64("++1"), None);
    assert_eq!(parse_u64(" 1"), None);
    assert_eq!(parse_u64("1 "), None);
    assert_eq!(parse_u64("1_000"), None);
    assert_eq!(parse_u64("12kb"), None);
    assert_eq!(parse_u64("٣"), None);
}

#[test]
fn numbers_are_read_as_std_reads_them() {
    for text in ["0", "+5", "-5", "", "+", "007", "18446744073709551615", "18446744073709551616", "1e3"] {
        assert_eq!(parse_u64(text), text.parse::<u64>().ok(), "{:?}", text);
    }
}

#[test]
fn numbers_are_written_without_padding() {
    assert_eq!(u64_to_string(0), "0");
    assert_eq!(u64_to_string(9), "9");
    assert_eq!(u64_to_string(10), "10");
    assert_eq!(u64_to_string(60000), "60000");
    assert_eq!(u64_to_string(u64::MAX), "18446744073709551615");
}

#[test]
fn components_follow_the_separators() {
    assert_eq!(path_components("a/b/c.txt"), vec!["a", "b", "c.txt"]);
    assert_eq!(path_components("/home/user"), vec!["/", "home", "user"]);
    assert_eq!(path_components("/"), vec!["/"]);
    assert_eq!(path_components(""), Vec::<String>::new());
    assert_eq!(path_components("a//b/"), vec!["a", "b"]);
    assert_eq!(path_components("./a/./b/."), vec![".", "a", "b"]);
    assert_eq!(path_components("/./a"), vec!["/", "a"]);
    assert_eq!(path_components("../a/.."), vec!["..", "a", ".."]);
    assert_eq!(path_components("."), vec!["."]);
}

#[test]
fn components_are_those_of_std() {
    for path in ["a/b", "/a//b/", "./x/./y", "", "/", ".", "..", "a/../b", "//a", ".//", "a/.b/c."] {
        let expected: Vec<String> = Path::new(path)
            .components()
            .map(|component| component.as_os_str().to_str().unwrap().to_string())
            .collect();
        assert_eq!(path_components(path), expected, "{:?}", path);
        let name = Path::new(path).file_name().map(|name| name.to_str().unwrap().to_string());
        assert_eq!(file_name(path), name, "{:?}", path);
        let ext = Path::new(path).extension().map(|ext| ext.to_str().unwrap().to_string());
        assert_eq!(extension(path), ext, "{:?}", path);
    }
}

#[test]
fn file_names_and_extensions() {
    assert_eq!(file_name("src/main.rs"), Some("main.rs".to_string()));
    assert_eq!(file_name("src/"), Some("src".to_string()));
    assert_eq!(file_name("src/.."), None);
    assert_eq!(file_name("/"), None);
    assert_eq!(file_name(""), None);
    assert_eq!(extension("src/main.rs"), Some("rs".to_string()));
    assert_eq!(extension("archive.tar.gz"), Some("gz".to_string()));
    assert_eq!(extension(".profile"), None);
    assert_eq!(extension(".profile.bak"), Some("bak".to_string()));
    assert_eq!(extension("Makefile"), None);
    assert_eq!(extension("odd."), Some("".to_string()));
    assert_eq!(extension_of_file_name("a.b"), Some("b".to_string()));
    assert_eq!(extension_of_file_name("ab"), None);
}

#[test]
fn paths_are_equal_by_their_components() {
    assert!(paths_equal("a/b", "a//b/"));
    assert!(paths_equal("a/./b", "a/b"));
    assert!(!paths_equal("a/b", "/a/b"));
    assert!(!paths_equal("a/b", "a/B"));
    assert!(!paths_equal("./a", "a"));
    assert!(paths_equal("", ""));
}
