use uni_runtime::text::{
    concatenate, contains, i64_to_decimal, join, path_join, replace_all, split_on, split_whitespace,
    str_eq, trim, u64_to_decimal,
};

#[test]
fn replace_is_left_to_right_without_overlap() {
    assert_eq!(replace_all("aaa", "aa", "b"), "ba");
    assert_eq!(replace_all("#Color\n#Color", "#Color", "Color"), "Color\nColor");
    assert_eq!(replace_all("abc", "x", "y"), "abc");
    assert_eq!(replace_all("", "x", "y"), "");
    assert_eq!(replace_all("xx", "x", ""), "");
    for (s, p, r) in [("banana", "an", "AN"), ("ééé", "é", "e"), ("a b  c", " ", "_")] {
        assert_eq!(replace_all(s, p, r), s.replace(p, r));
    }
}

#[test]
fn substring_search() {
    assert!(contains("a fastestmirror b", "fastestmirror"));
    assert!(!contains("fastest mirror", "fastestmirror"));
    assert!(contains("anything", ""));
    assert!(contains("", ""));
    assert!(!contains("", "a"));
}

#[test]
fn trimming_and_words() {
    assert_eq!(trim("  ls -la \n"), "ls -la");
    assert_eq!(trim("\t\u{3000}x\u{a0}"), "x");
    assert_eq!(trim("   "), "");
    assert_eq!(split_whitespace("  echo   hi\tthere "), vec!["echo", "hi", "there"]);
    assert_eq!(split_whitespace(""), Vec::<String>::new());
    let s = "a\u{2003}b\u{85}c";
    let expected: Vec<String> = s.split_whitespace().map(|w| w.to_string()).collect();
    assert_eq!(split_whitespace(s), expected);
}

#[test]
fn splitting_keeps_empty_pieces() {
    assert_eq!(split_on("/usr/bin::/bin", ':'), vec!["/usr/bin", "", "/bin"]);
    assert_eq!(split_on("", ':'), vec![""]);
    assert_eq!(split_on(":", ':'), vec!["", ""]);
}

#[test]
fn joining() {
    let parts = vec!["echo".to_string(), "Hello".to_string(), "world".to_string()];
    assert_eq!(join(&parts, " "), "echo Hello world");
    assert_eq!(join(&[], " "), "");
    assert_eq!(join(&["one".to_string()], ", "), "one");
}

#[test]
fn decimal_numbers() {
    assert_eq!(u64_to_decimal(0), "0");
    assert_eq!(u64_to_decimal(4096), "4096");
    assert_eq!(u64_to_decimal(u64::MAX), u64::MAX.to_string());
    assert_eq!(i64_to_decimal(-1), "-1");
    assert_eq!(i64_to_decimal(127), "127");
    assert_eq!(i64_to_decimal(i64::MIN), i64::MIN.to_string());
}

#[test]
fn paths_join_as_on_unix() {
    assert_eq!(path_join("/tmp/uni-runtime/envs", "dev"), "/tmp/uni-runtime/envs/dev");
    assert_eq!(path_join("/tmp/", "dev"), "/tmp/dev");
    assert_eq!(path_join("", "bash"), "bash");
    assert_eq!(path_join("/tmp", "/etc"), "/etc");
    assert_eq!(path_join("/tmp", ""), "/tmp/");
    for (b, r) in [("/a/b", "c/d"), ("x", "y"), ("/", "z"), ("/a", "")] {
        let expected = std::path::Path::new(b).join(r).to_string_lossy().to_string();
        assert_eq!(path_join(b, r), expected);
    }
}

#[test]
fn equality_and_concatenation() {
    assert!(str_eq("abc", "abc"));
    assert!(!str_eq("abc", "abd"));
    assert_eq!(concatenate("ab", "cd"), "abcd");
}
