use lekstack::text::{
    contains, decimal_string, ends_with, remove_text, split_fields, split_lines, split_words,
    starts_with, text_eq, trim, Separator,
};

#[test]
fn decimal_formats_numbers() {
    assert_eq!(decimal_string(0), "0");
    assert_eq!(decimal_string(7), "7");
    assert_eq!(decimal_string(8080), "8080");
    assert_eq!(decimal_string(65535), "65535");
    assert_eq!(decimal_string(u64::MAX), u64::MAX.to_string());
}

#[test]
fn decimal_is_injective_on_samples() {
    let a = decimal_string(10);
    let b = decimal_string(100);
    let c = decimal_string(1);
    assert_ne!(a, b);
    assert_ne!(a, c);
}

#[test]
fn comparisons_follow_std() {
    assert!(text_eq("abc", "abc"));
    assert!(!text_eq("abc", "abd"));
    assert!(!text_eq("ab", "abc"));
    assert!(starts_with("php-8.2", "php"));
    assert!(!starts_with("ph", "php"));
    assert!(ends_with("archive.zip", ".zip"));
    assert!(!ends_with("zip", ".zip"));
    assert!(contains("my-nginx-x", "nginx"));
    assert!(!contains("ngin", "nginx"));
    assert!(contains("anything", ""));
}

#[test]
fn fields_split_like_str_split() {
    let text = "php-8.3--x";
    let ours = split_fields(text, Separator::Char('-'));
    let std: Vec<String> = text.split('-').map(|s| s.to_string()).collect();
    assert_eq!(ours, std);
    assert_eq!(split_fields("", Separator::Char('-')), vec![String::new()]);
}

#[test]
fn lines_split_like_str_lines() {
    for text in ["", "a", "a\n", "a\r\nb\r\n", "\n\nx", "x\r", "x\ny\r", "a\n\r\n"] {
        let ours = split_lines(text);
        let std: Vec<String> = text.lines().map(|s| s.to_string()).collect();
        assert_eq!(ours, std, "lines of {:?}", text);
    }
}

#[test]
fn words_split_like_split_whitespace() {
    for text in ["", "  ", "root localhost", "\troot\t  %\n", "a\u{3000}b\u{85}c"] {
        let ours = split_words(text);
        let std: Vec<String> = text.split_whitespace().map(|s| s.to_string()).collect();
        assert_eq!(ours, std, "words of {:?}", text);
    }
}

#[test]
fn trim_like_str_trim() {
    for text in ["", "   ", " postgres ", "\u{a0}x y\u{2003}", "abc"] {
        assert_eq!(trim(text), text.trim());
        assert_eq!(trim(&trim(text)), trim(text));
    }
}

#[test]
fn removal_like_str_replace() {
    for (text, pat) in [("php-8.2", "php"), ("phpphp", "php"), ("pphphp", "php"), ("nginx", "php")] {
        assert_eq!(remove_text(text, pat), text.replace(pat, ""));
    }
}
