use rust_reddit::headers::split_headers;

#[test]
fn splits_on_commas_in_order() {
    let lines = split_headers("User-Agent: test-user,Host: fake.com");
    assert_eq!(lines, vec!["User-Agent: test-user".to_string(), "Host: fake.com".to_string()]);
    assert_ne!(lines, vec!["User-Agent: not-user".to_string(), "Host: wrong.org".to_string()]);
    assert_ne!(lines, vec!["Host: fake.com".to_string(), "User-Agent: test-user".to_string()]);
}

#[test]
fn empty_string_gives_no_lines() {
    assert!(split_headers("").is_empty());
}

#[test]
fn single_line_is_kept() {
    assert_eq!(split_headers("User-Agent: rust-reddit-test"), vec!["User-Agent: rust-reddit-test".to_string()]);
}

#[test]
fn lines_are_trimmed_of_spaces_and_tabs() {
    assert_eq!(
        split_headers(" A: 1 ,\tB: 2\t"),
        vec!["A: 1".to_string(), "B: 2".to_string()]
    );
    assert_eq!(split_headers("   "), vec!["".to_string()]);
}

#[test]
fn commas_at_the_edges_give_empty_lines() {
    assert_eq!(split_headers(","), vec!["".to_string(), "".to_string()]);
    assert_eq!(
        split_headers("A: 1,,B: 2,"),
        vec!["A: 1".to_string(), "".to_string(), "B: 2".to_string(), "".to_string()]
    );
}

#[test]
fn non_ascii_text_is_split_by_characters() {
    assert_eq!(split_headers("X: é,Y: ü"), vec!["X: é".to_string(), "Y: ü".to_string()]);
}

#[test]
fn lines_are_trimmed_of_all_unicode_whitespace() {
    assert_eq!(
        split_headers("A: 1\u{A0},\r\nB: 2\u{3000}\u{2028}"),
        vec!["A: 1".to_string(), "B: 2".to_string()]
    );
    assert_eq!(split_headers("\u{85}\u{1680}\u{200A}\u{202F}\u{205F}\u{B}\u{C}X: y"), vec!["X: y".to_string()]);
    assert_eq!(split_headers("X: \u{200B}"), vec!["X: \u{200B}".to_string()]);
}

#[test]
fn lines_match_str_trim() {
    let cases = [
        "A: 1\u{A0}, B: 2\t",
        "\u{2029}Host: fake.com ,\u{2000}User-Agent: x\u{2009}",
        " , ,\u{3000}",
        "User-Agent: test-user,Host: fake.com",
    ];
    for case in cases.iter() {
        let expected: Vec<String> = case.split(',').map(|p| p.trim().to_string()).collect();
        assert_eq!(split_headers(case), expected);
    }
}
