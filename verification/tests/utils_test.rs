use dotnet_buildpack::utils::{single_item, to_rfc1123_label};

#[test]
fn test_single_item_returns_single() {
    let items = vec!["item"];
    let result = single_item(items).unwrap();
    assert!(result.is_some());
    assert_eq!(result.unwrap(), "item");
}

#[test]
fn test_single_item_returns_none_when_empty() {
    let items: Vec<&str> = vec![];
    let result = single_item(items).unwrap();
    assert!(result.is_none());
}

#[test]
fn test_single_item_returns_error_on_multiple() {
    let items = vec!["item1", "item2", "item3"];
    let result = single_item(items);
    assert!(matches!(result, Err(ref items) if items.len() == 3));
}

#[test]
fn test_allows_letters_digits_hyphen() {
    assert_eq!(to_rfc1123_label("abc-123").unwrap(), "abc-123");
}

#[test]
fn test_allows_leading_digits() {
    assert_eq!(to_rfc1123_label("123label").unwrap(), "123label");
}

#[test]
fn test_lowercases_input() {
    assert_eq!(to_rfc1123_label("MiXeDCase").unwrap(), "mixedcase");
}

#[test]
fn test_replaces_separators_with_hyphen() {
    assert_eq!(to_rfc1123_label("a.b_c d-e").unwrap(), "a-b-c-d-e");
}

#[test]
fn test_removes_symbol_characters() {
    assert_eq!(to_rfc1123_label("foo!@#%^bar&*():日本").unwrap(), "foobar");
}

#[test]
fn test_collapses_multiple_separator_chars() {
    assert_eq!(to_rfc1123_label("a__b..c  d").unwrap(), "a-b-c-d");
}

#[test]
fn test_trims_leading_and_trailing_hyphens() {
    assert_eq!(to_rfc1123_label("--abc--").unwrap(), "abc");
    assert_eq!(to_rfc1123_label("...abc...").unwrap(), "abc");
}

#[test]
fn test_truncates_to_63_characters() {
    let input = format!("a_b.c-d{}", "x".repeat(100));
    let result = to_rfc1123_label(&input).unwrap();
    assert_eq!(result.len(), 63);
}

#[test]
fn test_removes_trailing_hyphen_after_truncation() {
    let input = format!("{}-aaaaaaa", "a".repeat(62));
    let result = to_rfc1123_label(&input).unwrap();
    assert_eq!(result.len(), 62);
    assert!(!result.ends_with('-'));
}

#[test]
fn test_errors_on_empty_label() {
    assert!(to_rfc1123_label("").is_err());
    assert!(to_rfc1123_label("!!!").is_err());
    assert!(to_rfc1123_label("###@@@%%%").is_err());
}

#[test]
fn label_of_a_label_is_the_label_itself() {
    for input in ["My App", "a__b..c  d", "--abc--", "Web.Api_Project 2"] {
        let label = to_rfc1123_label(input).unwrap();
        assert_eq!(to_rfc1123_label(&label).unwrap(), label);
    }
}

#[test]
fn label_separator_runs_interrupted_by_symbols_collapse() {
    assert_eq!(to_rfc1123_label("a-!-b").unwrap(), "a-b");
    assert_eq!(to_rfc1123_label("UPPER_lower").unwrap(), "upper-lower");
}

#[test]
fn a_label_needs_an_ascii_letter_or_digit() {
    assert_eq!(to_rfc1123_label("日本"), Err(()));
    assert_eq!(to_rfc1123_label("-_. "), Err(()));
    assert_eq!(to_rfc1123_label("日本7"), Ok("7".to_string()));
    assert_eq!(to_rfc1123_label("--Z--"), Ok("z".to_string()));
}
