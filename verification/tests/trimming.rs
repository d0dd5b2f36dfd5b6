use pcibind::ident::trim;

#[test]
fn trim_removes_surrounding_whitespace() {
    assert_eq!(trim("  0000:00:02.0 \t\n"), "0000:00:02.0");
}

#[test]
fn trim_keeps_inner_whitespace() {
    assert_eq!(trim(" a b "), "a b");
}

#[test]
fn trim_of_all_whitespace_is_empty() {
    assert_eq!(trim(" \t\r\n "), "");
}

#[test]
fn trim_of_empty_is_empty() {
    assert_eq!(trim(""), "");
}

#[test]
fn trim_without_whitespace_changes_nothing() {
    assert_eq!(trim("i915"), "i915");
}
