use morbo::strings::list_contains;
use morbo::strings::str_eq;

#[test]
fn str_eq_compares_character_for_character() {
    assert!(str_eq("", ""));
    assert!(str_eq("abc", "abc"));
    assert!(!str_eq("abc", "abd"));
    assert!(!str_eq("abc", "ab"));
    assert!(!str_eq("ab", "abc"));
    assert!(!str_eq("abc", "ABC"));
    assert!(str_eq("grüß", "grüß"));
    assert!(!str_eq("grüß", "gruss"));
}

#[test]
fn list_contains_finds_exact_entries() {
    let list = ["one", "two", "three"];
    assert!(list_contains(&list, "one"));
    assert!(list_contains(&list, "three"));
    assert!(!list_contains(&list, "four"));
    assert!(!list_contains(&list, "tw"));
    assert!(!list_contains(&list, ""));
    assert!(!list_contains(&[], "one"));
    assert!(list_contains(&[""], ""));
}
