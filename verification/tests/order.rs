use models_endpoint::order::sort_strings;

#[test]
fn strings_are_sorted_and_kept() {
    let mut strings: Vec<String> =
        ["b", "a", "ab", "b", ""].iter().map(|s| s.to_string()).collect();
    sort_strings(&mut strings);
    assert_eq!(strings, ["", "a", "ab", "b", "b"]);
}
