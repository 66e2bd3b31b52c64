use productized_shell::order::{dedup_strings, join_strings, sort_dedup_strings, sort_stable, str_lt};

fn strings(v: &[&str]) -> Vec<String> {
    v.iter().map(|s| s.to_string()).collect()
}

#[test]
fn text_order_matches_string_order() {
    let samples = ["", "a", "ab", "b", "B", "é", "z", "aa", "a\u{10000}"];
    for x in samples {
        for y in samples {
            assert_eq!(str_lt(x, y), x < y, "{x:?} {y:?}");
        }
    }
}

#[test]
fn stable_sort_matches_std_sort() {
    let v = strings(&["pear", "apple", "fig", "apple", "", "Fig"]);
    let mut expected = v.clone();
    expected.sort();
    assert_eq!(sort_stable(v), expected);
}

#[test]
fn dedup_removes_neighbours_only() {
    assert_eq!(dedup_strings(strings(&["a", "a", "b", "a"])), strings(&["a", "b", "a"]));
    assert_eq!(sort_dedup_strings(strings(&["b", "a", "b", "a"])), strings(&["a", "b"]));
    assert!(sort_dedup_strings(Vec::new()).is_empty());
}

#[test]
fn join_uses_separator_between_items() {
    assert_eq!(join_strings(&strings(&["a", "b", "c"]), "|"), "a|b|c");
    assert_eq!(join_strings(&strings(&["a"]), "|"), "a");
    assert_eq!(join_strings(&Vec::new(), "|"), "");
}
