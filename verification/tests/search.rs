use universal_config::search::first_match;

fn texts(list: Vec<&str>) -> Vec<String> {
    list.into_iter().map(|text| text.to_string()).collect()
}

#[test]
fn first_match_is_the_least_accepted_index() {
    let candidates = texts(vec!["a", "b", "c", "b"]);
    assert_eq!(first_match(&candidates, |text: &String| text == "b"), Some(1));
    assert_eq!(first_match(&candidates, |text: &String| text == "a"), Some(0));
    assert_eq!(first_match(&candidates, |text: &String| text == "c"), Some(2));
    assert_eq!(first_match(&candidates, |text: &String| text != "a"), Some(1));
}

#[test]
fn first_match_of_nothing_accepted_is_none() {
    let candidates = texts(vec!["a", "b", "c"]);
    assert_eq!(first_match(&candidates, |_text: &String| false), None);
    assert_eq!(first_match(&Vec::new(), |_text: &String| true), None);
}

#[test]
fn first_match_probes_nothing_behind_the_match() {
    let candidates = texts(vec!["a", "b", "c"]);
    let count = std::cell::Cell::new(0);
    let found = first_match(&candidates, |text: &String| {
        count.set(count.get() + 1);
        text == "b"
    });
    assert_eq!(found, Some(1));
    assert_eq!(count.get(), 2);
}
