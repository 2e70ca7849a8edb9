use spotify_player::search::filtered_items_from_query;

fn labels(xs: &[&str]) -> Vec<String> {
    xs.iter().map(|s| s.to_string()).collect()
}

fn kept(query: &str, xs: &[&str]) -> Vec<usize> {
    let items: Vec<usize> = (0..xs.len()).collect();
    filtered_items_from_query(query, &items, &labels(xs)).into_iter().copied().collect()
}

#[test]
fn empty_query_keeps_everything() {
    assert_eq!(kept("", &["a", "b", "c"]), vec![0, 1, 2]);
    assert_eq!(kept("   ", &["a", "b"]), vec![0, 1]);
}

#[test]
fn query_matching_ignores_case() {
    assert_eq!(kept("ROCK", &["rock music", "jazz"]), vec![0]);
    assert_eq!(kept("rock", &["ROCK MUSIC", "jazz"]), vec![0]);
}

#[test]
fn every_word_of_the_query_must_occur() {
    let xs = ["Pop Rock Hits", "Rock Classics", "Pop Gold", "Rockabilly Pop"];
    assert_eq!(kept("pop rock", &xs), vec![0, 3]);
    assert_eq!(kept("rock  pop", &xs), vec![0, 3]);
    assert_eq!(kept("gold", &xs), vec![2]);
    assert_eq!(kept("metal", &xs), Vec::<usize>::new());
}

#[test]
fn words_match_anywhere_inside_the_label() {
    assert_eq!(kept("bill", &["Rockabilly", "Billie", "Bil"]), vec![0, 1]);
    assert_eq!(kept("ab", &["a b", "cab"]), vec![1]);
}

#[test]
fn order_of_items_is_kept() {
    assert_eq!(kept("x", &["x3", "y", "x1", "x2"]), vec![0, 2, 3]);
}

#[test]
fn non_ascii_labels_are_matched_by_characters() {
    assert_eq!(kept("BJÖRK", &["björk - homogenic", "bjork"]), vec![0]);
}
