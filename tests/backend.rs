use wallpaper_manager::backend::{missing, neighborhood};

fn names(s: &str) -> Vec<String> {
    s.chars().map(|c| c.to_string()).collect()
}

#[test]
fn neighborhood_of_long_playlist() {
    assert_eq!(neighborhood(&names("abcdefghij")), names("abjcdiehf"));
}

#[test]
fn neighborhood_of_short_playlists() {
    assert_eq!(neighborhood(&names("ab")), names("abba"));
    assert_eq!(neighborhood(&names("a")), names("aa"));
    assert!(neighborhood(&Vec::new()).is_empty());
}

#[test]
fn missing_entries_in_order() {
    assert_eq!(missing(&names("abcd"), &names("db")), names("ac"));
    assert_eq!(missing(&names("ab"), &Vec::new()), names("ab"));
    assert!(missing(&names("ab"), &names("ba")).is_empty());
}
