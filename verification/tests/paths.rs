use tatoteco::paths::{is_strictly_within, join_path};

#[test]
fn join_puts_one_separator_between() {
    assert_eq!(join_path("/srv/maps", "00-splash.png"), "/srv/maps/00-splash.png");
    assert_eq!(join_path(".", "a.png"), "./a.png");
    assert_eq!(join_path("maps", "a.png"), "maps/a.png");
}

#[test]
fn join_adds_no_second_separator() {
    assert_eq!(join_path("/srv/maps/", "a.png"), "/srv/maps/a.png");
    assert_eq!(join_path("/", "a.png"), "/a.png");
}

#[test]
fn join_to_the_empty_directory_is_the_name() {
    assert_eq!(join_path("", "a.png"), "a.png");
}

#[test]
fn join_handles_characters_beyond_ascii() {
    assert_eq!(join_path("/srv/\u{e9}t\u{e9}", "ch\u{e2}teau.png"), "/srv/\u{e9}t\u{e9}/ch\u{e2}teau.png");
}

#[test]
fn within_needs_the_directory_and_a_separator_in_front() {
    assert!(is_strictly_within("/srv/maps", "/srv/maps/a.png"));
    assert!(is_strictly_within("/srv/maps", "/srv/maps/sub/a.png"));
    assert!(is_strictly_within("/srv/maps/", "/srv/maps/a.png"));
    assert!(is_strictly_within("/", "/a.png"));
}

#[test]
fn within_is_strict() {
    assert!(!is_strictly_within("/srv/maps", "/srv/maps"));
    assert!(!is_strictly_within("/srv/maps", "/srv/maps/"));
    assert!(!is_strictly_within("/srv/maps/", "/srv/maps/"));
    assert!(!is_strictly_within("/", "/"));
}

#[test]
fn within_refuses_siblings_and_parents() {
    assert!(!is_strictly_within("/srv/maps", "/srv/maps2/a.png"));
    assert!(!is_strictly_within("/srv/maps", "/srv/mapsa.png"));
    assert!(!is_strictly_within("/srv/maps", "/srv/secret.png"));
    assert!(!is_strictly_within("/srv/maps", "/secret.png"));
    assert!(!is_strictly_within("/srv/maps", "/srv"));
    assert!(!is_strictly_within("/srv/maps", ""));
    assert!(!is_strictly_within("/srv/maps", "/etc/srv/maps/a.png"));
}
