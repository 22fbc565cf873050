use server_supervisor::search_path::{build_search_path, extra_path, extra_path_count};

#[test]
fn extra_directories_are_listed_in_order() {
    assert_eq!(extra_path_count(), 6);
    assert_eq!(extra_path(0), "/opt/homebrew/bin");
    assert_eq!(extra_path(1), "/usr/local/bin");
    assert_eq!(extra_path(2), "/usr/bin");
    assert_eq!(extra_path(3), "/bin");
    assert_eq!(extra_path(4), "/usr/sbin");
    assert_eq!(extra_path(5), "/sbin");
}

#[test]
fn inherited_path_follows_the_extra_directories() {
    assert_eq!(
        build_search_path("/home/user/bin:/snap/bin"),
        "/opt/homebrew/bin:/usr/local/bin:/usr/bin:/bin:/usr/sbin:/sbin:/home/user/bin:/snap/bin"
    );
}

#[test]
fn empty_inherited_path_leaves_an_empty_last_entry() {
    assert_eq!(
        build_search_path(""),
        "/opt/homebrew/bin:/usr/local/bin:/usr/bin:/bin:/usr/sbin:/sbin:"
    );
}

#[test]
fn inherited_path_is_kept_as_it_is() {
    assert_eq!(
        build_search_path(":/a::/b:"),
        "/opt/homebrew/bin:/usr/local/bin:/usr/bin:/bin:/usr/sbin:/sbin::/a::/b:"
    );
    assert_eq!(
        build_search_path("/usr/bin"),
        "/opt/homebrew/bin:/usr/local/bin:/usr/bin:/bin:/usr/sbin:/sbin:/usr/bin"
    );
}

#[test]
fn entries_are_the_extra_directories_then_the_inherited_entries() {
    for system_path in ["", "/a", "/a:/b", ":/a::/b:", "/Users/me/.cargo/bin:/usr/bin:/bin"] {
        let built = build_search_path(system_path);
        let entries: Vec<&str> = built.split(':').collect();
        let mut expected: Vec<&str> = Vec::new();
        for index in 0..extra_path_count() {
            expected.push(extra_path(index));
        }
        for entry in system_path.split(':') {
            expected.push(entry);
        }
        assert_eq!(entries, expected);
        assert_eq!(expected.join(":"), built);
    }
}

#[test]
fn non_ascii_inherited_path_is_kept() {
    assert_eq!(
        build_search_path("/home/zoë/bin"),
        "/opt/homebrew/bin:/usr/local/bin:/usr/bin:/bin:/usr/sbin:/sbin:/home/zoë/bin"
    );
}
