use streamertools::config::{config_file_name, validate_config_name, ConfigList};

#[test]
fn accepts_plain_names() {
    for name in ["poll", "my-config_2", "name.with.dots", "übung", "a b c"] {
        assert!(validate_config_name(name).is_ok(), "should accept {name:?}");
    }
}

#[test]
fn rejects_empty_and_whitespace_only() {
    for name in ["", " ", "   ", "\t", "\n"] {
        assert!(
            validate_config_name(name).is_err(),
            "should reject {name:?}"
        );
    }
}

#[test]
fn rejects_path_traversal() {
    for name in ["..", "../evil", "..\\evil", "a/../b", "polls/../../etc"] {
        assert!(
            validate_config_name(name).is_err(),
            "should reject {name:?}"
        );
    }
}

#[test]
fn rejects_separators_and_absolute_paths() {
    for name in ["a/b", "a\\b", "/etc/passwd", "C:\\Windows", "/", "sub/"] {
        assert!(
            validate_config_name(name).is_err(),
            "should reject {name:?}"
        );
    }
}

#[test]
fn rejects_current_dir() {
    assert!(validate_config_name(".").is_err());
}

#[test]
fn config_name_error_messages() {
    assert_eq!(
        validate_config_name("  ").unwrap_err(),
        "Config name must not be empty."
    );
    assert_eq!(
        validate_config_name("a/b").unwrap_err(),
        "Invalid config name 'a/b': use a single name without path separators."
    );
    assert_eq!(
        validate_config_name("..").unwrap_err(),
        "Invalid config name '..': use a single name without path separators."
    );
}

#[test]
fn non_breaking_space_only_name_is_blank() {
    assert!(validate_config_name("\u{a0}\u{3000}").is_err());
    assert!(validate_config_name("a\u{a0}").is_ok());
}

#[test]
fn config_files_end_in_json() {
    assert_eq!(config_file_name("poll"), "poll.json");
}

#[test]
fn with_list_selects_nothing() {
    let list = ConfigList::with_list(vec!["a".to_string(), "b".to_string()]);
    assert_eq!(list.items, vec!["a".to_string(), "b".to_string()]);
    assert!(list.selected.is_none());
    assert!(!list.loaded);
}

#[test]
fn overwrite_guard_blocks_existing_names_until_loaded() {
    let mut list = ConfigList::with_list(vec!["a".to_string(), "b".to_string()]);
    assert!(!list.can_save("a"));
    assert!(list.can_save("c"));
    list.loaded = true;
    assert!(list.can_save("a"));
}
