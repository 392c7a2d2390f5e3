use rs_lib_bot::index::{index_entry_exists, index_path, index_request, valid_name};

#[test]
fn index_path_buckets_by_length() {
    assert_eq!(Some("1/a".to_string()), index_path("a"));
    assert_eq!(Some("2/at".to_string()), index_path("at"));
    assert_eq!(Some("3/t/top".to_string()), index_path("top"));
    assert_eq!(Some("g0/od/g0od".to_string()), index_path("g0od"));
    assert_eq!(Some("to/ki/tokio".to_string()), index_path("tokio"));
}

#[test]
fn index_path_ignores_case() {
    assert_eq!(index_path("a"), index_path("A"));
    assert_eq!(Some("se/rd/serde_json".to_string()), index_path("Serde_JSON"));
}

#[test]
fn long_name_is_not_looked_up() {
    let name = "this_crate_has_so_long_name_that_it_cannot_be_published_on_crates_io";
    assert!(name.len() > 64);
    assert!(!valid_name(name));
    assert_eq!(None, index_path(name));
    assert_eq!(None, index_request("https://index.example", name));
}

#[test]
fn non_ascii_name_is_not_looked_up() {
    assert!(!valid_name("☑-not-an-ascii"));
    assert_eq!(None, index_path("☑-not-an-ascii"));
    assert_eq!(None, index_request("https://index.example", "☑-not-an-ascii"));
}

#[test]
fn empty_name_is_not_looked_up() {
    assert!(!valid_name(""));
    assert_eq!(None, index_path(""));
}

#[test]
fn longest_name_is_looked_up() {
    let name = "a".repeat(64);
    assert!(valid_name(&name));
    assert!(!valid_name(&"a".repeat(65)));
    assert_eq!(Some(format!("aa/aa/{}", name)), index_path(&name));
}

#[test]
fn index_request_joins_base_and_path() {
    assert_eq!(
        Some("https://index.example/to/ki/tokio".to_string()),
        index_request("https://index.example", "Tokio")
    );
}

#[test]
fn index_entry_exists_on_success_only() {
    assert!(index_entry_exists(200));
    assert!(index_entry_exists(204));
    assert!(!index_entry_exists(304));
    assert!(!index_entry_exists(404));
    assert!(!index_entry_exists(500));
}
