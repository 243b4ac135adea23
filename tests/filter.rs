use rocket_launch::event::{is_trigger, WatchEvent};
use rocket_launch::filter::is_whitelisted;

#[test]
fn rust_source_is_whitelisted() {
    assert!(is_whitelisted("src/main.rs"));
}

#[test]
fn markdown_is_not_whitelisted() {
    assert!(!is_whitelisted("README.md"));
}

#[test]
fn handlebars_template_is_whitelisted() {
    assert!(is_whitelisted("templates/index.hbs"));
}

#[test]
fn every_listed_suffix_is_whitelisted() {
    for p in ["a.rs", "Cargo.toml", "t/x.tera", "x.hbs", "static/index.html", "app.js"] {
        assert!(is_whitelisted(p), "{}", p);
    }
}

#[test]
fn other_suffixes_are_not_whitelisted() {
    for p in ["Makefile", "", "notes.txt", "main.rs.bak", "style.css", "rs", "x.jsx", "a.htm"] {
        assert!(!is_whitelisted(p), "{}", p);
    }
}

#[test]
fn bare_suffix_is_whitelisted() {
    assert!(is_whitelisted(".rs"));
}

#[test]
fn non_ascii_path_is_matched_by_characters() {
    assert!(is_whitelisted("src/\u{e9}t\u{e9}.rs"));
    assert!(!is_whitelisted("src/\u{e9}t\u{e9}.r"));
}

#[test]
fn single_path_events_follow_the_filter() {
    let p = || "src/lib.rs".to_string();
    assert!(is_trigger(&WatchEvent::NoticeWrite(p())));
    assert!(is_trigger(&WatchEvent::NoticeRemove(p())));
    assert!(is_trigger(&WatchEvent::Create(p())));
    assert!(is_trigger(&WatchEvent::Write(p())));
    assert!(is_trigger(&WatchEvent::Chmod(p())));
    assert!(is_trigger(&WatchEvent::Remove(p())));
    assert!(!is_trigger(&WatchEvent::Write("notes.txt".to_string())));
    assert!(!is_trigger(&WatchEvent::Create(String::new())));
}

#[test]
fn rescan_and_error_do_not_trigger() {
    assert!(!is_trigger(&WatchEvent::Rescan));
    assert!(!is_trigger(&WatchEvent::Error));
}

#[test]
fn rename_to_whitelisted_triggers() {
    assert!(is_trigger(&WatchEvent::Rename("a.txt".to_string(), "b.rs".to_string())));
}

#[test]
fn rename_from_whitelisted_triggers() {
    assert!(is_trigger(&WatchEvent::Rename("a.rs".to_string(), "b.txt".to_string())));
}

#[test]
fn rename_between_irrelevant_files_does_not_trigger() {
    assert!(!is_trigger(&WatchEvent::Rename("a.txt".to_string(), "b.txt".to_string())));
}
