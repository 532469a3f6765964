use watcher::watcher::{classify, Notification, MASK_CREATE, MASK_DELETE, MASK_ISDIR, MASK_MODIFY};

fn note(name: &str, mask: u32) -> Notification {
    Notification { name: Some(String::from(name)), mask }
}

#[test]
fn unrecognized_extension_is_dropped() {
    assert_eq!(classify(note("notes.txt", MASK_CREATE)), None);
    assert_eq!(classify(note("notes.txt", MASK_MODIFY)), None);
    assert_eq!(classify(note("README", MASK_CREATE)), None);
}

#[test]
fn extension_match_is_case_sensitive() {
    assert_eq!(classify(note("notes.MD", MASK_CREATE)), None);
    assert_eq!(classify(note("notes.Md", MASK_MODIFY)), None);
}

#[test]
fn hidden_file_without_extension_is_dropped() {
    assert_eq!(classify(note(".md", MASK_CREATE)), None);
}

#[test]
fn directory_events_are_dropped() {
    assert_eq!(classify(note("a.md", MASK_CREATE | MASK_ISDIR)), None);
    assert_eq!(classify(note("a.md", MASK_MODIFY | MASK_ISDIR)), None);
    assert_eq!(classify(note("a.md", MASK_ISDIR)), None);
}

#[test]
fn bare_delete_is_dropped() {
    assert_eq!(classify(note("a.md", MASK_DELETE)), None);
    assert_eq!(classify(note("notes.txt", MASK_DELETE)), None);
}

#[test]
fn creation_yields_candidate() {
    assert_eq!(classify(note("a.md", MASK_CREATE)), Some(String::from("a.md")));
}

#[test]
fn modification_yields_candidate() {
    assert_eq!(classify(note("a.md", MASK_MODIFY)), Some(String::from("a.md")));
}

#[test]
fn creation_wins_over_deletion() {
    assert_eq!(
        classify(note("a.md", MASK_CREATE | MASK_DELETE)),
        Some(String::from("a.md"))
    );
}

#[test]
fn modification_with_deletion_is_dropped() {
    assert_eq!(classify(note("a.md", MASK_MODIFY | MASK_DELETE)), None);
}

#[test]
fn unrecognized_mask_is_dropped() {
    assert_eq!(classify(note("a.md", 0)), None);
    assert_eq!(classify(note("a.md", 0x8)), None);
}

#[test]
fn missing_name_is_dropped() {
    assert_eq!(classify(Notification { name: None, mask: MASK_CREATE }), None);
}

#[test]
fn mask_constants_match_the_notification_source() {
    assert_eq!(inotify::EventMask::MODIFY.bits(), MASK_MODIFY);
    assert_eq!(inotify::EventMask::CREATE.bits(), MASK_CREATE);
    assert_eq!(inotify::EventMask::DELETE.bits(), MASK_DELETE);
    assert_eq!(inotify::EventMask::ISDIR.bits(), MASK_ISDIR);
}

#[test]
fn inner_dots_do_not_hide_extension() {
    assert_eq!(
        classify(note("b.tar.md", MASK_MODIFY)),
        Some(String::from("b.tar.md"))
    );
}
