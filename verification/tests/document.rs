use watcher::error::{Error, MalformedKind};
use watcher::model::{DocGenre, DocKind};
use watcher::watcher::document_from_text;

fn sample_name() -> &'static str {
    "123e4567-e89b-12d3-a456-426614174000.md"
}

fn sample_text() -> &'static str {
    "---\ntitle: Hello\nabstract: World\nauthor: {fullname: A, resource: r}\ntags: [x]\nimage: {title: t, resource: ir, author: {fullname: A, resource: r}}\n---Body text"
}

#[test]
fn assembles_record_with_defaults() {
    let r = document_from_text(sample_name(), sample_text())
        .unwrap()
        .unwrap();
    assert_eq!(r.id, "123e4567-e89b-12d3-a456-426614174000");
    assert_eq!(r.title, "Hello");
    assert_eq!(r.outline, "World");
    assert_eq!(r.author_fullname, "A");
    assert_eq!(r.author_resource, "r");
    assert_eq!(r.tags, vec![String::from("x")]);
    assert_eq!(r.image_title, "t");
    assert_eq!(r.image_resource, "ir");
    assert_eq!(r.image_author_fullname, "A");
    assert_eq!(r.image_author_resource, "r");
    assert_eq!(r.kind, DocKind::Doc);
    assert_eq!(r.genre, DocGenre::Tutorial);
    assert_eq!(r.content, "Body text");
}

#[test]
fn reprocessing_yields_equal_records() {
    let first = document_from_text(sample_name(), sample_text())
        .unwrap()
        .unwrap();
    let second = document_from_text(sample_name(), sample_text())
        .unwrap()
        .unwrap();
    assert_eq!(first, second);
}

#[test]
fn produced_content_is_delimiter_free() {
    let r = document_from_text(sample_name(), sample_text())
        .unwrap()
        .unwrap();
    assert!(!r.content.contains("---"));
}

#[test]
fn one_delimiter_is_malformed() {
    let text = "---only one";
    let r = document_from_text(sample_name(), text);
    assert_eq!(
        r,
        Err(Error::MalformedDocument {
            kind: MalformedKind::TooFewSegments {
                length: text.chars().count()
            }
        })
    );
}

#[test]
fn zero_delimiters_is_malformed() {
    let text = "no delimiter here";
    let r = document_from_text(sample_name(), text);
    assert_eq!(
        r,
        Err(Error::MalformedDocument {
            kind: MalformedKind::TooFewSegments {
                length: text.chars().count()
            }
        })
    );
}

#[test]
fn empty_file_yields_no_document_and_no_error() {
    assert_eq!(document_from_text(sample_name(), ""), Ok(None));
}

#[test]
fn non_uuid_stem_is_malformed() {
    let r = document_from_text("notes.md", sample_text());
    assert_eq!(
        r,
        Err(Error::MalformedDocument {
            kind: MalformedKind::InvalidIdentifier
        })
    );
}

#[test]
fn uppercase_uuid_stem_is_accepted() {
    let r = document_from_text(
        "123E4567-E89B-12D3-A456-426614174000.md",
        sample_text(),
    )
    .unwrap()
    .unwrap();
    assert_eq!(r.id, "123E4567-E89B-12D3-A456-426614174000");
}

#[test]
fn misplaced_hyphens_are_malformed() {
    let r = document_from_text(
        "123e4567e-89b-12d3-a456-426614174000.md",
        sample_text(),
    );
    assert_eq!(
        r,
        Err(Error::MalformedDocument {
            kind: MalformedKind::InvalidIdentifier
        })
    );
}

#[test]
fn identifier_check_precedes_schema_check() {
    // Malformed metadata behind a non-UUID stem: the identifier error wins.
    let r = document_from_text("notes.md", "---\nnot: [valid\n---body");
    assert_eq!(
        r,
        Err(Error::MalformedDocument {
            kind: MalformedKind::InvalidIdentifier
        })
    );
}

#[test]
fn later_delimiters_stay_in_content() {
    let text = "---\ntitle: Hello\nabstract: World\nauthor: {fullname: A, resource: r}\ntags: [x]\nimage: {title: t, resource: ir, author: {fullname: A, resource: r}}\n---a---b";
    let r = document_from_text(sample_name(), text).unwrap().unwrap();
    assert_eq!(r.content, "a---b");
}
