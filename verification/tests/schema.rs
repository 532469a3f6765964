use watcher::error::{Error, SchemaField};
use watcher::front::{front_from_text, front_from_value};
use watcher::model::{DocGenre, DocKind};
use watcher::watcher::document_from_text;

fn schema_err(field: SchemaField) -> Error {
    Error::Schema { field }
}

fn with_meta(meta: &str) -> Result<Option<watcher::model::DocSpec>, Error> {
    let text = format!("---\n{}\n---body", meta);
    document_from_text("123e4567-e89b-12d3-a456-426614174000.md", &text)
}

fn full_meta_with(extra: &str) -> String {
    format!(
        "title: Hello\nabstract: World\nauthor: {{fullname: A, resource: r}}\ntags: [x]\nimage: {{title: t, resource: ir, author: {{fullname: A, resource: r}}}}\n{}",
        extra
    )
}

#[test]
fn missing_title_is_a_schema_error() {
    let r = with_meta("abstract: World");
    assert_eq!(r, Err(schema_err(SchemaField::Title)));
}

#[test]
fn missing_outline_is_a_schema_error() {
    let r = with_meta("title: Hello");
    assert_eq!(r, Err(schema_err(SchemaField::Outline)));
}

#[test]
fn missing_author_is_a_schema_error() {
    let r = with_meta("title: Hello\nabstract: World");
    assert_eq!(r, Err(schema_err(SchemaField::Author)));
}

#[test]
fn author_without_resource_is_a_schema_error() {
    let r = with_meta("title: Hello\nabstract: World\nauthor: {fullname: A}");
    assert_eq!(r, Err(schema_err(SchemaField::Author)));
}

#[test]
fn missing_tags_is_a_schema_error() {
    let r = with_meta("title: Hello\nabstract: World\nauthor: {fullname: A, resource: r}");
    assert_eq!(r, Err(schema_err(SchemaField::Tags)));
}

#[test]
fn non_text_tag_item_is_a_schema_error() {
    let r = with_meta(
        "title: Hello\nabstract: World\nauthor: {fullname: A, resource: r}\ntags: [1]",
    );
    assert_eq!(r, Err(schema_err(SchemaField::Tags)));
}

#[test]
fn scalar_tags_entry_is_a_schema_error() {
    let r = with_meta(
        "title: Hello\nabstract: World\nauthor: {fullname: A, resource: r}\ntags: solo",
    );
    assert_eq!(r, Err(schema_err(SchemaField::Tags)));
}

#[test]
fn missing_image_is_a_schema_error() {
    let r = with_meta(
        "title: Hello\nabstract: World\nauthor: {fullname: A, resource: r}\ntags: [x]",
    );
    assert_eq!(r, Err(schema_err(SchemaField::Image)));
}

#[test]
fn image_without_author_is_a_schema_error() {
    let r = with_meta(
        "title: Hello\nabstract: World\nauthor: {fullname: A, resource: r}\ntags: [x]\nimage: {title: t, resource: ir}",
    );
    assert_eq!(r, Err(schema_err(SchemaField::Image)));
}

#[test]
fn unrecognized_kind_is_a_schema_error() {
    let r = with_meta(&full_meta_with("kind: DOC"));
    assert_eq!(r, Err(schema_err(SchemaField::Kind)));
}

#[test]
fn non_text_kind_is_a_schema_error() {
    let r = with_meta(&full_meta_with("kind: [post]"));
    assert_eq!(r, Err(schema_err(SchemaField::Kind)));
}

#[test]
fn unrecognized_genre_is_a_schema_error() {
    let r = with_meta(&full_meta_with("genre: saga"));
    assert_eq!(r, Err(schema_err(SchemaField::Genre)));
}

#[test]
fn explicit_kind_and_genre_are_kept() {
    let r = with_meta(&full_meta_with("kind: post\ngenre: reference"))
        .unwrap()
        .unwrap();
    assert_eq!(r.kind, DocKind::Post);
    assert_eq!(r.genre, DocGenre::Reference);
}

#[test]
fn every_genre_value_decodes() {
    for (name, genre) in [
        ("tutorial", DocGenre::Tutorial),
        ("howto", DocGenre::Howto),
        ("background", DocGenre::Background),
        ("reference", DocGenre::Reference),
    ] {
        let r = with_meta(&full_meta_with(&format!("genre: {}", name)))
            .unwrap()
            .unwrap();
        assert_eq!(r.genre, genre);
    }
}

#[test]
fn unreadable_metadata_is_a_syntax_error() {
    let r = with_meta("title: [unclosed");
    assert_eq!(r, Err(schema_err(SchemaField::Syntax)));
}

#[test]
fn empty_metadata_block_misses_title() {
    let r = document_from_text("123e4567-e89b-12d3-a456-426614174000.md", "------");
    assert_eq!(r, Err(schema_err(SchemaField::Title)));
}

#[test]
fn front_from_text_validates_directly() {
    let f = front_from_text(&full_meta_with("")).unwrap();
    assert_eq!(f.title, "Hello");
    assert_eq!(f.outline, "World");
    assert_eq!(f.author.fullname, "A");
    assert_eq!(f.tags, vec![String::from("x")]);
    assert_eq!(f.image.author.resource, "r");
    assert_eq!(f.kind, DocKind::Doc);
    assert_eq!(f.genre, DocGenre::Tutorial);
}

#[test]
fn front_from_value_reads_a_parsed_mapping() {
    let v: serde_yaml::Value = serde_yaml::from_str(&full_meta_with("kind: doc")).unwrap();
    let f = front_from_value(&v).unwrap();
    assert_eq!(f.title, "Hello");
    assert_eq!(f.kind, DocKind::Doc);
}

#[test]
fn front_from_value_rejects_a_scalar() {
    let v: serde_yaml::Value = serde_yaml::from_str("just text").unwrap();
    let f = front_from_value(&v);
    assert_eq!(f, Err(schema_err(SchemaField::Title)));
}
