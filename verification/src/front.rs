//! Decoding the metadata block against the front-matter schema. The schema
//! walk is specified exactly over the named results of the YAML boundary:
//! `spec_front` says which front matter, or which schema error, every
//! structured value yields, and the executable decoder is proved to return
//! precisely that.

use vstd::prelude::*;

use crate::error::{Error, SchemaField};
use crate::model::{default_genre, default_kind, parse_genre, parse_kind};
use crate::model::{genre_of_text, kind_of_text};
use crate::model::{Author, AuthorView, DocGenre, DocKind, Front, FrontView, Image, ImageView};
use crate::yaml::{as_items, as_text, get_key, items_of, key_of, parse_metadata, text_of, yaml_of};

verus! {

/// The text under `key`: the entry must exist and be a string value.
pub open spec fn spec_get_text(v: serde_yaml::Value, key: Seq<char>) -> Option<Seq<char>> {
    match key_of(v, key) {
        Some(x) => text_of(x),
        None => None,
    }
}

/// The author record a structured value decodes to: both `fullname` and
/// `resource` must be present text.
pub open spec fn spec_author(v: serde_yaml::Value) -> Option<AuthorView> {
    match (spec_get_text(v, "fullname"@), spec_get_text(v, "resource"@)) {
        (Some(f), Some(r)) => Some(AuthorView { fullname: f, resource: r }),
        _ => None,
    }
}

/// The author record under a mapping's `author` key.
pub open spec fn spec_author_entry(v: serde_yaml::Value) -> Option<AuthorView> {
    match key_of(v, "author"@) {
        Some(av) => spec_author(av),
        None => None,
    }
}

/// The image record a structured value decodes to: `title`, `resource` and a
/// full author record must all be present.
pub open spec fn spec_image(v: serde_yaml::Value) -> Option<ImageView> {
    match (spec_get_text(v, "title"@), spec_get_text(v, "resource"@), spec_author_entry(v)) {
        (Some(t), Some(r), Some(a)) => Some(ImageView { title: t, resource: r, author: a }),
        _ => None,
    }
}

/// The image record under a mapping's `image` key.
pub open spec fn spec_image_entry(v: serde_yaml::Value) -> Option<ImageView> {
    match key_of(v, "image"@) {
        Some(iv) => spec_image(iv),
        None => None,
    }
}

/// The tag list a structured value decodes to: a sequence value whose every
/// element is text, kept in order.
pub open spec fn spec_tags(v: serde_yaml::Value) -> Option<Seq<Seq<char>>> {
    match items_of(v) {
        Some(items) => if forall|i: int|
            0 <= i < items.len() ==> (#[trigger] text_of(items[i])) is Some {
            Some(Seq::new(items.len(), |i: int| text_of(items[i])->0))
        } else {
            None
        },
        None => None,
    }
}

/// The tag list under a mapping's `tags` key.
pub open spec fn spec_tags_entry(v: serde_yaml::Value) -> Option<Seq<Seq<char>>> {
    match key_of(v, "tags"@) {
        Some(tv) => spec_tags(tv),
        None => None,
    }
}

/// The kind a mapping's `kind` entry decodes to: the default when the key is
/// absent, the named kind when its value is text naming one, nothing (a
/// schema error) otherwise.
pub open spec fn spec_kind_entry(v: serde_yaml::Value) -> Option<DocKind> {
    match key_of(v, "kind"@) {
        None => Some(DocKind::Doc),
        Some(kv) => match text_of(kv) {
            Some(s) => kind_of_text(s),
            None => None,
        },
    }
}

/// The genre a mapping's `genre` entry decodes to: the default when the key
/// is absent, the named genre when its value is text naming one, nothing (a
/// schema error) otherwise.
pub open spec fn spec_genre_entry(v: serde_yaml::Value) -> Option<DocGenre> {
    match key_of(v, "genre"@) {
        None => Some(DocGenre::Tutorial),
        Some(gv) => match text_of(gv) {
            Some(s) => genre_of_text(s),
            None => None,
        },
    }
}

/// The front matter a structured metadata value decodes to, or the first
/// schema error in field order: `title`, `abstract`, `author`, `tags` and
/// `image` are mandatory; `kind` and `genre` default when their keys are
/// absent and must otherwise name an enumerated value.
pub open spec fn spec_front(v: serde_yaml::Value) -> Result<FrontView, SchemaField> {
    if spec_get_text(v, "title"@) is None {
        Err(SchemaField::Title)
    } else if spec_get_text(v, "abstract"@) is None {
        Err(SchemaField::Outline)
    } else if spec_author_entry(v) is None {
        Err(SchemaField::Author)
    } else if spec_tags_entry(v) is None {
        Err(SchemaField::Tags)
    } else if spec_image_entry(v) is None {
        Err(SchemaField::Image)
    } else if spec_kind_entry(v) is None {
        Err(SchemaField::Kind)
    } else if spec_genre_entry(v) is None {
        Err(SchemaField::Genre)
    } else {
        Ok(
            FrontView {
                title: spec_get_text(v, "title"@)->0,
                outline: spec_get_text(v, "abstract"@)->0,
                author: spec_author_entry(v)->0,
                tags: spec_tags_entry(v)->0,
                image: spec_image_entry(v)->0,
                kind: spec_kind_entry(v)->0,
                genre: spec_genre_entry(v)->0,
            },
        )
    }
}

/// The text under `key`, when the mapping holds one.
fn get_text(v: &serde_yaml::Value, key: &str) -> (r: Option<String>)
    ensures
        match r {
            Some(s) => spec_get_text(*v, key@) == Some(s@),
            None => spec_get_text(*v, key@) is None,
        },
{
    match get_key(v, key) {
        Some(x) => as_text(x),
        None => None,
    }
}

/// An author record from its decoded parts: present exactly when both
/// mandatory fields are.
pub fn author_from_parts(fullname: Option<String>, resource: Option<String>) -> (r: Option<
    Author,
>)
    ensures
        r is Some <==> (fullname is Some && resource is Some),
        r matches Some(a) ==> a.fullname == fullname->0 && a.resource == resource->0,
{
    match (fullname, resource) {
        (Some(f), Some(s)) => Some(Author { fullname: f, resource: s }),
        _ => None,
    }
}

/// An image record from its decoded parts: present exactly when title,
/// resource and author all are.
pub fn image_from_parts(
    title: Option<String>,
    resource: Option<String>,
    author: Option<Author>,
) -> (r: Option<Image>)
    ensures
        r is Some <==> (title is Some && resource is Some && author is Some),
        r matches Some(im) ==> im.title == title->0 && im.resource == resource->0 && im.author
            == author->0,
{
    match (title, resource, author) {
        (Some(t), Some(s), Some(a)) => Some(Image { title: t, resource: s, author: a }),
        _ => None,
    }
}

/// The tag list from its decoded items: present exactly when every item is
/// text, keeping the order.
pub fn tags_from_items(items: Vec<Option<String>>) -> (r: Option<Vec<String>>)
    ensures
        r is Some <==> (forall|i: int| 0 <= i < items@.len() ==> items@[i] is Some),
        r matches Some(ts) ==> ts@.len() == items@.len() && forall|i: int|
            0 <= i < items@.len() ==> ts@[i] == items@[i]->0,
{
    let mut out: Vec<String> = Vec::new();
    let n = items.len();
    let mut i: usize = 0;
    while i < n
        invariant
            i <= n,
            n == items@.len(),
            out@.len() == i,
            forall|j: int| 0 <= j < i ==> items@[j] is Some,
            forall|j: int| 0 <= j < i ==> out@[j] == items@[j]->0,
        decreases n - i,
    {
        match &items[i] {
            Some(s) => out.push(s.clone()),
            None => {
                return None;
            },
        }
        i = i + 1;
    }
    Some(out)
}

/// The kind a present `kind` entry resolves to: its named kind when the entry
/// is text naming one, a schema error otherwise.
pub fn resolve_kind(text: Option<String>) -> (r: Result<DocKind, Error>)
    ensures
        match text {
            Some(s) => r == (match kind_of_text(s@) {
                Some(k) => Ok::<DocKind, Error>(k),
                None => Err::<DocKind, Error>(Error::Schema { field: SchemaField::Kind }),
            }),
            None => r == Err::<DocKind, Error>(Error::Schema { field: SchemaField::Kind }),
        },
{
    match text {
        Some(s) => match parse_kind(s.as_str()) {
            Some(k) => Ok(k),
            None => Err(Error::Schema { field: SchemaField::Kind }),
        },
        None => Err(Error::Schema { field: SchemaField::Kind }),
    }
}

/// The genre a present `genre` entry resolves to: its named genre when the
/// entry is text naming one, a schema error otherwise.
pub fn resolve_genre(text: Option<String>) -> (r: Result<DocGenre, Error>)
    ensures
        match text {
            Some(s) => r == (match genre_of_text(s@) {
                Some(g) => Ok::<DocGenre, Error>(g),
                None => Err::<DocGenre, Error>(Error::Schema { field: SchemaField::Genre }),
            }),
            None => r == Err::<DocGenre, Error>(Error::Schema { field: SchemaField::Genre }),
        },
{
    match text {
        Some(s) => match parse_genre(s.as_str()) {
            Some(g) => Ok(g),
            None => Err(Error::Schema { field: SchemaField::Genre }),
        },
        None => Err(Error::Schema { field: SchemaField::Genre }),
    }
}

/// An author record from a structured value.
fn author_from_value(v: &serde_yaml::Value) -> (r: Option<Author>)
    ensures
        match r {
            Some(a) => spec_author(*v) == Some(a@),
            None => spec_author(*v) is None,
        },
{
    let fullname = get_text(v, "fullname");
    let resource = get_text(v, "resource");
    author_from_parts(fullname, resource)
}

/// An author record under a mapping's `author` key.
fn author_from_entry(v: &serde_yaml::Value) -> (r: Option<Author>)
    ensures
        match r {
            Some(a) => spec_author_entry(*v) == Some(a@),
            None => spec_author_entry(*v) is None,
        },
{
    match get_key(v, "author") {
        Some(av) => author_from_value(av),
        None => None,
    }
}

/// An image record from a structured value.
fn image_from_value(v: &serde_yaml::Value) -> (r: Option<Image>)
    ensures
        match r {
            Some(im) => spec_image(*v) == Some(im@),
            None => spec_image(*v) is None,
        },
{
    let author = author_from_entry(v);
    let title = get_text(v, "title");
    let resource = get_text(v, "resource");
    image_from_parts(title, resource, author)
}

/// The tag list from a structured value.
fn tags_from_value(v: &serde_yaml::Value) -> (r: Option<Vec<String>>)
    ensures
        match r {
            Some(ts) => spec_tags(*v) == Some(ts.deep_view()),
            None => spec_tags(*v) is None,
        },
{
    match as_items(v) {
        Some(items) => {
            let n = items.len();
            let mut collected: Vec<Option<String>> = Vec::new();
            let mut i: usize = 0;
            while i < n
                invariant
                    i <= n,
                    n == items@.len(),
                    collected@.len() == i,
                    forall|j: int|
                        0 <= j < i ==> ((#[trigger] collected@[j]) is Some == text_of(
                            items@[j],
                        ) is Some),
                    forall|j: int|
                        0 <= j < i ==> ((#[trigger] collected@[j]) matches Some(s) ==> text_of(
                            items@[j],
                        ) == Some(s@)),
                decreases n - i,
            {
                collected.push(as_text(&items[i]));
                i = i + 1;
            }
            let r = tags_from_items(collected);
            proof {
                if r is Some {
                    let ts = r->0;
                    assert forall|k: int|
                        0 <= k < items@.len() implies (#[trigger] text_of(items@[k])) is Some by {
                        assert(collected@[k] is Some);
                    }
                    assert forall|k: int|
                        0 <= k < items@.len() implies ts.deep_view()[k] == text_of(
                        items@[k],
                    )->0 by {
                        assert(collected@[k] is Some);
                        assert(ts@[k] == collected@[k]->0);
                        assert(ts.deep_view()[k] == ts@[k]@);
                    }
                    assert(ts.deep_view() =~= Seq::new(
                        items@.len(),
                        |j: int| text_of(items@[j])->0,
                    ));
                } else {
                    let j = choose|j: int|
                        0 <= j < collected@.len() && !((#[trigger] collected@[j]) is Some);
                    assert(text_of(items@[j]) is None);
                }
            }
            r
        },
        None => None,
    }
}

/// The tag list under a mapping's `tags` key.
fn tags_from_entry(v: &serde_yaml::Value) -> (r: Option<Vec<String>>)
    ensures
        match r {
            Some(ts) => spec_tags_entry(*v) == Some(ts.deep_view()),
            None => spec_tags_entry(*v) is None,
        },
{
    match get_key(v, "tags") {
        Some(tv) => tags_from_value(tv),
        None => None,
    }
}

/// Validates a structured metadata value against the front-matter schema:
/// returns exactly the front matter, or exactly the schema error, that
/// `spec_front` assigns to the value.
pub fn front_from_value(v: &serde_yaml::Value) -> (r: Result<Front, Error>)
    ensures
        match spec_front(*v) {
            Ok(fv) => r matches Ok(f) && f@ == fv,
            Err(field) => r == Err::<Front, Error>(Error::Schema { field }),
        },
{
    let title = match get_text(v, "title") {
        Some(t) => t,
        None => {
            return Err(Error::Schema { field: SchemaField::Title });
        },
    };
    let outline = match get_text(v, "abstract") {
        Some(o) => o,
        None => {
            return Err(Error::Schema { field: SchemaField::Outline });
        },
    };
    let author = match author_from_entry(v) {
        Some(a) => a,
        None => {
            return Err(Error::Schema { field: SchemaField::Author });
        },
    };
    let tags = match tags_from_entry(v) {
        Some(ts) => ts,
        None => {
            return Err(Error::Schema { field: SchemaField::Tags });
        },
    };
    let image = match get_key(v, "image") {
        Some(iv) => match image_from_value(iv) {
            Some(im) => im,
            None => {
                return Err(Error::Schema { field: SchemaField::Image });
            },
        },
        None => {
            return Err(Error::Schema { field: SchemaField::Image });
        },
    };
    let kind = match get_key(v, "kind") {
        Some(kv) => match resolve_kind(as_text(kv)) {
            Ok(k) => k,
            Err(e) => {
                return Err(e);
            },
        },
        None => default_kind(),
    };
    let genre = match get_key(v, "genre") {
        Some(gv) => match resolve_genre(as_text(gv)) {
            Ok(g) => g,
            Err(e) => {
                return Err(e);
            },
        },
        None => default_genre(),
    };
    Ok(Front { title, outline, author, tags, image, kind, genre })
}

/// Validates the raw metadata block: reads it as structured text, then
/// applies the schema. A block the reader cannot parse is a syntax error;
/// otherwise the result is exactly what `spec_front` assigns.
pub fn front_from_text(meta: &str) -> (r: Result<Front, Error>)
    ensures
        match yaml_of(meta@) {
            None => r == Err::<Front, Error>(Error::Schema { field: SchemaField::Syntax }),
            Some(v) => match spec_front(v) {
                Ok(fv) => r matches Ok(f) && f@ == fv,
                Err(field) => r == Err::<Front, Error>(Error::Schema { field }),
            },
        },
{
    match parse_metadata(meta) {
        Some(v) => front_from_value(&v),
        None => Err(Error::Schema { field: SchemaField::Syntax }),
    }
}

} // verus!
