//! The document data model: kind and genre enumerations, author and image
//! records, front matter, and the fully assembled document specification.

use vstd::prelude::*;

use crate::text::{is_canonical_uuid, str_eq};

verus! {

#[derive(Debug, Clone, Copy, PartialEq, Eq, Structural)]
pub enum DocKind {
    Doc,
    Post,
}

#[derive(Debug, Clone, Copy, PartialEq, Eq, Structural)]
pub enum DocGenre {
    Tutorial,
    Howto,
    Background,
    Reference,
}

/// The kind a document takes when its front matter names none.
pub fn default_kind() -> (r: DocKind)
    ensures
        r == DocKind::Doc,
{
    DocKind::Doc
}

/// The genre a document takes when its front matter names none.
pub fn default_genre() -> (r: DocGenre)
    ensures
        r == DocGenre::Tutorial,
{
    DocGenre::Tutorial
}

/// The kind named by a front-matter text value (case-sensitive), if any.
pub open spec fn kind_of_text(s: Seq<char>) -> Option<DocKind> {
    if s == "doc"@ {
        Some(DocKind::Doc)
    } else if s == "post"@ {
        Some(DocKind::Post)
    } else {
        None
    }
}

pub fn parse_kind(s: &str) -> (r: Option<DocKind>)
    ensures
        r == kind_of_text(s@),
{
    if str_eq(s, "doc") {
        Some(DocKind::Doc)
    } else if str_eq(s, "post") {
        Some(DocKind::Post)
    } else {
        None
    }
}

/// The genre named by a front-matter text value (case-sensitive), if any.
pub open spec fn genre_of_text(s: Seq<char>) -> Option<DocGenre> {
    if s == "tutorial"@ {
        Some(DocGenre::Tutorial)
    } else if s == "howto"@ {
        Some(DocGenre::Howto)
    } else if s == "background"@ {
        Some(DocGenre::Background)
    } else if s == "reference"@ {
        Some(DocGenre::Reference)
    } else {
        None
    }
}

pub fn parse_genre(s: &str) -> (r: Option<DocGenre>)
    ensures
        r == genre_of_text(s@),
{
    if str_eq(s, "tutorial") {
        Some(DocGenre::Tutorial)
    } else if str_eq(s, "howto") {
        Some(DocGenre::Howto)
    } else if str_eq(s, "background") {
        Some(DocGenre::Background)
    } else if str_eq(s, "reference") {
        Some(DocGenre::Reference)
    } else {
        None
    }
}

#[derive(Debug, PartialEq)]
pub struct Author {
    pub fullname: String,
    pub resource: String,
}

/// The mathematical content of an author record.
pub struct AuthorView {
    pub fullname: Seq<char>,
    pub resource: Seq<char>,
}

impl View for Author {
    type V = AuthorView;

    open spec fn view(&self) -> AuthorView {
        AuthorView { fullname: self.fullname@, resource: self.resource@ }
    }
}

#[derive(Debug, PartialEq)]
pub struct Image {
    pub title: String,
    pub resource: String,
    pub author: Author,
}

/// The mathematical content of an image record.
pub struct ImageView {
    pub title: Seq<char>,
    pub resource: Seq<char>,
    pub author: AuthorView,
}

impl View for Image {
    type V = ImageView;

    open spec fn view(&self) -> ImageView {
        ImageView { title: self.title@, resource: self.resource@, author: self.author@ }
    }
}

/// The validated front-matter block: every field mandatory but `kind` and
/// `genre`, which default.
#[derive(Debug, PartialEq)]
pub struct Front {
    pub title: String,
    pub outline: String,
    pub author: Author,
    pub tags: Vec<String>,
    pub image: Image,
    pub kind: DocKind,
    pub genre: DocGenre,
}

/// The mathematical content of a front-matter block.
pub struct FrontView {
    pub title: Seq<char>,
    pub outline: Seq<char>,
    pub author: AuthorView,
    pub tags: Seq<Seq<char>>,
    pub image: ImageView,
    pub kind: DocKind,
    pub genre: DocGenre,
}

impl View for Front {
    type V = FrontView;

    open spec fn view(&self) -> FrontView {
        FrontView {
            title: self.title@,
            outline: self.outline@,
            author: self.author@,
            tags: self.tags.deep_view(),
            image: self.image@,
            kind: self.kind,
            genre: self.genre,
        }
    }
}

/// The fully assembled, flattened document record handed to the sink.
#[derive(Debug, PartialEq)]
pub struct DocSpec {
    pub id: String,
    pub title: String,
    pub outline: String,
    pub author_fullname: String,
    pub author_resource: String,
    pub tags: Vec<String>,
    pub image_title: String,
    pub image_resource: String,
    pub image_author_fullname: String,
    pub image_author_resource: String,
    pub kind: DocKind,
    pub genre: DocGenre,
    pub content: String,
}

/// The mathematical content of a document record.
pub struct DocSpecView {
    pub id: Seq<char>,
    pub title: Seq<char>,
    pub outline: Seq<char>,
    pub author_fullname: Seq<char>,
    pub author_resource: Seq<char>,
    pub tags: Seq<Seq<char>>,
    pub image_title: Seq<char>,
    pub image_resource: Seq<char>,
    pub image_author_fullname: Seq<char>,
    pub image_author_resource: Seq<char>,
    pub kind: DocKind,
    pub genre: DocGenre,
    pub content: Seq<char>,
}

impl View for DocSpec {
    type V = DocSpecView;

    open spec fn view(&self) -> DocSpecView {
        DocSpecView {
            id: self.id@,
            title: self.title@,
            outline: self.outline@,
            author_fullname: self.author_fullname@,
            author_resource: self.author_resource@,
            tags: self.tags.deep_view(),
            image_title: self.image_title@,
            image_resource: self.image_resource@,
            image_author_fullname: self.image_author_fullname@,
            image_author_resource: self.image_author_resource@,
            kind: self.kind,
            genre: self.genre,
            content: self.content@,
        }
    }
}

impl DocSpec {
    /// A well-formed record carries a canonical UUID as its identifier.
    pub open spec fn wf(&self) -> bool {
        is_canonical_uuid(self.id@)
    }
}

/// A stored document as the sink reports it back.
#[derive(Debug, PartialEq)]
pub struct Doc {
    pub id: String,
    pub front: Front,
    pub content: String,
}

#[derive(Debug, PartialEq)]
pub struct SingleDocResponseBody {
    pub doc: Option<Doc>,
}

#[derive(Debug, PartialEq)]
pub struct DocumentRequestBody {
    pub doc: DocSpec,
}

/// The record assembled from an identifier, a validated front-matter block,
/// and the verbatim content segment.
pub open spec fn assembled(id: String, front: Front, content: String) -> DocSpec {
    DocSpec {
        id,
        title: front.title,
        outline: front.outline,
        author_fullname: front.author.fullname,
        author_resource: front.author.resource,
        tags: front.tags,
        image_title: front.image.title,
        image_resource: front.image.resource,
        image_author_fullname: front.image.author.fullname,
        image_author_resource: front.image.author.resource,
        kind: front.kind,
        genre: front.genre,
        content,
    }
}

/// The same assembly, stated over the mathematical contents alone.
pub open spec fn assembled_view(id: Seq<char>, front: FrontView, content: Seq<char>) -> DocSpecView {
    DocSpecView {
        id,
        title: front.title,
        outline: front.outline,
        author_fullname: front.author.fullname,
        author_resource: front.author.resource,
        tags: front.tags,
        image_title: front.image.title,
        image_resource: front.image.resource,
        image_author_fullname: front.image.author.fullname,
        image_author_resource: front.image.author.resource,
        kind: front.kind,
        genre: front.genre,
        content,
    }
}

/// Flattens front matter, identifier and content into the sink-ready record.
pub fn assemble(id: String, front: Front, content: String) -> (r: DocSpec)
    ensures
        r == assembled(id, front, content),
        r@ == assembled_view(id@, front@, content@),
{
    DocSpec {
        id,
        title: front.title,
        outline: front.outline,
        author_fullname: front.author.fullname,
        author_resource: front.author.resource,
        tags: front.tags,
        image_title: front.image.title,
        image_resource: front.image.resource,
        image_author_fullname: front.image.author.fullname,
        image_author_resource: front.image.author.resource,
        kind: front.kind,
        genre: front.genre,
        content,
    }
}

/// Record assembly is a pure function of its inputs: two runs over the same
/// identifier text, structurally equal front matter and the same content
/// always yield structurally equal records.
pub proof fn lemma_assembly_deterministic(
    id1: String,
    front1: Front,
    content1: String,
    id2: String,
    front2: Front,
    content2: String,
)
    requires
        id1@ == id2@,
        front1@ == front2@,
        content1@ == content2@,
    ensures
        assembled(id1, front1, content1)@ == assembled(id2, front2, content2)@,
{
}

} // verus!
