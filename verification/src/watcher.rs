//! The event-to-document pipeline: classification of raw filesystem
//! notifications into candidate names, and assembly of a candidate file's
//! text into a validated document record.

use vstd::prelude::*;
use vstd::string::{StrSliceExecFns, StringExecFns};

use crate::error::{Error, MalformedKind, SchemaField};
use crate::front::{front_from_text, spec_front};
use crate::model::{assemble, assembled_view, DocSpec, DocSpecView};
use crate::text::{
    check_uuid, has_md_ext, has_md_extension, is_canonical_uuid, split_document, split_parts, stem,
    stem_of,
};
use crate::yaml::yaml_of;

verus! {

/// A file was modified under the watch root.
pub const MASK_MODIFY: u32 = 0x2;

/// A file or directory was created under the watch root.
pub const MASK_CREATE: u32 = 0x100;

/// A file or directory was deleted under the watch root.
pub const MASK_DELETE: u32 = 0x200;

/// The subject of the event is a directory.
pub const MASK_ISDIR: u32 = 0x4000_0000;

/// One raw filesystem notification: an optional file name and an event-kind
/// bitset.
pub struct Notification {
    pub name: Option<String>,
    pub mask: u32,
}

pub open spec fn has_bit(mask: u32, bit: u32) -> bool {
    mask & bit == bit
}

/// An event kind qualifies when it is no directory event and carries
/// creation, or modification without deletion.
pub open spec fn mask_accepted(mask: u32) -> bool {
    &&& !has_bit(mask, MASK_ISDIR)
    &&& (has_bit(mask, MASK_CREATE) || (has_bit(mask, MASK_MODIFY) && !has_bit(
        mask,
        MASK_DELETE,
    )))
}

/// The candidate a notification classifies to: its name, exactly when a name
/// is present, carries the recognized extension, and the event kind
/// qualifies.
pub open spec fn classified(name: Option<Seq<char>>, mask: u32) -> Option<Seq<char>> {
    match name {
        Some(n) => if has_md_extension(n) && mask_accepted(mask) {
            Some(n)
        } else {
            None
        },
        None => None,
    }
}

/// Maps one raw notification to an optional candidate name. Pure: deletions,
/// directory events, unrecognized extensions and unrecognized masks all
/// yield nothing.
pub fn classify(n: Notification) -> (r: Option<String>)
    ensures
        r.deep_view() == classified(n.name.deep_view(), n.mask),
{
    match n.name {
        Some(name) => {
            if has_md_ext(name.as_str()) {
                let m = n.mask;
                if m & MASK_CREATE == MASK_CREATE {
                    if m & MASK_ISDIR == MASK_ISDIR {
                        None
                    } else {
                        Some(name)
                    }
                } else if m & MASK_DELETE == MASK_DELETE {
                    None
                } else if m & MASK_MODIFY == MASK_MODIFY {
                    if m & MASK_ISDIR == MASK_ISDIR {
                        None
                    } else {
                        Some(name)
                    }
                } else {
                    None
                }
            } else {
                None
            }
        },
        None => None,
    }
}

/// A notification whose name lacks the recognized extension is never
/// classified, whatever its mask.
pub proof fn lemma_classify_requires_extension(name: Seq<char>, mask: u32)
    requires
        !has_md_extension(name),
    ensures
        classified(Some(name), mask) is None,
{
}

/// A directory notification is never classified, regardless of its extension
/// and of any creation or modification bits.
pub proof fn lemma_classify_rejects_directories(name: Option<Seq<char>>, mask: u32)
    requires
        has_bit(mask, MASK_ISDIR),
    ensures
        classified(name, mask) is None,
{
}

/// A notification carrying only the delete bit is never classified.
pub proof fn lemma_classify_rejects_bare_delete(name: Option<Seq<char>>)
    ensures
        classified(name, MASK_DELETE) is None,
{
    assert(0x200u32 & 0x100u32 != 0x100u32) by (bit_vector);
    assert(0x200u32 & 0x2u32 != 0x2u32) by (bit_vector);
}

/// Any candidate the classifier yields carries the document extension, which
/// is all `document_from_text` requires of its input: the two stages compose
/// into a stream with no further check between them.
pub proof fn lemma_candidate_feeds_assembler(name: Option<Seq<char>>, mask: u32)
    ensures
        classified(name, mask) matches Some(c) ==> has_md_extension(c),
{
}

/// The outcome a candidate name and a file text determine: no document for
/// an empty read; a malformed-document error for fewer than two delimiter
/// occurrences or a base name that is no canonical UUID; the metadata
/// block's schema error where `spec_front` reports one; otherwise the record
/// assembled from the base name, the decoded front matter, and the text
/// after the second delimiter, verbatim.
pub open spec fn document_outcome(name: Seq<char>, text: Seq<char>) -> Result<
    Option<DocSpecView>,
    Error,
> {
    if text.len() == 0 {
        Ok(None)
    } else {
        match split_parts(text) {
            None => Err(
                Error::MalformedDocument {
                    kind: MalformedKind::TooFewSegments { length: text.len() as usize },
                },
            ),
            Some(p) => if !is_canonical_uuid(stem_of(name)) {
                Err(Error::MalformedDocument { kind: MalformedKind::InvalidIdentifier })
            } else {
                match yaml_of(p.1) {
                    None => Err(Error::Schema { field: SchemaField::Syntax }),
                    Some(v) => match spec_front(v) {
                        Err(field) => Err(Error::Schema { field }),
                        Ok(fv) => Ok(Some(assembled_view(stem_of(name), fv, p.2))),
                    },
                }
            },
        }
    }
}

/// Assembles the document a candidate file's text encodes: exactly the
/// record, the absence, or the error that `document_outcome` assigns to the
/// name and the text.
pub fn document_from_text(name: &str, text: &str) -> (r: Result<Option<DocSpec>, Error>)
    requires
        has_md_extension(name@),
    ensures
        match document_outcome(name@, text@) {
            Ok(Some(dv)) => r matches Ok(od) && od matches Some(d) && d@ == dv,
            Ok(None) => r == Ok::<Option<DocSpec>, Error>(None),
            Err(e) => r == Err::<Option<DocSpec>, Error>(e),
        },
        r matches Err(e) ==> (e is MalformedDocument || e is Schema) && e.is_recoverable(),
        r matches Ok(od) ==> (od matches Some(d) ==> d.wf() && d.id@ == stem_of(name@)),
{
    let len = text.unicode_len();
    if len == 0 {
        return Ok(None);
    }
    match split_document(text) {
        None => Err(
            Error::MalformedDocument { kind: MalformedKind::TooFewSegments { length: len } },
        ),
        Some((meta, content)) => {
            let base = stem(name);
            if !check_uuid(base) {
                return Err(Error::MalformedDocument { kind: MalformedKind::InvalidIdentifier });
            }
            let front = match front_from_text(meta) {
                Ok(f) => f,
                Err(e) => {
                    return Err(e);
                },
            };
            let id = String::from_str(base);
            let body = content.to_owned();
            Ok(Some(assemble(id, front, body)))
        },
    }
}

/// Re-processing is deterministic: the outcome is a function of the
/// candidate name and the file text alone, so two runs over identical
/// content yield structurally equal records, the same absence, or the same
/// error, and share no state.
pub proof fn lemma_reprocessing_deterministic(
    name1: Seq<char>,
    text1: Seq<char>,
    name2: Seq<char>,
    text2: Seq<char>,
)
    requires
        name1 == name2,
        text1 == text2,
    ensures
        document_outcome(name1, text1) == document_outcome(name2, text2),
{
}

/// What a filled path looks like: the root, a separator when the root does
/// not already end in one, then the name.
pub open spec fn joined(root: Seq<char>, name: Seq<char>) -> Seq<char> {
    if root.len() > 0 && root[root.len() - 1] == '/' {
        root + name
    } else {
        root + "/"@ + name
    }
}

/// Watches one directory for document changes; holds the configured watch
/// root that candidate names are resolved against.
pub struct Watcher {
    path: String,
}

impl Watcher {
    /// The configured watch root.
    pub closed spec fn root(&self) -> Seq<char> {
        self.path@
    }

    pub fn new(path: String) -> (r: Watcher)
        ensures
            r.root() == path@,
    {
        Watcher { path }
    }

    /// Resolves a candidate name against the watch root.
    pub fn full_path(&self, name: &str) -> (r: String)
        ensures
            r@ == joined(self.root(), name@),
    {
        let n = self.path.as_str().unicode_len();
        let mut out = self.path.clone();
        if n == 0 || self.path.as_str().get_char(n - 1) != '/' {
            out.append("/");
        }
        out.append(name);
        out
    }
}

} // verus!
