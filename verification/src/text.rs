//! Verified text utilities: character-level string comparison, extension
//! handling, delimiter search, and identifier syntax checks.

use vstd::prelude::*;
use vstd::string::StrSliceExecFns;

verus! {

/// Character-by-character equality of two string slices.
pub fn str_eq(a: &str, b: &str) -> (r: bool)
    ensures
        r == (a@ == b@),
{
    let alen = a.unicode_len();
    let blen = b.unicode_len();
    if alen != blen {
        return false;
    }
    let mut i: usize = 0;
    while i < alen
        invariant
            alen == a@.len(),
            blen == b@.len(),
            alen == blen,
            i <= alen,
            forall|j: int| 0 <= j < i ==> a@[j] == b@[j],
        decreases alen - i,
    {
        if a.get_char(i) != b.get_char(i) {
            return false;
        }
        i = i + 1;
    }
    proof {
        assert(a@ =~= b@);
    }
    true
}

/// Index of the last `'.'` in `s`, or `-1` when `s` holds none.
pub open spec fn last_dot(s: Seq<char>) -> int
    decreases s.len(),
{
    if s.len() == 0 {
        -1
    } else if s[s.len() - 1] == '.' {
        s.len() - 1
    } else {
        last_dot(s.drop_last())
    }
}

pub proof fn lemma_last_dot(s: Seq<char>)
    ensures
        -1 <= last_dot(s) < s.len(),
        last_dot(s) >= 0 ==> s[last_dot(s)] == '.',
        forall|i: int| last_dot(s) < i < s.len() ==> s[i] != '.',
    decreases s.len(),
{
    if s.len() > 0 && s[s.len() - 1] != '.' {
        lemma_last_dot(s.drop_last());
        assert forall|i: int| last_dot(s) < i < s.len() implies s[i] != '.' by {
            if i < s.len() - 1 {
                assert(s[i] == s.drop_last()[i]);
            }
        }
    }
}

pub proof fn lemma_last_dot_at(s: Seq<char>, k: int)
    requires
        0 <= k < s.len(),
        s[k] == '.',
        forall|j: int| k < j < s.len() ==> s[j] != '.',
    ensures
        last_dot(s) == k,
    decreases s.len(),
{
    if k < s.len() - 1 {
        lemma_last_dot_at(s.drop_last(), k);
    }
}

/// A name carries the recognized document extension exactly when it ends in
/// `".md"` with the dot not in first position, and that dot is its last one.
pub open spec fn has_md_extension(s: Seq<char>) -> bool {
    &&& s.len() >= 4
    &&& last_dot(s) == s.len() - 3
    &&& s[s.len() - 2] == 'm'
    &&& s[s.len() - 1] == 'd'
}

pub fn has_md_ext(s: &str) -> (r: bool)
    ensures
        r == has_md_extension(s@),
{
    let n = s.unicode_len();
    if n < 4 {
        proof {
            lemma_last_dot(s@);
        }
        return false;
    }
    let dot = s.get_char(n - 3);
    let m = s.get_char(n - 2);
    let d = s.get_char(n - 1);
    let r = dot == '.' && m == 'm' && d == 'd';
    proof {
        if r {
            lemma_last_dot_at(s@, n - 3);
        } else {
            lemma_last_dot(s@);
        }
    }
    r
}

/// The base name: everything before the last dot.
pub open spec fn stem_of(s: Seq<char>) -> Seq<char> {
    s.subrange(0, last_dot(s))
}

/// Extracts the base name of a name that carries the document extension.
pub fn stem(s: &str) -> (r: &str)
    requires
        has_md_extension(s@),
    ensures
        r@ == stem_of(s@),
{
    let n = s.unicode_len();
    s.substring_char(0, n - 3)
}

/// The three-character front-matter delimiter `---` starts at index `i`.
pub open spec fn has_delim_at(s: Seq<char>, i: int) -> bool {
    &&& 0 <= i
    &&& i + 3 <= s.len()
    &&& s[i] == '-'
    &&& s[i + 1] == '-'
    &&& s[i + 2] == '-'
}

/// Index of the first delimiter occurrence at or after `from`, scanning left
/// to right (as non-overlapping splitting does), or `None`.
pub open spec fn find_delim(s: Seq<char>, from: int) -> Option<int>
    decreases s.len() - from,
{
    if from + 3 > s.len() {
        None
    } else if has_delim_at(s, from) {
        Some(from)
    } else {
        find_delim(s, from + 1)
    }
}

pub proof fn lemma_find_delim_none(s: Seq<char>, from: int, k: int)
    requires
        find_delim(s, from) is None,
        from <= k,
    ensures
        !has_delim_at(s, k),
    decreases k - from,
{
    if from < k {
        if from + 3 > s.len() {
        } else {
            lemma_find_delim_none(s, from + 1, k);
        }
    }
}

pub proof fn lemma_find_delim_some(s: Seq<char>, from: int, i: int)
    requires
        find_delim(s, from) == Some(i),
    ensures
        from <= i,
        has_delim_at(s, i),
        forall|k: int| from <= k < i ==> !has_delim_at(s, k),
    decreases s.len() - from,
{
    if from + 3 <= s.len() && !has_delim_at(s, from) {
        lemma_find_delim_some(s, from + 1, i);
    }
}

/// The three segments of a well-delimited text: the ignored prefix before the
/// first delimiter, the metadata block between the first and the second, and
/// the content after the second.
pub open spec fn split_parts(s: Seq<char>) -> Option<(Seq<char>, Seq<char>, Seq<char>)> {
    match find_delim(s, 0) {
        None => None,
        Some(i) => match find_delim(s, i + 3) {
            None => None,
            Some(j) => Some(
                (s.subrange(0, i), s.subrange(i + 3, j), s.subrange(j + 3, s.len() as int)),
            ),
        },
    }
}

/// Finds the first delimiter occurrence at or after `from`.
pub fn find_delim_from(s: &str, from: usize) -> (r: Option<usize>)
    requires
        from <= s@.len(),
    ensures
        match r {
            Some(i) => find_delim(s@, from as int) == Some(i as int),
            None => find_delim(s@, from as int) is None,
        },
{
    let n = s.unicode_len();
    if n < 3 || from > n - 3 {
        return None;
    }
    let mut i: usize = from;
    while i <= n - 3
        invariant
            n == s@.len(),
            n >= 3,
            from <= i <= n - 3 + 1,
            find_delim(s@, from as int) == find_delim(s@, i as int),
        decreases n - i,
    {
        let c0 = s.get_char(i);
        let c1 = s.get_char(i + 1);
        let c2 = s.get_char(i + 2);
        if c0 == '-' && c1 == '-' && c2 == '-' {
            return Some(i);
        }
        i = i + 1;
    }
    None
}

/// Splits a text into its metadata block and its content, when the delimiter
/// occurs at least twice; the prefix before the first delimiter is dropped.
pub fn split_document(s: &str) -> (r: Option<(&str, &str)>)
    ensures
        match r {
            Some(parts) => split_parts(s@) matches Some(p) && parts.0@ == p.1 && parts.1@ == p.2,
            None => split_parts(s@) is None,
        },
{
    let n = s.unicode_len();
    let first = find_delim_from(s, 0);
    match first {
        None => None,
        Some(i) => {
            proof {
                lemma_find_delim_some(s@, 0, i as int);
            }
            let second = find_delim_from(s, i + 3);
            match second {
                None => None,
                Some(j) => {
                    proof {
                        lemma_find_delim_some(s@, i + 3, j as int);
                    }
                    let meta = s.substring_char(i + 3, j);
                    let content = s.substring_char(j + 3, n);
                    Some((meta, content))
                },
            }
        },
    }
}

/// A left-to-right non-overlapping scan finds exactly two delimiter
/// occurrences: the text splits, and no occurrence follows the second.
pub open spec fn exactly_two_delims(s: Seq<char>) -> bool {
    &&& split_parts(s) is Some
    &&& find_delim(s, find_delim(s, find_delim(s, 0)->0 + 3)->0 + 3) is None
}

/// In a text whose left-to-right scan finds exactly two delimiter
/// occurrences, the content segment never contains the delimiter.
pub proof fn lemma_content_free_of_delimiter(s: Seq<char>)
    requires
        exactly_two_delims(s),
    ensures
        split_parts(s) matches Some(p) ==> forall|k: int| !has_delim_at(p.2, k),
{
    let i = find_delim(s, 0)->0;
    let j = find_delim(s, i + 3)->0;
    lemma_find_delim_some(s, 0, i);
    lemma_find_delim_some(s, i + 3, j);
    let p = split_parts(s)->0;
    assert forall|k: int| !has_delim_at(p.2, k) by {
        if has_delim_at(p.2, k) {
            lemma_find_delim_none(s, j + 3, j + 3 + k);
            assert(p.2[k] == s[j + 3 + k]);
            assert(p.2[k + 1] == s[j + 3 + k + 1]);
            assert(p.2[k + 2] == s[j + 3 + k + 2]);
        }
    }
}

pub open spec fn is_hex_digit(c: char) -> bool {
    ('0' <= c && c <= '9') || ('a' <= c && c <= 'f') || ('A' <= c && c <= 'F')
}

/// What may stand at position `i` of a canonical UUID.
pub open spec fn is_uuid_char(i: int, c: char) -> bool {
    if i == 8 || i == 13 || i == 18 || i == 23 {
        c == '-'
    } else {
        is_hex_digit(c)
    }
}

/// Canonical (hyphenated, 8-4-4-4-12) UUID syntax.
pub open spec fn is_canonical_uuid(s: Seq<char>) -> bool {
    s.len() == 36 && forall|i: int| 0 <= i < 36 ==> is_uuid_char(i, #[trigger] s[i])
}

pub fn check_uuid(s: &str) -> (r: bool)
    ensures
        r == is_canonical_uuid(s@),
{
    let n = s.unicode_len();
    if n != 36 {
        return false;
    }
    let mut i: usize = 0;
    while i < 36
        invariant
            s@.len() == 36,
            i <= 36,
            forall|j: int| 0 <= j < i ==> is_uuid_char(j, #[trigger] s@[j]),
        decreases 36 - i,
    {
        let c = s.get_char(i);
        let ok = if i == 8 || i == 13 || i == 18 || i == 23 {
            c == '-'
        } else {
            ('0' <= c && c <= '9') || ('a' <= c && c <= 'f') || ('A' <= c && c <= 'F')
        };
        if !ok {
            return false;
        }
        i = i + 1;
    }
    true
}

} // verus!
