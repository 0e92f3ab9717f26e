//! Reading a folder identifier out of what the user gave: a link to the folder in
//! one of two forms, or the identifier itself.

use vstd::prelude::*;
use crate::text::{before_first, chars_of, contains_str, find_in, first_occurrence, is_cut, is_first_occurrence, lemma_cut_is, lemma_cut_exists, lemma_first_occurrence_is, matches_at, occurs_at, scan_to};

verus! {

/// The path segment before the identifier in a link to a folder.
pub const FOLDERS_SEGMENT: &'static str = "folders/";

/// The same segment with the separator that stands before it inside a path.
pub const FOLDERS_MARKER: &'static str = "/folders/";

/// The marker before the identifier in a link with a query.
pub const ID_MARKER: &'static str = "id=";

/// A `folders` segment starts at `at`: `folders/` stands there, and that is the start
/// of the source or the place behind a `/`.
pub open spec fn is_folders_segment(source: Seq<char>, at: int) -> bool {
    occurs_at(source, FOLDERS_SEGMENT@, at) && (at == 0 || source[at - 1] == '/')
}

/// `source` starts with the segment `folders/`.
pub open spec fn starts_with_folders(source: Seq<char>) -> bool {
    occurs_at(source, FOLDERS_SEGMENT@, 0)
}

/// `source` holds a `folders` segment: inside, as `/folders/`, or at its start.
pub open spec fn has_folders_segment(source: Seq<char>) -> bool {
    contains_str(source, FOLDERS_MARKER@) || starts_with_folders(source)
}

/// Where the identifier of a folder link starts: behind the leftmost `/folders/`,
/// or, in a source that holds none, behind the `folders/` that it starts with.
pub open spec fn folders_id_start(source: Seq<char>) -> int {
    if contains_str(source, FOLDERS_MARKER@) {
        first_occurrence(source, FOLDERS_MARKER@)->0 + FOLDERS_MARKER@.len()
    } else {
        FOLDERS_SEGMENT@.len() as int
    }
}

/// What follows the leftmost `marker` in `source`.
pub open spec fn after_marker(source: Seq<char>, marker: Seq<char>) -> Seq<char> {
    source.skip(first_occurrence(source, marker)->0 + marker.len())
}

/// The folder identifier that `source` holds. The first rule that applies decides:
/// behind the `folders` segment that decides, up to the next `/` or `?`; behind the
/// leftmost `id=`, up to the next `&`; else all of `source`. Of several `folders`
/// segments the leftmost `/folders/` decides, and one at the start of the source
/// only where no `/folders/` follows.
pub open spec fn folder_id(source: Seq<char>) -> Seq<char> {
    if has_folders_segment(source) {
        before_first(source.skip(folders_id_start(source)), '/', '?')
    } else if contains_str(source, ID_MARKER@) {
        before_first(after_marker(source, ID_MARKER@), '&', '&')
    } else {
        source
    }
}

/// Behind the first character of a path, a `folders` segment starts where `folders/`
/// stands behind a `/`: one place behind a `/folders/`.
pub proof fn lemma_segment_behind_separator(source: Seq<char>, at: int)
    requires
        0 <= at,
    ensures
        occurs_at(source, FOLDERS_MARKER@, at) <==> is_folders_segment(source, at + 1),
{
    reveal_strlit("folders/");
    reveal_strlit("/folders/");
    let segment = FOLDERS_SEGMENT@;
    let marker = FOLDERS_MARKER@;
    assert(segment.len() == 8 && marker.len() == 9);
    assert(marker =~= seq!['/'] + segment);
    if occurs_at(source, marker, at) {
        let window = source.subrange(at, at + 9);
        assert(window[0] == source[at]);
        assert(source.subrange(at + 1, at + 9) =~= window.subrange(1, 9));
        assert(window.subrange(1, 9) =~= segment);
    }
    if is_folders_segment(source, at + 1) {
        let inner = source.subrange(at + 1, at + 9);
        assert(forall|j: int| 0 <= j < 8 ==> inner[j] == source[at + 1 + j]);
        assert(source.subrange(at, at + 9) =~= marker);
    }
}

/// A source holds a `folders` segment exactly where `folders/` stands at its start or
/// behind a `/`.
pub proof fn law_folders_segment_forms(source: Seq<char>)
    ensures
        has_folders_segment(source) <==> exists|at: int| is_folders_segment(source, at),
{
    if exists|at: int| is_folders_segment(source, at) {
        let at = choose|at: int| is_folders_segment(source, at);
        if at != 0 {
            lemma_segment_behind_separator(source, at - 1);
            assert(occurs_at(source, FOLDERS_MARKER@, at - 1));
        }
    }
    if starts_with_folders(source) {
        assert(is_folders_segment(source, 0));
    }
    if contains_str(source, FOLDERS_MARKER@) {
        let q = choose|q: int| occurs_at(source, FOLDERS_MARKER@, q);
        lemma_segment_behind_separator(source, q);
        assert(is_folders_segment(source, q + 1));
    }
}

/// Where the identifier of a folder link starts in `source`, if it holds a `folders`
/// segment.
pub fn find_folders_id(source: &Vec<char>) -> (found: Option<usize>)
    ensures
        found is Some <==> has_folders_segment(source@),
        found is Some ==> found->0 == folders_id_start(source@),
        found is Some ==> found->0 <= source@.len(),
{
    let len: usize = source.len();
    let marker = chars_of(FOLDERS_MARKER);
    match find_in(source, &marker) {
        Some(at) => {
            assert(at + marker.len() <= len) by {
                assert(occurs_at(source@, marker@, at as int));
            }
            return Some(at + marker.len());
        },
        None => {},
    }
    let segment = chars_of(FOLDERS_SEGMENT);
    if matches_at(source, &segment, 0) {
        Some(segment.len())
    } else {
        None
    }
}

/// Reads the folder identifier out of a link or takes `source` as the identifier.
/// Never fails, and does not look at what the identifier is made of.
pub fn parse_gdrive_id(source: &str) -> (id: String)
    ensures
        id@ == folder_id(source@),
{
    let chars = chars_of(source);
    let len: usize = chars.len();
    match find_folders_id(&chars) {
        Some(from) => {
            let end: usize = scan_to(&chars, from, '/', '?');
            return source.substring_char(from, end).to_owned();
        },
        None => {},
    }
    let id_marker = chars_of(ID_MARKER);
    match find_in(&chars, &id_marker) {
        Some(start) => {
            assert(start + id_marker.len() <= len) by {
                assert(occurs_at(chars@, id_marker@, start as int));
            }
            let from: usize = start + id_marker.len();
            let end: usize = scan_to(&chars, from, '&', '&');
            return source.substring_char(from, end).to_owned();
        },
        None => {},
    }
    String::from_str(source)
}

/// In a source that holds `/folders/`, the identifier is what stands between the
/// leftmost `/folders/` and the next `/` or `?`, or the end of the source where
/// neither follows.
pub proof fn law_folders_link(source: Seq<char>, start: int, end: int)
    requires
        is_first_occurrence(source, FOLDERS_MARKER@, start),
        start + FOLDERS_MARKER@.len() <= end <= source.len(),
        forall|j: int|
            start + FOLDERS_MARKER@.len() <= j < end ==> source[j] != '/' && source[j] != '?',
        end < source.len() ==> source[end] == '/' || source[end] == '?',
    ensures
        folder_id(source) == source.subrange(start + FOLDERS_MARKER@.len(), end),
{
    let from = start + FOLDERS_MARKER@.len();
    lemma_first_occurrence_is(source, FOLDERS_MARKER@, start);
    let rest = source.skip(from);
    assert(is_cut(rest, '/', '?', end - from));
    lemma_cut_is(rest, '/', '?', end - from);
    assert(rest.take(end - from) =~= source.subrange(from, end));
}

/// In a source that starts with `folders/` and holds no `/folders/`, the identifier
/// is what stands between that start and the next `/` or `?`, or the end of the
/// source where neither follows.
pub proof fn law_leading_folders(source: Seq<char>, end: int)
    requires
        starts_with_folders(source),
        !contains_str(source, FOLDERS_MARKER@),
        FOLDERS_SEGMENT@.len() <= end <= source.len(),
        forall|j: int| FOLDERS_SEGMENT@.len() <= j < end ==> source[j] != '/' && source[j] != '?',
        end < source.len() ==> source[end] == '/' || source[end] == '?',
    ensures
        folder_id(source) == source.subrange(FOLDERS_SEGMENT@.len() as int, end),
{
    let from = FOLDERS_SEGMENT@.len() as int;
    let rest = source.skip(from);
    assert(is_cut(rest, '/', '?', end - from));
    lemma_cut_is(rest, '/', '?', end - from);
    assert(rest.take(end - from) =~= source.subrange(from, end));
}

/// In a source that holds `id=` and no `folders` segment, the identifier is what
/// stands between the leftmost `id=` and the next `&`, or the end of the source
/// where none follows.
pub proof fn law_id_link(source: Seq<char>, start: int, end: int)
    requires
        !has_folders_segment(source),
        is_first_occurrence(source, ID_MARKER@, start),
        start + ID_MARKER@.len() <= end <= source.len(),
        forall|j: int| start + ID_MARKER@.len() <= j < end ==> source[j] != '&',
        end < source.len() ==> source[end] == '&',
    ensures
        folder_id(source) == source.subrange(start + ID_MARKER@.len(), end),
{
    let from = start + ID_MARKER@.len();
    lemma_first_occurrence_is(source, ID_MARKER@, start);
    let rest = source.skip(from);
    assert(is_cut(rest, '&', '&', end - from));
    lemma_cut_is(rest, '&', '&', end - from);
    assert(rest.take(end - from) =~= source.subrange(from, end));
}

/// A source that holds neither a `folders` segment nor `id=` is its own identifier.
pub proof fn law_bare_id(source: Seq<char>)
    requires
        !has_folders_segment(source),
        !contains_str(source, ID_MARKER@),
    ensures
        folder_id(source) == source,
{
}

/// The identifier of a folder link holds neither `/` nor `?`.
pub proof fn law_folders_id_is_one_segment(source: Seq<char>)
    requires
        has_folders_segment(source),
    ensures
        !folder_id(source).contains('/'),
        !folder_id(source).contains('?'),
{
    let rest = source.skip(folders_id_start(source));
    lemma_cut_exists(rest, '/', '?');
    let id = folder_id(source);
    assert(forall|j: int| 0 <= j < id.len() ==> id[j] == rest[j]);
}

} // verus!
