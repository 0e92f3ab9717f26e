//! Paths on the local side: where the download goes and where a backup of what it
//! replaces is kept.
//!
//! A path is a text whose components are parted by `/`, the only separator that is
//! known here: a backslash is a character of a name like any other. A path is read
//! as the standard library reads one on a system of that kind. Separators that
//! follow one another count as one, separators at the end count for nothing, and a
//! component `.` is passed over unless the path starts with it. A `/` at the start
//! is the root.

use vstd::prelude::*;
use crate::errors::DownloadError;
use crate::text::{chars_of, lemma_cut_exists, same_text, scan_to};

verus! {

/// The name of the folder that holds the archive.
pub const ARCHIVE_SUBFOLDER: &'static str = "Unofficial-Neuro-Karaoke-Archive";

/// What the name of every backup folder starts with; a timestamp follows it.
pub const BACKUP_PREFIX: &'static str = "Backup-KAR-";

/// `path` starts with a `.` that is a component of its own.
pub open spec fn starts_in_current_dir(path: Seq<char>) -> bool {
    path.len() > 0 && path[0] == '.' && (path.len() == 1 || path[1] == '/')
}

/// Where the body of `path` starts: behind the root, behind a `.` that the path
/// starts with, or at the start. The components that can be passed over or dropped
/// lie in the body.
pub open spec fn body_start(path: Seq<char>) -> int {
    if path.len() > 0 && path[0] == '/' {
        1
    } else if starts_in_current_dir(path) {
        1
    } else {
        0
    }
}

/// The length that is left of the first `end` characters of `path` when what counts
/// for nothing at their end is taken off: separators, and `.` components with the
/// separator before them. Nothing before `start` is taken off.
pub open spec fn kept_len(path: Seq<char>, start: int, end: int) -> int
    decreases end - start,
{
    if end <= start {
        end
    } else if path[end - 1] == '/' {
        kept_len(path, start, end - 1)
    } else if path[end - 1] == '.' && end - 1 == start {
        start
    } else if path[end - 1] == '.' && path[end - 2] == '/' {
        kept_len(path, start, end - 2)
    } else {
        end
    }
}

/// Where the component starts that ends at `end`: behind the last separator before
/// `end`, or at `start` where none stands between the two.
pub open spec fn component_start(path: Seq<char>, start: int, end: int) -> int
    decreases end - start,
{
    if end <= start {
        start
    } else if path[end - 1] == '/' {
        end
    } else {
        component_start(path, start, end - 1)
    }
}

/// The length of `path` without what counts for nothing at its end.
pub open spec fn normal_len(path: Seq<char>) -> int {
    kept_len(path, body_start(path), path.len() as int)
}

/// `path` without what counts for nothing at its end.
pub open spec fn normalised(path: Seq<char>) -> Seq<char> {
    path.take(normal_len(path))
}

/// Where the final component of `path` starts.
pub open spec fn name_start(path: Seq<char>) -> int {
    component_start(path, body_start(path), normal_len(path))
}

/// The final component of `path`; empty where the body of `path` holds none.
pub open spec fn final_component(path: Seq<char>) -> Seq<char> {
    path.subrange(name_start(path), normal_len(path))
}

/// A component that names a file or a folder: not empty, and neither `.` nor `..`.
pub open spec fn is_name(component: Seq<char>) -> bool {
    component.len() > 0 && component != "."@ && component != ".."@
}

/// The name that `path` ends in: its final component, unless that is `..` or the
/// path holds nothing but the root or a `.`.
pub open spec fn final_name(path: Seq<char>) -> Option<Seq<char>> {
    if normal_len(path) > body_start(path) && final_component(path) != ".."@ {
        Some(final_component(path))
    } else {
        None
    }
}

/// The path of the directory that holds the final component of `path`: `path`
/// without that component and without what then counts for nothing at its end. The
/// root is the parent of what stands directly in it, the empty path that of a lone
/// component. A path that is empty or nothing but the root has no parent.
pub open spec fn parent_of(path: Seq<char>) -> Option<Seq<char>> {
    if normal_len(path) > body_start(path) {
        Some(path.take(kept_len(path, body_start(path), name_start(path))))
    } else if starts_in_current_dir(path) {
        Some(Seq::<char>::empty())
    } else {
        None
    }
}

/// `base` with the path `name` behind it: `name` alone where it starts at the root,
/// else the two parted by one separator, which is left out where `base` is empty or
/// ends in one.
pub open spec fn joined(base: Seq<char>, name: Seq<char>) -> Seq<char> {
    if name.len() > 0 && name[0] == '/' {
        name
    } else if base.len() == 0 || base.last() == '/' {
        base + name
    } else {
        base.push('/') + name
    }
}

/// `path` lies below the directory `dir`: it starts with `dir`, read without what
/// counts for nothing at its end, and goes on behind a separator.
pub open spec fn is_inside(path: Seq<char>, dir: Seq<char>) -> bool {
    let d = normalised(dir);
    &&& path.len() > d.len()
    &&& path.take(d.len() as int) == d
    &&& (path[d.len() as int] == '/' || (d.len() > 0 && d.last() == '/'))
}

/// What `kept_len` gives lies between `start` and `end`, ends in nothing that
/// counts for nothing, and stays as it is when it is cut again.
pub proof fn lemma_kept_len(path: Seq<char>, start: int, end: int)
    requires
        0 <= start <= end <= path.len(),
    ensures
        start <= kept_len(path, start, end) <= end,
        kept_len(path, start, end) > start ==> path[kept_len(path, start, end) - 1] != '/',
        kept_len(path, start, end) > start && path[kept_len(path, start, end) - 1] == '.' ==> {
            &&& kept_len(path, start, end) - 1 > start
            &&& path[kept_len(path, start, end) - 2] != '/'
        },
        kept_len(path, start, kept_len(path, start, end)) == kept_len(path, start, end),
    decreases end - start,
{
    if end <= start {
    } else if path[end - 1] == '/' {
        lemma_kept_len(path, start, end - 1);
    } else if path[end - 1] == '.' && end - 1 == start {
    } else if path[end - 1] == '.' && path[end - 2] == '/' {
        lemma_kept_len(path, start, end - 2);
    } else {
    }
}

/// The component that ends at `end` holds no separator, and starts behind one or at
/// `start`.
pub proof fn lemma_component_start(path: Seq<char>, start: int, end: int)
    requires
        0 <= start <= end <= path.len(),
    ensures
        start <= component_start(path, start, end) <= end,
        forall|j: int| component_start(path, start, end) <= j < end ==> path[j] != '/',
        component_start(path, start, end) > start ==> path[component_start(path, start, end) - 1]
            == '/',
    decreases end - start,
{
    if end > start && path[end - 1] != '/' {
        lemma_component_start(path, start, end - 1);
    }
}

/// What is taken off the end of a path depends on nothing behind that end.
pub proof fn lemma_kept_len_of_prefix(path: Seq<char>, other: Seq<char>, start: int, end: int)
    requires
        0 <= start <= end,
        end <= path.len(),
        end <= other.len(),
        forall|j: int| 0 <= j < end ==> path[j] == other[j],
    ensures
        kept_len(path, start, end) == kept_len(other, start, end),
    decreases end - start,
{
    if end <= start {
    } else if path[end - 1] == '/' {
        lemma_kept_len_of_prefix(path, other, start, end - 1);
    } else if path[end - 1] == '.' && end - 1 == start {
    } else if path[end - 1] == '.' && path[end - 2] == '/' {
        lemma_kept_len_of_prefix(path, other, start, end - 2);
    } else {
    }
}

/// Where the body of `path` starts.
pub fn body_offset(path: &Vec<char>) -> (start: usize)
    ensures
        start == body_start(path@),
        start <= path@.len(),
{
    if path.len() > 0 && path[0] == '/' {
        1
    } else if path.len() > 0 && path[0] == '.' && (path.len() == 1 || path[1] == '/') {
        1
    } else {
        0
    }
}

/// The length that is left of the first `end` characters of `path` when what counts
/// for nothing at their end is taken off, down to `start` at most.
pub fn kept_length(path: &Vec<char>, start: usize, end: usize) -> (n: usize)
    requires
        start <= end <= path@.len(),
    ensures
        n == kept_len(path@, start as int, end as int),
        start <= n <= end,
{
    let mut n: usize = end;
    let mut done = false;
    while !done
        invariant
            start <= n <= end <= path.len(),
            kept_len(path@, start as int, end as int) == kept_len(path@, start as int, n as int),
            done ==> kept_len(path@, start as int, n as int) == n,
        decreases n - start + if done { 0int } else { 1int },
    {
        if n <= start {
            done = true;
        } else if path[n - 1] == '/' {
            n = n - 1;
        } else if path[n - 1] == '.' && n - 1 == start {
            n = start;
        } else if path[n - 1] == '.' && path[n - 2] == '/' {
            n = n - 2;
        } else {
            done = true;
        }
    }
    n
}

/// Where the component starts that ends at `end`, looked for down to `start`.
pub fn name_offset(path: &Vec<char>, start: usize, end: usize) -> (k: usize)
    requires
        start <= end <= path@.len(),
    ensures
        k == component_start(path@, start as int, end as int),
        start <= k <= end,
{
    let mut k: usize = end;
    while k > start && path[k - 1] != '/'
        invariant
            start <= k <= end <= path.len(),
            component_start(path@, start as int, end as int) == component_start(
                path@,
                start as int,
                k as int,
            ),
        decreases k,
    {
        k = k - 1;
    }
    k
}

/// The name that `path` ends in, where it ends in one.
pub fn file_name(path: &str) -> (name: Option<String>)
    ensures
        name is Some <==> final_name(path@) is Some,
        name is Some ==> name->0@ == final_name(path@)->0,
{
    let chars = chars_of(path);
    let start: usize = body_offset(&chars);
    let end: usize = kept_length(&chars, start, chars.len());
    if end <= start {
        return None;
    }
    let from: usize = name_offset(&chars, start, end);
    let component = path.substring_char(from, end);
    if same_text(component, "..") {
        None
    } else {
        Some(component.to_owned())
    }
}

/// The path of the directory that holds the final component of `path`.
pub fn parent(path: &str) -> (dir: Option<String>)
    ensures
        dir is Some <==> parent_of(path@) is Some,
        dir is Some ==> dir->0@ == parent_of(path@)->0,
{
    let chars = chars_of(path);
    let start: usize = body_offset(&chars);
    let end: usize = kept_length(&chars, start, chars.len());
    if end > start {
        let from: usize = name_offset(&chars, start, end);
        let dir_end: usize = kept_length(&chars, start, from);
        Some(path.substring_char(0, dir_end).to_owned())
    } else if start == 1 && chars[0] == '.' {
        Some(String::new())
    } else {
        None
    }
}

/// `base` with the path `name` behind it.
pub fn join(base: &str, name: &str) -> (path: String)
    ensures
        path@ == joined(base@, name@),
{
    if name.unicode_len() > 0 && name.get_char(0) == '/' {
        return String::from_str(name);
    }
    let len: usize = base.unicode_len();
    if len == 0 || base.get_char(len - 1) == '/' {
        String::from_str(base).concat(name)
    } else {
        proof {
            reveal_strlit("/");
            assert("/"@ =~= seq!['/']);
            assert(base@ + "/"@ =~= base@.push('/'));
        }
        String::from_str(base).concat("/").concat(name)
    }
}

/// `path` with `/` in place of every backslash.
pub open spec fn with_forward_slashes(path: Seq<char>) -> Seq<char> {
    path.map_values(|c: char| if c == '\\' { '/' } else { c })
}

/// Writes a path that a system with the backslash as its separator gave with `/` in
/// its place.
pub fn to_forward_slashes(path: &str) -> (text: String)
    ensures
        text@ == with_forward_slashes(path@),
{
    let chars = chars_of(path);
    let mut text = String::new();
    let mut done: usize = 0;
    proof {
        reveal_strlit("/");
        assert(with_forward_slashes(path@.take(0)) =~= Seq::<char>::empty());
    }
    while done < chars.len()
        invariant
            chars@ == path@,
            done <= chars.len(),
            "/"@ == seq!['/'],
            text@ == with_forward_slashes(path@.take(done as int)),
        decreases chars.len() - done,
    {
        let stop: usize = scan_to(&chars, done, '\\', '\\');
        proof {
            lemma_cut_exists(path@.skip(done as int), '\\', '\\');
        }
        let ghost piece = path@.subrange(done as int, stop as int);
        assert(forall|j: int| 0 <= j < piece.len() ==> piece[j] == path@.skip(done as int)[j]);
        text.append(path.substring_char(done, stop));
        assert(text@ =~= with_forward_slashes(path@.take(stop as int)));
        if stop < chars.len() {
            assert(path@[stop as int] == path@.skip(done as int)[stop - done]);
            text.append("/");
            assert(text@ =~= with_forward_slashes(path@.take(stop + 1)));
            done = stop + 1;
        } else {
            done = stop;
        }
    }
    assert(path@.take(chars@.len() as int) =~= path@);
    text
}

/// Where the download goes: `destination` itself, or the archive folder in it where
/// a subfolder is asked for and `destination` is not that folder already.
pub open spec fn destination_of(destination: Seq<char>, create_subfolder: bool) -> Seq<char> {
    if create_subfolder && final_name(destination) != Some(ARCHIVE_SUBFOLDER@) {
        joined(destination, ARCHIVE_SUBFOLDER@)
    } else {
        destination
    }
}

/// The name of the backup folder made at the moment that `timestamp` tells.
pub open spec fn backup_name(timestamp: Seq<char>) -> Seq<char> {
    BACKUP_PREFIX@ + timestamp
}

/// Where the backup goes: beside the destination, in the directory that holds it.
/// There is no such place where the destination has no parent.
pub open spec fn backup_of(dst_path: Seq<char>, timestamp: Seq<char>) -> Option<Seq<char>> {
    match parent_of(dst_path) {
        Some(dir) => Some(joined(dir, backup_name(timestamp))),
        None => None,
    }
}

/// Derives the path that the download goes to.
pub fn destination_path(destination: &str, create_subfolder: bool) -> (path: String)
    ensures
        path@ == destination_of(destination@, create_subfolder),
{
    if create_subfolder {
        let already_there = match file_name(destination) {
            Some(name) => same_text(name.as_str(), ARCHIVE_SUBFOLDER),
            None => false,
        };
        if !already_there {
            return join(destination, ARCHIVE_SUBFOLDER);
        }
    }
    String::from_str(destination)
}

/// Derives the path of the backup folder for the destination `dst_path`, named after
/// `timestamp`, which holds no separator. The folder stands beside the destination,
/// never below it. Fails where `dst_path` has no parent.
pub fn backup_path(dst_path: &str, timestamp: &str) -> (result: Result<String, DownloadError>)
    requires
        !timestamp@.contains('/'),
    ensures
        match result {
            Ok(path) => {
                &&& backup_of(dst_path@, timestamp@) == Some(path@)
                &&& parent_of(path@) == parent_of(dst_path@)
                &&& !is_inside(path@, dst_path@)
            },
            Err(e) => e@ is NoParentDirectory && parent_of(dst_path@) is None,
        },
{
    match parent(dst_path) {
        Some(dir) => {
            let name = String::from_str(BACKUP_PREFIX).concat(timestamp);
            proof {
                law_backup_is_sibling(dst_path@, timestamp@);
            }
            Ok(join(dir.as_str(), name.as_str()))
        },
        None => Err(DownloadError::NoParentDirectory),
    }
}

/// A path that names a directory and ends in nothing that counts for nothing.
pub open spec fn is_dir_form(dir: Seq<char>) -> bool {
    normal_len(dir) == dir.len()
}

/// A path that ends in the component `name` behind `base` has `name` as its final
/// name.
pub proof fn lemma_component_of_joined(base: Seq<char>, name: Seq<char>)
    requires
        is_name(name),
        !name.contains('/'),
    ensures
        normal_len(joined(base, name)) == joined(base, name).len(),
        name_start(joined(base, name)) == joined(base, name).len() - name.len(),
        body_start(joined(base, name)) <= joined(base, name).len() - name.len(),
        final_component(joined(base, name)) == name,
        final_name(joined(base, name)) == Some(name),
{
    reveal_strlit(".");
    reveal_strlit("..");
    assert("."@.len() == 1 && ".."@.len() == 2);
    let path = joined(base, name);
    let len = path.len() as int;
    let head_len = len - name.len();
    let start = body_start(path);
    assert(forall|j: int| 0 <= j < name.len() ==> path[head_len + j] == name[j]);
    assert(forall|j: int| 0 <= j < name.len() ==> name.contains(name[j]));
    assert(name[0] != '/');
    if name.len() == 1 {
        assert(name[0] != '.') by {
            if name[0] == '.' {
                assert(name =~= "."@);
            }
        }
    }
    // The body starts before the name.
    if head_len == 0 {
        assert(path =~= name);
        if name.len() > 1 {
            assert(name[1] != '/');
        }
        assert(start == 0);
    } else {
        assert(path[head_len - 1] == '/');
    }
    assert(start <= head_len);
    // Nothing at the end counts for nothing.
    assert(path[len - 1] == name[name.len() - 1]);
    if name.len() >= 2 {
        assert(path[len - 2] == name[name.len() - 2]);
    }
    assert(kept_len(path, start, len) == len);
    // The final component is the name.
    lemma_component_start(path, start, len);
    let from = component_start(path, start, len);
    if from > head_len {
        assert(path[from - 1] == name[from - 1 - head_len]);
    }
    assert(from == head_len);
    assert(path.subrange(head_len, len) =~= name);
}

/// The body of a path starts where the body of a directory before it starts, as long
/// as the directory ends in no separator.
pub proof fn lemma_body_start_of_joined(dir: Seq<char>, name: Seq<char>)
    requires
        dir.len() > 0,
        dir.last() != '/',
        name.len() == 0 || name[0] != '/',
    ensures
        body_start(joined(dir, name)) == body_start(dir),
{
    let path = joined(dir, name);
    assert(forall|j: int| 0 <= j < dir.len() ==> path[j] == dir[j]);
    assert(path[dir.len() as int] == '/');
}

/// The parent of a path made by putting a component behind a directory is that
/// directory.
pub proof fn lemma_parent_of_joined(dir: Seq<char>, name: Seq<char>)
    requires
        is_name(name),
        !name.contains('/'),
        is_dir_form(dir),
    ensures
        parent_of(joined(dir, name)) == Some(dir),
{
    let path = joined(dir, name);
    lemma_component_of_joined(dir, name);
    assert(name.contains(name[0]));
    let start = body_start(path);
    let from = name_start(path);
    if dir.len() == 0 {
        assert(path.take(0) =~= dir);
    } else if dir.last() == '/' {
        // A directory that keeps a separator at its end is the root.
        let dir_start = body_start(dir);
        if dir.len() > dir_start {
            lemma_kept_len(dir, dir_start, dir.len() - 1);
        }
        assert(dir.len() == 1);
        assert(path[0] == '/');
        assert(path.take(1) =~= dir);
    } else {
        lemma_body_start_of_joined(dir, name);
        assert(path[from - 1] == '/');
        assert(forall|j: int| 0 <= j < dir.len() ==> path[j] == dir[j]);
        lemma_kept_len_of_prefix(path, dir, start, dir.len() as int);
        assert(kept_len(path, start, from) == kept_len(path, start, from - 1));
        assert(path.take(dir.len() as int) =~= dir);
    }
}

/// What `parent_of` gives ends in nothing that counts for nothing.
pub proof fn lemma_parent_is_dir_form(path: Seq<char>)
    requires
        parent_of(path) is Some,
    ensures
        is_dir_form(parent_of(path)->0),
{
    let start = body_start(path);
    let end = normal_len(path);
    lemma_kept_len(path, start, path.len() as int);
    if end > start {
        lemma_component_start(path, start, end);
        let from = name_start(path);
        lemma_kept_len(path, start, from);
        let dir_len = kept_len(path, start, from);
        let dir = path.take(dir_len);
        assert(forall|j: int| 0 <= j < dir_len ==> dir[j] == path[j]);
        if dir_len > 0 {
            assert(body_start(dir) == start);
            lemma_kept_len_of_prefix(dir, path, start, dir_len);
        }
    }
}

/// The archive folder's name is one component that names a folder.
pub proof fn lemma_archive_name()
    ensures
        is_name(ARCHIVE_SUBFOLDER@),
        !ARCHIVE_SUBFOLDER@.contains('/'),
{
    reveal_strlit("Unofficial-Neuro-Karaoke-Archive");
    reveal_strlit(".");
    reveal_strlit("..");
    let name = ARCHIVE_SUBFOLDER@;
    assert(name.len() == 32);
    assert("."@.len() == 1);
    assert(".."@.len() == 2);
    assert forall|i: int| 0 <= i < name.len() implies name[i] != '/' by {}
}

/// The name of a backup folder is one component that names a folder, as long as the
/// timestamp holds no separator.
pub proof fn lemma_backup_name(timestamp: Seq<char>)
    requires
        !timestamp.contains('/'),
    ensures
        is_name(backup_name(timestamp)),
        !backup_name(timestamp).contains('/'),
{
    reveal_strlit("Backup-KAR-");
    reveal_strlit(".");
    reveal_strlit("..");
    let prefix = BACKUP_PREFIX@;
    let name = backup_name(timestamp);
    assert(prefix.len() == 11);
    assert("."@.len() == 1);
    assert(".."@.len() == 2);
    assert(name.len() == 11 + timestamp.len());
    assert(name.len() != "."@.len() && name.len() != ".."@.len());
    assert forall|i: int| 0 <= i < name.len() implies name[i] != '/' by {
        if i >= prefix.len() {
            assert(timestamp.contains(timestamp[i - prefix.len()]));
        }
    }
}

/// Asking for the subfolder a second time changes nothing: the archive folder is
/// never put into itself.
pub proof fn law_subfolder_idempotent(destination: Seq<char>, create_subfolder: bool)
    ensures
        destination_of(destination_of(destination, create_subfolder), create_subfolder)
            == destination_of(destination, create_subfolder),
        final_name(destination_of(destination, true)) == Some(ARCHIVE_SUBFOLDER@),
{
    lemma_archive_name();
    lemma_component_of_joined(destination, ARCHIVE_SUBFOLDER@);
}

/// A component put behind the parent of `dst_path` does not lie below `dst_path`.
pub proof fn lemma_not_inside(dst_path: Seq<char>, name: Seq<char>)
    requires
        parent_of(dst_path) is Some,
        is_name(name),
        !name.contains('/'),
    ensures
        !is_inside(joined(parent_of(dst_path)->0, name), dst_path),
{
    let dir = parent_of(dst_path)->0;
    let path = joined(dir, name);
    let start = body_start(dst_path);
    let end = normal_len(dst_path);
    let d = normalised(dst_path);
    lemma_kept_len(dst_path, start, dst_path.len() as int);
    lemma_component_of_joined(dir, name);
    let head_len = path.len() - name.len();
    assert(forall|j: int| 0 <= j < name.len() ==> path[head_len + j] == name[j]);
    assert(forall|j: int| 0 <= j < name.len() ==> name.contains(name[j]));
    assert(name.contains(name[0]));
    if is_inside(path, dst_path) {
        // The destination, read to its final component, ends in no separator, so
        // below it `path` would hold one right behind it. But that place lies in
        // `name`, which holds none.
        assert(d.len() == end);
        if end > start {
            lemma_component_start(dst_path, start, end);
            let from = name_start(dst_path);
            lemma_kept_len(dst_path, start, from);
            assert(d.last() == dst_path[end - 1]);
            assert(head_len <= end);
        } else {
            assert(dir.len() == 0);
            assert(d.last() == dst_path[0]);
        }
        assert(path[end] == name[end - head_len]);
    }
}

/// The backup folder stands beside the destination: it is the folder named
/// `Backup-KAR-` and the timestamp in the destination's parent, and it does not lie
/// below the destination. Holds for every timestamp without a separator in it.
pub proof fn law_backup_is_sibling(dst_path: Seq<char>, timestamp: Seq<char>)
    requires
        parent_of(dst_path) is Some,
        !timestamp.contains('/'),
    ensures
        backup_of(dst_path, timestamp) == Some(
            joined(parent_of(dst_path)->0, BACKUP_PREFIX@ + timestamp),
        ),
        parent_of(backup_of(dst_path, timestamp)->0) == parent_of(dst_path),
        final_name(backup_of(dst_path, timestamp)->0) == Some(BACKUP_PREFIX@ + timestamp),
        !is_inside(backup_of(dst_path, timestamp)->0, dst_path),
{
    let dir = parent_of(dst_path)->0;
    let name = backup_name(timestamp);
    lemma_backup_name(timestamp);
    lemma_parent_is_dir_form(dst_path);
    lemma_parent_of_joined(dir, name);
    lemma_component_of_joined(dir, name);
    lemma_not_inside(dst_path, name);
}

} // verus!
