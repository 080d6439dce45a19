use vstd::prelude::*;
use crate::bytes::append_bytes;

verus! {

/// The path separator, `/`.
pub const SEPARATOR: u8 = 47;

/// Whether a request's URL path names the server's root, which the index
/// page answers.
pub open spec fn is_root_path(url_path: Seq<u8>) -> bool {
    url_path == seq![SEPARATOR]
}

/// The URL path with exactly one leading separator taken off, if it has one.
pub open spec fn relative_part(url_path: Seq<u8>) -> Seq<u8> {
    if url_path.len() > 0 && url_path[0] == SEPARATOR {
        url_path.drop_first()
    } else {
        url_path
    }
}

/// `rest` joined onto `root`, with one separator between them unless the root
/// is empty or already ends in one.
pub open spec fn joined(root: Seq<u8>, rest: Seq<u8>) -> Seq<u8> {
    if root.len() == 0 {
        rest
    } else if root.last() == SEPARATOR {
        root + rest
    } else {
        root.push(SEPARATOR) + rest
    }
}

/// The filesystem path that a URL path names under `root`. Purely textual:
/// segments such as `..` are kept as they are.
pub open spec fn resolved(root: Seq<u8>, url_path: Seq<u8>) -> Seq<u8> {
    joined(root, relative_part(url_path))
}

/// Where the last segment of `path` starts: just after its last separator,
/// or at 0 where it has none.
pub open spec fn segment_start(path: Seq<u8>) -> int
    decreases path.len(),
{
    if path.len() == 0 {
        0
    } else if path.last() == SEPARATOR {
        path.len() as int
    } else {
        segment_start(path.drop_last())
    }
}

/// The last segment of `path`: what follows its last separator.
pub open spec fn final_segment(path: Seq<u8>) -> Seq<u8> {
    path.subrange(segment_start(path), path.len() as int)
}

/// Whether a URL path names the root.
pub fn is_root(url_path: &[u8]) -> (r: bool)
    ensures
        r == is_root_path(url_path@),
{
    let r = url_path.len() == 1 && url_path[0] == SEPARATOR;
    assert(r ==> url_path@ =~= seq![SEPARATOR]);
    r
}

/// Maps a URL path to a filesystem path under `root`: one leading separator
/// is stripped and the rest is joined onto the root.
pub fn resolve(root: &[u8], url_path: &[u8]) -> (r: Vec<u8>)
    ensures
        r@ == resolved(root@, url_path@),
{
    let mut out: Vec<u8> = Vec::new();
    append_bytes(&mut out, root);
    if root.len() > 0 && root[root.len() - 1] != SEPARATOR {
        out.push(SEPARATOR);
    }
    let rest: &[u8] = if url_path.len() > 0 && url_path[0] == SEPARATOR {
        vstd::slice::slice_subrange(url_path, 1, url_path.len())
    } else {
        url_path
    };
    assert(rest@ == relative_part(url_path@));
    append_bytes(&mut out, rest);
    assert(out@ =~= resolved(root@, url_path@));
    out
}

/// The last segment of a filesystem path, which names the file.
pub fn file_name(path: &[u8]) -> (r: Vec<u8>)
    ensures
        r@ == final_segment(path@),
{
    let mut start: usize = path.len();
    assert(path@.subrange(0, start as int) =~= path@);
    while start > 0 && path[start - 1] != SEPARATOR
        invariant
            start <= path@.len(),
            segment_start(path@) == segment_start(path@.subrange(0, start as int)),
        decreases start,
    {
        assert(path@.subrange(0, start - 1) =~= path@.subrange(0, start as int).drop_last());
        start = start - 1;
    }
    proof {
        let prefix = path@.subrange(0, start as int);
        if start == 0 {
            assert(prefix.len() == 0);
        } else {
            assert(prefix.last() == SEPARATOR);
        }
        assert(segment_start(path@) == start as int);
    }
    let mut out: Vec<u8> = Vec::new();
    append_bytes(&mut out, vstd::slice::slice_subrange(path, start, path.len()));
    out
}

} // verus!
