use vstd::prelude::*;
use crate::handler::{step_for, StepView};
use crate::method::Method;
use crate::outcome::{classified, failure_status, Failure, FsReportView};
use crate::path::{final_segment, is_root_path, resolved};
use crate::response::{attachment_value, empty_response, response_for, ResponseView};

verus! {

/// The files under the served directory: each path's contents.
pub type Files = Map<Seq<u8>, Seq<u8>>;

/// One request served against `files`, on a filesystem that behaves as a
/// map from paths to contents: the step that `route` chooses; then a read
/// finds the contents of a present file, a write of `body` replaces the file
/// whole, a removal succeeds on a present file and fails on a missing one;
/// and the response that `finish` builds from that report. Returns the files
/// after the request and the response.
pub open spec fn exchange(
    files: Files,
    root: Seq<u8>,
    page: Seq<u8>,
    method: Method,
    url_path: Seq<u8>,
    body: Seq<u8>,
) -> (Files, ResponseView) {
    match step_for(root, page, method, url_path) {
        StepView::Respond(r) => (files, r),
        StepView::Read(p) => {
            let found = if files.contains_key(p) { Some(files[p]) } else { None };
            (files, response_for(classified(p, FsReportView::Read(found))))
        },
        StepView::Write(p) => (files.insert(p, body), response_for(classified(p, FsReportView::Write(Ok(()))))),
        StepView::Remove(p) => if files.contains_key(p) {
            (files.remove(p), response_for(classified(p, FsReportView::Remove(true))))
        } else {
            (files, response_for(classified(p, FsReportView::Remove(false))))
        },
    }
}

/// Whether a method writes the request body to the path.
pub open spec fn is_write(method: Method) -> bool {
    method == Method::Post || method == Method::Put
}

/// The response that sends `data` as the file at `path`.
pub open spec fn download(path: Seq<u8>, data: Seq<u8>) -> ResponseView {
    ResponseView { status: 200, disposition: Some(attachment_value(final_segment(path))), body: data }
}

/// A `GET` after a `POST` or `PUT` to the same path (not the root) answers
/// 200 with exactly the bytes written; the write itself answers 200.
pub proof fn law_read_after_write(
    files: Files,
    root: Seq<u8>,
    page: Seq<u8>,
    write: Method,
    url_path: Seq<u8>,
    body: Seq<u8>,
    read_body: Seq<u8>,
)
    requires
        !is_root_path(url_path),
        is_write(write),
    ensures
        exchange(files, root, page, write, url_path, body).1 == empty_response(200),
        exchange(exchange(files, root, page, write, url_path, body).0, root, page, Method::Get, url_path, read_body).1
            == download(resolved(root, url_path), body),
{
    let p = resolved(root, url_path);
    let after = exchange(files, root, page, write, url_path, body).0;
    assert(after == files.insert(p, body));
    assert(after.contains_key(p) && after[p] == body);
}

/// A `GET` of a path (not the root) that names no file answers 404 and
/// changes nothing.
pub proof fn law_missing_not_found(
    files: Files,
    root: Seq<u8>,
    page: Seq<u8>,
    url_path: Seq<u8>,
    body: Seq<u8>,
)
    requires
        !is_root_path(url_path),
        !files.contains_key(resolved(root, url_path)),
    ensures
        exchange(files, root, page, Method::Get, url_path, body) == (files, empty_response(404)),
{
}

/// A `DELETE` of a path (not the root) removes its file, so that a `GET`
/// then answers 404; it answers 200 where the file was there and 404 where
/// it was not.
pub proof fn law_delete_removes(
    files: Files,
    root: Seq<u8>,
    page: Seq<u8>,
    url_path: Seq<u8>,
    body: Seq<u8>,
    read_body: Seq<u8>,
)
    requires
        !is_root_path(url_path),
    ensures
        ({
            let (after, r) = exchange(files, root, page, Method::Delete, url_path, body);
            &&& !after.contains_key(resolved(root, url_path))
            &&& r.status == (if files.contains_key(resolved(root, url_path)) { 200u16 } else { 404u16 })
            &&& exchange(after, root, page, Method::Get, url_path, read_body) == (after, empty_response(404))
        }),
{
}

/// `POST` and `PUT` with the same body to the same path leave the same files
/// and answer the same.
pub proof fn law_post_is_put(
    files: Files,
    root: Seq<u8>,
    page: Seq<u8>,
    url_path: Seq<u8>,
    body: Seq<u8>,
)
    ensures
        exchange(files, root, page, Method::Post, url_path, body)
            == exchange(files, root, page, Method::Put, url_path, body),
{
}

/// The root path answers `GET` with the index page and every other method
/// with an empty 405; neither changes the files.
pub proof fn law_root_path(
    files: Files,
    root: Seq<u8>,
    page: Seq<u8>,
    method: Method,
    url_path: Seq<u8>,
    body: Seq<u8>,
)
    requires
        is_root_path(url_path),
    ensures
        exchange(files, root, page, method, url_path, body) == (
            files,
            if method == Method::Get {
                ResponseView { status: 200, disposition: None, body: page }
            } else {
                empty_response(failure_status(Failure::NotAllowed))
            },
        ),
{
}

/// A method other than `GET`, `POST`, `PUT` and `DELETE` on any path but the
/// root answers 405 and leaves the files as they were.
pub proof fn law_other_method_refused(
    files: Files,
    root: Seq<u8>,
    page: Seq<u8>,
    url_path: Seq<u8>,
    body: Seq<u8>,
)
    requires
        !is_root_path(url_path),
    ensures
        exchange(files, root, page, Method::Other, url_path, body) == (files, empty_response(405)),
{
}

/// Writing the same body twice to a path (not the root) and then reading it
/// gives that body once: a write replaces, it never appends.
pub proof fn law_write_twice(
    files: Files,
    root: Seq<u8>,
    page: Seq<u8>,
    first: Method,
    second: Method,
    url_path: Seq<u8>,
    body: Seq<u8>,
    read_body: Seq<u8>,
)
    requires
        !is_root_path(url_path),
        is_write(first),
        is_write(second),
    ensures
        ({
            let once = exchange(files, root, page, first, url_path, body).0;
            let twice = exchange(once, root, page, second, url_path, body).0;
            &&& twice == once
            &&& exchange(twice, root, page, Method::Get, url_path, read_body).1
                == download(resolved(root, url_path), body)
        }),
{
    let p = resolved(root, url_path);
    let once = exchange(files, root, page, first, url_path, body).0;
    assert(once == files.insert(p, body));
    let twice = exchange(once, root, page, second, url_path, body).0;
    assert(twice =~= once);
    law_read_after_write(files, root, page, first, url_path, body, read_body);
}

} // verus!
