use vstd::prelude::*;
use crate::bytes::append_bytes;
use crate::method::Method;
use crate::outcome::{classified, classify, failure_status, Failure, FsReport, Outcome};
use crate::path::{is_root, is_root_path, resolve, resolved};
use crate::response::{
    build, empty_response, index_response, response_for, serve_index, Response, ResponseView,
};

verus! {

/// What a request calls for next: a response that needs no filesystem
/// access, or one operation on a resolved path.
pub enum Step {
    Respond(Response),
    Read(Vec<u8>),
    Write(Vec<u8>),
    Remove(Vec<u8>),
}

/// The mathematical value of a `Step`.
pub enum StepView {
    Respond(ResponseView),
    Read(Seq<u8>),
    Write(Seq<u8>),
    Remove(Seq<u8>),
}

impl View for Step {
    type V = StepView;

    open spec fn view(&self) -> StepView {
        match self {
            Step::Respond(r) => StepView::Respond(r@),
            Step::Read(p) => StepView::Read(p@),
            Step::Write(p) => StepView::Write(p@),
            Step::Remove(p) => StepView::Remove(p@),
        }
    }
}

/// The step for a request: the root path is answered by the index page;
/// on any other path `GET` reads, `POST` and `PUT` write, `DELETE` removes
/// the file that the path resolves to under `root`, and any other method is
/// refused with 405 without touching the filesystem.
pub open spec fn step_for(root: Seq<u8>, page: Seq<u8>, method: Method, url_path: Seq<u8>) -> StepView {
    if is_root_path(url_path) {
        StepView::Respond(index_response(method, page))
    } else {
        match method {
            Method::Get => StepView::Read(resolved(root, url_path)),
            Method::Post | Method::Put => StepView::Write(resolved(root, url_path)),
            Method::Delete => StepView::Remove(resolved(root, url_path)),
            Method::Other => StepView::Respond(empty_response(failure_status(Failure::NotAllowed))),
        }
    }
}

/// Decides what a request calls for, given the served directory `root` and
/// the index page `page`.
pub fn route(root: &[u8], page: &[u8], method: Method, url_path: &[u8]) -> (s: Step)
    ensures
        s@ == step_for(root@, page@, method, url_path@),
{
    if is_root(url_path) {
        Step::Respond(serve_index(method, page))
    } else {
        match method {
            Method::Get => Step::Read(resolve(root, url_path)),
            Method::Post | Method::Put => Step::Write(resolve(root, url_path)),
            Method::Delete => Step::Remove(resolve(root, url_path)),
            Method::Other => Step::Respond(build(Outcome::Failed(Failure::NotAllowed))),
        }
    }
}

/// The response to a filesystem operation on `path`, from what the
/// filesystem reported.
pub fn finish(path: &[u8], report: FsReport) -> (r: Response)
    ensures
        r@ == response_for(classified(path@, report@)),
{
    build(classify(path, report))
}

/// The decimal digits of `n`, most significant first, in ASCII.
pub open spec fn decimal(n: nat) -> Seq<u8>
    decreases n,
{
    if n < 10 {
        seq![(48 + n) as u8]
    } else {
        decimal(n / 10).push((48 + n % 10) as u8)
    }
}

/// Appends the decimal digits of `n` to `out`.
fn push_decimal(out: &mut Vec<u8>, n: u16)
    ensures
        final(out)@ == old(out)@ + decimal(n as nat),
    decreases n,
{
    if n >= 10 {
        push_decimal(out, n / 10);
    }
    out.push(48u8 + (n % 10) as u8);
    assert(out@ =~= old(out)@ + decimal(n as nat));
}

/// The log record of one request: `[<status>] <remote> <method> <path>`.
pub open spec fn log_record(status: u16, remote: Seq<u8>, method_name: Seq<u8>, url_path: Seq<u8>) -> Seq<u8> {
    seq![91u8] + decimal(status as nat) + seq![93u8, 32u8] + remote + seq![32u8] + method_name
        + seq![32u8] + url_path
}

/// Formats the log record of one request.
pub fn log_line(status: u16, remote: &[u8], method_name: &[u8], url_path: &[u8]) -> (r: Vec<u8>)
    ensures
        r@ == log_record(status, remote@, method_name@, url_path@),
{
    let mut out: Vec<u8> = Vec::new();
    out.push(91u8);
    push_decimal(&mut out, status);
    out.push(93u8);
    out.push(32u8);
    append_bytes(&mut out, remote);
    out.push(32u8);
    append_bytes(&mut out, method_name);
    out.push(32u8);
    append_bytes(&mut out, url_path);
    assert(out@ =~= log_record(status, remote@, method_name@, url_path@));
    out
}

/// Whether a request's log record goes to standard output (a 200) rather
/// than to the error stream.
pub fn logs_to_stdout(status: u16) -> (r: bool)
    ensures
        r == (status == 200),
{
    status == 200
}

} // verus!
