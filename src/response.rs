use vstd::prelude::*;
use crate::bytes::append_bytes;
use crate::method::Method;
use crate::outcome::{failure_status, outcome_status, Failure, Outcome, OutcomeView};

verus! {

/// An HTTP response: its status code, the value of its content-disposition
/// header where it has one, and its body.
pub struct Response {
    pub status: u16,
    pub disposition: Option<Vec<u8>>,
    pub body: Vec<u8>,
}

/// The mathematical value of a `Response`.
pub struct ResponseView {
    pub status: u16,
    pub disposition: Option<Seq<u8>>,
    pub body: Seq<u8>,
}

impl View for Response {
    type V = ResponseView;

    open spec fn view(&self) -> ResponseView {
        ResponseView {
            status: self.status,
            disposition: match self.disposition {
                Some(d) => Some(d@),
                None => None,
            },
            body: self.body@,
        }
    }
}

/// The text `attachment; filename="`.
pub open spec fn attachment_prefix() -> Seq<u8> {
    seq![
        97u8, 116u8, 116u8, 97u8, 99u8, 104u8, 109u8, 101u8, 110u8, 116u8, 59u8,
        32u8, 102u8, 105u8, 108u8, 101u8, 110u8, 97u8, 109u8, 101u8, 61u8, 34u8,
    ]
}

/// The double quote that closes the file name.
pub const QUOTE: u8 = 34;

/// The header value `attachment; filename="<name>"`, which asks a client to
/// save the body as a file called `name` rather than display it.
pub open spec fn attachment_value(name: Seq<u8>) -> Seq<u8> {
    attachment_prefix() + name.push(QUOTE)
}

/// A response with a status, no special header and an empty body.
pub open spec fn empty_response(status: u16) -> ResponseView {
    ResponseView { status, disposition: None, body: Seq::empty() }
}

/// The response to an outcome: a read file is sent as an attachment named
/// after it; every other outcome has an empty body and no special header.
pub open spec fn response_for(o: OutcomeView) -> ResponseView {
    match o {
        OutcomeView::Download { data, name } => ResponseView {
            status: 200,
            disposition: Some(attachment_value(name)),
            body: data,
        },
        _ => empty_response(outcome_status(o)),
    }
}

/// The response to a request for the root path: the index page with status
/// 200 for `GET`, an empty 405 for any other method.
pub open spec fn index_response(method: Method, page: Seq<u8>) -> ResponseView {
    if method == Method::Get {
        ResponseView { status: 200, disposition: None, body: page }
    } else {
        empty_response(failure_status(Failure::NotAllowed))
    }
}

/// The content-disposition value that offers a body as the file `name`.
pub fn attachment(name: &[u8]) -> (r: Vec<u8>)
    ensures
        r@ == attachment_value(name@),
{
    let mut out: Vec<u8> = Vec::new();
    append_bytes(
        &mut out,
        &[
            97u8, 116u8, 116u8, 97u8, 99u8, 104u8, 109u8, 101u8, 110u8, 116u8, 59u8,
            32u8, 102u8, 105u8, 108u8, 101u8, 110u8, 97u8, 109u8, 101u8, 61u8, 34u8,
        ],
    );
    append_bytes(&mut out, name);
    out.push(QUOTE);
    assert(out@ =~= attachment_value(name@));
    out
}

/// Turns an outcome into the response that answers it.
pub fn build(o: Outcome) -> (r: Response)
    ensures
        r@ == response_for(o@),
{
    match o {
        Outcome::Download { data, name } => {
            let disposition = attachment(name.as_slice());
            Response { status: 200, disposition: Some(disposition), body: data }
        },
        _ => {
            let status = o.status();
            let r = Response { status, disposition: None, body: Vec::new() };
            assert(r@.body =~= Seq::<u8>::empty());
            r
        },
    }
}

/// Answers a request for the root path with the index page `page`.
pub fn serve_index(method: Method, page: &[u8]) -> (r: Response)
    ensures
        r@ == index_response(method, page@),
{
    if method == Method::Get {
        let mut body: Vec<u8> = Vec::new();
        append_bytes(&mut body, page);
        Response { status: 200, disposition: None, body }
    } else {
        let r = Response { status: Failure::NotAllowed.status(), disposition: None, body: Vec::new() };
        assert(r@.body =~= Seq::<u8>::empty());
        r
    }
}

} // verus!
