use vstd::prelude::*;
use crate::bytes::same_bytes;

verus! {

/// The request methods that the server tells apart; every other method
/// name is `Other`.
#[derive(Clone, Copy, Debug, PartialEq, Eq, Structural)]
pub enum Method {
    Get,
    Post,
    Put,
    Delete,
    Other,
}

/// The method that a request line names, by its exact (case-sensitive)
/// ASCII bytes: `GET`, `POST`, `PUT`, `DELETE`.
pub open spec fn method_named(name: Seq<u8>) -> Method {
    if name == seq![71u8, 69u8, 84u8] {
        Method::Get
    } else if name == seq![80u8, 79u8, 83u8, 84u8] {
        Method::Post
    } else if name == seq![80u8, 85u8, 84u8] {
        Method::Put
    } else if name == seq![68u8, 69u8, 76u8, 69u8, 84u8, 69u8] {
        Method::Delete
    } else {
        Method::Other
    }
}

impl Method {
    /// Reads a method from its name as it stands in the request.
    pub fn from_name(name: &[u8]) -> (m: Method)
        ensures
            m == method_named(name@),
    {
        if same_bytes(name, &[71u8, 69u8, 84u8]) {
            Method::Get
        } else if same_bytes(name, &[80u8, 79u8, 83u8, 84u8]) {
            Method::Post
        } else if same_bytes(name, &[80u8, 85u8, 84u8]) {
            Method::Put
        } else if same_bytes(name, &[68u8, 69u8, 76u8, 69u8, 84u8, 69u8]) {
            Method::Delete
        } else {
            Method::Other
        }
    }
}

} // verus!
