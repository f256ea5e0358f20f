//! A plain value describing one HTTP call: the library decides what to send
//! and how to read the answer; the binary around it performs the exchange.
use vstd::prelude::*;

verus! {

/// The verb of a request.
#[derive(Clone, Copy, Debug, PartialEq, Eq, Structural)]
pub enum Method {
    Get,
    Post,
    Put,
    Delete,
}

/// Everything one call needs: verb, target, header pairs in order, and an
/// optional body.
#[derive(Debug)]
pub struct HttpRequest {
    pub method: Method,
    pub url: String,
    pub headers: Vec<(String, String)>,
    pub body: Option<String>,
}

/// One header pair from two string slices.
pub fn header_pair(name: &str, value: &str) -> (r: (String, String))
    ensures
        r.0@ == name@,
        r.1@ == value@,
{
    (name.to_owned(), value.to_owned())
}

} // verus!
