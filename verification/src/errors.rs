//! The failures that decoding a response can end in.

use http::HeaderMap;
use vstd::prelude::*;
use vstd::slice::*;

verus! {

/// A response whose status code is not the one that the operation expects.
#[derive(Debug, Clone, PartialEq, Eq)]
pub struct UnexpectedHTTPResult {
    pub expected: u16,
    pub received: u16,
    pub body: Vec<u8>,
}

/// What went wrong while a response was turned into a record.
#[derive(Debug, Clone, PartialEq, Eq)]
pub enum AzureError {
    /// A required header is not in the response; the field names it.
    HeaderNotFound(String),
    /// A header is there, but its value is not of its type; the field names it.
    HeaderMalformed(String),
    /// The status code differs from the expected one; the body is kept as received.
    UnexpectedHTTPResult(UnexpectedHTTPResult),
    /// The body is not the expected document; the field says why.
    BodyDecodeError(String),
}

/// The mathematical value of an [`AzureError`].
pub enum AzureErrorView {
    HeaderNotFound(Seq<char>),
    HeaderMalformed(Seq<char>),
    UnexpectedHTTPResult { expected: u16, received: u16, body: Seq<u8> },
    BodyDecodeError(Seq<char>),
}

impl View for AzureError {
    type V = AzureErrorView;

    open spec fn view(&self) -> AzureErrorView {
        match *self {
            AzureError::HeaderNotFound(name) => AzureErrorView::HeaderNotFound(name@),
            AzureError::HeaderMalformed(name) => AzureErrorView::HeaderMalformed(name@),
            AzureError::UnexpectedHTTPResult(r) => AzureErrorView::UnexpectedHTTPResult {
                expected: r.expected,
                received: r.received,
                body: r.body@,
            },
            AzureError::BodyDecodeError(why) => AzureErrorView::BodyDecodeError(why@),
        }
    }
}

impl UnexpectedHTTPResult {
    pub fn new(expected: u16, received: u16, body: &[u8]) -> (r: UnexpectedHTTPResult)
        ensures
            r.expected == expected,
            r.received == received,
            r.body@ == body@,
    {
        UnexpectedHTTPResult { expected, received, body: slice_to_vec(body) }
    }
}

/// What a status check hands on: nothing where the status is the expected
/// one, the mismatch with the body as received otherwise.
pub open spec fn status_check(received: u16, expected: u16, body: Seq<u8>) -> Result<
    (),
    AzureErrorView,
> {
    if received == expected {
        Ok(())
    } else {
        Err(AzureErrorView::UnexpectedHTTPResult { expected, received, body })
    }
}

/// Holds the status code of a response against the single code that the
/// operation expects. On a match the headers and the body are handed back
/// untouched; on a mismatch the error carries both codes and the body.
pub fn check_status_extract_headers_and_body<'a>(
    received: u16,
    headers: &'a HeaderMap,
    body: &'a [u8],
    expected: u16,
) -> (r: Result<(&'a HeaderMap, &'a [u8]), AzureError>)
    ensures
        match r {
            Ok((h, b)) => status_check(received, expected, body@) is Ok && h == headers && b@
                == body@,
            Err(e) => status_check(received, expected, body@) == Err::<(), AzureErrorView>(e@),
        },
{
    if received == expected {
        Ok((headers, body))
    } else {
        Err(AzureError::UnexpectedHTTPResult(UnexpectedHTTPResult::new(expected, received, body)))
    }
}

} // verus!
