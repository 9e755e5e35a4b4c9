use crate::datetime::UtcDateTime;
use crate::errors::{AzureError, AzureErrorView};
use crate::headers::{
    date_from_headers, etag_from_headers, header_entries, last_modified_from_headers,
    request_id_from_headers, required_date, required_text, required_uuid, Header, DATE, ETAG,
    LAST_MODIFIED, REQUEST_ID,
};
use crate::ids::RequestId;
use http::HeaderMap;
use vstd::prelude::*;

verus! {

/// What the service answers when it has accepted the copy of a blob.
#[derive(Debug, Clone, PartialEq, Eq)]
pub struct CopyBlobResponse {
    pub etag: String,
    pub last_modified: UtcDateTime,
    pub request_id: RequestId,
    pub date: UtcDateTime,
}

/// The mathematical value of a [`CopyBlobResponse`].
pub struct CopyBlobResponseView {
    pub etag: Seq<char>,
    pub last_modified: (i64, u32),
    pub request_id: u128,
    pub date: (i64, u32),
}

impl View for CopyBlobResponse {
    type V = CopyBlobResponseView;

    open spec fn view(&self) -> CopyBlobResponseView {
        CopyBlobResponseView {
            etag: self.etag@,
            last_modified: self.last_modified@,
            request_id: self.request_id@,
            date: self.date@,
        }
    }
}

/// The record that the headers give. The fields are read in the order
/// entity tag, last modified, request id, date; the first that fails
/// decides the error, and no record is made of the rest.
pub open spec fn copy_blob_response_of(entries: Seq<Header>) -> Result<
    CopyBlobResponseView,
    AzureErrorView,
> {
    match required_text(entries, ETAG@) {
        Ok(etag) => match required_date(entries, LAST_MODIFIED@) {
            Ok(last_modified) => match required_uuid(entries, REQUEST_ID@) {
                Ok(request_id) => match required_date(entries, DATE@) {
                    Ok(date) => Ok(
                        CopyBlobResponseView { etag, last_modified, request_id, date },
                    ),
                    Err(e) => Err(e),
                },
                Err(e) => Err(e),
            },
            Err(e) => Err(e),
        },
        Err(e) => Err(e),
    }
}

/// The view of a decoded response.
pub open spec fn copy_blob_result(r: Result<CopyBlobResponse, AzureError>) -> Result<
    CopyBlobResponseView,
    AzureErrorView,
> {
    match r {
        Ok(v) => Ok(v@),
        Err(e) => Err(e@),
    }
}

impl CopyBlobResponse {
    /// Decodes the record from the headers of the response.
    pub fn from_headers(headers: &HeaderMap) -> (r: Result<CopyBlobResponse, AzureError>)
        ensures
            copy_blob_result(r) == copy_blob_response_of(header_entries(*headers)),
    {
        let etag = match etag_from_headers(headers) {
            Ok(v) => v,
            Err(e) => {
                return Err(e);
            },
        };
        let last_modified = match last_modified_from_headers(headers) {
            Ok(v) => v,
            Err(e) => {
                return Err(e);
            },
        };
        let request_id = match request_id_from_headers(headers) {
            Ok(v) => v,
            Err(e) => {
                return Err(e);
            },
        };
        let date = match date_from_headers(headers) {
            Ok(v) => v,
            Err(e) => {
                return Err(e);
            },
        };
        Ok(CopyBlobResponse { etag, last_modified, request_id, date })
    }
}

} // verus!
