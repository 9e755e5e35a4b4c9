use crate::blob::{Blob, BlobView};
use crate::datetime::UtcDateTime;
use crate::errors::{AzureError, AzureErrorView};
use crate::headers::{
    date_from_headers, header_entries, request_id_from_headers, required_date, required_uuid,
    Header, DATE, REQUEST_ID,
};
use crate::ids::RequestId;
use http::HeaderMap;
use vstd::prelude::*;

verus! {

/// What the service answers when asked for the properties of a blob.
#[derive(Debug, Clone, PartialEq, Eq)]
pub struct GetBlobPropertiesResponse {
    pub blob: Blob,
    pub request_id: RequestId,
    pub date: UtcDateTime,
}

/// The mathematical value of a [`GetBlobPropertiesResponse`].
pub struct GetBlobPropertiesResponseView {
    pub blob: BlobView,
    pub request_id: u128,
    pub date: (i64, u32),
}

impl View for GetBlobPropertiesResponse {
    type V = GetBlobPropertiesResponseView;

    open spec fn view(&self) -> GetBlobPropertiesResponseView {
        GetBlobPropertiesResponseView { blob: self.blob@, request_id: self.request_id@, date: self.date@ }
    }
}

/// The record that the headers give around the properties already read from
/// them. The request id is read before the date; the first that fails
/// decides the error.
pub open spec fn get_blob_properties_response_of(blob: BlobView, entries: Seq<Header>) -> Result<
    GetBlobPropertiesResponseView,
    AzureErrorView,
> {
    match required_uuid(entries, REQUEST_ID@) {
        Ok(request_id) => match required_date(entries, DATE@) {
            Ok(date) => Ok(GetBlobPropertiesResponseView { blob, request_id, date }),
            Err(e) => Err(e),
        },
        Err(e) => Err(e),
    }
}

/// The view of a decoded response.
pub open spec fn get_blob_properties_result(r: Result<GetBlobPropertiesResponse, AzureError>) -> Result<
    GetBlobPropertiesResponseView,
    AzureErrorView,
> {
    match r {
        Ok(v) => Ok(v@),
        Err(e) => Err(e@),
    }
}

impl GetBlobPropertiesResponse {
    /// Decodes the record from the headers of the response. The body of
    /// such a response is empty and is not read.
    pub fn from_response(headers: &HeaderMap, blob: Blob, body: &[u8]) -> (r: Result<
        GetBlobPropertiesResponse,
        AzureError,
    >)
        ensures
            get_blob_properties_result(r) == get_blob_properties_response_of(blob@, header_entries(*headers)),
    {
        let request_id = match request_id_from_headers(headers) {
            Ok(v) => v,
            Err(e) => {
                return Err(e);
            },
        };
        let date = match date_from_headers(headers) {
            Ok(v) => v,
            Err(e) => {
                return Err(e);
            },
        };
        Ok(GetBlobPropertiesResponse { blob, request_id, date })
    }
}

} // verus!
