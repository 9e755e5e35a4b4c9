use crate::blob::{BlobMetadata, BlobMetadataView};
use crate::datetime::UtcDateTime;
use crate::errors::{AzureError, AzureErrorView};
use crate::headers::{
    date_from_headers, header_entries, request_id_from_headers, required_date, required_uuid,
    Header, DATE, REQUEST_ID,
};
use crate::ids::RequestId;
use http::HeaderMap;
use vstd::prelude::*;

verus! {

/// What the service answers when asked for the metadata of a blob.
#[derive(Debug, Clone, PartialEq, Eq)]
pub struct GetBlobMetadataResponse {
    pub blob_metadata: BlobMetadata,
    pub request_id: RequestId,
    pub date: UtcDateTime,
}

/// The mathematical value of a [`GetBlobMetadataResponse`].
pub struct GetBlobMetadataResponseView {
    pub blob_metadata: BlobMetadataView,
    pub request_id: u128,
    pub date: (i64, u32),
}

impl View for GetBlobMetadataResponse {
    type V = GetBlobMetadataResponseView;

    open spec fn view(&self) -> GetBlobMetadataResponseView {
        GetBlobMetadataResponseView { blob_metadata: self.blob_metadata@, request_id: self.request_id@, date: self.date@ }
    }
}

/// The record that the headers give around the metadata already read from
/// them. The request id is read before the date; the first that fails
/// decides the error.
pub open spec fn get_blob_metadata_response_of(blob_metadata: BlobMetadataView, entries: Seq<Header>) -> Result<
    GetBlobMetadataResponseView,
    AzureErrorView,
> {
    match required_uuid(entries, REQUEST_ID@) {
        Ok(request_id) => match required_date(entries, DATE@) {
            Ok(date) => Ok(GetBlobMetadataResponseView { blob_metadata, request_id, date }),
            Err(e) => Err(e),
        },
        Err(e) => Err(e),
    }
}

/// The view of a decoded response.
pub open spec fn get_blob_metadata_result(r: Result<GetBlobMetadataResponse, AzureError>) -> Result<
    GetBlobMetadataResponseView,
    AzureErrorView,
> {
    match r {
        Ok(v) => Ok(v@),
        Err(e) => Err(e@),
    }
}

impl GetBlobMetadataResponse {
    /// Decodes the record from the headers of the response. The body of
    /// such a response is empty and is not read.
    pub fn from_response(headers: &HeaderMap, blob_metadata: BlobMetadata, body: &[u8]) -> (r: Result<
        GetBlobMetadataResponse,
        AzureError,
    >)
        ensures
            get_blob_metadata_result(r) == get_blob_metadata_response_of(blob_metadata@, header_entries(*headers)),
    {
        let request_id = match request_id_from_headers(headers) {
            Ok(v) => v,
            Err(e) => {
                return Err(e);
            },
        };
        let date = match date_from_headers(headers) {
            Ok(v) => v,
            Err(e) => {
                return Err(e);
            },
        };
        Ok(GetBlobMetadataResponse { blob_metadata, request_id, date })
    }
}

} // verus!
