//! Blobs: what the service tells about one, and where one lives.

use crate::client::Client;
use crate::datetime::{option_instant, UtcDateTime};
use crate::errors::{AzureError, AzureErrorView};
use crate::headers::{
    content_length_from_headers, etag_from_headers, header_entries, last_modified_from_headers,
    metadata_from_headers, metadata_pairs, required_date, required_text, required_u64, Header,
    CONTENT_LENGTH, ETAG, LAST_MODIFIED,
};
use crate::metadata::{Metadata, Pair};
use crate::text::option_str;
use http::HeaderMap;
use vstd::prelude::*;
use vstd::string::*;

pub mod requests;
pub mod responses;

verus! {

/// The user-defined metadata of a blob.
#[derive(Debug, Clone, PartialEq, Eq)]
pub struct BlobMetadata {
    pub name: String,
    pub container_name: String,
    pub snapshot_time: Option<UtcDateTime>,
    pub metadata: Metadata,
}

/// The mathematical value of a [`BlobMetadata`].
pub struct BlobMetadataView {
    pub name: Seq<char>,
    pub container_name: Seq<char>,
    pub snapshot_time: Option<(i64, u32)>,
    pub metadata: Seq<Pair>,
}

impl View for BlobMetadata {
    type V = BlobMetadataView;

    open spec fn view(&self) -> BlobMetadataView {
        BlobMetadataView {
            name: self.name@,
            container_name: self.container_name@,
            snapshot_time: option_instant(self.snapshot_time),
            metadata: self.metadata@,
        }
    }
}

/// The properties of a blob.
#[derive(Debug, Clone, PartialEq, Eq)]
pub struct Blob {
    pub name: String,
    pub container_name: String,
    pub snapshot_time: Option<UtcDateTime>,
    pub last_modified: UtcDateTime,
    pub etag: String,
    pub content_length: u64,
    pub metadata: Metadata,
}

/// The mathematical value of a [`Blob`].
pub struct BlobView {
    pub name: Seq<char>,
    pub container_name: Seq<char>,
    pub snapshot_time: Option<(i64, u32)>,
    pub last_modified: (i64, u32),
    pub etag: Seq<char>,
    pub content_length: u64,
    pub metadata: Seq<Pair>,
}

impl View for Blob {
    type V = BlobView;

    open spec fn view(&self) -> BlobView {
        BlobView {
            name: self.name@,
            container_name: self.container_name@,
            snapshot_time: option_instant(self.snapshot_time),
            last_modified: self.last_modified@,
            etag: self.etag@,
            content_length: self.content_length,
            metadata: self.metadata@,
        }
    }
}

/// The metadata of a blob as its headers give it.
pub open spec fn blob_metadata_of(
    name: Seq<char>,
    container_name: Seq<char>,
    snapshot_time: Option<(i64, u32)>,
    entries: Seq<Header>,
) -> Result<BlobMetadataView, AzureErrorView> {
    match metadata_pairs(entries) {
        Ok(metadata) => Ok(BlobMetadataView { name, container_name, snapshot_time, metadata }),
        Err(e) => Err(e),
    }
}

/// The properties of a blob as its headers give them. The fields are read
/// in the order content length, last modified, entity tag, metadata; the
/// first that fails decides the error.
pub open spec fn blob_of(
    name: Seq<char>,
    container_name: Seq<char>,
    snapshot_time: Option<(i64, u32)>,
    entries: Seq<Header>,
) -> Result<BlobView, AzureErrorView> {
    match required_u64(entries, CONTENT_LENGTH@) {
        Ok(content_length) => match required_date(entries, LAST_MODIFIED@) {
            Ok(last_modified) => match required_text(entries, ETAG@) {
                Ok(etag) => match metadata_pairs(entries) {
                    Ok(metadata) => Ok(
                        BlobView {
                            name,
                            container_name,
                            snapshot_time,
                            last_modified,
                            etag,
                            content_length,
                            metadata,
                        },
                    ),
                    Err(e) => Err(e),
                },
                Err(e) => Err(e),
            },
            Err(e) => Err(e),
        },
        Err(e) => Err(e),
    }
}

/// The view of decoded blob metadata.
pub open spec fn blob_metadata_result(r: Result<BlobMetadata, AzureError>) -> Result<
    BlobMetadataView,
    AzureErrorView,
> {
    match r {
        Ok(b) => Ok(b@),
        Err(e) => Err(e@),
    }
}

/// The view of decoded blob properties.
pub open spec fn blob_result(r: Result<Blob, AzureError>) -> Result<BlobView, AzureErrorView> {
    match r {
        Ok(b) => Ok(b@),
        Err(e) => Err(e@),
    }
}

impl BlobMetadata {
    /// Reads the metadata of the named blob from the headers of a response.
    pub fn from_headers(
        blob_name: &str,
        container_name: &str,
        snapshot_time: Option<UtcDateTime>,
        headers: &HeaderMap,
    ) -> (r: Result<BlobMetadata, AzureError>)
        ensures
            blob_metadata_result(r) == blob_metadata_of(
                blob_name@,
                container_name@,
                option_instant(snapshot_time),
                header_entries(*headers),
            ),
    {
        match metadata_from_headers(headers) {
            Ok(metadata) => Ok(
                BlobMetadata {
                    name: String::from_str(blob_name),
                    container_name: String::from_str(container_name),
                    snapshot_time,
                    metadata,
                },
            ),
            Err(e) => Err(e),
        }
    }
}

impl Blob {
    /// Reads the properties of the named blob from the headers of a response.
    pub fn from_headers(
        blob_name: &str,
        container_name: &str,
        snapshot_time: Option<UtcDateTime>,
        headers: &HeaderMap,
    ) -> (r: Result<Blob, AzureError>)
        ensures
            blob_result(r) == blob_of(
                blob_name@,
                container_name@,
                option_instant(snapshot_time),
                header_entries(*headers),
            ),
    {
        let content_length = match content_length_from_headers(headers) {
            Ok(n) => n,
            Err(e) => {
                return Err(e);
            },
        };
        let last_modified = match last_modified_from_headers(headers) {
            Ok(d) => d,
            Err(e) => {
                return Err(e);
            },
        };
        let etag = match etag_from_headers(headers) {
            Ok(t) => t,
            Err(e) => {
                return Err(e);
            },
        };
        let metadata = match metadata_from_headers(headers) {
            Ok(m) => m,
            Err(e) => {
                return Err(e);
            },
        };
        Ok(
            Blob {
                name: String::from_str(blob_name),
                container_name: String::from_str(container_name),
                snapshot_time,
                last_modified,
                etag,
                content_length,
                metadata,
            },
        )
    }
}

/// Where a blob lives: the scheme and host of the account, the container
/// and the blob as path, and `params` behind a `?` where it is given.
pub open spec fn blob_uri(
    account: Seq<char>,
    container_name: Seq<char>,
    blob_name: Seq<char>,
    params: Option<Seq<char>>,
) -> Seq<char> {
    let base = "https://"@ + account + ".blob.core.windows.net/"@ + container_name + seq!['/']
        + blob_name;
    match params {
        Some(p) => base + seq!['?'] + p,
        None => base,
    }
}

/// Assembles the URI of a blob, with one fixed query component if `params`
/// gives one.
pub fn generate_blob_uri(
    client: &Client,
    container_name: &str,
    blob_name: &str,
    params: Option<&str>,
) -> (r: String)
    ensures
        r@ == blob_uri(client@, container_name@, blob_name@, option_str(params)),
{
    let mut uri = String::from_str("https://");
    uri.append(client.account());
    uri.append(".blob.core.windows.net/");
    uri.append(container_name);
    uri.push('/');
    uri.append(blob_name);
    match params {
        Some(p) => {
            uri.push('?');
            uri.append(p);
            assert(uri@ =~= blob_uri(client@, container_name@, blob_name@, Some(p@)));
        },
        None => {
            assert(uri@ =~= blob_uri(client@, container_name@, blob_name@, None));
        },
    }
    uri
}

} // verus!
