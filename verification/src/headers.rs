//! Reading the headers of a response: the header map itself, and the
//! decoders of the fields that the response records are made of.

use crate::datetime::{rfc2822_date, UtcDateTime};
use crate::errors::{AzureError, AzureErrorView};
use crate::ids::{uuid_value, Uuid};
use crate::metadata::{with_pair, Metadata, Pair};
use crate::text::{
    header_text, option_text, parse_u64, parse_u64_spec, strip_prefix, visible_ascii_string,
    without_prefix,
};
use http::HeaderMap;
use vstd::prelude::*;
use vstd::string::*;

verus! {

#[verifier::external_type_specification]
#[verifier::external_body]
#[verifier::reject_recursive_types(T)]
pub struct ExHeaderMap<T>(http::HeaderMap<T>);

#[verifier::external_type_specification]
#[verifier::external_body]
pub struct ExHeaderValue(http::HeaderValue);

/// A header as the contracts see it: its name and the bytes of its value.
pub type Header = (Seq<char>, Seq<u8>);

/// What a header map holds: every name with every value under it, in the order in
/// which `http::HeaderMap::iter` yields them. A name stands once for each of its
/// values, as `http::HeaderName::as_str` gives it.
pub uninterp spec fn header_entries(headers: HeaderMap) -> Seq<Header>;

/// The lower-case form of an ASCII letter; any other character is itself.
pub open spec fn ascii_lower(c: char) -> char {
    if 65 <= c as u32 <= 90 {
        ((c as u32 + 32) as u8) as char
    } else {
        c
    }
}

/// `s` with its ASCII letters in lower case.
pub open spec fn ascii_lowercase(s: Seq<char>) -> Seq<char> {
    Seq::new(s.len(), |i: int| ascii_lower(s[i]))
}

/// The value of the first header of `entries` whose name is exactly `name`.
pub open spec fn first_value(entries: Seq<Header>, name: Seq<char>) -> Option<Seq<u8>>
    decreases entries.len(),
{
    if entries.len() == 0 {
        None
    } else if entries[0].0 == name {
        Some(entries[0].1)
    } else {
        first_value(entries.skip(1), name)
    }
}

/// The value under `name`, which may be written in any case: header names
/// are kept in lower case.
pub open spec fn header_value(entries: Seq<Header>, name: Seq<char>) -> Option<Seq<u8>> {
    first_value(entries, ascii_lowercase(name))
}

/// The view of an optional run of bytes.
pub open spec fn option_bytes(v: Option<Vec<u8>>) -> Option<Seq<u8>> {
    match v {
        Some(v) => Some(v@),
        None => None,
    }
}

/// The view of a list of headers.
pub open spec fn headers_view(list: Seq<(String, Vec<u8>)>) -> Seq<Header> {
    Seq::new(list.len(), |i: int| (list[i].0@, list[i].1@))
}

/// Calls `http::HeaderMap::get` with `name` as the key and copies the bytes of the
/// value found (`http::HeaderValue::as_bytes`). The crate looks the key up without
/// regard to the case of its letters and, where several values stand under the name,
/// gives the first of them.
#[verifier::external_body]
fn header_get(headers: &HeaderMap, name: &str) -> (r: Option<Vec<u8>>)
    ensures
        option_bytes(r) == header_value(header_entries(*headers), name@),
{
    headers.get(name).map(|v| v.as_bytes().to_vec())
}

/// Walks `http::HeaderMap::iter` and copies each item out: the name as
/// `http::HeaderName::as_str` gives it, the value as `http::HeaderValue::as_bytes`
/// gives it. The list is what the map holds, in the order of the walk.
#[verifier::external_body]
fn header_list(headers: &HeaderMap) -> (r: Vec<(String, Vec<u8>)>)
    ensures
        headers_view(r@) == header_entries(*headers),
{
    headers.iter().map(|(k, v)| (k.as_str().to_string(), v.as_bytes().to_vec())).collect()
}

/// The names of the headers that the decoders and the request writers use,
/// in the lower case in which a header map keeps them.
pub const ETAG: &'static str = "etag";

pub const LAST_MODIFIED: &'static str = "last-modified";

pub const DATE: &'static str = "date";

pub const SERVER: &'static str = "server";

pub const CONTENT_LENGTH: &'static str = "content-length";

pub const REQUEST_ID: &'static str = "x-ms-request-id";

pub const CLIENT_REQUEST_ID: &'static str = "x-ms-client-request-id";

pub const VERSION: &'static str = "x-ms-version";

pub const LEASE_ID: &'static str = "x-ms-lease-id";

pub const COPY_SOURCE: &'static str = "x-ms-copy-source";

/// The prefix of the headers that carry user-defined metadata.
pub const METADATA_PREFIX: &'static str = "x-ms-meta-";

/// The bytes of a header that has to be there.
pub open spec fn required_value(entries: Seq<Header>, name: Seq<char>) -> Result<
    Seq<u8>,
    AzureErrorView,
> {
    match header_value(entries, name) {
        Some(v) => Ok(v),
        None => Err(AzureErrorView::HeaderNotFound(name)),
    }
}

/// The text of a header that has to be there.
pub open spec fn required_text(entries: Seq<Header>, name: Seq<char>) -> Result<
    Seq<char>,
    AzureErrorView,
> {
    match required_value(entries, name) {
        Ok(v) => match header_text(v) {
            Some(t) => Ok(t),
            None => Err(AzureErrorView::HeaderMalformed(name)),
        },
        Err(e) => Err(e),
    }
}

/// The text of a header that may be missing; a value that is no text counts
/// as missing.
pub open spec fn optional_text(entries: Seq<Header>, name: Seq<char>) -> Option<Seq<char>> {
    match header_value(entries, name) {
        Some(v) => header_text(v),
        None => None,
    }
}

/// The instant that a required header holds as an RFC 2822 date.
pub open spec fn required_date(entries: Seq<Header>, name: Seq<char>) -> Result<
    (i64, u32),
    AzureErrorView,
> {
    match required_text(entries, name) {
        Ok(t) => match rfc2822_date(t) {
            Some(d) => Ok(d),
            None => Err(AzureErrorView::HeaderMalformed(name)),
        },
        Err(e) => Err(e),
    }
}

/// The identifier that a required header holds.
pub open spec fn required_uuid(entries: Seq<Header>, name: Seq<char>) -> Result<
    u128,
    AzureErrorView,
> {
    match required_text(entries, name) {
        Ok(t) => match uuid_value(t) {
            Some(id) => Ok(id),
            None => Err(AzureErrorView::HeaderMalformed(name)),
        },
        Err(e) => Err(e),
    }
}

/// The unsigned integer that a required header holds.
pub open spec fn required_u64(entries: Seq<Header>, name: Seq<char>) -> Result<
    u64,
    AzureErrorView,
> {
    match required_value(entries, name) {
        Ok(v) => match parse_u64_spec(v) {
            Some(n) => Ok(n),
            None => Err(AzureErrorView::HeaderMalformed(name)),
        },
        Err(e) => Err(e),
    }
}

/// The metadata that the headers carry: for each header whose name starts
/// with the metadata prefix, in order, the rest of the name with the text of
/// the value. A later value replaces an earlier one of the same name. The
/// first such header whose value is no text makes the whole malformed.
pub open spec fn metadata_pairs(entries: Seq<Header>) -> Result<Seq<Pair>, AzureErrorView>
    decreases entries.len(),
{
    if entries.len() == 0 {
        Ok(Seq::empty())
    } else {
        match metadata_pairs(entries.drop_last()) {
            Ok(pairs) => match without_prefix(entries.last().0, METADATA_PREFIX@) {
                Some(key) => match header_text(entries.last().1) {
                    Some(value) => Ok(with_pair(pairs, key, value)),
                    None => Err(AzureErrorView::HeaderMalformed(entries.last().0)),
                },
                None => Ok(pairs),
            },
            Err(e) => Err(e),
        }
    }
}

/// The view of a decoded text.
pub open spec fn text_result(r: Result<String, AzureError>) -> Result<Seq<char>, AzureErrorView> {
    match r {
        Ok(s) => Ok(s@),
        Err(e) => Err(e@),
    }
}

/// The view of a decoded instant.
pub open spec fn date_result(r: Result<UtcDateTime, AzureError>) -> Result<
    (i64, u32),
    AzureErrorView,
> {
    match r {
        Ok(d) => Ok(d@),
        Err(e) => Err(e@),
    }
}

/// The view of a decoded identifier.
pub open spec fn uuid_result(r: Result<Uuid, AzureError>) -> Result<u128, AzureErrorView> {
    match r {
        Ok(id) => Ok(id@),
        Err(e) => Err(e@),
    }
}

/// The view of a decoded integer.
pub open spec fn u64_result(r: Result<u64, AzureError>) -> Result<u64, AzureErrorView> {
    match r {
        Ok(n) => Ok(n),
        Err(e) => Err(e@),
    }
}

/// The view of decoded metadata.
pub open spec fn metadata_result(r: Result<Metadata, AzureError>) -> Result<
    Seq<Pair>,
    AzureErrorView,
> {
    match r {
        Ok(m) => Ok(m@),
        Err(e) => Err(e@),
    }
}

/// The bytes of the header `name`, which has to be there.
pub fn header_bytes(headers: &HeaderMap, name: &str) -> (r: Result<Vec<u8>, AzureError>)
    ensures
        match r {
            Ok(v) => required_value(header_entries(*headers), name@) == Ok::<
                Seq<u8>,
                AzureErrorView,
            >(v@),
            Err(e) => required_value(header_entries(*headers), name@) == Err::<
                Seq<u8>,
                AzureErrorView,
            >(e@),
        },
{
    match header_get(headers, name) {
        Some(v) => Ok(v),
        None => Err(AzureError::HeaderNotFound(String::from_str(name))),
    }
}

/// The text of the header `name`, which has to be there.
pub fn header_string(headers: &HeaderMap, name: &str) -> (r: Result<String, AzureError>)
    ensures
        text_result(r) == required_text(header_entries(*headers), name@),
{
    match header_bytes(headers, name) {
        Ok(v) => match visible_ascii_string(v.as_slice()) {
            Some(t) => Ok(t),
            None => Err(AzureError::HeaderMalformed(String::from_str(name))),
        },
        Err(e) => Err(e),
    }
}

/// The text of the header `name`, if it is there and is text.
pub fn header_string_optional(headers: &HeaderMap, name: &str) -> (r: Option<String>)
    ensures
        option_text(r) == optional_text(header_entries(*headers), name@),
{
    match header_get(headers, name) {
        Some(v) => visible_ascii_string(v.as_slice()),
        None => None,
    }
}

/// The instant that the header `name` holds as an RFC 2822 date.
pub fn header_date(headers: &HeaderMap, name: &str) -> (r: Result<UtcDateTime, AzureError>)
    ensures
        date_result(r) == required_date(header_entries(*headers), name@),
{
    match header_string(headers, name) {
        Ok(t) => match UtcDateTime::parse_from_rfc2822(t.as_str()) {
            Some(d) => Ok(d),
            None => Err(AzureError::HeaderMalformed(String::from_str(name))),
        },
        Err(e) => Err(e),
    }
}

/// The identifier that the header `name` holds.
pub fn header_uuid(headers: &HeaderMap, name: &str) -> (r: Result<Uuid, AzureError>)
    ensures
        uuid_result(r) == required_uuid(header_entries(*headers), name@),
{
    match header_string(headers, name) {
        Ok(t) => match Uuid::parse_str(t.as_str()) {
            Some(id) => Ok(id),
            None => Err(AzureError::HeaderMalformed(String::from_str(name))),
        },
        Err(e) => Err(e),
    }
}

/// The unsigned integer that the header `name` holds.
pub fn header_u64(headers: &HeaderMap, name: &str) -> (r: Result<u64, AzureError>)
    ensures
        u64_result(r) == required_u64(header_entries(*headers), name@),
{
    match header_bytes(headers, name) {
        Ok(v) => match parse_u64(v.as_slice()) {
            Some(n) => Ok(n),
            None => Err(AzureError::HeaderMalformed(String::from_str(name))),
        },
        Err(e) => Err(e),
    }
}

/// The entity tag of the resource.
pub fn etag_from_headers(headers: &HeaderMap) -> (r: Result<String, AzureError>)
    ensures
        text_result(r) == required_text(header_entries(*headers), ETAG@),
{
    header_string(headers, ETAG)
}

/// When the resource was last modified.
pub fn last_modified_from_headers(headers: &HeaderMap) -> (r: Result<UtcDateTime, AzureError>)
    ensures
        date_result(r) == required_date(header_entries(*headers), LAST_MODIFIED@),
{
    header_date(headers, LAST_MODIFIED)
}

/// When the service answered.
pub fn date_from_headers(headers: &HeaderMap) -> (r: Result<UtcDateTime, AzureError>)
    ensures
        date_result(r) == required_date(header_entries(*headers), DATE@),
{
    header_date(headers, DATE)
}

/// The identifier that the service gave to the request.
pub fn request_id_from_headers(headers: &HeaderMap) -> (r: Result<Uuid, AzureError>)
    ensures
        uuid_result(r) == required_uuid(header_entries(*headers), REQUEST_ID@),
{
    header_uuid(headers, REQUEST_ID)
}

/// The identifier that the client gave to the request, where the service
/// sent it back.
pub fn client_request_id_from_headers_optional(headers: &HeaderMap) -> (r: Option<String>)
    ensures
        option_text(r) == optional_text(header_entries(*headers), CLIENT_REQUEST_ID@),
{
    header_string_optional(headers, CLIENT_REQUEST_ID)
}

/// The version of the service that answered.
pub fn version_from_headers(headers: &HeaderMap) -> (r: Result<String, AzureError>)
    ensures
        text_result(r) == required_text(header_entries(*headers), VERSION@),
{
    header_string(headers, VERSION)
}

/// The server that answered.
pub fn server_from_headers(headers: &HeaderMap) -> (r: Result<String, AzureError>)
    ensures
        text_result(r) == required_text(header_entries(*headers), SERVER@),
{
    header_string(headers, SERVER)
}

/// The length of the content in bytes.
pub fn content_length_from_headers(headers: &HeaderMap) -> (r: Result<u64, AzureError>)
    ensures
        u64_result(r) == required_u64(header_entries(*headers), CONTENT_LENGTH@),
{
    header_u64(headers, CONTENT_LENGTH)
}

/// The user-defined metadata that the headers carry.
pub fn metadata_from_headers(headers: &HeaderMap) -> (r: Result<Metadata, AzureError>)
    ensures
        metadata_result(r) == metadata_pairs(header_entries(*headers)),
{
    let list = header_list(headers);
    let ghost entries = header_entries(*headers);
    let mut metadata = Metadata::new();
    let mut i: usize = 0;
    assert(entries.take(0) =~= Seq::<Header>::empty());
    while i < list.len()
        invariant
            i <= list.len(),
            headers_view(list@) == entries,
            entries == header_entries(*headers),
            metadata_pairs(entries.take(i as int)) == Ok::<Seq<Pair>, AzureErrorView>(metadata@),
        decreases list.len() - i,
    {
        let ghost upto = entries.take(i + 1);
        assert(upto.drop_last() =~= entries.take(i as int));
        assert(upto.last() == (list@[i as int].0@, list@[i as int].1@));
        match strip_prefix(list[i].0.as_str(), METADATA_PREFIX) {
            Some(key) => match visible_ascii_string(list[i].1.as_slice()) {
                Some(value) => {
                    metadata.insert(key, value.as_str());
                },
                None => {
                    let e = AzureError::HeaderMalformed(list[i].0.clone());
                    proof {
                        lemma_metadata_pairs_fails(entries, i + 1);
                    }
                    return Err(e);
                },
            },
            None => {},
        }
        i = i + 1;
    }
    assert(entries.take(i as int) =~= entries);
    Ok(metadata)
}

/// Once a prefix of the headers is malformed, so is the whole.
pub proof fn lemma_metadata_pairs_fails(entries: Seq<Header>, k: int)
    requires
        0 <= k <= entries.len(),
        metadata_pairs(entries.take(k)) is Err,
    ensures
        metadata_pairs(entries) == metadata_pairs(entries.take(k)),
    decreases entries.len() - k,
{
    if k == entries.len() {
        assert(entries.take(k) =~= entries);
    } else {
        assert(entries.take(k + 1).drop_last() =~= entries.take(k));
        lemma_metadata_pairs_fails(entries, k + 1);
    }
}

/// The headers that every response of the storage service carries.
#[derive(Debug, Clone, PartialEq, Eq)]
pub struct CommonStorageResponseHeaders {
    pub request_id: Uuid,
    pub client_request_id: Option<String>,
    pub version: String,
    pub date: UtcDateTime,
    pub server: String,
}

/// The mathematical value of a [`CommonStorageResponseHeaders`].
pub struct CommonStorageResponseHeadersView {
    pub request_id: u128,
    pub client_request_id: Option<Seq<char>>,
    pub version: Seq<char>,
    pub date: (i64, u32),
    pub server: Seq<char>,
}

impl View for CommonStorageResponseHeaders {
    type V = CommonStorageResponseHeadersView;

    open spec fn view(&self) -> CommonStorageResponseHeadersView {
        CommonStorageResponseHeadersView {
            request_id: self.request_id@,
            client_request_id: option_text(self.client_request_id),
            version: self.version@,
            date: self.date@,
            server: self.server@,
        }
    }
}

/// The common headers as a header map gives them. The required ones are
/// read in the order request id, version, date, server; the first that
/// fails decides the error.
pub open spec fn common_headers_of(entries: Seq<Header>) -> Result<
    CommonStorageResponseHeadersView,
    AzureErrorView,
> {
    match required_uuid(entries, REQUEST_ID@) {
        Ok(request_id) => match required_text(entries, VERSION@) {
            Ok(version) => match required_date(entries, DATE@) {
                Ok(date) => match required_text(entries, SERVER@) {
                    Ok(server) => Ok(
                        CommonStorageResponseHeadersView {
                            request_id,
                            client_request_id: optional_text(entries, CLIENT_REQUEST_ID@),
                            version,
                            date,
                            server,
                        },
                    ),
                    Err(e) => Err(e),
                },
                Err(e) => Err(e),
            },
            Err(e) => Err(e),
        },
        Err(e) => Err(e),
    }
}

/// The view of decoded common headers.
pub open spec fn common_headers_result(
    r: Result<CommonStorageResponseHeaders, AzureError>,
) -> Result<CommonStorageResponseHeadersView, AzureErrorView> {
    match r {
        Ok(h) => Ok(h@),
        Err(e) => Err(e@),
    }
}

impl CommonStorageResponseHeaders {
    /// Reads the common headers of a response.
    pub fn try_from(headers: &HeaderMap) -> (r: Result<CommonStorageResponseHeaders, AzureError>)
        ensures
            common_headers_result(r) == common_headers_of(header_entries(*headers)),
    {
        let request_id = match request_id_from_headers(headers) {
            Ok(v) => v,
            Err(e) => {
                return Err(e);
            },
        };
        let client_request_id = client_request_id_from_headers_optional(headers);
        let version = match version_from_headers(headers) {
            Ok(v) => v,
            Err(e) => {
                return Err(e);
            },
        };
        let date = match date_from_headers(headers) {
            Ok(v) => v,
            Err(e) => {
                return Err(e);
            },
        };
        let server = match server_from_headers(headers) {
            Ok(v) => v,
            Err(e) => {
                return Err(e);
            },
        };
        Ok(CommonStorageResponseHeaders { request_id, client_request_id, version, date, server })
    }
}

} // verus!
