use azure_sdk_for_rust::blob::requests::copy_blob_builder::CopyBlobBuilder;
use azure_sdk_for_rust::blob::requests::get_blob_metadata_builder::GetBlobMetadataBuilder;
use azure_sdk_for_rust::blob::requests::get_blob_properties_builder::GetBlobPropertiesBuilder;
use azure_sdk_for_rust::blob::responses::CopyBlobResponse;
use azure_sdk_for_rust::blob::{Blob, BlobMetadata};
use azure_sdk_for_rust::client::Client;
use azure_sdk_for_rust::datetime::UtcDateTime;
use azure_sdk_for_rust::errors::{
    check_status_extract_headers_and_body, AzureError, UnexpectedHTTPResult,
};
use azure_sdk_for_rust::headers::{
    client_request_id_from_headers_optional, content_length_from_headers, date_from_headers,
    etag_from_headers, header_bytes, last_modified_from_headers, metadata_from_headers,
    request_id_from_headers, CommonStorageResponseHeaders,
};
use azure_sdk_for_rust::ids::Uuid;
use http::header::{HeaderName, HeaderValue};
use http::HeaderMap;

const REQUEST_ID: &str = "0b1c2d3e-4f50-4a6b-8c7d-9e0f1a2b3c4d";

fn headers(pairs: &[(&str, &[u8])]) -> HeaderMap {
    let mut map = HeaderMap::new();
    for (name, value) in pairs {
        map.append(
            HeaderName::from_bytes(name.as_bytes()).unwrap(),
            HeaderValue::from_bytes(value).unwrap(),
        );
    }
    map
}

fn copy_headers() -> HeaderMap {
    headers(&[
        ("ETag", b"\"0x8D6\""),
        ("Last-Modified", b"Tue, 01 Jan 2019 00:00:00 GMT"),
        ("x-ms-request-id", REQUEST_ID.as_bytes()),
        ("Date", b"Tue, 01 Jan 2019 00:00:01 GMT"),
    ])
}

fn not_found(name: &str) -> AzureError {
    AzureError::HeaderNotFound(name.to_string())
}

fn malformed(name: &str) -> AzureError {
    AzureError::HeaderMalformed(name.to_string())
}

#[test]
fn header_lookup_ignores_case_and_takes_the_first_value() {
    let map = headers(&[("X-Twice", b"one"), ("x-twice", b"two")]);
    assert_eq!(header_bytes(&map, "X-TWICE"), Ok(b"one".to_vec()));
    assert_eq!(header_bytes(&map, "x-once"), Err(not_found("x-once")));
}

#[test]
fn etag_is_the_text_of_the_header() {
    assert_eq!(etag_from_headers(&copy_headers()), Ok("\"0x8D6\"".to_string()));
    assert_eq!(etag_from_headers(&HeaderMap::new()), Err(not_found("etag")));
    let map = headers(&[("etag", &[0xe9])]);
    assert_eq!(etag_from_headers(&map), Err(malformed("etag")));
}

#[test]
fn dates_are_read_as_rfc2822() {
    let map = copy_headers();
    assert_eq!(
        last_modified_from_headers(&map),
        Ok(UtcDateTime::from_timestamp(1_546_300_800, 0).unwrap())
    );
    assert_eq!(date_from_headers(&map).unwrap().timestamp(), 1_546_300_801);
    assert_eq!(date_from_headers(&map).unwrap().timestamp_subsec_nanos(), 0);
    let map = headers(&[("date", b"Tue, 01 Jan 2019 02:00:00 +0200")]);
    assert_eq!(date_from_headers(&map).unwrap().timestamp(), 1_546_300_800);
    let map = headers(&[("date", b"yesterday")]);
    assert_eq!(date_from_headers(&map), Err(malformed("date")));
    assert_eq!(date_from_headers(&HeaderMap::new()), Err(not_found("date")));
}

#[test]
fn request_id_is_read_as_an_identifier() {
    let id = request_id_from_headers(&copy_headers()).unwrap();
    assert_eq!(id.as_u128(), 0x0b1c2d3e_4f50_4a6b_8c7d_9e0f1a2b3c4d);
    assert_eq!(id.to_string(), REQUEST_ID);
    let map = headers(&[("x-ms-request-id", b"not-an-id")]);
    assert_eq!(request_id_from_headers(&map), Err(malformed("x-ms-request-id")));
    assert_eq!(
        request_id_from_headers(&HeaderMap::new()),
        Err(not_found("x-ms-request-id"))
    );
}

#[test]
fn content_length_is_read_as_an_integer() {
    let map = headers(&[("content-length", b"1024")]);
    assert_eq!(content_length_from_headers(&map), Ok(1024));
    let map = headers(&[("content-length", b"12 ")]);
    assert_eq!(content_length_from_headers(&map), Err(malformed("content-length")));
    assert_eq!(
        content_length_from_headers(&HeaderMap::new()),
        Err(not_found("content-length"))
    );
}

#[test]
fn optional_header_may_be_missing_or_no_text() {
    let map = headers(&[("x-ms-client-request-id", b"mine")]);
    assert_eq!(client_request_id_from_headers_optional(&map), Some("mine".to_string()));
    assert_eq!(client_request_id_from_headers_optional(&HeaderMap::new()), None);
    let map = headers(&[("x-ms-client-request-id", &[0xff])]);
    assert_eq!(client_request_id_from_headers_optional(&map), None);
}

#[test]
fn metadata_is_read_from_the_prefixed_headers() {
    let map = headers(&[
        ("x-ms-meta-owner", b"me"),
        ("etag", b"x"),
        ("x-ms-meta-kind", b"copy"),
        ("x-ms-meta-", b"nameless"),
    ]);
    let metadata = metadata_from_headers(&map).unwrap();
    assert_eq!(metadata.len(), 3);
    assert_eq!(metadata.get("owner"), Some("me"));
    assert_eq!(metadata.get("kind"), Some("copy"));
    assert_eq!(metadata.get(""), Some("nameless"));
    assert_eq!(metadata.get("etag"), None);
    assert!(metadata_from_headers(&HeaderMap::new()).unwrap().is_empty());
}

#[test]
fn metadata_of_a_repeated_header_is_its_last_value() {
    let map = headers(&[("x-ms-meta-k", b"one"), ("x-ms-meta-k", b"two")]);
    let metadata = metadata_from_headers(&map).unwrap();
    assert_eq!(metadata.len(), 1);
    assert_eq!(metadata.get("k"), Some("two"));
}

#[test]
fn metadata_with_a_value_that_is_no_text_is_malformed() {
    let map = headers(&[("x-ms-meta-k", &[0x80])]);
    assert_eq!(metadata_from_headers(&map), Err(malformed("x-ms-meta-k")));
}

#[test]
fn copy_blob_response_from_headers() {
    let response = CopyBlobResponse::from_headers(&copy_headers()).unwrap();
    assert_eq!(response.etag, "\"0x8D6\"");
    assert_eq!(response.last_modified.timestamp(), 1_546_300_800);
    assert_eq!(response.request_id, Uuid::parse_str(REQUEST_ID).unwrap());
    assert_eq!(response.date.timestamp(), 1_546_300_801);
}

#[test]
fn copy_blob_response_names_the_first_header_that_fails() {
    assert_eq!(CopyBlobResponse::from_headers(&HeaderMap::new()), Err(not_found("etag")));
    let map = headers(&[("etag", b"x"), ("date", b"nonsense")]);
    assert_eq!(CopyBlobResponse::from_headers(&map), Err(not_found("last-modified")));
    let map = headers(&[
        ("etag", b"x"),
        ("last-modified", b"Tue, 01 Jan 2019 00:00:00 GMT"),
        ("x-ms-request-id", REQUEST_ID.as_bytes()),
        ("date", b"nonsense"),
    ]);
    assert_eq!(CopyBlobResponse::from_headers(&map), Err(malformed("date")));
}

#[test]
fn status_check_passes_the_expected_status() {
    let map = copy_headers();
    let (h, b) = check_status_extract_headers_and_body(202, &map, b"body", 202).unwrap();
    assert_eq!(h.len(), 4);
    assert_eq!(b, b"body");
}

#[test]
fn status_mismatch_carries_the_raw_body() {
    let client = Client::new("account");
    let pending = CopyBlobBuilder::new(&client)
        .with_container_name("container")
        .with_blob_name("blob")
        .with_copy_source("src")
        .finalize();
    let body = [b'<', 0xff, 0x00, b'>'];
    let result = pending.into_response(404, &copy_headers(), &body);
    assert_eq!(
        result,
        Err(AzureError::UnexpectedHTTPResult(UnexpectedHTTPResult {
            expected: 202,
            received: 404,
            body: body.to_vec(),
        }))
    );
}

#[test]
fn copy_blob_round_trip() {
    let client = Client::new("account");
    let pending = CopyBlobBuilder::new(&client)
        .with_container_name("container")
        .with_blob_name("blob")
        .with_copy_source("src")
        .finalize();
    let response = pending.into_response(202, &copy_headers(), b"").unwrap();
    assert_eq!(response, CopyBlobResponse::from_headers(&copy_headers()).unwrap());
}

#[test]
fn get_blob_metadata_round_trip() {
    let client = Client::new("account");
    let snapshot = UtcDateTime::from_timestamp(1_546_300_800, 0).unwrap();
    let pending = GetBlobMetadataBuilder::new(&client)
        .with_container_name("container")
        .with_blob_name("blob")
        .with_snapshot(snapshot)
        .finalize();
    let map = headers(&[
        ("x-ms-meta-owner", b"me"),
        ("x-ms-request-id", REQUEST_ID.as_bytes()),
        ("date", b"Tue, 01 Jan 2019 00:00:01 GMT"),
    ]);
    let response = pending.clone().into_response(200, &map, b"").unwrap();
    assert_eq!(response.blob_metadata.name, "blob");
    assert_eq!(response.blob_metadata.container_name, "container");
    assert_eq!(response.blob_metadata.snapshot_time, Some(snapshot));
    assert_eq!(response.blob_metadata.metadata.get("owner"), Some("me"));
    assert_eq!(response.request_id.to_string(), REQUEST_ID);
    assert_eq!(response.date.timestamp(), 1_546_300_801);
    assert_eq!(
        pending.clone().into_response(200, &HeaderMap::new(), b""),
        Err(not_found("x-ms-request-id"))
    );
    assert_eq!(
        pending.into_response(202, &map, b"no"),
        Err(AzureError::UnexpectedHTTPResult(UnexpectedHTTPResult::new(200, 202, b"no")))
    );
}

#[test]
fn get_blob_properties_round_trip() {
    let client = Client::new("account");
    let pending = GetBlobPropertiesBuilder::new(&client)
        .with_container_name("container")
        .with_blob_name("blob")
        .finalize();
    let map = headers(&[
        ("content-length", b"+42"),
        ("last-modified", b"Tue, 01 Jan 2019 00:00:00 GMT"),
        ("etag", b"tag"),
        ("x-ms-meta-k", b"v"),
        ("x-ms-request-id", REQUEST_ID.as_bytes()),
        ("date", b"Tue, 01 Jan 2019 00:00:01 GMT"),
    ]);
    let response = pending.clone().into_response(200, &map, b"").unwrap();
    assert_eq!(response.blob.name, "blob");
    assert_eq!(response.blob.container_name, "container");
    assert_eq!(response.blob.snapshot_time, None);
    assert_eq!(response.blob.content_length, 42);
    assert_eq!(response.blob.last_modified.timestamp(), 1_546_300_800);
    assert_eq!(response.blob.etag, "tag");
    assert_eq!(response.blob.metadata.get("k"), Some("v"));
    assert_eq!(
        pending.into_response(200, &HeaderMap::new(), b""),
        Err(not_found("content-length"))
    );
}

#[test]
fn blob_and_blob_metadata_from_headers() {
    let map = headers(&[
        ("content-length", b"0"),
        ("last-modified", b"Tue, 01 Jan 2019 00:00:00 GMT"),
        ("etag", b"tag"),
    ]);
    let blob = Blob::from_headers("b", "c", None, &map).unwrap();
    assert_eq!(blob.content_length, 0);
    assert!(blob.metadata.is_empty());
    let only_length = headers(&[("content-length", b"0")]);
    assert_eq!(
        Blob::from_headers("b", "c", None, &only_length),
        Err(not_found("last-modified"))
    );
    let metadata = BlobMetadata::from_headers("b", "c", None, &map).unwrap();
    assert_eq!(metadata.name, "b");
    assert_eq!(metadata.container_name, "c");
    assert!(metadata.metadata.is_empty());
}

#[test]
fn common_storage_response_headers() {
    let map = headers(&[
        ("x-ms-request-id", REQUEST_ID.as_bytes()),
        ("x-ms-version", b"2018-03-28"),
        ("date", b"Tue, 01 Jan 2019 00:00:01 GMT"),
        ("server", b"Windows-Azure-Queue/1.0"),
    ]);
    let common = CommonStorageResponseHeaders::try_from(&map).unwrap();
    assert_eq!(common.request_id.to_string(), REQUEST_ID);
    assert_eq!(common.client_request_id, None);
    assert_eq!(common.version, "2018-03-28");
    assert_eq!(common.date.timestamp(), 1_546_300_801);
    assert_eq!(common.server, "Windows-Azure-Queue/1.0");
    let no_server = headers(&[
        ("x-ms-request-id", REQUEST_ID.as_bytes()),
        ("x-ms-version", b"2018-03-28"),
        ("date", b"Tue, 01 Jan 2019 00:00:01 GMT"),
    ]);
    assert_eq!(CommonStorageResponseHeaders::try_from(&no_server), Err(not_found("server")));
}
