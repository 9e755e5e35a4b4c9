use azure_sdk_for_rust::errors::AzureError;
use azure_sdk_for_rust::metadata::Metadata;
use azure_sdk_for_rust::queue::responses::{
    ListQueuesDocument, ListQueuesResponse, Queue, Queues,
};
use http::header::{HeaderName, HeaderValue};
use http::HeaderMap;

fn common_headers() -> HeaderMap {
    let mut map = HeaderMap::new();
    for (name, value) in [
        ("x-ms-request-id", "0b1c2d3e-4f50-4a6b-8c7d-9e0f1a2b3c4d"),
        ("x-ms-version", "2018-03-28"),
        ("date", "Tue, 01 Jan 2019 00:00:01 GMT"),
        ("server", "Windows-Azure-Queue/1.0"),
    ] {
        map.insert(
            HeaderName::from_bytes(name.as_bytes()).unwrap(),
            HeaderValue::from_str(value).unwrap(),
        );
    }
    map
}

fn queue(name: &str, metadata: Option<Metadata>) -> Queue {
    Queue { name: name.to_string(), metadata }
}

// The document of the example listing, as it comes off the wire:
// prefix "a", at most two results, the queues "azureiscool" and
// "azurerocks" without metadata, and an empty next marker.
fn example_document() -> ListQueuesDocument {
    ListQueuesDocument {
        service_endpoint: "https://azureskdforrust.queue.core.windows.net/".to_string(),
        prefix: Some("a".to_string()),
        marker: None,
        max_results: Some(2),
        queues: Queues {
            queues: vec![queue("azureiscool", None), queue("azurerocks", None)],
        },
        next_marker: Some(String::new()),
    }
}

#[test]
fn example_document_has_two_queues_in_order() {
    let response = ListQueuesResponse::try_from((&common_headers(), example_document())).unwrap();
    assert_eq!(response.queues.queues.len(), 2);
    assert_eq!(response.queues.queues[0].name, "azureiscool");
    assert_eq!(response.queues.queues[1].name, "azurerocks");
    assert_eq!(response.service_endpoint, "https://azureskdforrust.queue.core.windows.net/");
    assert_eq!(response.prefix, Some("a".to_string()));
    assert_eq!(response.marker, None);
    assert_eq!(response.max_results, Some(2));
    assert_eq!(response.common_storage_response_headers.version, "2018-03-28");
}

#[test]
fn empty_next_marker_is_absent() {
    let response = ListQueuesResponse::try_from((&common_headers(), example_document())).unwrap();
    assert_eq!(response.next_marker, None);
}

#[test]
fn next_marker_that_is_not_empty_is_kept() {
    let mut document = example_document();
    document.next_marker = Some("/account/queue3".to_string());
    document.marker = Some(String::new());
    let response = ListQueuesResponse::try_from((&common_headers(), document)).unwrap();
    assert_eq!(response.next_marker, Some("/account/queue3".to_string()));
    assert_eq!(response.marker, Some(String::new()));
}

#[test]
fn empty_metadata_is_absent() {
    let mut full = Metadata::new();
    full.insert("k", "v");
    let mut document = example_document();
    document.queues.queues = vec![
        queue("none", None),
        queue("empty", Some(Metadata::new())),
        queue("full", Some(full.clone())),
        queue("empty-too", Some(Metadata::new())),
    ];
    let response = ListQueuesResponse::try_from((&common_headers(), document)).unwrap();
    assert_eq!(
        response.queues.queues,
        vec![
            queue("none", None),
            queue("empty", None),
            queue("full", Some(full)),
            queue("empty-too", None),
        ]
    );
}

#[test]
fn listing_without_queues() {
    let mut document = example_document();
    document.queues.queues = Vec::new();
    let response = ListQueuesResponse::try_from((&common_headers(), document)).unwrap();
    assert!(response.queues.queues.is_empty());
}

#[test]
fn listing_needs_the_common_headers() {
    assert_eq!(
        ListQueuesResponse::try_from((&HeaderMap::new(), example_document())),
        Err(AzureError::HeaderNotFound("x-ms-request-id".to_string()))
    );
}

#[test]
fn frame_body_skips_the_byte_order_mark() {
    let body = b"\xef\xbb\xbf<a/>";
    assert_eq!(ListQueuesResponse::frame_body(body), Ok(&b"<a/>"[..]));
    assert_eq!(ListQueuesResponse::frame_body(b"\xef\xbb\xbf"), Ok(&b""[..]));
}

#[test]
fn frame_body_keeps_a_body_without_byte_order_mark() {
    assert_eq!(ListQueuesResponse::frame_body(b"<a/>"), Ok(&b"<a/>"[..]));
    assert_eq!(ListQueuesResponse::frame_body(b"abcd"), Ok(&b"abcd"[..]));
    assert_eq!(ListQueuesResponse::frame_body(b""), Ok(&b""[..]));
    assert_eq!(ListQueuesResponse::frame_body(b"ab"), Ok(&b"ab"[..]));
    // A mark that is not at the start, or not whole, is part of the document.
    assert_eq!(
        ListQueuesResponse::frame_body("a\u{feff}b".as_bytes()),
        Ok("a\u{feff}b".as_bytes())
    );
    assert_eq!(ListQueuesResponse::frame_body("ab\u{20ac}".as_bytes()), Ok("ab\u{20ac}".as_bytes()));
}

#[test]
fn frame_body_rejects_what_is_not_utf8() {
    let not_utf8 = AzureError::BodyDecodeError("the body is not UTF-8".to_string());
    assert_eq!(ListQueuesResponse::frame_body(b"\xef\xbb\xbf\xff"), Err(not_utf8.clone()));
    assert_eq!(ListQueuesResponse::frame_body(b"\xff"), Err(not_utf8.clone()));
    assert_eq!(ListQueuesResponse::frame_body(b"\xef\xbb"), Err(not_utf8));
}
