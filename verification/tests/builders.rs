use azure_sdk_for_rust::blob::requests::copy_blob_builder::CopyBlobBuilder;
use azure_sdk_for_rust::blob::requests::get_blob_metadata_builder::GetBlobMetadataBuilder;
use azure_sdk_for_rust::blob::requests::get_blob_properties_builder::GetBlobPropertiesBuilder;
use azure_sdk_for_rust::blob::generate_blob_uri;
use azure_sdk_for_rust::client::Client;
use azure_sdk_for_rust::datetime::UtcDateTime;
use azure_sdk_for_rust::ids::Uuid;
use azure_sdk_for_rust::metadata::Metadata;
use azure_sdk_for_rust::request::{
    append_parameter, snapshot_to_uri_parameter, timeout_to_uri_parameter, Method,
};

const BASE: &str = "https://account.blob.core.windows.net/container/blob";

fn without_separators(s: &str) -> String {
    s.chars().filter(|c| *c != '?' && *c != '&').collect()
}

fn new_year_2019() -> UtcDateTime {
    UtcDateTime::from_timestamp(1_546_300_800, 0).unwrap()
}

#[test]
fn blob_uri_without_fixed_component() {
    let client = Client::new("account");
    assert_eq!(generate_blob_uri(&client, "container", "blob", None), BASE);
}

#[test]
fn blob_uri_with_fixed_component() {
    let client = Client::new("account");
    assert_eq!(
        generate_blob_uri(&client, "container", "blob", Some("comp=metadata")),
        format!("{}?comp=metadata", BASE)
    );
}

#[test]
fn timeout_parameter_is_decimal() {
    assert_eq!(timeout_to_uri_parameter(Some(30)), Some("timeout=30".to_string()));
    assert_eq!(timeout_to_uri_parameter(Some(0)), Some("timeout=0".to_string()));
    assert_eq!(
        timeout_to_uri_parameter(Some(u64::MAX)),
        Some("timeout=18446744073709551615".to_string())
    );
    assert_eq!(timeout_to_uri_parameter(None), None);
}

#[test]
fn snapshot_parameter_is_rfc3339() {
    assert_eq!(
        snapshot_to_uri_parameter(Some(new_year_2019())),
        Some("snapshot=2019-01-01T00:00:00+00:00".to_string())
    );
    assert_eq!(snapshot_to_uri_parameter(None), None);
}

#[test]
fn append_parameter_tracks_the_first_one() {
    let mut uri = String::from("u");
    let mut first = true;
    append_parameter(&mut uri, &mut first, &None);
    assert_eq!(uri, "u");
    assert!(first);
    append_parameter(&mut uri, &mut first, &Some("a=1".to_string()));
    assert_eq!(uri, "u?a=1");
    assert!(!first);
    append_parameter(&mut uri, &mut first, &None);
    assert_eq!(uri, "u?a=1");
    assert!(!first);
    append_parameter(&mut uri, &mut first, &Some("b=2".to_string()));
    assert_eq!(uri, "u?a=1&b=2");
    assert!(!first);
}

#[test]
fn copy_blob_fresh_builder_is_empty() {
    let client = Client::new("account");
    let builder = CopyBlobBuilder::new(&client);
    assert_eq!(builder.client().account(), "account");
    assert_eq!(builder.copy_source(), None);
    assert_eq!(builder.timeout(), None);
    assert!(builder.metadata().is_none());
    assert!(builder.lease_id().is_none());
    assert_eq!(builder.client_request_id(), None);
}

#[test]
fn copy_blob_minimal_request() {
    let client = Client::new("account");
    let pending = CopyBlobBuilder::new(&client)
        .with_container_name("container")
        .with_blob_name("blob")
        .with_copy_source("https://other/source")
        .finalize();
    assert_eq!(pending.request.uri, BASE);
    assert_eq!(pending.request.method, Method::Put);
    assert_eq!(
        pending.request.headers,
        vec![("x-ms-copy-source".to_string(), "https://other/source".to_string())]
    );
    assert_eq!(pending.request.body, Some(Vec::new()));
    assert_eq!(pending.request.expected_status, 202);
}

#[test]
fn copy_blob_full_request() {
    let client = Client::new("account");
    let mut metadata = Metadata::new();
    metadata.insert("owner", "me");
    metadata.insert("kind", "copy");
    let lease = Uuid::parse_str("12345678-1234-5678-1234-567812345678").unwrap();
    let pending = CopyBlobBuilder::new(&client)
        .with_timeout(5)
        .with_client_request_id("req-1")
        .with_lease_id(&lease)
        .with_metadata(&metadata)
        .with_copy_source("src")
        .with_blob_name("blob")
        .with_container_name("container")
        .finalize();
    assert_eq!(pending.request.uri, format!("{}?timeout=5", BASE));
    assert_eq!(
        pending.request.headers,
        vec![
            ("x-ms-copy-source".to_string(), "src".to_string()),
            ("x-ms-meta-owner".to_string(), "me".to_string()),
            ("x-ms-meta-kind".to_string(), "copy".to_string()),
            (
                "x-ms-lease-id".to_string(),
                "12345678-1234-5678-1234-567812345678".to_string()
            ),
            ("x-ms-client-request-id".to_string(), "req-1".to_string()),
        ]
    );
}

#[test]
fn copy_blob_required_getters_give_what_was_set() {
    let client = Client::new("account");
    let builder = CopyBlobBuilder::new(&client)
        .with_container_name("container")
        .with_blob_name("blob");
    assert_eq!(builder.container_name(), "container");
    assert_eq!(builder.blob_name(), "blob");
}

#[test]
fn copy_blob_last_value_wins() {
    let client = Client::new("account");
    let first = Metadata::new();
    let mut second = Metadata::new();
    second.insert("k", "v");
    let lease1 = Uuid::from_u128(1);
    let lease2 = Uuid::from_u128(2);
    let pending = CopyBlobBuilder::new(&client)
        .with_container_name("a")
        .with_container_name("container")
        .with_blob_name("b")
        .with_blob_name("blob")
        .with_copy_source("one")
        .with_copy_source("two")
        .with_timeout(1)
        .with_timeout(2)
        .with_metadata(&first)
        .with_metadata(&second)
        .with_lease_id(&lease1)
        .with_lease_id(&lease2)
        .with_client_request_id("x")
        .with_client_request_id("y")
        .finalize();
    assert_eq!(pending.request.uri, format!("{}?timeout=2", BASE));
    assert_eq!(
        pending.request.headers,
        vec![
            ("x-ms-copy-source".to_string(), "two".to_string()),
            ("x-ms-meta-k".to_string(), "v".to_string()),
            (
                "x-ms-lease-id".to_string(),
                "00000000-0000-0000-0000-000000000002".to_string()
            ),
            ("x-ms-client-request-id".to_string(), "y".to_string()),
        ]
    );
}

#[test]
fn copy_blob_clone_keeps_the_fields() {
    let client = Client::new("account");
    let builder = CopyBlobBuilder::new(&client)
        .with_container_name("container")
        .with_blob_name("blob")
        .with_copy_source("src")
        .with_timeout(9);
    let copy = builder.clone();
    assert_eq!(copy.finalize(), builder.finalize());
}

#[test]
fn get_blob_properties_query_for_every_subset() {
    let client = Client::new("account");
    let snapshot = "snapshot=2019-01-01T00:00:00+00:00";
    let timeout = "timeout=7";
    for with_snapshot in [false, true] {
        for with_timeout in [false, true] {
            let mut builder = GetBlobPropertiesBuilder::new(&client)
                .with_container_name("container")
                .with_blob_name("blob");
            let mut parts = String::new();
            if with_snapshot {
                builder = builder.with_snapshot(new_year_2019());
                parts.push_str(snapshot);
            }
            if with_timeout {
                builder = builder.with_timeout(7);
                parts.push_str(timeout);
            }
            let uri = builder.finalize().request.uri;
            let query = &uri[BASE.len()..];
            assert_eq!(&uri[..BASE.len()], BASE);
            assert_eq!(without_separators(query), parts);
            let present = (with_snapshot as usize) + (with_timeout as usize);
            assert_eq!(query.matches('?').count(), if present > 0 { 1 } else { 0 });
            assert_eq!(query.matches('&').count(), present.saturating_sub(1));
            assert!(query.is_empty() || query.starts_with('?'));
        }
    }
}

#[test]
fn get_blob_properties_exact_uris() {
    let client = Client::new("account");
    let both = GetBlobPropertiesBuilder::new(&client)
        .with_container_name("container")
        .with_blob_name("blob")
        .with_timeout(7)
        .with_snapshot(new_year_2019())
        .finalize();
    assert_eq!(
        both.request.uri,
        format!("{}?snapshot=2019-01-01T00:00:00+00:00&timeout=7", BASE)
    );
    let only_timeout = GetBlobPropertiesBuilder::new(&client)
        .with_container_name("container")
        .with_blob_name("blob")
        .with_timeout(7)
        .finalize();
    assert_eq!(only_timeout.request.uri, format!("{}?timeout=7", BASE));
    assert_eq!(only_timeout.request.method, Method::Head);
    assert_eq!(only_timeout.request.body, None);
    assert_eq!(only_timeout.request.expected_status, 200);
    assert_eq!(only_timeout.container_name, "container");
    assert_eq!(only_timeout.blob_name, "blob");
    assert_eq!(only_timeout.snapshot_time, None);
}

#[test]
fn get_blob_metadata_query_for_every_subset() {
    let client = Client::new("account");
    let fixed = format!("{}?comp=metadata", BASE);
    for with_snapshot in [false, true] {
        for with_timeout in [false, true] {
            let mut builder = GetBlobMetadataBuilder::new(&client)
                .with_container_name("container")
                .with_blob_name("blob");
            let mut parts = String::new();
            if with_snapshot {
                builder = builder.with_snapshot(new_year_2019());
                parts.push_str("snapshot=2019-01-01T00:00:00+00:00");
            }
            if with_timeout {
                builder = builder.with_timeout(7);
                parts.push_str("timeout=7");
            }
            let uri = builder.finalize().request.uri;
            assert_eq!(&uri[..fixed.len()], fixed);
            let query = &uri[fixed.len()..];
            assert_eq!(without_separators(query), parts);
            let present = (with_snapshot as usize) + (with_timeout as usize);
            assert_eq!(query.matches('?').count(), 0);
            assert_eq!(query.matches('&').count(), present);
            assert_eq!(uri.matches('?').count(), 1);
        }
    }
}

#[test]
fn get_blob_metadata_exact_uri_with_both_parameters() {
    let client = Client::new("account");
    let pending = GetBlobMetadataBuilder::new(&client)
        .with_container_name("container")
        .with_blob_name("blob")
        .with_snapshot(new_year_2019())
        .with_timeout(7)
        .finalize();
    assert_eq!(
        pending.request.uri,
        format!("{}?comp=metadata&snapshot=2019-01-01T00:00:00+00:00&timeout=7", BASE)
    );
    assert_eq!(pending.snapshot_time, Some(new_year_2019()));
}

#[test]
fn get_blob_builders_send_the_lease_id_and_the_client_request_id() {
    let client = Client::new("account");
    let lease = Uuid::from_u128(0xabcdef);
    let pending = GetBlobMetadataBuilder::new(&client)
        .with_container_name("container")
        .with_blob_name("blob")
        .with_client_request_id("mine")
        .with_lease_id(&lease)
        .finalize();
    assert_eq!(
        pending.request.headers,
        vec![
            ("x-ms-lease-id".to_string(), "00000000-0000-0000-0000-000000abcdef".to_string()),
            ("x-ms-client-request-id".to_string(), "mine".to_string()),
        ]
    );
    let pending = GetBlobPropertiesBuilder::new(&client)
        .with_container_name("container")
        .with_blob_name("blob")
        .with_lease_id(&lease)
        .with_client_request_id("mine")
        .finalize();
    assert_eq!(
        pending.request.headers,
        vec![
            ("x-ms-lease-id".to_string(), "00000000-0000-0000-0000-000000abcdef".to_string()),
            ("x-ms-client-request-id".to_string(), "mine".to_string()),
        ]
    );
    let pending = GetBlobPropertiesBuilder::new(&client)
        .with_container_name("container")
        .with_blob_name("blob")
        .with_client_request_id("mine")
        .finalize();
    assert_eq!(
        pending.request.headers,
        vec![("x-ms-client-request-id".to_string(), "mine".to_string())]
    );
    let pending = GetBlobMetadataBuilder::new(&client)
        .with_container_name("container")
        .with_blob_name("blob")
        .finalize();
    assert!(pending.request.headers.is_empty());
}

#[test]
fn get_blob_builders_last_value_wins() {
    let client = Client::new("account");
    let builder = GetBlobPropertiesBuilder::new(&client)
        .with_container_name("a")
        .with_blob_name("b")
        .with_container_name("container")
        .with_blob_name("blob")
        .with_timeout(1)
        .with_timeout(2)
        .with_client_request_id("x")
        .with_client_request_id("y");
    assert_eq!(builder.container_name(), "container");
    assert_eq!(builder.blob_name(), "blob");
    assert_eq!(builder.timeout(), Some(2));
    assert_eq!(builder.client_request_id(), Some("y"));
    assert_eq!(builder.snapshot(), None);
    assert_eq!(builder.finalize().request.uri, format!("{}?timeout=2", BASE));
}
