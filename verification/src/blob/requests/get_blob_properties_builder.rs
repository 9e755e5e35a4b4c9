use crate::blob::responses::get_blob_properties_response::{
    get_blob_properties_response_of, get_blob_properties_result, GetBlobPropertiesResponse, GetBlobPropertiesResponseView,
};
use crate::blob::{blob_uri, generate_blob_uri, blob_of, Blob};
use crate::client::Client;
use crate::datetime::{option_instant, UtcDateTime};
use crate::errors::{
    check_status_extract_headers_and_body, status_check, AzureError, AzureErrorView,
};
use crate::headers::{header_entries, Header, CLIENT_REQUEST_ID};
use crate::ids::LeaseId;
use crate::markers::{initial_markers, step, terminal, No, Step, ToAssign, Yes};
use crate::metadata::Pair;
use crate::request::{
    add_client_request_id_header, add_lease_id_header, append_parameter, free_of_separators,
    lease_id_header, lemma_query_string_step, lemma_timeout_parameter_free_of_separators,
    lemma_two_free_of_separators, option_lease, pairs_view, query_string, snapshot_parameter,
    snapshot_to_uri_parameter, text_header, timeout_parameter, timeout_to_uri_parameter,
    HttpRequest, HttpRequestView, Method, STATUS_OK,
};
use crate::text::option_str;
use http::HeaderMap;
use std::marker::PhantomData;
use vstd::prelude::*;
use vstd::string::*;

verus! {

/// Builds the request that asks for the properties of a blob. The container
/// name and the blob name are required: the type of the builder records
/// which of them have been given, and only a builder that has both can be
/// finalized.
#[derive(Debug)]
pub struct GetBlobPropertiesBuilder<'a, ContainerNameSet, BlobNameSet> where
    ContainerNameSet: ToAssign,
    BlobNameSet: ToAssign,
 {
    client: &'a Client,
    p_container_name: PhantomData<ContainerNameSet>,
    p_blob_name: PhantomData<BlobNameSet>,
    container_name: Option<&'a str>,
    blob_name: Option<&'a str>,
    snapshot: Option<UtcDateTime>,
    timeout: Option<u64>,
    lease_id: Option<&'a LeaseId>,
    client_request_id: Option<&'a str>,
}

/// What a [`GetBlobPropertiesBuilder`] holds.
pub struct GetBlobPropertiesBuilderView {
    pub account: Seq<char>,
    pub container_name: Option<Seq<char>>,
    pub blob_name: Option<Seq<char>>,
    pub snapshot: Option<UtcDateTime>,
    pub timeout: Option<u64>,
    pub lease_id: Option<u128>,
    pub client_request_id: Option<Seq<char>>,
}

impl GetBlobPropertiesBuilderView {
    /// What a fresh builder holds: the account and nothing else.
    pub open spec fn new(account: Seq<char>) -> GetBlobPropertiesBuilderView {
        GetBlobPropertiesBuilderView {
            account,
            container_name: None,
            blob_name: None,
            snapshot: None,
            timeout: None,
            lease_id: None,
            client_request_id: None,
        }
    }

    pub open spec fn with_container_name(self, container_name: Seq<char>) -> GetBlobPropertiesBuilderView {
        GetBlobPropertiesBuilderView { container_name: Some(container_name), ..self }
    }

    pub open spec fn with_blob_name(self, blob_name: Seq<char>) -> GetBlobPropertiesBuilderView {
        GetBlobPropertiesBuilderView { blob_name: Some(blob_name), ..self }
    }

    pub open spec fn with_snapshot(self, snapshot: UtcDateTime) -> GetBlobPropertiesBuilderView {
        GetBlobPropertiesBuilderView { snapshot: Some(snapshot), ..self }
    }

    pub open spec fn with_timeout(self, timeout: u64) -> GetBlobPropertiesBuilderView {
        GetBlobPropertiesBuilderView { timeout: Some(timeout), ..self }
    }

    pub open spec fn with_lease_id(self, lease_id: u128) -> GetBlobPropertiesBuilderView {
        GetBlobPropertiesBuilderView { lease_id: Some(lease_id), ..self }
    }

    pub open spec fn with_client_request_id(self, client_request_id: Seq<char>) -> GetBlobPropertiesBuilderView {
        GetBlobPropertiesBuilderView { client_request_id: Some(client_request_id), ..self }
    }

    /// Whether every required field has been given.
    pub open spec fn complete(self) -> bool {
        self.container_name is Some && self.blob_name is Some
    }

    /// The query parameters that the optional fields give, in the order in
    /// which they are written: the snapshot, then the timeout.
    pub open spec fn parameters(self) -> Seq<Option<Seq<char>>> {
        seq![snapshot_parameter(self.snapshot), timeout_parameter(self.timeout)]
    }

    /// The URI that a builder holding this asks: the blob, then each
    /// optional parameter that is there, the first behind a `?` and the
    /// second behind an `&`.
    pub open spec fn uri(self) -> Seq<char>
        recommends
            self.complete(),
    {
        blob_uri(self.account, self.container_name->0, self.blob_name->0, None)
            + query_string(true, self.parameters())
    }

    /// The request that a builder holding this is finalized into: a `HEAD`
    /// on the blob without a body, and the headers for the lease id and the
    /// client request id, in this order.
    pub open spec fn request(self) -> HttpRequestView
        recommends
            self.complete(),
    {
        HttpRequestView {
            uri: self.uri(),
            method: Method::Head,
            headers: lease_id_header(self.lease_id) + text_header(
                CLIENT_REQUEST_ID@,
                self.client_request_id,
            ),
            body: None,
            expected_status: STATUS_OK,
        }
    }
}

/// Giving a field a second time leaves only the second value: the builder
/// is then what it would be had the first value never been given.
pub proof fn lemma_get_blob_properties_last_value_wins(
    b: GetBlobPropertiesBuilderView,
    text1: Seq<char>,
    text2: Seq<char>,
    snapshot1: UtcDateTime,
    snapshot2: UtcDateTime,
    timeout1: u64,
    timeout2: u64,
    lease1: u128,
    lease2: u128,
)
    ensures
        b.with_container_name(text1).with_container_name(text2) == b.with_container_name(text2),
        b.with_blob_name(text1).with_blob_name(text2) == b.with_blob_name(text2),
        b.with_snapshot(snapshot1).with_snapshot(snapshot2) == b.with_snapshot(snapshot2),
        b.with_timeout(timeout1).with_timeout(timeout2) == b.with_timeout(timeout2),
        b.with_lease_id(lease1).with_lease_id(lease2) == b.with_lease_id(lease2),
        b.with_client_request_id(text1).with_client_request_id(text2) == b.with_client_request_id(
            text2,
        ),
{
}

impl<'a, ContainerNameSet, BlobNameSet> GetBlobPropertiesBuilder<'a, ContainerNameSet, BlobNameSet> where
    ContainerNameSet: ToAssign,
    BlobNameSet: ToAssign,
 {
    #[verifier::type_invariant]
    spec fn markers_tell_the_truth(self) -> bool {
        &&& ContainerNameSet::assigned() ==> self.container_name is Some
        &&& BlobNameSet::assigned() ==> self.blob_name is Some
    }

    /// What the builder holds.
    pub closed spec fn view(&self) -> GetBlobPropertiesBuilderView {
        GetBlobPropertiesBuilderView {
            account: self.client@,
            container_name: option_str(self.container_name),
            blob_name: option_str(self.blob_name),
            snapshot: self.snapshot,
            timeout: self.timeout,
            lease_id: option_lease(self.lease_id),
            client_request_id: option_str(self.client_request_id),
        }
    }

    /// The markers of the builder: for the container name and the blob
    /// name, in this order.
    pub open spec fn markers() -> Seq<bool> {
        seq![ContainerNameSet::assigned(), BlobNameSet::assigned()]
    }

    /// The client on whose behalf the request is built.
    pub fn client(&self) -> (r: &'a Client)
        ensures
            r@ == self@.account,
    {
        self.client
    }

    pub fn snapshot(&self) -> (r: Option<UtcDateTime>)
        ensures
            r == self@.snapshot,
    {
        self.snapshot
    }

    pub fn timeout(&self) -> (r: Option<u64>)
        ensures
            r == self@.timeout,
    {
        self.timeout
    }

    pub fn lease_id(&self) -> (r: Option<&'a LeaseId>)
        ensures
            option_lease(r) == self@.lease_id,
    {
        self.lease_id
    }

    pub fn client_request_id(&self) -> (r: Option<&'a str>)
        ensures
            option_str(r) == self@.client_request_id,
    {
        self.client_request_id
    }

    /// Gives the name of the container. The marker of the container name
    /// is set; a name given before is replaced.
    pub fn with_container_name(self, container_name: &'a str) -> (r: GetBlobPropertiesBuilder<
        'a,
        Yes,
        BlobNameSet,
    >)
        ensures
            r@ == self@.with_container_name(container_name@),
            GetBlobPropertiesBuilder::<'a, Yes, BlobNameSet>::markers() == step(
                Self::markers(),
                Step::Required(0),
            ),
    {
        proof {
            use_type_invariant(&self);
            assert(GetBlobPropertiesBuilder::<'a, Yes, BlobNameSet>::markers() =~= step(
                Self::markers(),
                Step::Required(0),
            ));
        }
        GetBlobPropertiesBuilder {
            client: self.client,
            p_container_name: PhantomData,
            p_blob_name: PhantomData,
            container_name: Some(container_name),
            blob_name: self.blob_name,
            snapshot: self.snapshot,
            timeout: self.timeout,
            lease_id: self.lease_id,
            client_request_id: self.client_request_id,
        }
    }

    /// Gives the name of the blob. The marker of the blob name is set; a
    /// name given before is replaced.
    pub fn with_blob_name(self, blob_name: &'a str) -> (r: GetBlobPropertiesBuilder<
        'a,
        ContainerNameSet,
        Yes,
    >)
        ensures
            r@ == self@.with_blob_name(blob_name@),
            GetBlobPropertiesBuilder::<'a, ContainerNameSet, Yes>::markers() == step(
                Self::markers(),
                Step::Required(1),
            ),
    {
        proof {
            use_type_invariant(&self);
            assert(GetBlobPropertiesBuilder::<'a, ContainerNameSet, Yes>::markers() =~= step(
                Self::markers(),
                Step::Required(1),
            ));
        }
        GetBlobPropertiesBuilder {
            client: self.client,
            p_container_name: PhantomData,
            p_blob_name: PhantomData,
            container_name: self.container_name,
            blob_name: Some(blob_name),
            snapshot: self.snapshot,
            timeout: self.timeout,
            lease_id: self.lease_id,
            client_request_id: self.client_request_id,
        }
    }

    /// Gives the time of the snapshot to ask about. No marker changes.
    pub fn with_snapshot(self, snapshot: UtcDateTime) -> (r: GetBlobPropertiesBuilder<
        'a,
        ContainerNameSet,
        BlobNameSet,
    >)
        ensures
            r@ == self@.with_snapshot(snapshot),
    {
        proof {
            use_type_invariant(&self);
        }
        GetBlobPropertiesBuilder {
            client: self.client,
            p_container_name: PhantomData,
            p_blob_name: PhantomData,
            container_name: self.container_name,
            blob_name: self.blob_name,
            snapshot: Some(snapshot),
            timeout: self.timeout,
            lease_id: self.lease_id,
            client_request_id: self.client_request_id,
        }
    }

    /// Gives the timeout in seconds. No marker changes.
    pub fn with_timeout(self, timeout: u64) -> (r: GetBlobPropertiesBuilder<
        'a,
        ContainerNameSet,
        BlobNameSet,
    >)
        ensures
            r@ == self@.with_timeout(timeout),
    {
        proof {
            use_type_invariant(&self);
        }
        GetBlobPropertiesBuilder {
            client: self.client,
            p_container_name: PhantomData,
            p_blob_name: PhantomData,
            container_name: self.container_name,
            blob_name: self.blob_name,
            snapshot: self.snapshot,
            timeout: Some(timeout),
            lease_id: self.lease_id,
            client_request_id: self.client_request_id,
        }
    }

    /// Gives the id of the lease on the blob. No marker changes.
    pub fn with_lease_id(self, lease_id: &'a LeaseId) -> (r: GetBlobPropertiesBuilder<
        'a,
        ContainerNameSet,
        BlobNameSet,
    >)
        ensures
            r@ == self@.with_lease_id(lease_id@),
    {
        proof {
            use_type_invariant(&self);
        }
        GetBlobPropertiesBuilder {
            client: self.client,
            p_container_name: PhantomData,
            p_blob_name: PhantomData,
            container_name: self.container_name,
            blob_name: self.blob_name,
            snapshot: self.snapshot,
            timeout: self.timeout,
            lease_id: Some(lease_id),
            client_request_id: self.client_request_id,
        }
    }

    /// Gives the client's own id of the request. No marker changes.
    pub fn with_client_request_id(self, client_request_id: &'a str) -> (r: GetBlobPropertiesBuilder<
        'a,
        ContainerNameSet,
        BlobNameSet,
    >)
        ensures
            r@ == self@.with_client_request_id(client_request_id@),
    {
        proof {
            use_type_invariant(&self);
        }
        GetBlobPropertiesBuilder {
            client: self.client,
            p_container_name: PhantomData,
            p_blob_name: PhantomData,
            container_name: self.container_name,
            blob_name: self.blob_name,
            snapshot: self.snapshot,
            timeout: self.timeout,
            lease_id: self.lease_id,
            client_request_id: Some(client_request_id),
        }
    }
}

impl<'a, ContainerNameSet, BlobNameSet> Clone for GetBlobPropertiesBuilder<
    'a,
    ContainerNameSet,
    BlobNameSet,
> where ContainerNameSet: ToAssign, BlobNameSet: ToAssign {
    fn clone(&self) -> (r: Self)
        ensures
            r@ == self@,
    {
        proof {
            use_type_invariant(self);
        }
        GetBlobPropertiesBuilder {
            client: self.client,
            p_container_name: PhantomData,
            p_blob_name: PhantomData,
            container_name: self.container_name,
            blob_name: self.blob_name,
            snapshot: self.snapshot,
            timeout: self.timeout,
            lease_id: self.lease_id,
            client_request_id: self.client_request_id,
        }
    }
}

impl<'a> GetBlobPropertiesBuilder<'a, No, No> {
    /// A fresh builder: no marker is set and no optional field is there.
    pub fn new(client: &'a Client) -> (r: GetBlobPropertiesBuilder<'a, No, No>)
        ensures
            r@ == GetBlobPropertiesBuilderView::new(client@),
            GetBlobPropertiesBuilder::<'a, No, No>::markers() == initial_markers(2),
    {
        proof {
            assert(GetBlobPropertiesBuilder::<'a, No, No>::markers() =~= initial_markers(2));
        }
        GetBlobPropertiesBuilder {
            client,
            p_container_name: PhantomData,
            container_name: None,
            p_blob_name: PhantomData,
            blob_name: None,
            snapshot: None,
            timeout: None,
            lease_id: None,
            client_request_id: None,
        }
    }
}

impl<'a, BlobNameSet> GetBlobPropertiesBuilder<'a, Yes, BlobNameSet> where BlobNameSet: ToAssign {
    /// The name of the container, which has been given.
    pub fn container_name(&self) -> (r: &'a str)
        ensures
            self@.container_name == Some(r@),
    {
        proof {
            use_type_invariant(self);
        }
        self.container_name.unwrap()
    }
}

impl<'a, ContainerNameSet> GetBlobPropertiesBuilder<'a, ContainerNameSet, Yes> where
    ContainerNameSet: ToAssign,
 {
    /// The name of the blob, which has been given.
    pub fn blob_name(&self) -> (r: &'a str)
        ensures
            self@.blob_name == Some(r@),
    {
        proof {
            use_type_invariant(self);
        }
        self.blob_name.unwrap()
    }
}

/// A request for the properties of a blob that is ready to be sent and waits
/// for its response. It remembers which blob was asked about.
#[derive(Debug, Clone, PartialEq, Eq)]
pub struct PendingGetBlobProperties {
    pub request: HttpRequest,
    pub container_name: String,
    pub blob_name: String,
    pub snapshot_time: Option<UtcDateTime>,
}

impl<'a> GetBlobPropertiesBuilder<'a, Yes, Yes> {
    /// Turns the builder into the request to send. Only a builder whose
    /// two markers are set has this operation, so the request always names
    /// a container and a blob. No query parameter of the request holds a
    /// separator of its own, so the law of query assembly holds of its URI.
    pub fn finalize(self) -> (r: PendingGetBlobProperties)
        ensures
            terminal(GetBlobPropertiesBuilder::<'a, Yes, Yes>::markers()),
            self@.complete(),
            r.request@ == self@.request(),
            free_of_separators(self@.parameters()),
            Some(r.container_name@) == self@.container_name,
            Some(r.blob_name@) == self@.blob_name,
            r.snapshot_time == self@.snapshot,
    {
        proof {
            use_type_invariant(&self);
        }
        let container_name = self.container_name.unwrap();
        let blob_name = self.blob_name.unwrap();
        let mut uri = generate_blob_uri(self.client, container_name, blob_name, None);
        let ghost base = uri@;
        let mut first = true;
        let snapshot = snapshot_to_uri_parameter(self.snapshot);
        append_parameter(&mut uri, &mut first, &snapshot);
        let timeout = timeout_to_uri_parameter(self.timeout);
        append_parameter(&mut uri, &mut first, &timeout);
        proof {
            let one = snapshot_parameter(self.snapshot);
            let two = seq![timeout_parameter(self.timeout)];
            lemma_query_string_step(true, one, two);
            assert(seq![one] + two =~= self@.parameters());
            lemma_timeout_parameter_free_of_separators(self.timeout);
            lemma_two_free_of_separators(one, timeout_parameter(self.timeout));
            assert(seq![one, timeout_parameter(self.timeout)] =~= self@.parameters());
            assert(uri@ =~= base + query_string(true, self@.parameters()));
        }
        let mut headers: Vec<(String, String)> = Vec::new();
        assert(pairs_view(headers@) =~= Seq::<Pair>::empty());
        add_lease_id_header(self.lease_id, &mut headers);
        add_client_request_id_header(self.client_request_id, &mut headers);
        let r = PendingGetBlobProperties {
            request: HttpRequest {
                uri,
                method: Method::Head,
                headers,
                body: None,
                expected_status: STATUS_OK,
            },
            container_name: String::from_str(container_name),
            blob_name: String::from_str(blob_name),
            snapshot_time: self.snapshot,
        };
        proof {
            assert(r.request@.headers =~= self@.request().headers);
        }
        r
    }
}

/// What a response to the request is decoded into: the mismatch where the
/// status is not the expected one; otherwise the properties of the blob as the
/// headers give them, then the record around them.
pub open spec fn get_blob_properties_outcome(
    expected: u16,
    blob_name: Seq<char>,
    container_name: Seq<char>,
    snapshot_time: Option<(i64, u32)>,
    status: u16,
    entries: Seq<Header>,
    body: Seq<u8>,
) -> Result<GetBlobPropertiesResponseView, AzureErrorView> {
    match status_check(status, expected, body) {
        Ok(_) => match blob_of(blob_name, container_name, snapshot_time, entries) {
            Ok(blob) => get_blob_properties_response_of(blob, entries),
            Err(e) => Err(e),
        },
        Err(e) => Err(e),
    }
}

impl PendingGetBlobProperties {
    /// Decodes the response to the request. A status other than the
    /// expected one gives the mismatch with the body as received, whatever
    /// the headers say.
    pub fn into_response(self, status: u16, headers: &HeaderMap, body: &[u8]) -> (r: Result<
        GetBlobPropertiesResponse,
        AzureError,
    >)
        ensures
            get_blob_properties_result(r) == get_blob_properties_outcome(
                self.request.expected_status,
                self.blob_name@,
                self.container_name@,
                option_instant(self.snapshot_time),
                status,
                header_entries(*headers),
                body@,
            ),
    {
        match check_status_extract_headers_and_body(
            status,
            headers,
            body,
            self.request.expected_status,
        ) {
            Ok((headers, body)) => match Blob::from_headers(
                self.blob_name.as_str(),
                self.container_name.as_str(),
                self.snapshot_time,
                headers,
            ) {
                Ok(blob) => GetBlobPropertiesResponse::from_response(headers, blob, body),
                Err(e) => Err(e),
            },
            Err(e) => Err(e),
        }
    }
}

} // verus!
