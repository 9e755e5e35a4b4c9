use crate::blob::responses::copy_blob_response::{
    copy_blob_response_of, copy_blob_result, CopyBlobResponse, CopyBlobResponseView,
};
use crate::blob::{blob_uri, generate_blob_uri};
use crate::client::Client;
use crate::errors::{
    check_status_extract_headers_and_body, status_check, AzureError, AzureErrorView,
};
use crate::headers::{header_entries, CLIENT_REQUEST_ID, COPY_SOURCE};
use crate::ids::LeaseId;
use crate::markers::{initial_markers, step, terminal, No, Step, ToAssign, Yes};
use crate::metadata::{Metadata, Pair};
use crate::request::{
    add_client_request_id_header, add_copy_source_header, add_lease_id_header,
    add_metadata_headers, append_parameter, free_of_separators, lease_id_header,
    lemma_timeout_parameter_free_of_separators, metadata_headers, option_lease,
    option_metadata, pairs_view, query_string, text_header, timeout_parameter,
    timeout_to_uri_parameter, HttpRequest, HttpRequestView, Method, STATUS_ACCEPTED,
};
use crate::text::option_str;
use http::HeaderMap;
use std::marker::PhantomData;
use vstd::prelude::*;

verus! {

/// Builds the request that copies a blob. The container name, the blob
/// name and the source of the copy are required: the type of the builder
/// records which of them have been given, and only a builder that has all
/// three can be finalized.
#[derive(Debug)]
pub struct CopyBlobBuilder<'a, ContainerNameSet, BlobNameSet, BodySet> where
    ContainerNameSet: ToAssign,
    BlobNameSet: ToAssign,
    BodySet: ToAssign,
 {
    client: &'a Client,
    p_container_name: PhantomData<ContainerNameSet>,
    p_blob_name: PhantomData<BlobNameSet>,
    p_body: PhantomData<BodySet>,
    container_name: Option<&'a str>,
    blob_name: Option<&'a str>,
    copy_source: Option<&'a str>,
    timeout: Option<u64>,
    metadata: Option<&'a Metadata>,
    lease_id: Option<&'a LeaseId>,
    client_request_id: Option<&'a str>,
}

/// What a [`CopyBlobBuilder`] holds.
pub struct CopyBlobBuilderView {
    pub account: Seq<char>,
    pub container_name: Option<Seq<char>>,
    pub blob_name: Option<Seq<char>>,
    pub copy_source: Option<Seq<char>>,
    pub timeout: Option<u64>,
    pub metadata: Option<Seq<Pair>>,
    pub lease_id: Option<u128>,
    pub client_request_id: Option<Seq<char>>,
}

impl CopyBlobBuilderView {
    /// What a fresh builder holds: the account and nothing else.
    pub open spec fn new(account: Seq<char>) -> CopyBlobBuilderView {
        CopyBlobBuilderView {
            account,
            container_name: None,
            blob_name: None,
            copy_source: None,
            timeout: None,
            metadata: None,
            lease_id: None,
            client_request_id: None,
        }
    }

    pub open spec fn with_container_name(self, container_name: Seq<char>) -> CopyBlobBuilderView {
        CopyBlobBuilderView { container_name: Some(container_name), ..self }
    }

    pub open spec fn with_blob_name(self, blob_name: Seq<char>) -> CopyBlobBuilderView {
        CopyBlobBuilderView { blob_name: Some(blob_name), ..self }
    }

    pub open spec fn with_copy_source(self, copy_source: Seq<char>) -> CopyBlobBuilderView {
        CopyBlobBuilderView { copy_source: Some(copy_source), ..self }
    }

    pub open spec fn with_timeout(self, timeout: u64) -> CopyBlobBuilderView {
        CopyBlobBuilderView { timeout: Some(timeout), ..self }
    }

    pub open spec fn with_metadata(self, metadata: Seq<Pair>) -> CopyBlobBuilderView {
        CopyBlobBuilderView { metadata: Some(metadata), ..self }
    }

    pub open spec fn with_lease_id(self, lease_id: u128) -> CopyBlobBuilderView {
        CopyBlobBuilderView { lease_id: Some(lease_id), ..self }
    }

    pub open spec fn with_client_request_id(self, client_request_id: Seq<char>) -> CopyBlobBuilderView {
        CopyBlobBuilderView { client_request_id: Some(client_request_id), ..self }
    }

    /// Whether every required field has been given.
    pub open spec fn complete(self) -> bool {
        self.container_name is Some && self.blob_name is Some && self.copy_source is Some
    }

    /// The request that a builder holding this is finalized into: a `PUT`
    /// on the blob with an empty body, the timeout as the only query
    /// parameter, and the headers for the copy source, the metadata, the
    /// lease id and the client request id, in this order.
    pub open spec fn request(self) -> HttpRequestView
        recommends
            self.complete(),
    {
        HttpRequestView {
            uri: blob_uri(self.account, self.container_name->0, self.blob_name->0, None)
                + query_string(true, seq![timeout_parameter(self.timeout)]),
            method: Method::Put,
            headers: text_header(COPY_SOURCE@, self.copy_source) + metadata_headers(self.metadata)
                + lease_id_header(self.lease_id) + text_header(CLIENT_REQUEST_ID@, self.client_request_id),
            body: Some(Seq::empty()),
            expected_status: STATUS_ACCEPTED,
        }
    }
}

/// Giving a field a second time leaves only the second value: the builder
/// is then what it would be had the first value never been given.
pub proof fn lemma_copy_blob_last_value_wins(
    b: CopyBlobBuilderView,
    text1: Seq<char>,
    text2: Seq<char>,
    timeout1: u64,
    timeout2: u64,
    metadata1: Seq<Pair>,
    metadata2: Seq<Pair>,
    lease1: u128,
    lease2: u128,
)
    ensures
        b.with_container_name(text1).with_container_name(text2) == b.with_container_name(text2),
        b.with_blob_name(text1).with_blob_name(text2) == b.with_blob_name(text2),
        b.with_copy_source(text1).with_copy_source(text2) == b.with_copy_source(text2),
        b.with_timeout(timeout1).with_timeout(timeout2) == b.with_timeout(timeout2),
        b.with_metadata(metadata1).with_metadata(metadata2) == b.with_metadata(metadata2),
        b.with_lease_id(lease1).with_lease_id(lease2) == b.with_lease_id(lease2),
        b.with_client_request_id(text1).with_client_request_id(text2) == b.with_client_request_id(
            text2,
        ),
{
}

impl<'a, ContainerNameSet, BlobNameSet, BodySet> CopyBlobBuilder<
    'a,
    ContainerNameSet,
    BlobNameSet,
    BodySet,
> where ContainerNameSet: ToAssign, BlobNameSet: ToAssign, BodySet: ToAssign {
    #[verifier::type_invariant]
    spec fn markers_tell_the_truth(self) -> bool {
        &&& ContainerNameSet::assigned() ==> self.container_name is Some
        &&& BlobNameSet::assigned() ==> self.blob_name is Some
        &&& BodySet::assigned() ==> self.copy_source is Some
    }

    /// What the builder holds.
    pub closed spec fn view(&self) -> CopyBlobBuilderView {
        CopyBlobBuilderView {
            account: self.client@,
            container_name: option_str(self.container_name),
            blob_name: option_str(self.blob_name),
            copy_source: option_str(self.copy_source),
            timeout: self.timeout,
            metadata: option_metadata(self.metadata),
            lease_id: option_lease(self.lease_id),
            client_request_id: option_str(self.client_request_id),
        }
    }

    /// The markers of the builder: for the container name, the blob name
    /// and the copy source, in this order.
    pub open spec fn markers() -> Seq<bool> {
        seq![ContainerNameSet::assigned(), BlobNameSet::assigned(), BodySet::assigned()]
    }

    /// The client on whose behalf the request is built.
    pub fn client(&self) -> (r: &'a Client)
        ensures
            r@ == self@.account,
    {
        self.client
    }

    pub fn copy_source(&self) -> (r: Option<&'a str>)
        ensures
            option_str(r) == self@.copy_source,
    {
        self.copy_source
    }

    pub fn timeout(&self) -> (r: Option<u64>)
        ensures
            r == self@.timeout,
    {
        self.timeout
    }

    pub fn metadata(&self) -> (r: Option<&'a Metadata>)
        ensures
            option_metadata(r) == self@.metadata,
    {
        self.metadata
    }

    pub fn lease_id(&self) -> (r: Option<&'a LeaseId>)
        ensures
            option_lease(r) == self@.lease_id,
    {
        self.lease_id
    }

    pub fn client_request_id(&self) -> (r: Option<&'a str>)
        ensures
            option_str(r) == self@.client_request_id,
    {
        self.client_request_id
    }

    /// Gives the name of the container. The marker of the container name
    /// is set; a name given before is replaced.
    pub fn with_container_name(self, container_name: &'a str) -> (r: CopyBlobBuilder<
        'a,
        Yes,
        BlobNameSet,
        BodySet,
    >)
        ensures
            r@ == self@.with_container_name(container_name@),
            CopyBlobBuilder::<'a, Yes, BlobNameSet, BodySet>::markers() == step(
                Self::markers(),
                Step::Required(0),
            ),
    {
        proof {
            use_type_invariant(&self);
            assert(CopyBlobBuilder::<'a, Yes, BlobNameSet, BodySet>::markers() =~= step(
                Self::markers(),
                Step::Required(0),
            ));
        }
        CopyBlobBuilder {
            client: self.client,
            p_container_name: PhantomData,
            p_blob_name: PhantomData,
            p_body: PhantomData,
            container_name: Some(container_name),
            blob_name: self.blob_name,
            copy_source: self.copy_source,
            timeout: self.timeout,
            metadata: self.metadata,
            lease_id: self.lease_id,
            client_request_id: self.client_request_id,
        }
    }

    /// Gives the name of the blob. The marker of the blob name is set; a
    /// name given before is replaced.
    pub fn with_blob_name(self, blob_name: &'a str) -> (r: CopyBlobBuilder<
        'a,
        ContainerNameSet,
        Yes,
        BodySet,
    >)
        ensures
            r@ == self@.with_blob_name(blob_name@),
            CopyBlobBuilder::<'a, ContainerNameSet, Yes, BodySet>::markers() == step(
                Self::markers(),
                Step::Required(1),
            ),
    {
        proof {
            use_type_invariant(&self);
            assert(CopyBlobBuilder::<'a, ContainerNameSet, Yes, BodySet>::markers() =~= step(
                Self::markers(),
                Step::Required(1),
            ));
        }
        CopyBlobBuilder {
            client: self.client,
            p_container_name: PhantomData,
            p_blob_name: PhantomData,
            p_body: PhantomData,
            container_name: self.container_name,
            blob_name: Some(blob_name),
            copy_source: self.copy_source,
            timeout: self.timeout,
            metadata: self.metadata,
            lease_id: self.lease_id,
            client_request_id: self.client_request_id,
        }
    }

    /// Gives the source of the copy. The marker of the copy source is set;
    /// a source given before is replaced.
    pub fn with_copy_source(self, copy_source: &'a str) -> (r: CopyBlobBuilder<
        'a,
        ContainerNameSet,
        BlobNameSet,
        Yes,
    >)
        ensures
            r@ == self@.with_copy_source(copy_source@),
            CopyBlobBuilder::<'a, ContainerNameSet, BlobNameSet, Yes>::markers() == step(
                Self::markers(),
                Step::Required(2),
            ),
    {
        proof {
            use_type_invariant(&self);
            assert(CopyBlobBuilder::<'a, ContainerNameSet, BlobNameSet, Yes>::markers() =~= step(
                Self::markers(),
                Step::Required(2),
            ));
        }
        CopyBlobBuilder {
            client: self.client,
            p_container_name: PhantomData,
            p_blob_name: PhantomData,
            p_body: PhantomData,
            container_name: self.container_name,
            blob_name: self.blob_name,
            copy_source: Some(copy_source),
            timeout: self.timeout,
            metadata: self.metadata,
            lease_id: self.lease_id,
            client_request_id: self.client_request_id,
        }
    }

    /// Gives the timeout in seconds. No marker changes.
    pub fn with_timeout(self, timeout: u64) -> (r: CopyBlobBuilder<
        'a,
        ContainerNameSet,
        BlobNameSet,
        BodySet,
    >)
        ensures
            r@ == self@.with_timeout(timeout),
    {
        proof {
            use_type_invariant(&self);
        }
        CopyBlobBuilder {
            client: self.client,
            p_container_name: PhantomData,
            p_blob_name: PhantomData,
            p_body: PhantomData,
            container_name: self.container_name,
            blob_name: self.blob_name,
            copy_source: self.copy_source,
            timeout: Some(timeout),
            metadata: self.metadata,
            lease_id: self.lease_id,
            client_request_id: self.client_request_id,
        }
    }

    /// Gives the metadata of the copy. No marker changes.
    pub fn with_metadata(self, metadata: &'a Metadata) -> (r: CopyBlobBuilder<
        'a,
        ContainerNameSet,
        BlobNameSet,
        BodySet,
    >)
        ensures
            r@ == self@.with_metadata(metadata@),
    {
        proof {
            use_type_invariant(&self);
        }
        CopyBlobBuilder {
            client: self.client,
            p_container_name: PhantomData,
            p_blob_name: PhantomData,
            p_body: PhantomData,
            container_name: self.container_name,
            blob_name: self.blob_name,
            copy_source: self.copy_source,
            timeout: self.timeout,
            metadata: Some(metadata),
            lease_id: self.lease_id,
            client_request_id: self.client_request_id,
        }
    }

    /// Gives the id of the lease on the blob. No marker changes.
    pub fn with_lease_id(self, lease_id: &'a LeaseId) -> (r: CopyBlobBuilder<
        'a,
        ContainerNameSet,
        BlobNameSet,
        BodySet,
    >)
        ensures
            r@ == self@.with_lease_id(lease_id@),
    {
        proof {
            use_type_invariant(&self);
        }
        CopyBlobBuilder {
            client: self.client,
            p_container_name: PhantomData,
            p_blob_name: PhantomData,
            p_body: PhantomData,
            container_name: self.container_name,
            blob_name: self.blob_name,
            copy_source: self.copy_source,
            timeout: self.timeout,
            metadata: self.metadata,
            lease_id: Some(lease_id),
            client_request_id: self.client_request_id,
        }
    }

    /// Gives the client's own id of the request. No marker changes.
    pub fn with_client_request_id(self, client_request_id: &'a str) -> (r: CopyBlobBuilder<
        'a,
        ContainerNameSet,
        BlobNameSet,
        BodySet,
    >)
        ensures
            r@ == self@.with_client_request_id(client_request_id@),
    {
        proof {
            use_type_invariant(&self);
        }
        CopyBlobBuilder {
            client: self.client,
            p_container_name: PhantomData,
            p_blob_name: PhantomData,
            p_body: PhantomData,
            container_name: self.container_name,
            blob_name: self.blob_name,
            copy_source: self.copy_source,
            timeout: self.timeout,
            metadata: self.metadata,
            lease_id: self.lease_id,
            client_request_id: Some(client_request_id),
        }
    }
}

impl<'a, ContainerNameSet, BlobNameSet, BodySet> Clone for CopyBlobBuilder<
    'a,
    ContainerNameSet,
    BlobNameSet,
    BodySet,
> where ContainerNameSet: ToAssign, BlobNameSet: ToAssign, BodySet: ToAssign {
    fn clone(&self) -> (r: Self)
        ensures
            r@ == self@,
    {
        proof {
            use_type_invariant(self);
        }
        CopyBlobBuilder {
            client: self.client,
            p_container_name: PhantomData,
            p_blob_name: PhantomData,
            p_body: PhantomData,
            container_name: self.container_name,
            blob_name: self.blob_name,
            copy_source: self.copy_source,
            timeout: self.timeout,
            metadata: self.metadata,
            lease_id: self.lease_id,
            client_request_id: self.client_request_id,
        }
    }
}

impl<'a> CopyBlobBuilder<'a, No, No, No> {
    /// A fresh builder: no marker is set and no optional field is there.
    pub fn new(client: &'a Client) -> (r: CopyBlobBuilder<'a, No, No, No>)
        ensures
            r@ == CopyBlobBuilderView::new(client@),
            CopyBlobBuilder::<'a, No, No, No>::markers() == initial_markers(3),
    {
        proof {
            assert(CopyBlobBuilder::<'a, No, No, No>::markers() =~= initial_markers(3));
        }
        CopyBlobBuilder {
            client,
            p_container_name: PhantomData,
            container_name: None,
            p_blob_name: PhantomData,
            blob_name: None,
            p_body: PhantomData,
            copy_source: None,
            timeout: None,
            metadata: None,
            lease_id: None,
            client_request_id: None,
        }
    }
}

impl<'a, BlobNameSet, BodySet> CopyBlobBuilder<'a, Yes, BlobNameSet, BodySet> where
    BlobNameSet: ToAssign,
    BodySet: ToAssign,
 {
    /// The name of the container, which has been given.
    pub fn container_name(&self) -> (r: &'a str)
        ensures
            self@.container_name == Some(r@),
    {
        proof {
            use_type_invariant(self);
        }
        self.container_name.unwrap()
    }
}

impl<'a, ContainerNameSet, BodySet> CopyBlobBuilder<'a, ContainerNameSet, Yes, BodySet> where
    ContainerNameSet: ToAssign,
    BodySet: ToAssign,
 {
    /// The name of the blob, which has been given.
    pub fn blob_name(&self) -> (r: &'a str)
        ensures
            self@.blob_name == Some(r@),
    {
        proof {
            use_type_invariant(self);
        }
        self.blob_name.unwrap()
    }
}

/// A copy of a blob that is ready to be sent and waits for its response.
#[derive(Debug, Clone, PartialEq, Eq)]
pub struct PendingCopyBlob {
    pub request: HttpRequest,
}

impl<'a> CopyBlobBuilder<'a, Yes, Yes, Yes> {
    /// Turns the builder into the request to send. Only a builder whose
    /// three markers are set has this operation, so the request always
    /// names a container, a blob and a source.
    pub fn finalize(self) -> (r: PendingCopyBlob)
        ensures
            terminal(CopyBlobBuilder::<'a, Yes, Yes, Yes>::markers()),
            self@.complete(),
            r.request@ == self@.request(),
            free_of_separators(seq![timeout_parameter(self@.timeout)]),
    {
        proof {
            use_type_invariant(&self);
            lemma_timeout_parameter_free_of_separators(self.timeout);
        }
        let mut uri = generate_blob_uri(
            self.client,
            self.container_name.unwrap(),
            self.blob_name.unwrap(),
            None,
        );
        let mut first = true;
        append_parameter(&mut uri, &mut first, &timeout_to_uri_parameter(self.timeout));
        let mut headers: Vec<(String, String)> = Vec::new();
        assert(pairs_view(headers@) =~= Seq::<Pair>::empty());
        add_copy_source_header(self.copy_source, &mut headers);
        add_metadata_headers(self.metadata, &mut headers);
        add_lease_id_header(self.lease_id, &mut headers);
        add_client_request_id_header(self.client_request_id, &mut headers);
        let r = PendingCopyBlob {
            request: HttpRequest {
                uri,
                method: Method::Put,
                headers,
                body: Some(Vec::new()),
                expected_status: STATUS_ACCEPTED,
            },
        };
        proof {
            assert(r.request@.headers =~= self@.request().headers);
            assert(r.request@.body == Some(Seq::<u8>::empty()));
        }
        r
    }
}

/// What a response to a copy of a blob is decoded into: the mismatch where
/// the status is not the expected one, the record of the headers otherwise.
pub open spec fn copy_blob_outcome(
    expected: u16,
    status: u16,
    entries: Seq<crate::headers::Header>,
    body: Seq<u8>,
) -> Result<CopyBlobResponseView, AzureErrorView> {
    match status_check(status, expected, body) {
        Ok(_) => copy_blob_response_of(entries),
        Err(e) => Err(e),
    }
}

impl PendingCopyBlob {
    /// Decodes the response to the request. A status other than the
    /// expected one gives the mismatch with the body as received, whatever
    /// the headers say.
    pub fn into_response(self, status: u16, headers: &HeaderMap, body: &[u8]) -> (r: Result<
        CopyBlobResponse,
        AzureError,
    >)
        ensures
            copy_blob_result(r) == copy_blob_outcome(
                self.request.expected_status,
                status,
                header_entries(*headers),
                body@,
            ),
    {
        match check_status_extract_headers_and_body(
            status,
            headers,
            body,
            self.request.expected_status,
        ) {
            Ok((headers, _body)) => CopyBlobResponse::from_headers(headers),
            Err(e) => Err(e),
        }
    }
}

} // verus!
