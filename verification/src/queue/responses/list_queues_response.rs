use crate::errors::{AzureError, AzureErrorView};
use crate::headers::{
    common_headers_of, header_entries, CommonStorageResponseHeaders,
    CommonStorageResponseHeadersView, Header,
};
use crate::metadata::{Metadata, Pair};
use crate::text::{is_utf8, option_text};
use http::HeaderMap;
use vstd::prelude::*;
use vstd::slice::*;
use vstd::string::*;
use vstd::utf8::valid_utf8;

verus! {

/// One queue of the account.
#[derive(Debug, Clone, PartialEq, Eq)]
pub struct Queue {
    pub name: String,
    pub metadata: Option<Metadata>,
}

/// The queues of the account, in the order of the document.
#[derive(Debug, Clone, PartialEq, Eq)]
pub struct Queues {
    pub queues: Vec<Queue>,
}

/// The document that lists queues, as the wire gives it: an element that
/// is there but empty is still there.
#[derive(Debug, Clone, PartialEq, Eq)]
pub struct ListQueuesDocument {
    pub service_endpoint: String,
    pub prefix: Option<String>,
    pub marker: Option<String>,
    pub max_results: Option<u32>,
    pub queues: Queues,
    pub next_marker: Option<String>,
}

/// The record of a listing of queues. What the wire marks as empty is
/// absent here.
#[derive(Debug, Clone, PartialEq, Eq)]
pub struct ListQueuesResponse {
    pub common_storage_response_headers: CommonStorageResponseHeaders,
    pub service_endpoint: String,
    pub prefix: Option<String>,
    pub marker: Option<String>,
    pub max_results: Option<u32>,
    pub queues: Queues,
    pub next_marker: Option<String>,
}

/// The mathematical value of a [`Queue`].
pub struct QueueView {
    pub name: Seq<char>,
    pub metadata: Option<Seq<Pair>>,
}

impl View for Queue {
    type V = QueueView;

    open spec fn view(&self) -> QueueView {
        QueueView {
            name: self.name@,
            metadata: match self.metadata {
                Some(m) => Some(m@),
                None => None,
            },
        }
    }
}

impl View for Queues {
    type V = Seq<QueueView>;

    open spec fn view(&self) -> Seq<QueueView> {
        Seq::new(self.queues@.len(), |i: int| self.queues@[i]@)
    }
}

/// The mathematical value of a [`ListQueuesDocument`].
pub struct ListQueuesDocumentView {
    pub service_endpoint: Seq<char>,
    pub prefix: Option<Seq<char>>,
    pub marker: Option<Seq<char>>,
    pub max_results: Option<u32>,
    pub queues: Seq<QueueView>,
    pub next_marker: Option<Seq<char>>,
}

impl View for ListQueuesDocument {
    type V = ListQueuesDocumentView;

    open spec fn view(&self) -> ListQueuesDocumentView {
        ListQueuesDocumentView {
            service_endpoint: self.service_endpoint@,
            prefix: option_text(self.prefix),
            marker: option_text(self.marker),
            max_results: self.max_results,
            queues: self.queues@,
            next_marker: option_text(self.next_marker),
        }
    }
}

/// The mathematical value of a [`ListQueuesResponse`].
pub struct ListQueuesResponseView {
    pub common_storage_response_headers: CommonStorageResponseHeadersView,
    pub service_endpoint: Seq<char>,
    pub prefix: Option<Seq<char>>,
    pub marker: Option<Seq<char>>,
    pub max_results: Option<u32>,
    pub queues: Seq<QueueView>,
    pub next_marker: Option<Seq<char>>,
}

impl View for ListQueuesResponse {
    type V = ListQueuesResponseView;

    open spec fn view(&self) -> ListQueuesResponseView {
        ListQueuesResponseView {
            common_storage_response_headers: self.common_storage_response_headers@,
            service_endpoint: self.service_endpoint@,
            prefix: option_text(self.prefix),
            marker: option_text(self.marker),
            max_results: self.max_results,
            queues: self.queues@,
            next_marker: option_text(self.next_marker),
        }
    }
}

pub const NOT_UTF8: &'static str = "the body is not UTF-8";

/// Whether `body` starts with the byte order mark of UTF-8.
pub open spec fn starts_with_byte_order_mark(body: Seq<u8>) -> bool {
    body.len() >= 3 && body[0] == 0xef && body[1] == 0xbb && body[2] == 0xbf
}

/// The bytes of the document within a body: a body that is not UTF-8 holds
/// none; a byte order mark at the start is left out; every other byte is
/// part of the document.
pub open spec fn document_bytes(body: Seq<u8>) -> Result<Seq<u8>, AzureErrorView> {
    if !valid_utf8(body) {
        Err(AzureErrorView::BodyDecodeError(NOT_UTF8@))
    } else if starts_with_byte_order_mark(body) {
        Ok(body.skip(3))
    } else {
        Ok(body)
    }
}

/// A marker that is there but empty is absent.
pub open spec fn normalized_marker(marker: Option<Seq<char>>) -> Option<Seq<char>> {
    match marker {
        Some(m) => if m.len() == 0 {
            None
        } else {
            Some(m)
        },
        None => None,
    }
}

/// Metadata that is there but holds no pair is absent.
pub open spec fn normalized_metadata(metadata: Option<Seq<Pair>>) -> Option<Seq<Pair>> {
    match metadata {
        Some(m) => if m.len() == 0 {
            None
        } else {
            Some(m)
        },
        None => None,
    }
}

/// A queue with its metadata normalized.
pub open spec fn normalized_queue(queue: QueueView) -> QueueView {
    QueueView { name: queue.name, metadata: normalized_metadata(queue.metadata) }
}

/// The queues in their order, each with its metadata normalized.
pub open spec fn normalized_queues(queues: Seq<QueueView>) -> Seq<QueueView> {
    Seq::new(queues.len(), |i: int| normalized_queue(queues[i]))
}

/// The record that a document and the headers of its response give: the
/// next marker and the metadata of each queue normalized, every other field
/// as the document has it, and the common headers read from the header map.
pub open spec fn list_queues_response_of(
    entries: Seq<Header>,
    document: ListQueuesDocumentView,
) -> Result<ListQueuesResponseView, AzureErrorView> {
    match common_headers_of(entries) {
        Ok(common) => Ok(
            ListQueuesResponseView {
                common_storage_response_headers: common,
                service_endpoint: document.service_endpoint,
                prefix: document.prefix,
                marker: document.marker,
                max_results: document.max_results,
                queues: normalized_queues(document.queues),
                next_marker: normalized_marker(document.next_marker),
            },
        ),
        Err(e) => Err(e),
    }
}

/// What normalizing does and does not change: an empty next marker and
/// empty metadata become absent; the queues keep their number, their order
/// and their names; whatever is not empty stays as it is.
pub proof fn lemma_normalization(entries: Seq<Header>, document: ListQueuesDocumentView)
    requires
        list_queues_response_of(entries, document) is Ok,
    ensures
        ({
            let record = list_queues_response_of(entries, document)->Ok_0;
            &&& document.next_marker == Some(Seq::<char>::empty()) ==> record.next_marker is None
            &&& document.next_marker is Some && document.next_marker->0.len() > 0
                ==> record.next_marker == document.next_marker
            &&& record.next_marker != Some(Seq::<char>::empty())
            &&& record.queues.len() == document.queues.len()
            &&& forall|i: int|
                #![trigger record.queues[i]]
                0 <= i < document.queues.len() ==> {
                    &&& record.queues[i].name == document.queues[i].name
                    &&& document.queues[i].metadata == Some(Seq::<Pair>::empty())
                        ==> record.queues[i].metadata is None
                    &&& document.queues[i].metadata is Some
                        && document.queues[i].metadata->0.len() > 0
                        ==> record.queues[i].metadata == document.queues[i].metadata
                    &&& record.queues[i].metadata != Some(Seq::<Pair>::empty())
                }
        }),
{
}

/// The view of a framed body.
pub open spec fn bytes_result(r: Result<&[u8], AzureError>) -> Result<Seq<u8>, AzureErrorView> {
    match r {
        Ok(b) => Ok(b@),
        Err(e) => Err(e@),
    }
}

/// The view of a decoded listing.
pub open spec fn list_queues_result(r: Result<ListQueuesResponse, AzureError>) -> Result<
    ListQueuesResponseView,
    AzureErrorView,
> {
    match r {
        Ok(v) => Ok(v@),
        Err(e) => Err(e@),
    }
}

fn normalize_queues(queues: Queues) -> (r: Queues)
    ensures
        r@ == normalized_queues(queues@),
{
    let ghost before = queues@;
    let mut list = queues.queues;
    let mut i: usize = 0;
    while i < list.len()
        invariant
            i <= list.len(),
            list@.len() == before.len(),
            forall|j: int| 0 <= j < i ==> (#[trigger] list@[j])@ == normalized_queue(before[j]),
            forall|j: int| i <= j < list.len() ==> (#[trigger] list@[j])@ == before[j],
        decreases list.len() - i,
    {
        let empty = match &list[i].metadata {
            Some(m) => m.is_empty(),
            None => false,
        };
        if empty {
            let name = list[i].name.clone();
            list.set(i, Queue { name, metadata: None });
        }
        i = i + 1;
    }
    let r = Queues { queues: list };
    assert(r@ =~= normalized_queues(before));
    r
}

impl ListQueuesResponse {
    /// Finds the document within the body of the response. The body has
    /// to be UTF-8; a byte order mark at its start is left out, and nothing
    /// else is taken from it.
    pub fn frame_body(body: &[u8]) -> (r: Result<&[u8], AzureError>)
        ensures
            bytes_result(r) == document_bytes(body@),
    {
        if !is_utf8(body) {
            return Err(AzureError::BodyDecodeError(String::from_str(NOT_UTF8)));
        }
        if body.len() >= 3 && body[0] == 0xef && body[1] == 0xbb && body[2] == 0xbf {
            let rest = slice_subrange(body, 3, body.len());
            assert(rest@ =~= body@.skip(3));
            Ok(rest)
        } else {
            Ok(body)
        }
    }

    /// Makes the record of a listing from the headers of the response and
    /// the document that its body held.
    pub fn try_from(value: (&HeaderMap, ListQueuesDocument)) -> (r: Result<
        ListQueuesResponse,
        AzureError,
    >)
        ensures
            list_queues_result(r) == list_queues_response_of(header_entries(*value.0), value.1@),
    {
        let headers = value.0;
        let document = value.1;
        let next_marker = match document.next_marker {
            Some(m) => if m.as_str().unicode_len() == 0 {
                None
            } else {
                Some(m)
            },
            None => None,
        };
        let queues = normalize_queues(document.queues);
        match CommonStorageResponseHeaders::try_from(headers) {
            Ok(common) => Ok(
                ListQueuesResponse {
                    common_storage_response_headers: common,
                    service_endpoint: document.service_endpoint,
                    prefix: document.prefix,
                    marker: document.marker,
                    max_results: document.max_results,
                    queues,
                    next_marker,
                },
            ),
            Err(e) => Err(e),
        }
    }
}

} // verus!
