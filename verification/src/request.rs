//! What a finalized builder hands to the transport, and the writers that
//! turn each optional field of a builder into a query parameter or a header.

use crate::datetime::{is_rfc3339_char, UtcDateTime};
use crate::headers::{CLIENT_REQUEST_ID, COPY_SOURCE, LEASE_ID, METADATA_PREFIX};
use crate::ids::{uuid_text, LeaseId};
use crate::metadata::{Metadata, Pair};
use crate::text::{decimal, lemma_decimal_is_digits, option_text, u64_to_string};
use vstd::prelude::*;
use vstd::string::*;

verus! {

/// The verb of a request.
#[derive(Debug, Clone, Copy, PartialEq, Eq, Structural)]
pub enum Method {
    Get,
    Head,
    Put,
    Post,
    Delete,
}

/// A request that is ready to be sent: where to, how, with which headers
/// and body, and the one status code that counts as success.
#[derive(Debug, Clone, PartialEq, Eq)]
pub struct HttpRequest {
    pub uri: String,
    pub method: Method,
    pub headers: Vec<(String, String)>,
    pub body: Option<Vec<u8>>,
    pub expected_status: u16,
}

/// The mathematical value of an [`HttpRequest`].
pub struct HttpRequestView {
    pub uri: Seq<char>,
    pub method: Method,
    pub headers: Seq<Pair>,
    pub body: Option<Seq<u8>>,
    pub expected_status: u16,
}

/// The view of a list of request headers.
pub open spec fn pairs_view(list: Seq<(String, String)>) -> Seq<Pair> {
    Seq::new(list.len(), |i: int| (list[i].0@, list[i].1@))
}

impl View for HttpRequest {
    type V = HttpRequestView;

    open spec fn view(&self) -> HttpRequestView {
        HttpRequestView {
            uri: self.uri@,
            method: self.method,
            headers: pairs_view(self.headers@),
            body: match self.body {
                Some(b) => Some(b@),
                None => None,
            },
            expected_status: self.expected_status,
        }
    }
}

pub const STATUS_OK: u16 = 200;

pub const STATUS_ACCEPTED: u16 = 202;

/// The mark that stands before a query parameter: `?` before the first one
/// of a URI, `&` before every later one.
pub open spec fn separator(first: bool) -> char {
    if first {
        '?'
    } else {
        '&'
    }
}

/// Whether `c` is one of the two marks that stand between query parameters.
pub open spec fn is_separator(c: char) -> bool {
    c == '?' || c == '&'
}

/// The query string of the given parameters, in order: each one that is
/// there follows its separator. `first` says whether the URI has no query
/// parameter yet.
pub open spec fn query_string(first: bool, parameters: Seq<Option<Seq<char>>>) -> Seq<char>
    decreases parameters.len(),
{
    if parameters.len() == 0 {
        Seq::empty()
    } else {
        match parameters[0] {
            Some(p) => seq![separator(first)] + p + query_string(false, parameters.skip(1)),
            None => query_string(first, parameters.skip(1)),
        }
    }
}

/// The parameters that are there, one after the other with nothing between.
pub open spec fn concatenated(parameters: Seq<Option<Seq<char>>>) -> Seq<char>
    decreases parameters.len(),
{
    if parameters.len() == 0 {
        Seq::empty()
    } else {
        match parameters[0] {
            Some(p) => p + concatenated(parameters.skip(1)),
            None => concatenated(parameters.skip(1)),
        }
    }
}

/// How many of the parameters are there.
pub open spec fn present_count(parameters: Seq<Option<Seq<char>>>) -> nat
    decreases parameters.len(),
{
    if parameters.len() == 0 {
        0
    } else {
        (if parameters[0] is Some {
            1nat
        } else {
            0nat
        }) + present_count(parameters.skip(1))
    }
}

/// The test that a character is no separator.
pub open spec fn not_separator() -> spec_fn(char) -> bool {
    |c: char| !is_separator(c)
}

/// The test that a character is `c`.
pub open spec fn equal_to(c: char) -> spec_fn(char) -> bool {
    |x: char| x == c
}

/// `s` without the marks that stand between query parameters.
pub open spec fn without_separators(s: Seq<char>) -> Seq<char> {
    s.filter(not_separator())
}

/// How often `c` occurs in `s`.
pub open spec fn occurrences(s: Seq<char>, c: char) -> nat {
    s.filter(equal_to(c)).len()
}

/// Whether no parameter holds a mark that stands between query parameters.
pub open spec fn free_of_separators(parameters: Seq<Option<Seq<char>>>) -> bool {
    forall|i: int, j: int|
        0 <= i < parameters.len() && parameters[i] is Some && 0 <= j < parameters[i]->0.len()
            ==> !is_separator(#[trigger] parameters[i]->0[j])
}

/// Where no parameter holds a separator, none of the parameters after
/// the first does.
proof fn lemma_rest_free_of_separators(parameters: Seq<Option<Seq<char>>>)
    requires
        parameters.len() > 0,
        free_of_separators(parameters),
    ensures
        free_of_separators(parameters.skip(1)),
{
    let rest = parameters.skip(1);
    assert forall|i: int, j: int|
        0 <= i < rest.len() && rest[i] is Some && 0 <= j < rest[i]->0.len()
            implies !is_separator(#[trigger] rest[i]->0[j]) by {
        assert(rest[i] == parameters[i + 1]);
        assert(!is_separator(parameters[i + 1]->0[j]));
    }
}

proof fn lemma_filter_add(a: Seq<char>, b: Seq<char>, pred: spec_fn(char) -> bool)
    ensures
        (a + b).filter(pred) == a.filter(pred) + b.filter(pred),
    decreases b.len(),
{
    reveal(Seq::filter);
    if b.len() == 0 {
        assert(a + b =~= a);
        assert(a.filter(pred) + b.filter(pred) =~= a.filter(pred));
    } else {
        lemma_filter_add(a, b.drop_last(), pred);
        assert((a + b).drop_last() =~= a + b.drop_last());
        assert((a + b).last() == b.last());
        if pred(b.last()) {
            assert((a.filter(pred) + b.drop_last().filter(pred)).push(b.last()) =~= a.filter(pred)
                + b.drop_last().filter(pred).push(b.last()));
        }
    }
}

proof fn lemma_filter_keeps_all(a: Seq<char>, pred: spec_fn(char) -> bool)
    requires
        forall|i: int| 0 <= i < a.len() ==> pred(#[trigger] a[i]),
    ensures
        a.filter(pred) == a,
    decreases a.len(),
{
    reveal(Seq::filter);
    if a.len() > 0 {
        lemma_filter_keeps_all(a.drop_last(), pred);
        assert(a.drop_last().push(a.last()) =~= a);
    }
}

proof fn lemma_filter_drops_all(a: Seq<char>, pred: spec_fn(char) -> bool)
    requires
        forall|i: int| 0 <= i < a.len() ==> !pred(#[trigger] a[i]),
    ensures
        a.filter(pred) == Seq::<char>::empty(),
    decreases a.len(),
{
    reveal(Seq::filter);
    if a.len() > 0 {
        lemma_filter_drops_all(a.drop_last(), pred);
    }
}

/// Taking the separators out of an assembled query string leaves what
/// taking them out of the parameters written one after the other leaves,
/// whichever of the parameters are there.
pub proof fn lemma_query_without_separators(first: bool, parameters: Seq<Option<Seq<char>>>)
    ensures
        without_separators(query_string(first, parameters)) == without_separators(
            concatenated(parameters),
        ),
    decreases parameters.len(),
{
    let keep = not_separator();
    if parameters.len() == 0 {
    } else {
        let rest = parameters.skip(1);
        match parameters[0] {
            Some(p) => {
                lemma_query_without_separators(false, rest);
                let mark = seq![separator(first)];
                lemma_filter_add(mark + p, query_string(false, rest), keep);
                lemma_filter_add(mark, p, keep);
                lemma_filter_drops_all(mark, keep);
                lemma_filter_add(p, concatenated(rest), keep);
                assert(Seq::<char>::empty() + p.filter(keep) =~= p.filter(keep));
            },
            None => {
                lemma_query_without_separators(first, rest);
            },
        }
    }
}

/// Whatever holds no separator is left as it is when separators are taken out.
pub proof fn lemma_concatenated_free_of_separators(parameters: Seq<Option<Seq<char>>>)
    requires
        free_of_separators(parameters),
    ensures
        without_separators(concatenated(parameters)) == concatenated(parameters),
        occurrences(concatenated(parameters), '?') == 0,
        occurrences(concatenated(parameters), '&') == 0,
    decreases parameters.len(),
{
    let keep = not_separator();
    let question = equal_to('?');
    let ampersand = equal_to('&');
    if parameters.len() == 0 {
        lemma_filter_keeps_all(concatenated(parameters), keep);
        lemma_filter_drops_all(concatenated(parameters), question);
        lemma_filter_drops_all(concatenated(parameters), ampersand);
    } else {
        let rest = parameters.skip(1);
        lemma_rest_free_of_separators(parameters);
        lemma_concatenated_free_of_separators(rest);
        match parameters[0] {
            Some(p) => {
                assert forall|j: int| 0 <= j < p.len() implies !is_separator(#[trigger] p[j]) by {
                    assert(!is_separator(parameters[0]->0[j]));
                }
                lemma_filter_keeps_all(p, keep);
                lemma_filter_drops_all(p, question);
                lemma_filter_drops_all(p, ampersand);
                lemma_filter_add(p, concatenated(rest), keep);
                lemma_filter_add(p, concatenated(rest), question);
                lemma_filter_add(p, concatenated(rest), ampersand);
            },
            None => {},
        }
    }
}

/// How often each separator stands in an assembled query string whose
/// parameters hold none: one mark for each parameter that is there.
pub proof fn lemma_query_separator_counts(first: bool, parameters: Seq<Option<Seq<char>>>)
    requires
        free_of_separators(parameters),
    ensures
        occurrences(query_string(first, parameters), '?') + occurrences(
            query_string(first, parameters),
            '&',
        ) == present_count(parameters),
        occurrences(query_string(first, parameters), '?') == (if first && present_count(parameters)
            > 0 {
            1nat
        } else {
            0nat
        }),
    decreases parameters.len(),
{
    let question = equal_to('?');
    let ampersand = equal_to('&');
    if parameters.len() == 0 {
        lemma_filter_drops_all(query_string(first, parameters), question);
        lemma_filter_drops_all(query_string(first, parameters), ampersand);
    } else {
        let rest = parameters.skip(1);
        lemma_rest_free_of_separators(parameters);
        match parameters[0] {
            Some(p) => {
                lemma_query_separator_counts(false, rest);
                assert forall|j: int| 0 <= j < p.len() implies !is_separator(#[trigger] p[j]) by {
                    assert(!is_separator(parameters[0]->0[j]));
                }
                let mark = seq![separator(first)];
                let tail = query_string(false, rest);
                lemma_filter_add(mark + p, tail, question);
                lemma_filter_add(mark + p, tail, ampersand);
                lemma_filter_add(mark, p, question);
                lemma_filter_add(mark, p, ampersand);
                lemma_filter_drops_all(p, question);
                lemma_filter_drops_all(p, ampersand);
                if first {
                    lemma_filter_keeps_all(mark, question);
                    lemma_filter_drops_all(mark, ampersand);
                } else {
                    lemma_filter_drops_all(mark, question);
                    lemma_filter_keeps_all(mark, ampersand);
                }
            },
            None => {
                lemma_query_separator_counts(first, rest);
            },
        }
    }
}

/// For any choice of optional parameters that hold no separator themselves:
/// the assembled query string without its separators is the parameters that
/// are there, written one after the other in their order; and where the URI
/// had no query yet, the string holds the initial separator exactly once if
/// any parameter is there, and the conjunction separator before each other one.
pub proof fn lemma_query_assembly(first: bool, parameters: Seq<Option<Seq<char>>>)
    requires
        free_of_separators(parameters),
    ensures
        without_separators(query_string(first, parameters)) == concatenated(parameters),
        occurrences(query_string(first, parameters), '?') == (if first && present_count(parameters)
            > 0 {
            1nat
        } else {
            0nat
        }),
        occurrences(query_string(first, parameters), '?') + occurrences(
            query_string(first, parameters),
            '&',
        ) == present_count(parameters),
{
    lemma_query_without_separators(first, parameters);
    lemma_concatenated_free_of_separators(parameters);
    lemma_query_separator_counts(first, parameters);
}

/// Appends one optional query parameter to `uri`. `first` says whether the
/// URI has no query parameter yet, and is cleared once one is written.
pub fn append_parameter(uri: &mut String, first: &mut bool, parameter: &Option<String>)
    ensures
        final(uri)@ == old(uri)@ + query_string(*old(first), seq![option_text(*parameter)]),
        *final(first) == (*old(first) && parameter is None),
{
    let ghost one = seq![option_text(*parameter)];
    assert(query_string(false, one.skip(1)) =~= Seq::<char>::empty());
    assert(query_string(true, one.skip(1)) =~= Seq::<char>::empty());
    match parameter {
        Some(p) => {
            let ghost before = uri@;
            uri.push(if *first {
                '?'
            } else {
                '&'
            });
            uri.append(p.as_str());
            *first = false;
            assert(uri@ =~= before + query_string(*old(first), one));
        },
        None => {
            assert(uri@ =~= uri@ + query_string(*first, one));
        },
    }
}

/// A query string is assembled one parameter after the other.
pub proof fn lemma_query_string_step(
    first: bool,
    parameter: Option<Seq<char>>,
    rest: Seq<Option<Seq<char>>>,
)
    ensures
        query_string(first, seq![parameter] + rest) == query_string(first, seq![parameter])
            + query_string(first && parameter is None, rest),
{
    let all = seq![parameter] + rest;
    let none = Seq::<Option<Seq<char>>>::empty();
    assert(all.skip(1) =~= rest);
    assert(seq![parameter].skip(1) =~= none);
    assert(query_string(false, none) =~= Seq::<char>::empty());
    assert(query_string(true, none) =~= Seq::<char>::empty());
    match parameter {
        Some(p) => {
            assert(query_string(first, all) =~= seq![separator(first)] + p + Seq::<char>::empty()
                + query_string(false, rest));
        },
        None => {
            assert(query_string(first, all) =~= Seq::<char>::empty() + query_string(first, rest));
        },
    }
}

/// What the timeout looks like as a query parameter.
pub open spec fn timeout_parameter(timeout: Option<u64>) -> Option<Seq<char>> {
    match timeout {
        Some(t) => Some("timeout="@ + decimal(t as nat)),
        None => None,
    }
}

/// What the snapshot time looks like as a query parameter.
pub open spec fn snapshot_parameter(snapshot: Option<UtcDateTime>) -> Option<Seq<char>> {
    match snapshot {
        Some(t) => Some("snapshot="@ + t.rfc3339()),
        None => None,
    }
}

/// A timeout written as a query parameter holds no separator, so the law
/// of query assembly holds of every request whose only parameter it is.
pub proof fn lemma_timeout_parameter_free_of_separators(timeout: Option<u64>)
    ensures
        free_of_separators(seq![timeout_parameter(timeout)]),
{
    let parameters = seq![timeout_parameter(timeout)];
    if let Some(t) = timeout {
        reveal_strlit("timeout=");
        lemma_decimal_is_digits(t as nat);
        let name = "timeout="@;
        let p = name + decimal(t as nat);
        assert forall|i: int, j: int|
            0 <= i < parameters.len() && parameters[i] is Some && 0 <= j < parameters[i]->0.len()
                implies !is_separator(#[trigger] parameters[i]->0[j]) by {
            assert(parameters[i]->0 == p);
            if j < name.len() {
                assert(p[j] == name[j]);
            } else {
                assert(p[j] == decimal(t as nat)[j - name.len()]);
            }
        }
    }
}

/// Writes the timeout, in seconds, as a query parameter.
pub fn timeout_to_uri_parameter(timeout: Option<u64>) -> (r: Option<String>)
    ensures
        option_text(r) == timeout_parameter(timeout),
{
    match timeout {
        Some(t) => {
            let mut s = String::from_str("timeout=");
            s.append(u64_to_string(t).as_str());
            Some(s)
        },
        None => None,
    }
}

/// Writes the snapshot time as a query parameter. What is written holds
/// no separator, so the law of query assembly holds of it.
pub fn snapshot_to_uri_parameter(snapshot: Option<UtcDateTime>) -> (r: Option<String>)
    ensures
        option_text(r) == snapshot_parameter(snapshot),
        free_of_separators(seq![snapshot_parameter(snapshot)]),
{
    let ghost parameters = seq![snapshot_parameter(snapshot)];
    match snapshot {
        Some(t) => {
            let mut s = String::from_str("snapshot=");
            let text = t.to_rfc3339();
            s.append(text.as_str());
            proof {
                reveal_strlit("snapshot=");
                let name = "snapshot="@;
                assert forall|i: int, j: int|
                    0 <= i < parameters.len() && parameters[i] is Some && 0 <= j
                        < parameters[i]->0.len() implies !is_separator(
                    #[trigger] parameters[i]->0[j],
                ) by {
                    assert(parameters[i]->0 == name + text@);
                    if j < name.len() {
                        assert((name + text@)[j] == name[j]);
                    } else {
                        assert((name + text@)[j] == text@[j - name.len()]);
                        assert(is_rfc3339_char(text@[j - name.len()]));
                    }
                }
            }
            Some(s)
        },
        None => None,
    }
}

/// Where neither of two parameters holds a separator, the two in a row
/// hold none.
pub proof fn lemma_two_free_of_separators(one: Option<Seq<char>>, two: Option<Seq<char>>)
    requires
        free_of_separators(seq![one]),
        free_of_separators(seq![two]),
    ensures
        free_of_separators(seq![one, two]),
{
    let both = seq![one, two];
    assert forall|i: int, j: int|
        0 <= i < both.len() && both[i] is Some && 0 <= j < both[i]->0.len()
            implies !is_separator(#[trigger] both[i]->0[j]) by {
        if i == 0 {
            assert(!is_separator(seq![one][0]->0[j]));
        } else {
            assert(!is_separator(seq![two][0]->0[j]));
        }
    }
}

/// The header that an optional text is sent in.
pub open spec fn text_header(name: Seq<char>, value: Option<Seq<char>>) -> Seq<Pair> {
    match value {
        Some(v) => seq![(name, v)],
        None => Seq::empty(),
    }
}

/// The header that an optional lease id is sent in.
pub open spec fn lease_id_header(lease_id: Option<u128>) -> Seq<Pair> {
    match lease_id {
        Some(id) => seq![(LEASE_ID@, uuid_text(id))],
        None => Seq::empty(),
    }
}

/// The headers that metadata is sent in: one for each pair, its name behind
/// the metadata prefix.
pub open spec fn metadata_headers(metadata: Option<Seq<Pair>>) -> Seq<Pair> {
    match metadata {
        Some(pairs) => Seq::new(
            pairs.len(),
            |i: int| (METADATA_PREFIX@ + pairs[i].0, pairs[i].1),
        ),
        None => Seq::empty(),
    }
}

fn add_text_header(name: &str, value: Option<&str>, headers: &mut Vec<(String, String)>)
    ensures
        pairs_view(final(headers)@) == pairs_view(old(headers)@) + text_header(
            name@,
            crate::text::option_str(value),
        ),
{
    let ghost before = pairs_view(headers@);
    match value {
        Some(v) => {
            headers.push((String::from_str(name), String::from_str(v)));
            assert(pairs_view(headers@) =~= before + seq![(name@, v@)]);
        },
        None => {
            assert(pairs_view(headers@) =~= before + Seq::<Pair>::empty());
        },
    }
}

/// Adds the header that names the source of a copy, where one is given.
pub fn add_copy_source_header(copy_source: Option<&str>, headers: &mut Vec<(String, String)>)
    ensures
        pairs_view(final(headers)@) == pairs_view(old(headers)@) + text_header(
            COPY_SOURCE@,
            crate::text::option_str(copy_source),
        ),
{
    add_text_header(COPY_SOURCE, copy_source, headers)
}

/// Adds the header that carries the client's own id of the request, where
/// one is given.
pub fn add_client_request_id_header(
    client_request_id: Option<&str>,
    headers: &mut Vec<(String, String)>,
)
    ensures
        pairs_view(final(headers)@) == pairs_view(old(headers)@) + text_header(
            CLIENT_REQUEST_ID@,
            crate::text::option_str(client_request_id),
        ),
{
    add_text_header(CLIENT_REQUEST_ID, client_request_id, headers)
}

/// The view of an optional borrowed lease id.
pub open spec fn option_lease(lease_id: Option<&LeaseId>) -> Option<u128> {
    match lease_id {
        Some(id) => Some(id@),
        None => None,
    }
}

/// Adds the header that carries the lease id, where one is given.
pub fn add_lease_id_header(lease_id: Option<&LeaseId>, headers: &mut Vec<(String, String)>)
    ensures
        pairs_view(final(headers)@) == pairs_view(old(headers)@) + lease_id_header(
            option_lease(lease_id),
        ),
{
    let ghost before = pairs_view(headers@);
    match lease_id {
        Some(id) => {
            headers.push((String::from_str(LEASE_ID), id.to_string()));
            assert(pairs_view(headers@) =~= before + seq![(LEASE_ID@, uuid_text(id@))]);
        },
        None => {
            assert(pairs_view(headers@) =~= before + Seq::<Pair>::empty());
        },
    }
}

/// The view of optional borrowed metadata.
pub open spec fn option_metadata(metadata: Option<&Metadata>) -> Option<Seq<Pair>> {
    match metadata {
        Some(m) => Some(m@),
        None => None,
    }
}

/// Adds one header for each pair of the metadata, where metadata is given.
pub fn add_metadata_headers(metadata: Option<&Metadata>, headers: &mut Vec<(String, String)>)
    ensures
        pairs_view(final(headers)@) == pairs_view(old(headers)@) + metadata_headers(
            option_metadata(metadata),
        ),
{
    let ghost before = pairs_view(headers@);
    match metadata {
        Some(m) => {
            let ghost all = metadata_headers(Some(m@));
            let mut i: usize = 0;
            assert(pairs_view(headers@) =~= before + all.take(0));
            while i < m.len()
                invariant
                    i <= m@.len(),
                    all == metadata_headers(Some(m@)),
                    pairs_view(headers@) == before + all.take(i as int),
                decreases m@.len() - i,
            {
                let ghost sofar = pairs_view(headers@);
                let mut name = String::from_str(METADATA_PREFIX);
                name.append(m.key_at(i));
                headers.push((name, String::from_str(m.value_at(i))));
                assert(pairs_view(headers@) =~= sofar.push(all[i as int]));
                assert(all.take(i + 1) =~= all.take(i as int).push(all[i as int]));
                assert(before + all.take(i + 1) =~= (before + all.take(i as int)).push(
                    all[i as int],
                ));
                i = i + 1;
            }
            assert(all.take(i as int) =~= all);
        },
        None => {
            assert(pairs_view(headers@) =~= before + Seq::<Pair>::empty());
        },
    }
}

} // verus!
