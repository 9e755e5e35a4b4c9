//! Shared access signatures: query parameters that grant access to a resource.

use crate::metadata::Pair;
use crate::request::pairs_view;
use crate::text::option_text;
use vstd::prelude::*;
use vstd::string::*;
use vstd::utf8::encode_utf8;

verus! {

/// The most bytes that a URI and the parameters added to it may hold
/// together. The URL that is made of them is then far shorter than the
/// longest URL that the `url` crate can hold.
pub const MAX_INPUT_BYTES: usize = 0x100_0000;

/// The number of bytes that `text` takes in UTF-8.
pub open spec fn byte_len(text: Seq<char>) -> nat {
    encode_utf8(text).len()
}

/// The number of bytes that the pairs take in a query, each with the two
/// marks that set it apart.
pub open spec fn pairs_byte_len(params: Seq<Pair>) -> nat
    decreases params.len(),
{
    if params.len() == 0 {
        0
    } else {
        pairs_byte_len(params.drop_last()) + byte_len(params.last().0) + byte_len(
            params.last().1,
        ) + 2
    }
}

/// Whether `uri` and `params` together are within the limit.
pub open spec fn within_limit(uri: Seq<char>, params: Seq<Pair>) -> bool {
    byte_len(uri) + pairs_byte_len(params) <= MAX_INPUT_BYTES
}

/// The pairs up to a place take no more bytes than all of them.
pub proof fn lemma_pairs_byte_len_prefix(params: Seq<Pair>, k: int)
    requires
        0 <= k <= params.len(),
    ensures
        pairs_byte_len(params.take(k)) <= pairs_byte_len(params),
    decreases params.len() - k,
{
    if k == params.len() {
        assert(params.take(k) =~= params);
    } else {
        lemma_pairs_byte_len_prefix(params, k + 1);
        assert(params.take(k + 1).drop_last() =~= params.take(k));
    }
}

/// What `url::Url::parse_with_params` makes of `uri` and `params`, written out as
/// the `Display` of `url::Url` writes it, or nothing where the crate does not accept
/// `uri` as an absolute URL.
pub uninterp spec fn url_with_params(uri: Seq<char>, params: Seq<Pair>) -> Option<Seq<char>>;

/// Calls `url::Url::parse_with_params` on `uri` and the pairs of `params`, and writes
/// the URL that comes back with its `Display`; the result is the named value
/// `url_with_params` of the two. The crate panics where a URL grows past `u32::MAX`
/// bytes, so the inputs have to be within the limit.
#[verifier::external_body]
fn parse_with_params(uri: &str, params: &Vec<(String, String)>) -> (r: Option<String>)
    requires
        within_limit(uri@, pairs_view(params@)),
    ensures
        option_text(r) == url_with_params(uri@, pairs_view(params@)),
{
    url::Url::parse_with_params(uri, params).ok().map(|u| u.to_string())
}

/// The query parameters of a shared access signature.
pub struct SasToken {
    params: Vec<(String, String)>,
}

impl View for SasToken {
    type V = Seq<Pair>;

    closed spec fn view(&self) -> Seq<Pair> {
        pairs_view(self.params@)
    }
}

/// What adding a token to a URI gives: nothing beyond the limit, and within
/// it what the `url` crate makes of the two.
pub open spec fn uri_with_token(uri: Seq<char>, params: Seq<Pair>) -> Option<Seq<char>> {
    if within_limit(uri, params) {
        url_with_params(uri, params)
    } else {
        None
    }
}

impl SasToken {
    /// The token that holds `params`.
    pub fn new(params: Vec<(String, String)>) -> (r: SasToken)
        ensures
            r@ == pairs_view(params@),
    {
        Self { params }
    }

    /// Whether `uri` and the parameters of the token are within the limit
    /// of bytes.
    pub fn fits(&self, uri: &str) -> (r: bool)
        ensures
            r == within_limit(uri@, self@),
    {
        let n: usize = uri.as_bytes().len();
        if n > MAX_INPUT_BYTES {
            return false;
        }
        let mut total: usize = n;
        let mut i: usize = 0;
        assert(self@.take(0) =~= Seq::<Pair>::empty());
        while i < self.params.len()
            invariant
                i <= self.params.len(),
                self@.len() == self.params.len(),
                total == byte_len(uri@) + pairs_byte_len(self@.take(i as int)),
                total <= MAX_INPUT_BYTES,
            decreases self.params.len() - i,
        {
            let key: usize = self.params[i].0.as_str().as_bytes().len();
            let value: usize = self.params[i].1.as_str().as_bytes().len();
            proof {
                let upto = self@.take(i + 1);
                assert(upto.drop_last() =~= self@.take(i as int));
                assert(upto.last() == (self.params@[i as int].0@, self.params@[i as int].1@));
                lemma_pairs_byte_len_prefix(self@, i + 1);
            }
            if key > MAX_INPUT_BYTES - total {
                return false;
            }
            if value > MAX_INPUT_BYTES - total - key {
                return false;
            }
            if 2 > MAX_INPUT_BYTES - total - key - value {
                return false;
            }
            total = total + key + value + 2;
            i = i + 1;
        }
        assert(self@.take(i as int) =~= self@);
        true
    }

    /// Adds the parameters of the token to the query of `uri`, which has
    /// to be an absolute URL and, with the parameters, within the limit of
    /// bytes.
    pub fn add_to_uri(&self, uri: &str) -> (r: String)
        requires
            uri_with_token(uri@, self@) is Some,
        ensures
            Some(r@) == uri_with_token(uri@, self@),
    {
        parse_with_params(uri, &self.params).unwrap()
    }

    /// Adds the parameters of the token to the query of `uri`, if `uri` is
    /// an absolute URL and the two are within the limit of bytes.
    pub fn try_add_to_uri(&self, uri: &str) -> (r: Option<String>)
        ensures
            option_text(r) == uri_with_token(uri@, self@),
    {
        if !self.fits(uri) {
            return None;
        }
        match parse_with_params(uri, &self.params) {
            Some(_) => Some(self.add_to_uri(uri)),
            None => None,
        }
    }
}

} // verus!
