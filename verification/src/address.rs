//! Web addresses, parsed and extended by the `url` crate.

use vstd::prelude::*;

use crate::text;

verus! {

/// The longest text that is parsed as an address of any kind: the parser counts the
/// characters of an authority in a signed number of 32 bits.
pub const MAX_TEXT: usize = 0x7fff_ffff;

/// The longest text that is known to be parsed as an address of the content
/// service, however its characters are encoded: the parser refuses an address whose
/// query or fragment begins beyond four gigabytes.
pub const MAX_ADDRESS: usize = 0x0fff_ffff;

/// `url::Url`: a parsed address.
#[verifier::external_type_specification]
#[verifier::external_body]
pub struct ExUrl(url::Url);

/// `url::ParseError`: why a text is no address.
#[verifier::external_type_specification]
#[verifier::external_body]
pub struct ExParseError(url::ParseError);

/// The pairs in the query of an address, in order and decoded.
pub uninterp spec fn url_pairs(url: url::Url) -> Seq<(Seq<char>, Seq<char>)>;

/// An address up to the end of its path.
pub uninterp spec fn url_address(url: url::Url) -> Seq<char>;

/// How many characters of an address stand before its fragment; none if it has no
/// fragment.
pub uninterp spec fn url_fragment_start(url: url::Url) -> Option<nat>;

/// The address that `Url::parse` reads from a text: the text up to the end of the
/// path, in the form that the parser gives it, and the pairs in the query. None
/// where the text is no address.
pub uninterp spec fn parsed_url(source: Seq<char>) -> Option<
    (Seq<char>, Seq<(Seq<char>, Seq<char>)>),
>;

/// The root of the content service.
pub open spec fn service_root() -> Seq<char> {
    "https://api.modrinth.com/"@
}

/// Whether a character stands in a path as it is.
pub open spec fn is_plain_in_path(c: char) -> bool {
    ('a' <= c <= 'z') || ('A' <= c <= 'Z') || ('0' <= c <= '9') || c == '-' || c == '_' || c == '/'
}

/// Whether every character of a text stands in a path as it is.
pub open spec fn all_plain_in_path(s: Seq<char>) -> bool {
    forall|i: int| 0 <= i < s.len() ==> is_plain_in_path(#[trigger] s[i])
}

/// Whether an address of the content service is in the form that the parser
/// gives it.
pub open spec fn is_plain_address(source: Seq<char>) -> bool {
    text::opens_with(source, service_root()) && all_plain_in_path(
        source.skip(service_root().len() as int),
    )
}

/// `Url::parse`: reads an address. What it reads depends on the text alone. An
/// address of the content service may have any length; up to `MAX_ADDRESS` it is
/// read, whatever follows the root: it is percent-encoded, so that a character
/// becomes twelve at most. Letters, digits, hyphens, underscores and slashes stay
/// as they are, and begin no query and no fragment. Left unsaid: for which longer
/// texts the query or the fragment begins beyond four gigabytes, which the parser
/// refuses.
#[verifier::external_body]
pub(crate) fn parse_url(source: &str) -> (r: Result<url::Url, url::ParseError>)
    requires
        source@.len() <= MAX_TEXT || text::opens_with(source@, service_root()),
    ensures
        match r {
            Ok(url) => parsed_url(source@) == Some((url_address(url), url_pairs(url))),
            Err(_) => parsed_url(source@) is None,
        },
        text::opens_with(source@, service_root()) && source@.len() <= MAX_ADDRESS ==> r is Ok
            && url_address(r->Ok_0).len() <= 12 * source@.len() && (url_fragment_start(
            r->Ok_0,
        ) matches Some(n) ==> n <= 12 * source@.len()),
        is_plain_address(source@) ==> r is Ok && url_address(r->Ok_0) == source@ && url_pairs(
            r->Ok_0,
        ) == Seq::<(Seq<char>, Seq<char>)>::empty() && url_fragment_start(r->Ok_0) is None,
{
    url::Url::parse(source)
}

/// The most characters that a pair takes in a query, with what separates it.
pub open spec fn pair_room(name: Seq<char>, value: Seq<char>) -> nat {
    12 * (name.len() + value.len()) + 2
}

/// `Url::query_pairs_mut` and `Serializer::append_pair`: appends a pair to the
/// query, and leaves what stands before the query alone. The pair is
/// percent-encoded, so that a character becomes twelve at most. Where the query
/// begins, and where a fragment behind it begins, has to fit in 32 bits.
#[verifier::external_body]
pub(crate) fn append_pair(url: &mut url::Url, name: &str, value: &str)
    requires
        url_address(*old(url)).len() <= u32::MAX,
        url_fragment_start(*old(url)) matches Some(n) ==> n + pair_room(name@, value@) <= u32::MAX,
    ensures
        url_pairs(*final(url)) == url_pairs(*old(url)).push((name@, value@)),
        url_address(*final(url)) == url_address(*old(url)),
        match url_fragment_start(*old(url)) {
            None => url_fragment_start(*final(url)) is None,
            Some(n) => url_fragment_start(*final(url)) matches Some(m) && m <= n + pair_room(
                name@,
                value@,
            ),
        },
{
    url.query_pairs_mut().append_pair(name, value);
}

/// Pairs of texts as character sequences.
pub open spec fn pair_views(pairs: Seq<(String, String)>) -> Seq<(Seq<char>, Seq<char>)> {
    pairs.map_values(|pair: (String, String)| (pair.0@, pair.1@))
}

/// `Url::query_pairs`: the pairs in the query, in order and decoded.
#[verifier::external_body]
pub(crate) fn query_pairs(url: &url::Url) -> (r: Vec<(String, String)>)
    ensures
        pair_views(r@) == url_pairs(*url),
{
    url.query_pairs().into_owned().collect()
}

/// A request: an address, and the pairs in its query.
pub struct RequestView {
    pub address: Seq<char>,
    pub pairs: Seq<(Seq<char>, Seq<char>)>,
}

/// What an address asks for.
pub open spec fn requested(url: url::Url) -> RequestView {
    RequestView { address: url_address(url), pairs: url_pairs(url) }
}

/// What the address that a text stands for asks for, with further pairs in its
/// query.
pub open spec fn request_for(source: Seq<char>, pairs: Seq<(Seq<char>, Seq<char>)>) -> RequestView {
    match parsed_url(source) {
        Some((address, own)) => RequestView { address, pairs: own + pairs },
        None => RequestView { address: Seq::empty(), pairs },
    }
}

/// What is asked for: the address that the text stands for, with its own pairs first
/// and the further ones behind them, in order.
pub proof fn law_further_pairs_follow_the_own_ones(
    source: Seq<char>,
    address: Seq<char>,
    own: Seq<(Seq<char>, Seq<char>)>,
    pairs: Seq<(Seq<char>, Seq<char>)>,
    name: Seq<char>,
    value: Seq<char>,
)
    requires
        parsed_url(source) == Some((address, own)),
    ensures
        request_for(source, Seq::empty()) == (RequestView { address, pairs: own }),
        request_for(source, pairs.push((name, value))).address == request_for(source, pairs).address,
        request_for(source, pairs.push((name, value))).pairs == request_for(
            source,
            pairs,
        ).pairs.push((name, value)),
{
    assert(own + Seq::<(Seq<char>, Seq<char>)>::empty() =~= own);
    assert(own + pairs.push((name, value)) =~= (own + pairs).push((name, value)));
}

} // verus!
