//! The address that requests are posted to.
use std::str::FromStr;
use vstd::prelude::*;

verus! {

#[verifier::external_type_specification]
#[verifier::external_body]
pub struct ExUri(hyper::Uri);

#[verifier::external_type_specification]
#[verifier::external_body]
pub struct ExUriError(hyper::error::UriError);

/// The text that a `hyper::Uri` holds, which is also what its `as_ref` gives.
pub uninterp spec fn uri_text(uri: hyper::Uri) -> Seq<char>;

/// Where the host and port of `text` end: at the first `/`, `?` or `#` from
/// `from` on, or at the end of the text.
pub open spec fn authority_end(text: Seq<char>, from: int) -> int
    decreases text.len() - from,
{
    if from >= text.len() {
        text.len() as int
    } else if text[from] == '/' || text[from] == '?' || text[from] == '#' {
        from
    } else {
        authority_end(text, from + 1)
    }
}

/// The host and port of an address that starts with `http://`.
pub open spec fn authority(text: Seq<char>) -> Seq<char> {
    text.subrange(7, authority_end(text, 7))
}

/// Whether `text` starts with `http://`.
pub open spec fn has_http_scheme(text: Seq<char>) -> bool {
    text.len() >= 7 && text.take(7) == "http://"@
}

/// Whether requests can be posted to `text`: it starts with `http://`, names a
/// host, and has either both of `[` and `]` in the host or none of them.
pub open spec fn is_http_address(text: Seq<char>) -> bool {
    &&& has_http_scheme(text)
    &&& authority(text).len() > 0
    &&& authority(text).contains('[') == authority(text).contains(']')
}

/// `text` with a `/` behind the host, if something else stands there.
pub open spec fn with_path(text: Seq<char>) -> Seq<char> {
    let end = authority_end(text, 7);
    if end < text.len() && text[end] == '/' {
        text
    } else {
        text.insert(end, '/')
    }
}

/// Calls `hyper::Uri::from_str`. Of a text that starts with `http://` it is
/// taken to refuse an empty host and a host with only one of `[` and `]`, to
/// accept everything else, and to put a `/` before a path that has none.
#[verifier::external_body]
pub(crate) fn parse_uri(text: &str) -> (parsed: Result<hyper::Uri, hyper::error::UriError>)
    requires
        has_http_scheme(text@),
    ensures
        parsed is Ok <==> is_http_address(text@),
        parsed matches Ok(uri) ==> uri_text(uri) == with_path(text@),
{
    hyper::Uri::from_str(text)
}

/// Where the host and port of `text` end does not come before `from`, and not
/// behind the end of the text.
pub proof fn lemma_authority_end_bounds(text: Seq<char>, from: int)
    requires
        0 <= from <= text.len(),
    ensures
        from <= authority_end(text, from) <= text.len(),
    decreases text.len() - from,
{
    if from < text.len() {
        lemma_authority_end_bounds(text, from + 1);
    }
}

/// The host and port reach to the first `/`, `?` or `#`, or to the end if there is none.
/// Behind them stands a `/`: the one that the address has, or one that is put there while
/// everything else stays as it is.
pub proof fn law_host_and_path(text: Seq<char>)
    requires
        text.len() >= 7,
    ensures
        ({
            let end = authority_end(text, 7);
            &&& 7 <= end <= text.len()
            &&& authority(text) == text.subrange(7, end)
            &&& forall|i: int|
                7 <= i < end ==> #[trigger] text[i] != '/' && text[i] != '?' && text[i] != '#'
            &&& end < text.len() ==> text[end] == '/' || text[end] == '?' || text[end] == '#'
            &&& with_path(text)[end] == '/'
            &&& with_path(text).take(end) == text.take(end)
            &&& end < text.len() && text[end] == '/' ==> with_path(text) == text
            &&& end == text.len() || text[end] != '/' ==> with_path(text).skip(end + 1)
                == text.skip(end)
        }),
{
    lemma_authority_end_bounds(text, 7);
    lemma_authority_end_is_first(text, 7);
    let end = authority_end(text, 7);
    assert(with_path(text).take(end) =~= text.take(end));
    if end == text.len() || text[end] != '/' {
        assert(with_path(text).skip(end + 1) =~= text.skip(end));
    }
}

proof fn lemma_authority_end_is_first(text: Seq<char>, from: int)
    requires
        0 <= from <= text.len(),
    ensures
        forall|i: int|
            from <= i < authority_end(text, from) ==> #[trigger] text[i] != '/' && text[i] != '?'
                && text[i] != '#',
        authority_end(text, from) < text.len() ==> text[authority_end(text, from)] == '/' || text[
            authority_end(text, from)
        ] == '?' || text[authority_end(text, from)] == '#',
    decreases text.len() - from,
{
    if from < text.len() {
        lemma_authority_end_is_first(text, from + 1);
    }
}

/// Requests can be posted to just the addresses that start with `http://`, name a host,
/// and have both of `[` and `]` in it or none of them.
pub proof fn law_http_addresses(text: Seq<char>)
    ensures
        is_http_address(text) <==> {
            &&& text.len() >= 7
            &&& text.take(7) == "http://"@
            &&& authority(text).len() > 0
            &&& authority(text).contains('[') <==> authority(text).contains(']')
        },
{
}

} // verus!
