use vstd::prelude::*;

verus! {

/// What parsing a URL yields, as far as this layer reads it: `None` when
/// the text does not parse, otherwise the host, if any, and the explicit
/// port, if any.
pub uninterp spec fn uri_parse_of(s: Seq<char>) -> Option<(Option<Seq<char>>, Option<u16>)>;

/// Whether the text is a well-formed URL by the permission gate's grammar.
pub uninterp spec fn url_ok_of(s: Seq<char>) -> bool;

/// Relies on http::Uri: `str::parse::<Uri>` (Uri's FromStr), `Uri::host`
/// and `Uri::port_u16`. The parse result is a function of the input
/// characters alone.
#[verifier::external_body]
pub(crate) fn parse_uri(s: &str) -> (r: Option<(Option<String>, Option<u16>)>)
    ensures
        r.deep_view() == uri_parse_of(s@),
{
    match s.parse::<http::Uri>() {
        Ok(uri) => {
            let host = match uri.host() {
                Some(h) => Some(h.to_string()),
                None => None,
            };
            Some((host, uri.port_u16()))
        },
        Err(_) => None,
    }
}

/// Relies on url::Url::parse: whether a string parses as a URL depends on
/// the input characters alone.
#[verifier::external_body]
pub(crate) fn parse_url_ok(s: &str) -> (r: bool)
    ensures
        r == url_ok_of(s@),
{
    url::Url::parse(s).is_ok()
}

} // verus!
