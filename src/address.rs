use vstd::prelude::*;
use vstd::string::*;

use crate::error::FetchError;

verus! {

/// The parts of a parsed URI that the address policy reads.
pub struct UriParts {
    pub scheme: Option<String>,
    pub host: Option<String>,
    pub port: Option<u16>,
    pub path_and_query: Option<String>,
}

/// Mathematical form of [`UriParts`].
pub struct UriPartsView {
    pub scheme: Option<Seq<char>>,
    pub host: Option<Seq<char>>,
    pub port: Option<u16>,
    pub path_and_query: Option<Seq<char>>,
}

pub open spec fn opt_text(o: Option<String>) -> Option<Seq<char>> {
    match o {
        Some(s) => Some(s@),
        None => None,
    }
}

impl View for UriParts {
    type V = UriPartsView;

    open spec fn view(&self) -> UriPartsView {
        UriPartsView {
            scheme: opt_text(self.scheme),
            host: opt_text(self.host),
            port: self.port,
            path_and_query: opt_text(self.path_and_query),
        }
    }
}

/// What the URI parser makes of a text: `None` where it rejects the text.
pub uninterp spec fn parsed_uri(text: Seq<char>) -> Option<UriPartsView>;

pub open spec fn opt_parts(o: Option<UriParts>) -> Option<UriPartsView> {
    match o {
        Some(p) => Some(p@),
        None => None,
    }
}

/// Relies on `hyper::Uri`'s `FromStr` (the `http` crate's URI parser) and on
/// its accessors `scheme_str`, `host`, `port_u16` and `path_and_query`: the
/// parts depend on the text alone. `scheme_str` reads `"http"` for every
/// spelling of the HTTP scheme, and `PathAndQuery::as_str` is never empty.
#[verifier::external_body]
fn parse_uri(url: &str) -> (r: Option<UriParts>)
    ensures
        opt_parts(r) == parsed_uri(url@),
{
    match url.parse::<hyper::Uri>() {
        Ok(uri) => Some(UriParts {
            scheme: uri.scheme_str().map(|s| s.to_string()),
            host: uri.host().map(|h| h.to_string()),
            port: uri.port_u16(),
            path_and_query: uri.path_and_query().map(|p| p.as_str().to_string()),
        }),
        Err(_) => None,
    }
}

/// The top-level suffix of onion-service addresses.
pub open spec fn onion_suffix() -> Seq<char> {
    seq!['.', 'o', 'n', 'i', 'o', 'n']
}

/// The only scheme accepted: plain HTTP.
pub open spec fn http_scheme() -> Seq<char> {
    seq!['h', 't', 't', 'p']
}

pub open spec fn has_suffix(s: Seq<char>, suffix: Seq<char>) -> bool {
    suffix.len() <= s.len() && s.subrange(s.len() - suffix.len(), s.len() as int) == suffix
}

pub open spec fn is_onion_host(host: Seq<char>) -> bool {
    has_suffix(host, onion_suffix())
}

/// The request target: the path and query, or `/` where the URI has none.
pub open spec fn request_target(path_and_query: Option<Seq<char>>) -> Seq<char> {
    match path_and_query {
        Some(pq) => pq,
        None => seq!['/'],
    }
}

/// Port 80 where the URI names none.
pub open spec fn port_or_default(port: Option<u16>) -> u16 {
    match port {
        Some(p) => p,
        None => 80,
    }
}

/// A destination that passed the address policy.
pub struct TargetAddress {
    pub host: String,
    pub port: u16,
    /// The request target: path and query of the URL.
    pub path: String,
}

pub struct TargetView {
    pub host: Seq<char>,
    pub port: u16,
    pub path: Seq<char>,
}

impl View for TargetAddress {
    type V = TargetView;

    open spec fn view(&self) -> TargetView {
        TargetView { host: self.host@, port: self.port, path: self.path@ }
    }
}

/// The address policy on the parts of a URL: a host is required, it must be
/// an onion-service address, and a scheme, where one is given, must be HTTP.
pub open spec fn validation(parts: Option<UriPartsView>) -> Result<TargetView, FetchError> {
    match parts {
        None => Err(FetchError::InvalidUrl),
        Some(p) => match p.host {
            None => Err(FetchError::InvalidUrl),
            Some(host) => if !is_onion_host(host) {
                Err(FetchError::DisallowedDomain)
            } else if p.scheme is Some && p.scheme->0 != http_scheme() {
                Err(FetchError::DisallowedScheme)
            } else {
                Ok(
                    TargetView {
                        host,
                        port: port_or_default(p.port),
                        path: request_target(p.path_and_query),
                    },
                )
            },
        },
    }
}

pub open spec fn target_result(r: Result<TargetAddress, FetchError>) -> Result<TargetView, FetchError> {
    match r {
        Ok(t) => Ok(t@),
        Err(e) => Err(e),
    }
}

/// Whether `s` ends with the characters of `suffix`.
pub fn ends_with_chars(s: &str, suffix: &[char]) -> (r: bool)
    ensures
        r == has_suffix(s@, suffix@),
{
    let n = s.unicode_len();
    let m = suffix.len();
    if m > n {
        return false;
    }
    let start = n - m;
    let mut i: usize = 0;
    while i < m
        invariant
            n == s@.len(),
            m == suffix@.len(),
            start == n - m,
            i <= m,
            forall|j: int| 0 <= j < i ==> s@[start + j] == suffix@[j],
        decreases m - i,
    {
        if s.get_char(start + i) != suffix[i] {
            assert(s@.subrange(start as int, n as int)[i as int] != suffix@[i as int]);
            return false;
        }
        i += 1;
    }
    assert(s@.subrange(start as int, n as int) =~= suffix@);
    true
}

/// Applies the address policy to the parts of a parsed URL.
pub fn validate_parts(parts: Option<UriParts>) -> (r: Result<TargetAddress, FetchError>)
    ensures
        target_result(r) == validation(opt_parts(parts)),
{
    let p = match parts {
        Some(p) => p,
        None => return Err(FetchError::InvalidUrl),
    };
    let host = match p.host {
        Some(h) => h,
        None => return Err(FetchError::InvalidUrl),
    };
    let suffix: [char; 6] = ['.', 'o', 'n', 'i', 'o', 'n'];
    assert(suffix@ =~= onion_suffix());
    if !ends_with_chars(host.as_str(), suffix.as_slice()) {
        return Err(FetchError::DisallowedDomain);
    }
    if let Some(scheme) = p.scheme {
        let http: [char; 4] = ['h', 't', 't', 'p'];
        assert(http@ =~= http_scheme());
        let is_http = scheme.as_str().unicode_len() == 4 && ends_with_chars(scheme.as_str(), http.as_slice());
        proof {
            assert(http_scheme().len() == 4);
            if scheme@.len() == 4 {
                assert(scheme@ =~= scheme@.subrange(0, 4));
            }
        }
        if !is_http {
            return Err(FetchError::DisallowedScheme);
        }
    }
    let port = match p.port {
        Some(port) => port,
        None => 80,
    };
    let path = match p.path_and_query {
        Some(pq) => pq,
        None => "/".to_owned(),
    };
    proof {
        reveal_strlit("/");
        assert(path@ =~= request_target(opt_text(p.path_and_query)));
    }
    Ok(TargetAddress { host, port, path })
}

/// Parses `url` and applies the address policy to it.
pub fn validate(url: &str) -> (r: Result<TargetAddress, FetchError>)
    ensures
        target_result(r) == validation(parsed_uri(url@)),
{
    validate_parts(parse_uri(url))
}

} // verus!
