//! The checks a transport makes on its configured endpoint and frame limit.

use vstd::prelude::*;

verus! {

/// What a parsed URI shows of itself: whether it has a scheme, whether it
/// has an authority, its path, and its text as the URI writes it.
pub struct EndpointUri {
    pub has_scheme: bool,
    pub has_authority: bool,
    pub path: String,
    pub text: String,
}

/// What reading `text` as an `http::Uri` gives: `None` when it is not a
/// URI, otherwise whether it has a scheme and an authority, its path, and
/// its written form.
pub uninterp spec fn uri_parts_of(text: Seq<char>) -> Option<(bool, bool, Seq<char>, Seq<char>)>;

/// The parts of an endpoint URI as plain values.
pub open spec fn parts_of(uri: EndpointUri) -> (bool, bool, Seq<char>, Seq<char>) {
    (uri.has_scheme, uri.has_authority, uri.path@, uri.text@)
}

/// Calls `<http::Uri as FromStr>::from_str` and reads the scheme, the
/// authority, the path and the `Display` text of the result. The contract
/// claims only that the outcome is a function of the text; what the URI
/// grammar accepts is left to the crate.
#[verifier::external_body]
fn parse_uri(text: &str) -> (r: Option<EndpointUri>)
    ensures
        match r {
            Some(u) => uri_parts_of(text@) == Some(parts_of(u)),
            None => uri_parts_of(text@) is None,
        },
{
    match text.parse::<http::Uri>() {
        Ok(uri) => Some(
            EndpointUri {
                has_scheme: uri.scheme().is_some(),
                has_authority: uri.authority().is_some(),
                path: uri.path().to_string(),
                text: uri.to_string(),
            },
        ),
        Err(_) => None,
    }
}

/// Why a transport refused its configuration, with the text the refusal
/// quotes.
#[derive(Clone, Debug, PartialEq, Eq)]
pub enum EndpointError {
    /// The endpoint is not a URI; carries the endpoint as configured.
    Invalid(String),
    /// A server endpoint has a scheme or an authority: it must be a path.
    /// Carries the URI as it writes itself.
    NotOriginForm(String),
    /// A client endpoint has no scheme; carries the URI as it writes itself.
    MissingScheme(String),
    /// A client endpoint has no authority (host); carries the URI as it
    /// writes itself.
    MissingAuthority(String),
    /// A server endpoint's path does not start with `/`.
    PathNotRooted,
    /// A client endpoint's path does not start with `/`; carries the URI as
    /// it writes itself.
    MissingRootedPath(String),
    /// The frame limit is zero.
    ZeroFrameLimit,
}

/// An endpoint refusal with its quoted text as characters.
pub enum EndpointRefusal {
    Invalid(Seq<char>),
    NotOriginForm(Seq<char>),
    MissingScheme(Seq<char>),
    MissingAuthority(Seq<char>),
    PathNotRooted,
    MissingRootedPath(Seq<char>),
    ZeroFrameLimit,
}

impl View for EndpointError {
    type V = EndpointRefusal;

    open spec fn view(&self) -> EndpointRefusal {
        match self {
            EndpointError::Invalid(t) => EndpointRefusal::Invalid(t@),
            EndpointError::NotOriginForm(t) => EndpointRefusal::NotOriginForm(t@),
            EndpointError::MissingScheme(t) => EndpointRefusal::MissingScheme(t@),
            EndpointError::MissingAuthority(t) => EndpointRefusal::MissingAuthority(t@),
            EndpointError::PathNotRooted => EndpointRefusal::PathNotRooted,
            EndpointError::MissingRootedPath(t) => EndpointRefusal::MissingRootedPath(t@),
            EndpointError::ZeroFrameLimit => EndpointRefusal::ZeroFrameLimit,
        }
    }
}

/// The description of an endpoint refusal.
pub open spec fn endpoint_error_text(e: EndpointRefusal) -> Seq<char> {
    match e {
        EndpointRefusal::Invalid(t) => "invalid h1 endpoint '"@ + t + "'"@,
        EndpointRefusal::NotOriginForm(t) => "h1 endpoint must be an origin-form path, got '"@ + t
            + "'"@,
        EndpointRefusal::MissingScheme(t) => "h1 endpoint must have a scheme, got '"@ + t + "'"@,
        EndpointRefusal::MissingAuthority(t) => "h1 endpoint must have an authority (host), got '"@
            + t + "'"@,
        EndpointRefusal::PathNotRooted => "h1 endpoint must start with '/'"@,
        EndpointRefusal::MissingRootedPath(t) =>
            "h1 endpoint must have a path starting with '/', got '"@ + t + "'"@,
        EndpointRefusal::ZeroFrameLimit => "h1 frame limit must be greater than zero"@,
    }
}

impl EndpointError {
    /// Describe the error in words, quoting the text it carries.
    pub fn message(&self) -> (r: String)
        ensures
            r@ == endpoint_error_text(self@),
    {
        let (lead, quoted) = match self {
            EndpointError::Invalid(t) => ("invalid h1 endpoint '", Some(t)),
            EndpointError::NotOriginForm(t) => (
                "h1 endpoint must be an origin-form path, got '",
                Some(t),
            ),
            EndpointError::MissingScheme(t) => ("h1 endpoint must have a scheme, got '", Some(t)),
            EndpointError::MissingAuthority(t) => (
                "h1 endpoint must have an authority (host), got '",
                Some(t),
            ),
            EndpointError::PathNotRooted => ("h1 endpoint must start with '/'", None),
            EndpointError::MissingRootedPath(t) => (
                "h1 endpoint must have a path starting with '/', got '",
                Some(t),
            ),
            EndpointError::ZeroFrameLimit => ("h1 frame limit must be greater than zero", None),
        };
        let mut text = String::from_str(lead);
        if let Some(t) = quoted {
            text.append(t.as_str());
            text.append("'");
        }
        text
    }
}

/// `true` when `path` starts with `/`.
pub open spec fn rooted(path: Seq<char>) -> bool {
    path.len() > 0 && path[0] == '/'
}

/// The outcome of checking a server endpoint configured as `endpoint`,
/// whose URI reading gave `parts`: the endpoint as the URI writes it, or why
/// it is refused.
pub open spec fn server_endpoint_outcome(
    endpoint: Seq<char>,
    parts: Option<(bool, bool, Seq<char>, Seq<char>)>,
    frame_limit: usize,
) -> Result<Seq<char>, EndpointRefusal> {
    match parts {
        None => Err(EndpointRefusal::Invalid(endpoint)),
        Some((scheme, authority, path, text)) => if scheme || authority {
            Err(EndpointRefusal::NotOriginForm(text))
        } else if !rooted(path) {
            Err(EndpointRefusal::PathNotRooted)
        } else if frame_limit == 0 {
            Err(EndpointRefusal::ZeroFrameLimit)
        } else {
            Ok(text)
        },
    }
}

/// The outcome of checking a client endpoint configured as `endpoint`,
/// whose URI reading gave `parts`: accepted, or why it is refused.
pub open spec fn client_endpoint_outcome(
    endpoint: Seq<char>,
    parts: Option<(bool, bool, Seq<char>, Seq<char>)>,
    frame_limit: usize,
) -> Result<(), EndpointRefusal> {
    match parts {
        None => Err(EndpointRefusal::Invalid(endpoint)),
        Some((scheme, authority, path, text)) => if !scheme {
            Err(EndpointRefusal::MissingScheme(text))
        } else if !authority {
            Err(EndpointRefusal::MissingAuthority(text))
        } else if !rooted(path) {
            Err(EndpointRefusal::MissingRootedPath(text))
        } else if frame_limit == 0 {
            Err(EndpointRefusal::ZeroFrameLimit)
        } else {
            Ok(())
        },
    }
}

/// Whether `path` starts with `/`.
fn starts_with_slash(path: &str) -> (r: bool)
    ensures
        r == rooted(path@),
{
    if path.unicode_len() == 0 {
        false
    } else {
        path.get_char(0) == '/'
    }
}

/// The URI reading as plain values.
pub open spec fn reading_of(uri: Option<EndpointUri>) -> Option<(bool, bool, Seq<char>, Seq<char>)> {
    match uri {
        Some(u) => Some(parts_of(u)),
        None => None,
    }
}

/// Check a server endpoint configured as `endpoint`, given its URI reading:
/// it must be a path (no scheme, no authority) starting with `/`, and the
/// frame limit must not be zero. Returns the endpoint as the URI writes it.
pub fn check_server_endpoint(endpoint: &str, uri: Option<EndpointUri>, frame_limit: usize) -> (r:
    Result<String, EndpointError>)
    ensures
        match server_endpoint_outcome(endpoint@, reading_of(uri), frame_limit) {
            Ok(text) => r matches Ok(t) && t@ == text,
            Err(e) => r matches Err(x) && x@ == e,
        },
{
    let uri = match uri {
        Some(u) => u,
        None => return Err(EndpointError::Invalid(String::from_str(endpoint))),
    };
    if uri.has_scheme || uri.has_authority {
        return Err(EndpointError::NotOriginForm(uri.text));
    }
    if !starts_with_slash(uri.path.as_str()) {
        return Err(EndpointError::PathNotRooted);
    }
    if frame_limit == 0 {
        return Err(EndpointError::ZeroFrameLimit);
    }
    Ok(uri.text)
}

/// Check the endpoint and frame limit a server transport is configured
/// with, reading the endpoint as a URI.
pub fn validate_server_endpoint(endpoint: &str, frame_limit: usize) -> (r: Result<
    String,
    EndpointError,
>)
    ensures
        match server_endpoint_outcome(endpoint@, uri_parts_of(endpoint@), frame_limit) {
            Ok(text) => r matches Ok(t) && t@ == text,
            Err(e) => r matches Err(x) && x@ == e,
        },
{
    check_server_endpoint(endpoint, parse_uri(endpoint), frame_limit)
}

/// Check a client endpoint configured as `endpoint`, given its URI reading:
/// it must have a scheme, an authority and a path starting with `/`, and the
/// frame limit must not be zero. Returns the URI when accepted.
pub fn check_client_endpoint(endpoint: &str, uri: Option<EndpointUri>, frame_limit: usize) -> (r:
    Result<EndpointUri, EndpointError>)
    ensures
        match client_endpoint_outcome(endpoint@, reading_of(uri), frame_limit) {
            Ok(()) => r matches Ok(u) && uri == Some(u),
            Err(e) => r matches Err(x) && x@ == e,
        },
{
    let uri = match uri {
        Some(u) => u,
        None => return Err(EndpointError::Invalid(String::from_str(endpoint))),
    };
    if !uri.has_scheme {
        return Err(EndpointError::MissingScheme(uri.text));
    }
    if !uri.has_authority {
        return Err(EndpointError::MissingAuthority(uri.text));
    }
    if !starts_with_slash(uri.path.as_str()) {
        return Err(EndpointError::MissingRootedPath(uri.text));
    }
    if frame_limit == 0 {
        return Err(EndpointError::ZeroFrameLimit);
    }
    Ok(uri)
}

/// Check the endpoint and frame limit a client transport is configured
/// with, reading the endpoint as a URI.
pub fn validate_client_endpoint(endpoint: &str, frame_limit: usize) -> (r: Result<
    EndpointUri,
    EndpointError,
>)
    ensures
        match client_endpoint_outcome(endpoint@, uri_parts_of(endpoint@), frame_limit) {
            Ok(()) => r matches Ok(u) && uri_parts_of(endpoint@) == Some(parts_of(u)),
            Err(e) => r matches Err(x) && x@ == e,
        },
{
    check_client_endpoint(endpoint, parse_uri(endpoint), frame_limit)
}

} // verus!
