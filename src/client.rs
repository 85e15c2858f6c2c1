use crate::auth::ApiAuth;
use crate::error::ApiError;
use vstd::prelude::*;
use vstd::string::*;

verus! {

/// What `http` parses out of a URI text: `None` when the text is not a URI,
/// else its scheme and its authority, each when present.
pub uninterp spec fn uri_parts(s: Seq<char>) -> Option<(Option<Seq<char>>, Option<Seq<char>>)>;

/// What `http` keeps of a path-and-query text: `None` when the text holds a
/// character that a path or a query may not hold, else the text it keeps.
pub uninterp spec fn parsed_path_and_query(s: Seq<char>) -> Option<Seq<char>>;

/// The text that a lossy UTF-8 decoding gives for the bytes.
pub uninterp spec fn utf8_lossy(b: Seq<u8>) -> Seq<char>;

/// The text of an optional string.
pub open spec fn opt_text(o: Option<String>) -> Option<Seq<char>> {
    match o {
        Some(s) => Some(s@),
        None => None,
    }
}

/// The parts of a parsed URI, as text.
pub open spec fn parts_view(p: Option<(Option<String>, Option<String>)>) -> Option<
    (Option<Seq<char>>, Option<Seq<char>>),
> {
    match p {
        Some((scheme, authority)) => Some((opt_text(scheme), opt_text(authority))),
        None => None,
    }
}

/// Relies on `http::Uri`'s `FromStr` and its `scheme_str` and `authority`
/// accessors: the parts of the parsed URI, or `None` where parsing fails.
#[verifier::external_body]
fn parse_base(s: &str) -> (r: Option<(Option<String>, Option<String>)>)
    ensures
        parts_view(r) == uri_parts(s@),
{
    match s.parse::<http::Uri>() {
        Ok(u) => Some((
            u.scheme_str().map(|x| x.to_string()),
            u.authority().map(|a| a.as_str().to_string()),
        )),
        Err(_) => None,
    }
}

/// Relies on `http::uri::PathAndQuery`'s `TryFrom<&str>`: the text it keeps,
/// or `None` where it refuses a character.
#[verifier::external_body]
fn parse_path_and_query(s: &str) -> (r: Option<String>)
    ensures
        opt_text(r) == parsed_path_and_query(s@),
{
    http::uri::PathAndQuery::try_from(s).ok().map(|p| p.as_str().to_string())
}

/// A character that `http` accepts in a header value: its UTF-8 bytes are
/// all visible ASCII, tab, or above 127.
pub open spec fn header_char(c: char) -> bool {
    (c as u32 >= 32 && c as u32 != 127) || c == '\t'
}

/// Whether `http` accepts the whole text as a header value.
pub open spec fn header_value_valid(s: Seq<char>) -> bool {
    forall|i: int| 0 <= i < s.len() ==> header_char(#[trigger] s[i])
}

/// Relies on `http::HeaderValue::from_str`, which accepts a string exactly
/// when every byte is at least 32 and not 127, or is a tab.
#[verifier::external_body]
fn header_value_accepted(s: &str) -> (r: bool)
    ensures
        r == header_value_valid(s@),
{
    http::HeaderValue::from_str(s).is_ok()
}

/// Relies on `String::from_utf8_lossy`: the decoded text, with each invalid
/// sequence replaced.
#[verifier::external_body]
fn lossy_text(b: &[u8]) -> (r: String)
    ensures
        r@ == utf8_lossy(b@),
        b@.len() == 0 ==> r@.len() == 0,
{
    String::from_utf8_lossy(b).into_owned()
}

/// A client as a mathematical value: the base address parts and the credentials.
pub struct ClientView {
    pub scheme: Seq<char>,
    pub authority: Seq<char>,
    pub user_id: Seq<char>,
    pub api_key: Seq<char>,
}

/// The client that a base address and credentials give, if the address has
/// both a scheme and an authority.
pub open spec fn client_from(base: Seq<char>, user_id: Seq<char>, api_key: Seq<char>) -> Option<
    ClientView,
> {
    match uri_parts(base) {
        Some((Some(scheme), Some(authority))) => Some(
            ClientView { scheme, authority, user_id, api_key },
        ),
        _ => None,
    }
}

/// A request as a mathematical value: its target URI and its headers in order.
pub struct RequestView {
    pub target: Seq<char>,
    pub headers: Seq<(Seq<char>, Seq<char>)>,
}

/// The two authentication headers, with the credential values verbatim.
pub open spec fn credential_headers(user_id: Seq<char>, api_key: Seq<char>) -> Seq<
    (Seq<char>, Seq<char>),
> {
    seq![("user-id"@, user_id), ("api-key"@, api_key)]
}

/// The request that a client composes for a path and query, if the path and
/// query and both credentials are accepted by `http`.
pub open spec fn request_for(c: ClientView, path_and_query: Seq<char>) -> Option<RequestView> {
    match parsed_path_and_query(path_and_query) {
        Some(kept) => if header_value_valid(c.user_id) && header_value_valid(c.api_key) {
            Some(
                RequestView {
                    target: c.scheme + "://"@ + c.authority + kept,
                    headers: credential_headers(c.user_id, c.api_key),
                },
            )
        } else {
            None
        },
        None => None,
    }
}

/// A request ready to be sent with the GET method: the full target URI and
/// the headers to attach, in order.
pub struct ComposedRequest {
    pub target: String,
    pub headers: Vec<(String, String)>,
}

impl View for ComposedRequest {
    type V = RequestView;

    open spec fn view(&self) -> RequestView {
        RequestView {
            target: self.target@,
            headers: self.headers@.map_values(|h: (String, String)| (h.0@, h.1@)),
        }
    }
}

/// A client of neutrinoapi.com: a validated base address and the credentials.
#[derive(Debug, Clone)]
pub struct Neutral {
    scheme: String,
    authority: String,
    auth: ApiAuth,
}

impl View for Neutral {
    type V = ClientView;

    closed spec fn view(&self) -> ClientView {
        ClientView {
            scheme: self.scheme@,
            authority: self.authority@,
            user_id: self.auth.user_id_view(),
            api_key: self.auth.api_key_view(),
        }
    }
}

impl Neutral {
    /// Creates a client for the service at `uri`, authorized by `auth`.
    /// Fails with `InvalidBaseAddress` when `uri` is not a URI with both a
    /// scheme and an authority. No network I/O happens here.
    pub fn try_new(uri: &str, auth: ApiAuth) -> (r: Result<Self, ApiError>)
        ensures
            match r {
                Ok(n) => client_from(uri@, auth.user_id_view(), auth.api_key_view()) == Some(n@),
                Err(e) => client_from(uri@, auth.user_id_view(), auth.api_key_view()) is None
                    && e == ApiError::InvalidBaseAddress,
            },
    {
        match parse_base(uri) {
            Some((Some(scheme), Some(authority))) => Ok(Neutral { scheme, authority, auth }),
            _ => Err(ApiError::InvalidBaseAddress),
        }
    }

    /// The scheme of the base address.
    pub fn scheme(&self) -> (r: &str)
        ensures
            r@ == self@.scheme,
    {
        self.scheme.as_str()
    }

    /// The authority of the base address.
    pub fn authority(&self) -> (r: &str)
        ensures
            r@ == self@.authority,
    {
        self.authority.as_str()
    }

    /// Whether the transport must refuse insecure connections: exactly when
    /// the base address uses the `https` scheme.
    pub fn https_only(&self) -> (r: bool)
        ensures
            r == (self@.scheme == "https"@),
    {
        let https = String::from_str("https");
        self.scheme == https
    }

    /// Composes the request for `path_and_query` against the base address,
    /// with the `user-id` and `api-key` headers carrying the credentials.
    /// Fails with `MalformedRequest` when `http` refuses the path and query
    /// or a credential as a header value.
    pub fn compose(&self, path_and_query: &str) -> (r: Result<ComposedRequest, ApiError>)
        ensures
            match r {
                Ok(req) => request_for(self@, path_and_query@) == Some(req@),
                Err(e) => request_for(self@, path_and_query@) is None && e
                    == ApiError::MalformedRequest,
            },
    {
        let kept = match parse_path_and_query(path_and_query) {
            Some(kept) => kept,
            None => return Err(ApiError::MalformedRequest),
        };
        let user_id = self.auth.expose_user_id();
        let api_key = self.auth.expose_api_key();
        if !header_value_accepted(user_id.as_str()) || !header_value_accepted(api_key.as_str()) {
            return Err(ApiError::MalformedRequest);
        }
        let mut target = self.scheme.clone();
        target.append("://");
        target.append(self.authority.as_str());
        target.append(kept.as_str());
        let mut headers: Vec<(String, String)> = Vec::new();
        headers.push((String::from_str("user-id"), user_id.clone()));
        headers.push((String::from_str("api-key"), api_key.clone()));
        let req = ComposedRequest { target, headers };
        assert(req@.headers =~= credential_headers(self@.user_id, self@.api_key));
        Ok(req)
    }
}

/// Every request that a client composes carries both authentication headers,
/// `user-id` and `api-key`, with exactly the credential values that the client
/// was built with.
pub proof fn lemma_requests_carry_credentials(
    base: Seq<char>,
    user_id: Seq<char>,
    api_key: Seq<char>,
    path_and_query: Seq<char>,
)
    requires
        client_from(base, user_id, api_key) is Some,
    ensures
        ({
            let c = client_from(base, user_id, api_key)->Some_0;
            request_for(c, path_and_query) matches Some(req) ==> req.headers == seq![
                ("user-id"@, user_id),
                ("api-key"@, api_key),
            ]
        }),
{
}

/// Whether `e` is the remote failure for `status` and the raw `body`.
pub open spec fn is_remote_failure(e: ApiError, status: u16, body: Seq<u8>) -> bool {
    match e {
        ApiError::RemoteFailure { status: s, body: b } => s == status && b@ == utf8_lossy(body),
        _ => false,
    }
}

/// Classifies a response: status 200 is success and yields the body; any
/// other status is a remote failure carrying the status and the body text.
pub fn classify(status: u16, body: Vec<u8>) -> (r: Result<Vec<u8>, ApiError>)
    ensures
        status == 200 ==> r == Ok::<Vec<u8>, ApiError>(body),
        status != 200 ==> (r matches Err(e) && is_remote_failure(e, status, body@)),
{
    if status == 200 {
        Ok(body)
    } else {
        let text = lossy_text(body.as_slice());
        Err(ApiError::RemoteFailure { status, body: text })
    }
}

} // verus!
