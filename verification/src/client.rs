//! The API client: credentials, the cached bearer token, endpoint names and
//! the HTTP exchanges that a request consists of.

use vstd::prelude::*;
use vstd::string::*;
use crate::apicalypse_builder::{query_text, ApicalypseBuilder};
use crate::text::{
    has_suffix, last_path_segment, last_segment, str_eq, strip_suffix, without_suffix,
};

verus! {

/// Why the reply of the token endpoint could not be read as JSON, or held no
/// usable `access_token`.
#[derive(Clone, Copy, Debug, PartialEq, Eq)]
pub enum JsonFailure {
    CannotParseArray,
    CannotParseFloat,
    CannotParseInteger,
    CannotParseObject,
    CannotParseString,
    CannotParseBoolean,
    KeyNotFound,
    UnexpectedToken,
    EndOfStream,
    TooShortEscapeSequence,
    InvalidUnicodeEscapeSequence,
    InvalidEscapeSequence(char),
}

/// What can go wrong with a request.
#[derive(Clone, Copy, Debug, PartialEq, Eq)]
pub enum IGDBApiError {
    /// The reply of the token endpoint held no readable access token.
    AuthError(JsonFailure),
    /// The binary reply could not be decoded into the expected message.
    ApiResponseDecodeError,
    /// The transport failed.
    Request,
    /// Reserved.
    Unknown,
}

impl From<JsonFailure> for IGDBApiError {
    fn from(value: JsonFailure) -> (r: Self) {
        IGDBApiError::AuthError(value)
    }
}

impl vstd::std_specs::convert::FromSpecImpl<JsonFailure> for IGDBApiError {
    open spec fn obeys_from_spec() -> bool {
        true
    }

    open spec fn from_spec(value: JsonFailure) -> Self {
        IGDBApiError::AuthError(value)
    }
}

/// A client as plain values.
pub struct ClientView {
    pub client_id: Seq<char>,
    pub client_secret: Seq<char>,
    pub access_token: Seq<char>,
    pub endpoint: Seq<char>,
}

/// The IGDB API client.
pub struct Client {
    client_id: String,
    client_secret: String,
    client_access_token: String,
    endpoint: String,
}

impl View for Client {
    type V = ClientView;

    closed spec fn view(&self) -> ClientView {
        ClientView {
            client_id: self.client_id@,
            client_secret: self.client_secret@,
            access_token: self.client_access_token@,
            endpoint: self.endpoint@,
        }
    }
}

/// The POST that asks the OAuth endpoint for a token; all but `url` are query
/// parameters.
pub struct TokenRequest {
    pub url: String,
    pub client_id: String,
    pub client_secret: String,
    pub grant_type: String,
}

/// A token request as plain values.
pub struct TokenRequestView {
    pub url: Seq<char>,
    pub client_id: Seq<char>,
    pub client_secret: Seq<char>,
    pub grant_type: Seq<char>,
}

impl View for TokenRequest {
    type V = TokenRequestView;

    open spec fn view(&self) -> TokenRequestView {
        TokenRequestView {
            url: self.url@,
            client_id: self.client_id@,
            client_secret: self.client_secret@,
            grant_type: self.grant_type@,
        }
    }
}

/// The POST that asks the API for data: `body` is the request body,
/// `bearer_token` goes into the `Authorization` header, `client_id` into the
/// `client-id` header and `user_agent` into the `x-user-agent` header.
pub struct ApiRequest {
    pub url: String,
    pub body: String,
    pub bearer_token: String,
    pub client_id: String,
    pub user_agent: String,
}

/// A data request as plain values.
pub struct ApiRequestView {
    pub url: Seq<char>,
    pub body: Seq<char>,
    pub bearer_token: Seq<char>,
    pub client_id: Seq<char>,
    pub user_agent: Seq<char>,
}

impl View for ApiRequest {
    type V = ApiRequestView;

    open spec fn view(&self) -> ApiRequestView {
        ApiRequestView {
            url: self.url@,
            body: self.body@,
            bearer_token: self.bearer_token@,
            client_id: self.client_id@,
            user_agent: self.user_agent@,
        }
    }
}

/// What a request asks of the transport next: to fetch a token first, or
/// to send the data request.
pub enum NextRequest {
    Token(TokenRequest),
    Data(ApiRequest),
}

/// The next step of a request for a client, a query and a URL: the token
/// request where no token is cached, else the data request.
pub open spec fn next_request_matches(
    r: NextRequest,
    c: ClientView,
    query: Seq<char>,
    url: Seq<char>,
) -> bool {
    match r {
        NextRequest::Token(t) => needs_token(c) && t@ == token_request(c),
        NextRequest::Data(a) => !needs_token(c) && a@ == api_request(c, query, url),
    }
}

/// The production API host.
pub open spec fn default_endpoint() -> Seq<char> {
    "https://api.igdb.com/v4"@
}

/// The token request of a client.
pub open spec fn token_request(c: ClientView) -> TokenRequestView {
    TokenRequestView {
        url: "https://id.twitch.tv/oauth2/token"@,
        client_id: c.client_id,
        client_secret: c.client_secret,
        grant_type: "client_credentials"@,
    }
}

/// The data request of a client for a query and a URL.
pub open spec fn api_request(c: ClientView, query: Seq<char>, url: Seq<char>) -> ApiRequestView {
    ApiRequestView {
        url,
        body: query,
        bearer_token: c.access_token,
        client_id: c.client_id,
        user_agent: "igdb-api-rust v 0.1.0"@,
    }
}

/// A client has to fetch a token exactly when it holds none.
pub open spec fn needs_token(c: ClientView) -> bool {
    c.access_token.len() == 0
}

/// What heck's snake-case conversion makes of a text.
pub uninterp spec fn heck_snake_case(s: Seq<char>) -> Seq<char>;

/// The plural of a snake-case name: a `_result` at its end is dropped, and an
/// `s` is added.
pub open spec fn plural(snake: Seq<char>) -> Seq<char> {
    without_suffix(snake, "_result"@) + "s"@
}

/// The endpoint name of a message type, from the type's name or path.
pub open spec fn endpoint_name_text(message_name: Seq<char>) -> Seq<char> {
    let simple = last_segment(message_name);
    if simple == "Person"@ {
        "people"@
    } else {
        plural(heck_snake_case(simple))
    }
}

/// The URL of the data endpoint of a message type.
pub open spec fn data_url(endpoint: Seq<char>, message_name: Seq<char>) -> Seq<char> {
    endpoint + "/"@ + endpoint_name_text(message_name)
}

/// The URL of the count endpoint of a message type.
pub open spec fn count_url(endpoint: Seq<char>, message_name: Seq<char>) -> Seq<char> {
    data_url(endpoint, message_name) + "/count"@
}

/// Calls `heck::AsSnekCase` on `s` and renders it. The contract only gives
/// the outcome a name: the conversion is a function of the text alone.
#[verifier::external_body]
fn snake_case(s: &str) -> (r: String)
    ensures
        r@ == heck_snake_case(s@),
{
    heck::AsSnekCase(s).to_string()
}

/// Pluralizes a snake-case name, dropping a `_result` at its end.
pub fn pluralize(snake: &str) -> (r: String)
    ensures
        r@ == plural(snake@),
{
    let stem = strip_suffix(snake, "_result");
    let mut r = String::from_str(stem);
    r.append("s");
    r
}

/// The endpoint name for a message type given by its name or path:
/// `people` for `Person`, else the snake-case plural of the simple name.
pub fn endpoint_name(message_name: &str) -> (r: String)
    ensures
        r@ == endpoint_name_text(message_name@),
{
    let simple = last_path_segment(message_name);
    if str_eq(simple, "Person") {
        String::from_str("people")
    } else {
        let snake = snake_case(simple);
        pluralize(snake.as_str())
    }
}

impl Client {
    /// Create a new client: no token is cached and the endpoint is the
    /// production host.
    pub fn new(client_id: &str, client_secret: &str) -> (r: Self)
        ensures
            r@ == (ClientView {
                client_id: client_id@,
                client_secret: client_secret@,
                access_token: Seq::empty(),
                endpoint: default_endpoint(),
            }),
    {
        Client {
            client_id: client_id.to_owned(),
            client_secret: client_secret.to_owned(),
            client_access_token: String::new(),
            endpoint: String::from_str("https://api.igdb.com/v4"),
        }
    }

    /// Set a custom endpoint, for use with a proxy.
    pub fn with_endpoint(self, endpoint: &str) -> (r: Self)
        ensures
            r@ == (ClientView { endpoint: endpoint@, ..self@ }),
    {
        Client {
            client_id: self.client_id,
            client_secret: self.client_secret,
            client_access_token: self.client_access_token,
            endpoint: endpoint.to_owned(),
        }
    }

    /// The client id.
    pub fn client_id(&self) -> (r: &str)
        ensures
            r@ == self@.client_id,
    {
        self.client_id.as_str()
    }

    /// The client secret.
    pub fn client_secret(&self) -> (r: &str)
        ensures
            r@ == self@.client_secret,
    {
        self.client_secret.as_str()
    }

    /// The cached bearer token; empty until one was stored.
    pub fn client_access_token(&self) -> (r: &str)
        ensures
            r@ == self@.access_token,
    {
        self.client_access_token.as_str()
    }

    /// The base URL of the API.
    pub fn endpoint(&self) -> (r: &str)
        ensures
            r@ == self@.endpoint,
    {
        self.endpoint.as_str()
    }

    /// Tells what it takes to hold a token: nothing where one is cached,
    /// else the request to send to the OAuth endpoint.
    pub fn check_access_token(&self) -> (r: Option<TokenRequest>)
        ensures
            match r {
                None => !needs_token(self@),
                Some(t) => needs_token(self@) && t@ == token_request(self@),
            },
    {
        if self.client_access_token.as_str().unicode_len() == 0 {
            Some(
                TokenRequest {
                    url: String::from_str("https://id.twitch.tv/oauth2/token"),
                    client_id: self.client_id.clone(),
                    client_secret: self.client_secret.clone(),
                    grant_type: String::from_str("client_credentials"),
                },
            )
        } else {
            None
        }
    }

    /// Takes what was read from the reply of the OAuth endpoint: a token is
    /// cached, a failure becomes an auth error and leaves the client as it was.
    pub fn store_access_token(&mut self, reply: Result<String, JsonFailure>) -> (r: Result<
        (),
        IGDBApiError,
    >)
        ensures
            match reply {
                Ok(token) => r == Ok::<(), IGDBApiError>(()) && final(self)@ == (ClientView {
                    access_token: token@,
                    ..old(self)@
                }),
                Err(failure) => r == Err::<(), IGDBApiError>(IGDBApiError::AuthError(failure))
                    && final(self)@ == old(self)@,
            },
    {
        match reply {
            Ok(token) => {
                self.client_access_token = token;
                Ok(())
            },
            Err(failure) => Err(IGDBApiError::from(failure)),
        }
    }

    /// The URL of the data endpoint of a message type given by name.
    pub fn endpoint_url(&self, message_name: &str) -> (r: String)
        ensures
            r@ == data_url(self@.endpoint, message_name@),
    {
        let mut url = self.endpoint.clone();
        url.append("/");
        url.append(endpoint_name(message_name).as_str());
        url
    }

    /// The URL of the count endpoint of a message type given by name.
    pub fn endpoint_count_url(&self, message_name: &str) -> (r: String)
        ensures
            r@ == count_url(self@.endpoint, message_name@),
    {
        let mut url = self.endpoint_url(message_name);
        url.append("/count");
        url
    }

    /// The data request for a query and a URL, with the cached token as
    /// bearer.
    fn data_request(&self, query: &str, url: String) -> (r: ApiRequest)
        ensures
            r@ == api_request(self@, query@, url@),
    {
        ApiRequest {
            url,
            body: query.to_owned(),
            bearer_token: self.client_access_token.clone(),
            client_id: self.client_id.clone(),
            user_agent: String::from_str("igdb-api-rust v 0.1.0"),
        }
    }

    /// The next step of a request for a query and a URL: without a cached
    /// token the token request and no data request, with one the data request
    /// that carries it. The client is not changed.
    pub fn request_api(&self, query: &str, url: String) -> (r: NextRequest)
        ensures
            next_request_matches(r, self@, query@, url@),
    {
        match self.check_access_token() {
            Some(token_request) => NextRequest::Token(token_request),
            None => NextRequest::Data(self.data_request(query, url)),
        }
    }

    /// Goes on with a request after the reply of the OAuth endpoint was read.
    /// A token is cached and the data request carries it. A failure ends the
    /// request with an auth error: no data request is made and the client
    /// stays as it was.
    pub fn request_api_with_token(
        &mut self,
        reply: Result<String, JsonFailure>,
        query: &str,
        url: String,
    ) -> (r: Result<ApiRequest, IGDBApiError>)
        ensures
            match reply {
                Ok(token) => final(self)@ == (ClientView { access_token: token@, ..old(self)@ })
                    && match r {
                    Ok(a) => a@ == api_request(final(self)@, query@, url@),
                    Err(_) => false,
                },
                Err(failure) => final(self)@ == old(self)@ && match r {
                    Ok(_) => false,
                    Err(e) => e == IGDBApiError::AuthError(failure),
                },
            },
    {
        match self.store_access_token(reply) {
            Ok(()) => Ok(self.data_request(query, url)),
            Err(e) => Err(e),
        }
    }

    /// The next step of a request for a message type and a built query.
    pub fn request(&self, message_name: &str, query: &ApicalypseBuilder) -> (r: NextRequest)
        ensures
            next_request_matches(
                r,
                self@,
                query_text(query@),
                data_url(self@.endpoint, message_name@),
            ),
    {
        let query_string = query.to_query();
        self.request_raw(message_name, query_string.as_str())
    }

    /// The next step of a request for a message type and a query string.
    pub fn request_raw(&self, message_name: &str, query: &str) -> (r: NextRequest)
        ensures
            next_request_matches(r, self@, query@, data_url(self@.endpoint, message_name@)),
    {
        self.request_api(query, self.endpoint_url(message_name))
    }

    /// The next step of a count request for a message type and a built query.
    pub fn request_count(&self, message_name: &str, query: &ApicalypseBuilder) -> (r: NextRequest)
        ensures
            next_request_matches(
                r,
                self@,
                query_text(query@),
                count_url(self@.endpoint, message_name@),
            ),
    {
        let query_string = query.to_query();
        self.request_count_raw(message_name, query_string.as_str())
    }

    /// The next step of a count request for a message type and a query string.
    pub fn request_count_raw(&self, message_name: &str, query: &str) -> (r: NextRequest)
        ensures
            next_request_matches(r, self@, query@, count_url(self@.endpoint, message_name@)),
    {
        self.request_api(query, self.endpoint_count_url(message_name))
    }
}

/// A request of a client without a token never yields a data request, and
/// one of a client with a token never yields a token request.
pub proof fn lemma_no_data_request_without_token(
    r: NextRequest,
    c: ClientView,
    query: Seq<char>,
    url: Seq<char>,
)
    requires
        next_request_matches(r, c, query, url),
    ensures
        needs_token(c) <==> r is Token,
        !needs_token(c) <==> r is Data,
{
}

/// A name that does not end in `_result` has the same plural with `_result`
/// added to it: the suffix is dropped before the `s` is added.
pub proof fn lemma_plural_drops_result_suffix(snake: Seq<char>)
    requires
        !has_suffix(snake, "_result"@),
    ensures
        plural(snake + "_result"@) == plural(snake),
        plural(snake + "_result"@) == snake + "s"@,
{
    let long = snake + "_result"@;
    assert(long.subrange(long.len() - "_result"@.len(), long.len() as int) =~= "_result"@);
    assert(long.subrange(0, long.len() - "_result"@.len()) =~= snake);
}

/// A client that holds a token asks for none, whatever else it holds; one
/// that was just made holds none and has to ask.
pub proof fn lemma_token_is_fetched_only_when_missing(c: ClientView, token: Seq<char>)
    requires
        token.len() > 0,
    ensures
        !needs_token(ClientView { access_token: token, ..c }),
        needs_token(ClientView { access_token: Seq::empty(), ..c }),
{
}

/// A data request carries the cached token, the client id and the query as
/// they are, and never the client secret.
pub proof fn lemma_request_carries_token(c: ClientView, query: Seq<char>, url: Seq<char>)
    ensures
        api_request(c, query, url).bearer_token == c.access_token,
        api_request(c, query, url).client_id == c.client_id,
        api_request(c, query, url).body == query,
        api_request(c, query, url).url == url,
        api_request(c, query, url) == api_request(
            ClientView { client_secret: Seq::empty(), ..c },
            query,
            url,
        ),
{
}

} // verus!
