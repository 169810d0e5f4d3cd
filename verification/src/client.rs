//! The builder and the client.
//!
//! The builder starts without a key. Setting a key moves it to the state of
//! that key's audience, and from there no key can be set again: the setters
//! exist in the first state only. Each keyed state builds the client of its
//! audience, and each client offers the one way of sending that its audience
//! takes: the private client a GET with the key as bearer token, the public
//! client a POST with the key as a field of the body.

use std::fmt::Display;
use std::marker::PhantomData;
use std::time::Duration;

use vstd::prelude::*;
use vstd::string::to_string_from_display_ensures;

use crate::body::{
    accepts_payload, json_string, json_string_text, key_field, lemma_merged_body_opens_with_key,
    merge_key, merged_body,
};
use crate::config::{default_timeout, duration_of_millis, API_ENDPOINT, DEFAULT_TIMEOUT_MILLIS};
use crate::errors::Error;
use crate::request::{header_value, Header, Method, Request, RequestView};

verus! {

/// Which of the two surfaces of the service a key opens.
#[derive(Clone, Copy, Debug, PartialEq, Eq, Structural)]
pub enum Audience {
    Public,
    Private,
}

/// A state of the builder or of the client, as a type: it says which key, if
/// any, a value in that state holds.
pub trait KeyState {
    /// The audience of the key that a value in this state holds.
    spec fn audience() -> Option<Audience>;
}

/// The builder holds the public key.
pub struct PublicBuilder;

/// The builder holds the private key.
pub struct PrivateBuilder;

/// No key has been set.
pub struct NoKey;

/// The client may call the private surface.
pub struct PrivateClient;

/// The client may call the public surface.
pub struct PublicClient;

impl KeyState for PublicBuilder {
    open spec fn audience() -> Option<Audience> {
        Some(Audience::Public)
    }
}

impl KeyState for PrivateBuilder {
    open spec fn audience() -> Option<Audience> {
        Some(Audience::Private)
    }
}

impl KeyState for NoKey {
    open spec fn audience() -> Option<Audience> {
        None
    }
}

impl KeyState for PrivateClient {
    open spec fn audience() -> Option<Audience> {
        Some(Audience::Private)
    }
}

impl KeyState for PublicClient {
    open spec fn audience() -> Option<Audience> {
        Some(Audience::Public)
    }
}

/// A key and the audience that it opens.
#[derive(Debug)]
pub struct Credential {
    secret: String,
    audience: Audience,
}

/// A credential as mathematics.
pub struct CredentialView {
    pub secret: Seq<char>,
    pub audience: Audience,
}

impl View for Credential {
    type V = CredentialView;

    closed spec fn view(&self) -> CredentialView {
        CredentialView { secret: self.secret@, audience: self.audience }
    }
}

/// Client option and configurations builder
pub struct ClientBuilder<State: KeyState = NoKey> {
    api_endpoint: String,
    credential: Option<Credential>,
    timeout: Duration,
    state: PhantomData<State>,
}

/// A builder as mathematics.
pub struct BuilderView {
    pub endpoint: Seq<char>,
    pub timeout: Duration,
    pub credential: Option<CredentialView>,
}

impl<State: KeyState> View for ClientBuilder<State> {
    type V = BuilderView;

    closed spec fn view(&self) -> BuilderView {
        BuilderView {
            endpoint: self.api_endpoint@,
            timeout: self.timeout,
            credential: match self.credential {
                Some(c) => Some(c@),
                None => None,
            },
        }
    }
}

/// The text of the error for a builder without a key.
pub open spec fn missing_key_text() -> Seq<char> {
    "Missing API key!"@
}

impl ClientBuilder {
    /// A builder for the service itself, with the default timeout and no key.
    pub fn new() -> (builder: Self)
        ensures
            builder@ == (BuilderView {
                endpoint: API_ENDPOINT@,
                timeout: duration_of_millis(DEFAULT_TIMEOUT_MILLIS),
                credential: None,
            }),
    {
        Self::default()
    }
}

impl<State: KeyState> ClientBuilder<State> {
    /// The builder holds a key exactly of the audience of its state, and none
    /// where its state has none.
    #[verifier::type_invariant]
    spec fn key_fits_state(self) -> bool {
        match self.credential {
            Some(c) => State::audience() == Some(c.audience),
            None => State::audience().is_none(),
        }
    }

    /// API endpoint
    pub fn set_endpoint(self, api_endpoint: String) -> (builder: Self)
        ensures
            builder@ == (BuilderView { endpoint: api_endpoint@, ..self@ }),
    {
        proof {
            use_type_invariant(&self);
        }
        ClientBuilder {
            api_endpoint,
            credential: self.credential,
            timeout: self.timeout,
            state: PhantomData,
        }
    }

    /// Timeout of all requests
    pub fn set_timeout(self, timeout: Duration) -> (builder: Self)
        ensures
            builder@ == (BuilderView { timeout: timeout, ..self@ }),
    {
        proof {
            use_type_invariant(&self);
        }
        ClientBuilder {
            api_endpoint: self.api_endpoint,
            credential: self.credential,
            timeout,
            state: PhantomData,
        }
    }

    /// The audience of the key that the builder holds: that of its state.
    pub fn key_audience(&self) -> (audience: Option<Audience>)
        ensures
            audience == State::audience(),
            match self@.credential {
                Some(c) => audience == Some(c.audience),
                None => audience.is_none(),
            },
    {
        proof {
            use_type_invariant(self);
        }
        match &self.credential {
            Some(c) => Some(c.audience),
            None => None,
        }
    }
}

// As long as no key has been set, we can set either a public or private key, but once a key has
// been set we can't put in another type of key
impl ClientBuilder<NoKey> {
    /// Sets the key of the private surface. The builder leaves the state
    /// without a key for good.
    pub fn set_private_api_key(self, api_key: String) -> (builder: ClientBuilder<PrivateBuilder>)
        ensures
            builder@ == (BuilderView {
                credential: Some(
                    CredentialView { secret: api_key@, audience: Audience::Private },
                ),
                ..self@
            }),
    {
        ClientBuilder {
            api_endpoint: self.api_endpoint,
            credential: Some(Credential { secret: api_key, audience: Audience::Private }),
            timeout: self.timeout,
            state: PhantomData,
        }
    }

    /// Sets the key of the public surface. The builder leaves the state
    /// without a key for good.
    pub fn set_public_api_key(self, api_key: String) -> (builder: ClientBuilder<PublicBuilder>)
        ensures
            builder@ == (BuilderView {
                credential: Some(CredentialView { secret: api_key@, audience: Audience::Public }),
                ..self@
            }),
    {
        ClientBuilder {
            api_endpoint: self.api_endpoint,
            credential: Some(Credential { secret: api_key, audience: Audience::Public }),
            timeout: self.timeout,
            state: PhantomData,
        }
    }

    /// Without a key there is no client: the error says that the key is
    /// missing.
    pub fn build(self) -> (built: Result<Client<NoKey>, Error>)
        ensures
            built matches Err(Error::ClientOptionConfigError(m)) && m@ == missing_key_text(),
    {
        Err(Error::ClientOptionConfigError("Missing API key!".to_owned()))
    }
}

impl ClientBuilder<PublicBuilder> {
    /// The public client with what the builder holds. It never fails: in this
    /// state the builder holds the public key.
    pub fn build(self) -> (built: Result<Client<PublicClient>, Error>)
        ensures
            built matches Ok(client) && self@.credential == Some(client@.credential)
                && client@.credential.audience == Audience::Public && client@.endpoint
                == self@.endpoint && client@.timeout == self@.timeout,
    {
        proof {
            use_type_invariant(&self);
        }
        if let Some(public_api) = self.credential {
            let options = ClientOptions {
                api_endpoint: self.api_endpoint,
                credential: public_api,
                timeout: self.timeout,
            };
            return Ok(Client::<PublicClient>::new(options));
        } else {
            return Err(Error::ClientOptionConfigError("Missing API key!".to_owned()));
        };
    }
}

impl ClientBuilder<PrivateBuilder> {
    /// The private client with what the builder holds. It never fails: in
    /// this state the builder holds the private key.
    pub fn build(self) -> (built: Result<Client<PrivateClient>, Error>)
        ensures
            built matches Ok(client) && self@.credential == Some(client@.credential)
                && client@.credential.audience == Audience::Private && client@.endpoint
                == self@.endpoint && client@.timeout == self@.timeout,
    {
        proof {
            use_type_invariant(&self);
        }
        if let Some(private_api) = self.credential {
            let options = ClientOptions {
                api_endpoint: self.api_endpoint,
                credential: private_api,
                timeout: self.timeout,
            };
            return Ok(Client::<PrivateClient>::new(options));
        } else {
            return Err(Error::ClientOptionConfigError("Missing API key!".to_owned()));
        };
    }
}

impl Default for ClientBuilder {
    fn default() -> (builder: Self)
        ensures
            builder@ == (BuilderView {
                endpoint: API_ENDPOINT@,
                timeout: duration_of_millis(DEFAULT_TIMEOUT_MILLIS),
                credential: None,
            }),
    {
        Self {
            api_endpoint: API_ENDPOINT.to_owned(),
            credential: None,
            timeout: default_timeout(),
            state: PhantomData,
        }
    }
}

/// What a client was built with.
pub struct ClientOptions {
    pub api_endpoint: String,
    credential: Credential,
    pub timeout: Duration,
}

/// A client, or its options, as mathematics.
pub struct ClientView {
    pub endpoint: Seq<char>,
    pub timeout: Duration,
    pub credential: CredentialView,
}

impl View for ClientOptions {
    type V = ClientView;

    closed spec fn view(&self) -> ClientView {
        ClientView {
            endpoint: self.api_endpoint@,
            timeout: self.timeout,
            credential: self.credential@,
        }
    }
}

impl Clone for ClientOptions {
    fn clone(&self) -> (copy: Self)
        ensures
            copy@ == self@,
    {
        ClientOptions {
            api_endpoint: self.api_endpoint.clone(),
            credential: Credential {
                secret: self.credential.secret.clone(),
                audience: self.credential.audience,
            },
            timeout: self.timeout,
        }
    }
}

/// Default client towards API
pub struct Client<State: KeyState> {
    options: ClientOptions,
    state: PhantomData<State>,
}

impl<State: KeyState> View for Client<State> {
    type V = ClientView;

    closed spec fn view(&self) -> ClientView {
        self.options@
    }
}

/// The text of the error for a payload that is neither an object nor `null`.
pub open spec fn not_an_object_text() -> Seq<char> {
    "the payload is not a JSON object"@
}

/// The name of the header that says what the body is.
pub open spec fn content_type_name() -> Seq<char> {
    "Content-Type"@
}

/// What every body of this crate is: JSON.
pub open spec fn content_type_json() -> Seq<char> {
    "application/json"@
}

/// The name of the header that carries a bearer token.
pub open spec fn authorization_name() -> Seq<char> {
    "Authorization"@
}

/// The value of the authorization header for the key `secret`.
pub open spec fn bearer(secret: Seq<char>) -> Seq<char> {
    "Bearer "@ + secret
}

/// The request of a private client for `endpoint`: a GET for the base URL with
/// `endpoint` behind it, the key as bearer token, and no body.
pub open spec fn bearer_request(client: ClientView, endpoint: Seq<char>) -> RequestView {
    RequestView {
        method: Method::Get,
        url: client.endpoint + endpoint,
        headers: seq![
            (content_type_name(), content_type_json()),
            (authorization_name(), bearer(client.credential.secret)),
        ],
        timeout: client.timeout,
        body: None,
    }
}

/// The request of a public client for `endpoint` with the JSON text `payload`:
/// a POST for the base URL with `endpoint` behind it, no authorization header,
/// and as body `payload` with the key merged in.
pub open spec fn keyed_request(
    client: ClientView,
    endpoint: Seq<char>,
    payload: Seq<char>,
) -> RequestView {
    RequestView {
        method: Method::Post,
        url: client.endpoint + endpoint,
        headers: seq![(content_type_name(), content_type_json())],
        timeout: client.timeout,
        body: Some(merged_body(json_string_text(client.credential.secret), payload)),
    }
}

/// Every request of a private client carries the key as bearer token in the
/// authorization header, and has no body, so no field that could carry a key.
pub proof fn law_private_request_carries_bearer_only(client: ClientView, endpoint: Seq<char>)
    ensures
        header_value(bearer_request(client, endpoint).headers, authorization_name()) == Some(
            bearer(client.credential.secret),
        ),
        bearer_request(client, endpoint).body is None,
{
    reveal_strlit("Content-Type");
    reveal_strlit("Authorization");
    let headers = bearer_request(client, endpoint).headers;
    assert(headers[0].0[0] != authorization_name()[0]);
    reveal_with_fuel(crate::request::header_from, 3);
}

/// Every request of a public client carries the key as the first field of its
/// body, and has no authorization header.
pub proof fn law_public_request_carries_key_in_body(
    client: ClientView,
    endpoint: Seq<char>,
    payload: Seq<char>,
)
    ensures
        header_value(keyed_request(client, endpoint, payload).headers, authorization_name())
            is None,
        keyed_request(client, endpoint, payload).body matches Some(body) && (seq!['{'] + key_field(
            json_string_text(client.credential.secret),
        )).is_prefix_of(body),
{
    reveal_strlit("Content-Type");
    reveal_strlit("Authorization");
    let headers = keyed_request(client, endpoint, payload).headers;
    assert(headers[0].0[0] != authorization_name()[0]);
    reveal_with_fuel(crate::request::header_from, 3);
    lemma_merged_body_opens_with_key(json_string_text(client.credential.secret), payload);
}

impl Client<PrivateClient> {
    /// The GET request towards the API for `endpoint`, with the key as bearer
    /// token.
    pub fn get_request(&self, endpoint: String) -> (request: Request)
        ensures
            request@ == bearer_request(self@, endpoint@),
            self@.credential.audience == Audience::Private,
    {
        proof {
            use_type_invariant(self);
        }
        let mut token = String::from_str("Bearer ");
        token.append(self.options.credential.secret.as_str());
        let mut headers: Vec<Header> = Vec::new();
        headers.push(
            Header {
                name: "Content-Type".to_owned(),
                value: "application/json".to_owned(),
            },
        );
        headers.push(Header { name: "Authorization".to_owned(), value: token });
        let request = Request {
            method: Method::Get,
            url: self.full_url(endpoint),
            headers,
            timeout: self.options.timeout,
            body: None,
        };
        assert(request@.headers =~= bearer_request(self@, endpoint@).headers);
        request
    }
}

impl Client<PublicClient> {
    /// The POST request towards the API for `endpoint`, with the key as a
    /// field of the body beside the fields of the payload.
    ///
    /// `body` is what encoding the payload as JSON gave: the text, or the
    /// encoder's error. The payload must be an object, or `null`, which stands
    /// for a payload without fields; an encoder's error and any other payload
    /// are serialization errors.
    pub fn post_request_with_body<E: Display>(
        &self,
        endpoint: String,
        body: Result<String, E>,
    ) -> (request: Result<Request, Error>)
        ensures
            self@.credential.audience == Audience::Public,
            match body {
                Ok(payload) => if accepts_payload(payload@) {
                    request matches Ok(r) && r@ == keyed_request(self@, endpoint@, payload@)
                } else {
                    request matches Err(Error::Serialization(m)) && m@ == not_an_object_text()
                },
                Err(cause) => request matches Err(Error::Serialization(m))
                    && to_string_from_display_ensures::<E>(&cause, m),
            },
    {
        proof {
            use_type_invariant(self);
        }
        let payload = match body {
            Ok(payload) => payload,
            Err(e) => {
                return Err(Error::serialization(e));
            },
        };
        let key_text = match json_string(self.options.credential.secret.as_str()) {
            Some(text) => text,
            None => {
                return Err(Error::Serialization("the key is not a JSON string".to_owned()));
            },
        };
        let merged = match merge_key(key_text.as_str(), payload.as_str()) {
            Some(merged) => merged,
            None => {
                return Err(
                    Error::Serialization("the payload is not a JSON object".to_owned()),
                );
            },
        };
        let mut headers: Vec<Header> = Vec::new();
        headers.push(
            Header {
                name: "Content-Type".to_owned(),
                value: "application/json".to_owned(),
            },
        );
        let request = Request {
            method: Method::Post,
            url: self.full_url(endpoint),
            headers,
            timeout: self.options.timeout,
            body: Some(merged),
        };
        assert(request@.headers =~= keyed_request(self@, endpoint@, payload@).headers);
        Ok(request)
    }
}

/// What a dispatch comes to, given what the transport returned: the response as
/// it is, whatever its status, or a connection error with the text of the
/// transport's error.
pub fn connection_outcome<T, E: Display>(sent: Result<T, E>) -> (outcome: Result<T, Error>)
    ensures
        match sent {
            Ok(response) => outcome == Ok::<T, Error>(response),
            Err(cause) => outcome matches Err(Error::Connection(m))
                && to_string_from_display_ensures::<E>(&cause, m),
        },
{
    match sent {
        Ok(response) => Ok(response),
        Err(cause) => Err(Error::connection(cause)),
    }
}

impl<State: KeyState> Client<State> {
    /// The client holds a key of the audience of its state.
    #[verifier::type_invariant]
    spec fn key_fits_state(self) -> bool {
        State::audience() == Some(self.options.credential.audience)
    }

    /// Combine url endpoint with API base url
    fn full_url(&self, endpoint: String) -> (url: String)
        ensures
            url@ == self@.endpoint + endpoint@,
    {
        let mut url = self.options.api_endpoint.clone();
        url.append(endpoint.as_str());
        url
    }

    /// The client for `options`, whose key must be of the audience of `State`.
    fn new(options: ClientOptions) -> (client: Self)
        requires
            State::audience() == Some(options@.credential.audience),
        ensures
            client@ == options@,
    {
        Client { options, state: PhantomData }
    }

    /// What the client was built with.
    pub fn options(&self) -> (options: &ClientOptions)
        ensures
            options@ == self@,
    {
        &self.options
    }

    /// The audience that the client may call: that of its state, and that of
    /// the key it holds.
    pub fn capability(&self) -> (audience: Audience)
        ensures
            State::audience() == Some(audience),
            self@.credential.audience == audience,
    {
        proof {
            use_type_invariant(self);
        }
        self.options.credential.audience
    }
}

} // verus!
