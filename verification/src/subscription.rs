//! Asking a GraphQL endpoint for a subscription: the request that opens the
//! websocket, and what is subscribed to.

use async_tungstenite::tungstenite::client::IntoClientRequest;
use async_tungstenite::tungstenite::http::Request;
use reqwest::header::HeaderValue;
use reqwest::Url;
use vstd::prelude::*;

verus! {

/// A request that opens a websocket. It holds headers.
#[verifier::external_type_specification]
#[verifier::external_body]
#[verifier::reject_recursive_types(T)]
pub struct ExRequest<T>(async_tungstenite::tungstenite::http::Request<T>);

/// Why a request could not be made.
#[verifier::external_type_specification]
#[verifier::external_body]
pub struct ExTungsteniteError(async_tungstenite::tungstenite::Error);

/// The headers of a request: under each name, which has no capital letters, the
/// values in order.
pub uninterp spec fn request_headers(request: Request<()>) -> Map<Seq<char>, Seq<Seq<char>>>;

/// Where a request goes, as text.
pub uninterp spec fn request_target(request: Request<()>) -> Seq<char>;

/// `Url::parse`: the URL that a text means, written out in the normal way, if it
/// means one.
pub uninterp spec fn parsed_url(text: Seq<char>) -> Option<Seq<char>>;

/// `into_client_request`: where a request for a websocket at this URL goes, and
/// the host that it names, if there can be such a request.
pub uninterp spec fn client_request(url: Seq<char>) -> Option<(Seq<char>, Seq<char>)>;

/// A text that can be the value of a header: no control characters but tabs.
pub open spec fn is_header_text(text: Seq<char>) -> bool {
    forall|i: int|
        0 <= i < text.len() ==> #[trigger] text[i] == '\t' || (text[i] as u32 >= 32 && text[i] as u32
            != 127)
}

/// The scheme of a URL that is written out in the normal way: what stands before its
/// first colon.
pub open spec fn scheme_of(url: Seq<char>) -> Seq<char> {
    match url.index_of_first(':') {
        Some(end) => url.take(end),
        None => url,
    }
}

/// The scheme of the websocket that belongs to a URL with scheme `of`.
pub open spec fn is_websocket_scheme_for(scheme: Seq<char>, of: Seq<char>) -> bool {
    ||| of == "http"@ && scheme == "ws"@
    ||| of == "https"@ && scheme == "wss"@
}

/// The headers of every request that opens a websocket to `host`; `key` is drawn
/// anew for each request.
pub open spec fn upgrade_headers(host: Seq<char>, key: Seq<char>) -> Map<
    Seq<char>,
    Seq<Seq<char>>,
> {
    Map::<Seq<char>, Seq<Seq<char>>>::empty().insert("host"@, seq![host]).insert(
        "connection"@,
        seq!["Upgrade"@],
    ).insert("upgrade"@, seq!["websocket"@]).insert("sec-websocket-version"@, seq!["13"@]).insert(
        "sec-websocket-key"@,
        seq![key],
    )
}

/// `Url::parse` and `Url::as_str` of the outside crate `reqwest`, which hands on
/// those of `url`: the URL that the text means, written out in the normal way.
/// The result depends on the text alone.
#[verifier::external_body]
fn parse_url(text: &str) -> (url: Option<String>)
    ensures
        match url {
            Some(found) => parsed_url(text@) == Some(found@),
            None => parsed_url(text@) is None,
        },
{
    Url::parse(text).ok().map(|url| url.as_str().to_owned())
}

/// `Url::scheme` of the outside crate `reqwest`, which hands on that of `url`: the
/// scheme of the URL that the text means. In the URL as it is written out, a colon
/// stands behind the scheme, and none stands in it.
#[verifier::external_body]
fn url_scheme(text: &str) -> (scheme: Option<String>)
    ensures
        match scheme {
            Some(found) => parsed_url(text@) is Some && found@ == scheme_of(parsed_url(text@)->0),
            None => parsed_url(text@) is None,
        },
{
    Url::parse(text).ok().map(|url| url.scheme().to_owned())
}

/// `Url::set_scheme` of the outside crate `reqwest`, which hands on that of `url`:
/// the URL that the text means, with another scheme in front. It works from `http`
/// to `ws` and from `https` to `wss`, which have the same default ports, so nothing
/// but the scheme changes in the text.
#[verifier::external_body]
fn url_with_scheme(text: &str, scheme: &'static str) -> (url: Option<String>)
    requires
        parsed_url(text@) is Some,
        is_websocket_scheme_for(scheme@, scheme_of(parsed_url(text@)->0)),
    ensures
        url is Some,
        url->0@ == scheme@ + parsed_url(text@)->0.skip(
            scheme_of(parsed_url(text@)->0).len() as int,
        ),
{
    let mut url = Url::parse(text).ok()?;
    url.set_scheme(scheme).ok()?;
    Some(url.as_str().to_owned())
}

/// `IntoClientRequest::into_client_request` of the outside crate
/// `async_tungstenite`, which hands on that of `tungstenite`: a request for a
/// websocket at `url`, with the headers of every such request. Whether there can
/// be one, where it goes and which host it names depends on the URL alone; the key
/// in it is random, and nothing is claimed of it.
#[verifier::external_body]
fn open_request(url: &str) -> (request: Result<
    Request<()>,
    async_tungstenite::tungstenite::Error,
>)
    ensures
        match request {
            Ok(made) => client_request(url@) matches Some((target, host)) && request_target(made)
                == target && exists|key: Seq<char>|
                request_headers(made) == #[trigger] upgrade_headers(host, key),
            Err(_) => client_request(url@) is None,
        },
{
    url.into_client_request()
}

/// `HeaderValue::from_str` of the outside crate `reqwest`, which hands on that of
/// `http`: whether the text can be the value of a header.
#[verifier::external_body]
fn can_be_header(text: &str) -> (accepted: bool)
    ensures
        accepted == is_header_text(text@),
{
    HeaderValue::from_str(text).is_ok()
}

/// `HeaderMap::insert` of the outside crate `http`, on the headers of a request:
/// under `name` there is `value` afterwards and nothing else; other names and the
/// target stay. It makes room first, also for a name that is there already, and
/// panics where the map may not get larger; a map with some six thousand names and
/// many collisions can be such a one, so far fewer are asked for.
#[verifier::external_body]
fn insert_header(request: &mut Request<()>, name: &'static str, value: &str)
    requires
        name@ == "sec-websocket-protocol"@ || name@ == "authorization"@ || name@ == "user-agent"@,
        is_header_text(value@),
        request_headers(*old(request)).dom().finite(),
        request_headers(*old(request)).dom().len() < 2000,
    ensures
        request_headers(*final(request)) == request_headers(*old(request)).insert(
            name@,
            seq![value@],
        ),
        request_target(*final(request)) == request_target(*old(request)),
{
    request.headers_mut().insert(name, HeaderValue::from_str(value).unwrap());
}

/// Who asks, and where.
pub struct WasmerClient {
    /// The URL of the GraphQL endpoint.
    pub graphql_endpoint: String,
    /// What the client proves itself with, if it has something.
    pub auth_token: Option<String>,
    /// What the client calls itself.
    pub user_agent: String,
}

/// What is subscribed to.
#[derive(Debug)]
pub enum Operation {
    /// That a version of a package is ready.
    PackageVersionReady { package_version_id: String },
    /// How a deployment that is built automatically gets on.
    AutobuildDeployment { build_id: String },
}

impl Operation {
    /// The identifier of what is subscribed to.
    pub open spec fn id(self) -> Seq<char> {
        match self {
            Operation::PackageVersionReady { package_version_id } => package_version_id@,
            Operation::AutobuildDeployment { build_id } => build_id@,
        }
    }

    /// The identifier of what is subscribed to.
    pub fn into_id(self) -> (id: String)
        ensures
            id@ == self.id(),
    {
        match self {
            Operation::PackageVersionReady { package_version_id } => package_version_id,
            Operation::AutobuildDeployment { build_id } => build_id,
        }
    }
}

/// A subscription that can be opened: the request for the websocket, and what to
/// subscribe to once it is open.
pub struct SubscriptionRequest {
    /// The request.
    pub request: Request<()>,
    /// What to subscribe to.
    pub operation: Operation,
}

/// Why there is no subscription.
#[derive(Debug)]
pub enum SubscriptionError {
    /// The endpoint is no URL.
    InvalidEndpoint,
    /// There can be no websocket at that URL.
    Request(async_tungstenite::tungstenite::Error),
    /// The token cannot be sent.
    InvalidToken,
    /// The client's name cannot be sent.
    InvalidUserAgent,
}

/// The URL of the websocket that belongs to an endpoint: `ws` in place of `http`
/// and `wss` in place of `https`.
pub open spec fn websocket_url(url: Seq<char>) -> Seq<char> {
    if scheme_of(url) == "http"@ {
        "ws"@ + url.skip(4)
    } else if scheme_of(url) == "https"@ {
        "wss"@ + url.skip(5)
    } else {
        url
    }
}

/// The URL of a websocket differs from that of the endpoint in the scheme alone.
pub proof fn only_the_scheme_changes(url: Seq<char>)
    ensures
        scheme_of(url) == "http"@ ==> url == "http"@ + url.skip(4) && websocket_url(url) == "ws"@
            + url.skip(4) && scheme_of(websocket_url(url)) == "ws"@,
        scheme_of(url) == "https"@ ==> url == "https"@ + url.skip(5) && websocket_url(url)
            == "wss"@ + url.skip(5) && scheme_of(websocket_url(url)) == "wss"@,
        scheme_of(url) != "http"@ && scheme_of(url) != "https"@ ==> websocket_url(url) == url,
{
    reveal_strlit("http");
    reveal_strlit("https");
    reveal_strlit("ws");
    reveal_strlit("wss");
    let socket = websocket_url(url);
    url.index_of_first_ensures(':');
    socket.index_of_first_ensures(':');
    let scheme = scheme_of(url);
    if scheme == "http"@ || scheme == "https"@ {
        let front = if scheme == "http"@ {
            "ws"@
        } else {
            "wss"@
        };
        let rest = url.skip(scheme.len() as int);
        assert(url =~= scheme + rest);
        assert(socket == front + rest);
        assert forall|i: int| 0 <= i < front.len() implies socket[i] != ':' by {
            assert(socket[i] == front[i]);
        }
        if url.contains(':') {
            assert(socket[front.len() as int] == rest[0]);
            assert(rest[0] == ':');
            assert(socket.index_of_first(':') == Some(front.len() as int));
        } else {
            assert(rest.len() == 0);
        }
        assert(scheme_of(socket) =~= front);
    }
}

/// The value that sends a token.
pub open spec fn bearer(token: Seq<char>) -> Seq<char> {
    "Bearer "@ + token
}

/// The headers of a request for a subscription, from those that it has.
pub open spec fn subscription_headers(
    base: Map<Seq<char>, Seq<Seq<char>>>,
    token: Option<Seq<char>>,
    user_agent: Seq<char>,
) -> Map<Seq<char>, Seq<Seq<char>>> {
    let with_protocol: Map<Seq<char>, Seq<Seq<char>>> = base.insert(
        "sec-websocket-protocol"@,
        seq!["graphql-transport-ws"@],
    );
    let with_token: Map<Seq<char>, Seq<Seq<char>>> = match token {
        Some(given) => with_protocol.insert("authorization"@, seq![bearer(given)]),
        None => with_protocol,
    };
    with_token.insert("user-agent"@, seq![user_agent])
}

/// A request for a subscription names its protocol and the client, sends a token
/// if and only if there is one, and keeps every other header.
pub proof fn subscriptions_say_who_asks(
    base: Map<Seq<char>, Seq<Seq<char>>>,
    token: Option<Seq<char>>,
    user_agent: Seq<char>,
)
    requires
        !base.contains_key("authorization"@),
    ensures
        ({
            let headers = subscription_headers(base, token, user_agent);
            &&& headers.contains_key("sec-websocket-protocol"@)
            &&& headers["sec-websocket-protocol"@] == seq!["graphql-transport-ws"@]
            &&& headers.contains_key("user-agent"@)
            &&& headers["user-agent"@] == seq![user_agent]
            &&& headers.contains_key("authorization"@) == token is Some
            &&& token matches Some(given) ==> headers["authorization"@] == seq!["Bearer "@ + given]
            &&& forall|name: Seq<char>| #[trigger]
                base.contains_key(name) && name != "sec-websocket-protocol"@ && name
                    != "user-agent"@ ==> headers.contains_key(name) && headers[name] == base[name]
        }),
{
    reveal_strlit("sec-websocket-protocol");
    reveal_strlit("authorization");
    reveal_strlit("user-agent");
    assert("sec-websocket-protocol"@.len() != "authorization"@.len());
    assert("user-agent"@.len() != "authorization"@.len());
    assert("sec-websocket-protocol"@.len() != "user-agent"@.len());
}

/// The token of a client, as a character sequence.
pub open spec fn token_of(token: Option<String>) -> Option<Seq<char>> {
    match token {
        Some(given) => Some(given@),
        None => None,
    }
}

/// The URL of the websocket that belongs to an endpoint, if that is a URL.
pub fn websocket_endpoint(endpoint: &str) -> (url: Option<String>)
    ensures
        match (url, parsed_url(endpoint@)) {
            (Some(found), Some(text)) => found@ == websocket_url(text),
            (None, None) => true,
            _ => false,
        },
{
    proof {
        reveal_strlit("http");
        reveal_strlit("https");
    }
    let scheme = match url_scheme(endpoint) {
        Some(scheme) => scheme,
        None => {
            return None;
        },
    };
    if scheme == "http".to_owned() {
        url_with_scheme(endpoint, "ws")
    } else if scheme == "https".to_owned() {
        url_with_scheme(endpoint, "wss")
    } else {
        parse_url(endpoint)
    }
}

/// Adds to a request what a subscription needs: the protocol, the token if there
/// is one, and the client's name. A token or a name that cannot be sent ends it.
pub fn add_subscription_headers(
    request: &mut Request<()>,
    auth_token: &Option<String>,
    user_agent: &String,
) -> (result: Result<(), SubscriptionError>)
    requires
        request_headers(*old(request)).dom().finite(),
        request_headers(*old(request)).dom().len() < 1000,
    ensures
        request_target(*final(request)) == request_target(*old(request)),
        match result {
            Ok(_) => {
                &&& auth_token matches Some(token) ==> is_header_text(bearer(token@))
                &&& is_header_text(user_agent@)
                &&& request_headers(*final(request)) == subscription_headers(
                    request_headers(*old(request)),
                    token_of(*auth_token),
                    user_agent@,
                )
            },
            Err(SubscriptionError::InvalidToken) => auth_token matches Some(token)
                && !is_header_text(bearer(token@)),
            Err(SubscriptionError::InvalidUserAgent) => {
                &&& auth_token matches Some(token) ==> is_header_text(bearer(token@))
                &&& !is_header_text(user_agent@)
            },
            Err(_) => false,
        },
{
    broadcast use vstd::set::group_set_axioms;

    proof {
        reveal_strlit("graphql-transport-ws");
    }
    insert_header(request, "sec-websocket-protocol", "graphql-transport-ws");
    if let Some(token) = auth_token {
        let mut value = "Bearer ".to_owned();
        value.append(token.as_str());
        if !can_be_header(value.as_str()) {
            return Err(SubscriptionError::InvalidToken);
        }
        insert_header(request, "authorization", value.as_str());
    }
    if !can_be_header(user_agent.as_str()) {
        return Err(SubscriptionError::InvalidUserAgent);
    }
    insert_header(request, "user-agent", user_agent.as_str());
    Ok(())
}

/// What a request for a subscription of this client comes to.
pub open spec fn is_request_of(
    client: WasmerClient,
    result: Result<Request<()>, SubscriptionError>,
) -> bool {
    match parsed_url(client.graphql_endpoint@) {
        None => result == Err::<Request<()>, SubscriptionError>(SubscriptionError::InvalidEndpoint),
        Some(text) => match client_request(websocket_url(text)) {
            None => result matches Err(SubscriptionError::Request(_)),
            Some((target, host)) => if client.auth_token matches Some(token) && !is_header_text(
                bearer(token@),
            ) {
                result matches Err(SubscriptionError::InvalidToken)
            } else if !is_header_text(client.user_agent@) {
                result matches Err(SubscriptionError::InvalidUserAgent)
            } else {
                &&& result is Ok
                &&& request_target(result->Ok_0) == target
                &&& exists|key: Seq<char>|
                    request_headers(result->Ok_0) == subscription_headers(
                        #[trigger] upgrade_headers(host, key),
                        token_of(client.auth_token),
                        client.user_agent@,
                    )
            },
        },
    }
}

/// The request that opens a websocket for a subscription of this client.
pub fn subscription_request(client: &WasmerClient) -> (result: Result<
    Request<()>,
    SubscriptionError,
>)
    ensures
        is_request_of(*client, result),
{
    broadcast use vstd::set::group_set_axioms;

    let url = match websocket_endpoint(client.graphql_endpoint.as_str()) {
        Some(url) => url,
        None => {
            return Err(SubscriptionError::InvalidEndpoint);
        },
    };
    let mut request = match open_request(url.as_str()) {
        Ok(request) => request,
        Err(error) => {
            return Err(SubscriptionError::Request(error));
        },
    };
    match add_subscription_headers(&mut request, &client.auth_token, &client.user_agent) {
        Ok(_) => Ok(request),
        Err(error) => Err(error),
    }
}

/// The request behind a subscription, or why there is none.
pub open spec fn request_behind(result: Result<SubscriptionRequest, SubscriptionError>) -> Result<
    Request<()>,
    SubscriptionError,
> {
    match result {
        Ok(subscription) => Ok(subscription.request),
        Err(error) => Err(error),
    }
}

/// Asks to be told when a version of a package is ready.
pub fn package_version_ready(client: &WasmerClient, package_version_id: &str) -> (result: Result<
    SubscriptionRequest,
    SubscriptionError,
>)
    ensures
        is_request_of(*client, request_behind(result)),
        result matches Ok(subscription) ==> subscription.operation
            matches Operation::PackageVersionReady { package_version_id: id } && id@
            == package_version_id@,
{
    match subscription_request(client) {
        Ok(request) => Ok(
            SubscriptionRequest {
                request,
                operation: Operation::PackageVersionReady {
                    package_version_id: package_version_id.to_owned(),
                },
            },
        ),
        Err(error) => Err(error),
    }
}

/// Asks to be told how a deployment that is built automatically gets on.
pub fn autobuild_deployment(client: &WasmerClient, build_id: &str) -> (result: Result<
    SubscriptionRequest,
    SubscriptionError,
>)
    ensures
        is_request_of(*client, request_behind(result)),
        result matches Ok(subscription) ==> subscription.operation
            matches Operation::AutobuildDeployment { build_id: id } && id@ == build_id@,
{
    match subscription_request(client) {
        Ok(request) => Ok(
            SubscriptionRequest {
                request,
                operation: Operation::AutobuildDeployment { build_id: build_id.to_owned() },
            },
        ),
        Err(error) => Err(error),
    }
}

/// What is subscribed to is known by the identifier that was asked for.
pub proof fn operations_keep_their_identifier(id: String)
    ensures
        (Operation::PackageVersionReady { package_version_id: id }).id() == id@,
        (Operation::AutobuildDeployment { build_id: id }).id() == id@,
{
}

/// The request of a client goes where a websocket request for its endpoint goes, names
/// the protocol and the client, and sends the client's token if and only if it has one.
pub proof fn requests_speak_for_the_client(client: WasmerClient, request: Request<()>)
    requires
        is_request_of(client, Ok(request)),
    ensures
        parsed_url(client.graphql_endpoint@) is Some,
        client_request(websocket_url(parsed_url(client.graphql_endpoint@)->0)) matches Some(
            (target, host),
        ) && request_target(request) == target,
        request_headers(request).contains_key("sec-websocket-protocol"@),
        request_headers(request)["sec-websocket-protocol"@] == seq!["graphql-transport-ws"@],
        request_headers(request).contains_key("user-agent"@),
        request_headers(request)["user-agent"@] == seq![client.user_agent@],
        client.auth_token matches Some(token) ==> request_headers(request).contains_key(
            "authorization"@,
        ) && request_headers(request)["authorization"@] == seq!["Bearer "@ + token@],
        client.auth_token is None ==> !request_headers(request).contains_key("authorization"@),
{
    let (target, host) = client_request(
        websocket_url(parsed_url(client.graphql_endpoint@)->0),
    )->0;
    let key = choose|key: Seq<char>|
        request_headers(request) == subscription_headers(
            #[trigger] upgrade_headers(host, key),
            token_of(client.auth_token),
            client.user_agent@,
        );
    reveal_strlit("authorization");
    reveal_strlit("host");
    reveal_strlit("connection");
    reveal_strlit("upgrade");
    reveal_strlit("sec-websocket-version");
    reveal_strlit("sec-websocket-key");
    assert("host"@.len() != "authorization"@.len());
    assert("connection"@.len() != "authorization"@.len());
    assert("upgrade"@.len() != "authorization"@.len());
    assert("sec-websocket-version"@.len() != "authorization"@.len());
    assert("sec-websocket-key"@.len() != "authorization"@.len());
    assert(!upgrade_headers(host, key).contains_key("authorization"@));
    subscriptions_say_who_asks(
        upgrade_headers(host, key),
        token_of(client.auth_token),
        client.user_agent@,
    );
}

/// A client gets its request exactly when its endpoint is a URL, a websocket can be asked
/// for there, and its token, if it has one, and its name can be sent.
pub proof fn requests_are_made_whenever_they_may_be(
    client: WasmerClient,
    result: Result<Request<()>, SubscriptionError>,
)
    requires
        is_request_of(client, result),
    ensures
        result is Ok <==> {
            &&& parsed_url(client.graphql_endpoint@) is Some
            &&& client_request(websocket_url(parsed_url(client.graphql_endpoint@)->0)) is Some
            &&& client.auth_token matches Some(token) ==> is_header_text("Bearer "@ + token@)
            &&& is_header_text(client.user_agent@)
        },
{
}

} // verus!
