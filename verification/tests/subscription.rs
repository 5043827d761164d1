use async_tungstenite::tungstenite::http::Request;
use warm_instance::subscription::{
    add_subscription_headers, autobuild_deployment, package_version_ready, subscription_request,
    websocket_endpoint, Operation, SubscriptionError, WasmerClient,
};
use warm_instance::transport::{receive, send, Message, Received, WsFrame};

fn client(endpoint: &str, token: Option<&str>, agent: &str) -> WasmerClient {
    WasmerClient {
        graphql_endpoint: endpoint.to_string(),
        auth_token: token.map(|t| t.to_string()),
        user_agent: agent.to_string(),
    }
}

fn header<'a>(request: &'a Request<()>, name: &str) -> Option<&'a str> {
    request.headers().get(name).map(|v| v.to_str().unwrap())
}

#[test]
fn endpoints_become_websocket_urls() {
    assert_eq!(
        websocket_endpoint("http://registry.example/graphql").unwrap(),
        "ws://registry.example/graphql"
    );
    assert_eq!(
        websocket_endpoint("https://registry.example:8443/graphql?a=b").unwrap(),
        "wss://registry.example:8443/graphql?a=b"
    );
    assert_eq!(
        websocket_endpoint("HTTPS://Registry.Example:443").unwrap(),
        "wss://registry.example/"
    );
    assert_eq!(
        websocket_endpoint("ftp://registry.example/graphql").unwrap(),
        "ftp://registry.example/graphql"
    );
    assert_eq!(websocket_endpoint("no url"), None);
}

#[test]
fn a_subscription_request_carries_protocol_token_and_agent() {
    let made = package_version_ready(
        &client("https://registry.example/graphql", Some("tok"), "cli/1.0"),
        "pv_1",
    )
    .unwrap_or_else(|e| panic!("{e:?}"));
    let request = &made.request;
    assert_eq!(request.uri().to_string(), "wss://registry.example/graphql");
    assert_eq!(
        header(request, "Sec-WebSocket-Protocol"),
        Some("graphql-transport-ws")
    );
    assert_eq!(header(request, "authorization"), Some("Bearer tok"));
    assert_eq!(header(request, "user-agent"), Some("cli/1.0"));
    assert_eq!(header(request, "host"), Some("registry.example"));
    assert_eq!(header(request, "connection"), Some("Upgrade"));
    assert_eq!(header(request, "upgrade"), Some("websocket"));
    assert_eq!(header(request, "sec-websocket-version"), Some("13"));
    assert!(header(request, "sec-websocket-key").is_some());
    assert_eq!(request.headers().len(), 8);
    match made.operation {
        Operation::PackageVersionReady { package_version_id } => {
            assert_eq!(package_version_id, "pv_1")
        }
        other => panic!("{other:?}"),
    }
}

#[test]
fn without_a_token_there_is_no_authorization() {
    let made = autobuild_deployment(
        &client("http://user@localhost:8080/graphql", None, "agent"),
        "b-42",
    )
    .unwrap_or_else(|e| panic!("{e:?}"));
    assert_eq!(header(&made.request, "authorization"), None);
    assert_eq!(header(&made.request, "host"), Some("localhost:8080"));
    match made.operation {
        Operation::AutobuildDeployment { build_id } => assert_eq!(build_id, "b-42"),
        other => panic!("{other:?}"),
    }
}

#[test]
fn every_reason_against_a_subscription() {
    let result = subscription_request(&client("nonsense", None, "agent"));
    assert!(matches!(result, Err(SubscriptionError::InvalidEndpoint)));
    let result = subscription_request(&client("data:text/plain,hi", None, "agent"));
    assert!(matches!(result, Err(SubscriptionError::Request(_))));
    let result = subscription_request(&client("http://localhost/", Some("to\nken"), "agent"));
    assert!(matches!(result, Err(SubscriptionError::InvalidToken)));
    let result = subscription_request(&client("http://localhost/", Some("ok"), "a\u{7f}"));
    assert!(matches!(result, Err(SubscriptionError::InvalidUserAgent)));
    let result = subscription_request(&client("http://localhost/", Some("t\u{e9}\tt"), "agent"));
    assert!(result.is_ok());
}

#[test]
fn headers_replace_those_of_the_same_name() {
    let mut request = Request::builder()
        .uri("ws://localhost/")
        .header("user-agent", "first")
        .header("user-agent", "second")
        .header("x-kept", "yes")
        .body(())
        .unwrap();
    add_subscription_headers(&mut request, &None, &"third".to_string()).unwrap();
    let agents: Vec<&str> = request
        .headers()
        .get_all("user-agent")
        .iter()
        .map(|v| v.to_str().unwrap())
        .collect();
    assert_eq!(agents, vec!["third"]);
    assert_eq!(header(&request, "x-kept"), Some("yes"));
    assert_eq!(
        header(&request, "sec-websocket-protocol"),
        Some("graphql-transport-ws")
    );
}

fn delivered(frame: WsFrame) -> Message {
    match receive(Some(Ok(frame))) {
        Received::Deliver(message) => message,
        other => panic!("{other:?}"),
    }
}

#[test]
fn subscription_transport_preserves_text_and_control_frames() {
    assert!(matches!(delivered(WsFrame::Text("result".into())), Message::Text(text) if text == "result"));
    assert!(matches!(send(Message::Text("subscribe".into())), WsFrame::Text(text) if text == "subscribe"));

    assert!(matches!(delivered(WsFrame::Ping(vec![])), Message::Ping));
    assert!(matches!(send(Message::Pong), WsFrame::Pong(bytes) if bytes.is_empty()));

    let WsFrame::Close(Some((code, reason))) = send(Message::Close {
        code: Some(1000),
        reason: Some("done".into()),
    }) else {
        panic!("expected close frame");
    };
    assert_eq!(code, 1000);
    assert_eq!(reason, "done");
}

#[test]
fn frames_without_meaning_are_skipped_and_failures_end() {
    assert!(matches!(receive(Some(Ok(WsFrame::Binary(vec![1, 2])))), Received::Skip));
    assert!(matches!(receive(Some(Ok(WsFrame::Frame))), Received::Skip));
    assert!(matches!(receive(Some(Err("broken".into()))), Received::End));
    assert!(matches!(receive(None), Received::End));
    assert!(matches!(delivered(WsFrame::Pong(vec![7])), Message::Pong));
    assert!(matches!(
        delivered(WsFrame::Close(None)),
        Message::Close { code: None, reason: None }
    ));
}

#[test]
fn what_is_sent_arrives() {
    assert!(matches!(delivered(send(Message::Ping)), Message::Ping));
    assert!(matches!(
        delivered(send(Message::Close { code: Some(1001), reason: Some("away".into()) })),
        Message::Close { code: Some(1001), reason: Some(reason) } if reason == "away"
    ));
    // An end with only one of the two says neither.
    assert!(matches!(
        delivered(send(Message::Close { code: Some(1001), reason: None })),
        Message::Close { code: None, reason: None }
    ));
    assert!(matches!(
        send(Message::Close { code: None, reason: Some("away".into()) }),
        WsFrame::Close(None)
    ));
}
