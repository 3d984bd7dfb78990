use cometd_client::Advice;
use cometd_client::Client;
use cometd_client::ErrorKind;
use cometd_client::RawMessage;
use cometd_client::Reconnect;
use cometd_client::Request;
use cometd_client::Step;

const RETRIES_MAX: u32 = 3;

fn client() -> Client {
    Client::new().set_retries(RETRIES_MAX)
}

fn advice_with(reconnect: Reconnect) -> Advice {
    Advice { reconnect, timeout: None, interval: None, multiple_clients: None, hosts: None }
}

fn handshake_success() -> RawMessage {
    let mut m = RawMessage::empty();
    m.channel = Some("/meta/handshake".to_string());
    m.version = Some("1.0".to_string());
    m.successful = Some(true);
    m.client_id = Some("1234".to_string());
    m.supported_connection_types = Some(vec!["long-polling".to_string()]);
    m
}

fn connect_failure(reconnect: Option<Reconnect>, error: &str) -> RawMessage {
    let mut m = RawMessage::empty();
    m.channel = Some("/meta/connect".to_string());
    m.successful = Some(false);
    m.error = Some(error.to_string());
    m.advice = reconnect.map(advice_with);
    m
}

/// Runs an engine until the operation settles, answering every
/// handshake request with `on_handshake` and every other request with
/// `on_other`. Returns the requests that were issued and the result.
fn run(
    client: &mut Client,
    first: Request,
    on_handshake: &dyn Fn() -> Vec<RawMessage>,
    on_other: &dyn Fn() -> Vec<RawMessage>,
) -> (Vec<Request>, Result<Vec<cometd_client::Response>, cometd_client::Error>) {
    let mut issued = vec![first];
    loop {
        let batch = match issued.last().unwrap() {
            Request::Handshake(_) => on_handshake(),
            _ => on_other(),
        };
        match client.on_batch(batch, vec![]) {
            Ok(Step::Exchange(req)) => issued.push(req),
            Ok(Step::Complete(resps)) => return (issued, Ok(resps)),
            Err(e) => return (issued, Err(e)),
        }
        if issued.len() > 64 {
            panic!("engine did not settle");
        }
    }
}

#[test]
fn returns_error_on_failure() {
    let mut client = client();
    let first = client.init();
    let (_, result) = run(
        &mut client,
        first,
        &|| {
            let mut m = RawMessage::empty();
            m.channel = Some("/meta/handshake".to_string());
            m.error =
                Some("406::Unsupported version, or unsupported minimum version".to_string());
            m.successful = Some(false);
            vec![m]
        },
        &|| panic!("no request beyond the handshake should be issued"),
    );
    assert!(result.is_err());
    let e = result.err().unwrap();
    assert_eq!(e.kind, ErrorKind::Protocol);
    assert_eq!(e.message, "406::Unsupported version, or unsupported minimum version");
}

#[test]
fn works() {
    let mut client = client();
    let first = client.init();
    let (_, result) = run(&mut client, first, &|| vec![handshake_success()], &|| {
        vec![handshake_success()]
    });
    assert!(result.is_ok());
    assert_eq!(client.client_id(), Some(&"1234".to_string()));
}

#[test]
fn retries_if_server_advises_to() {
    let mut client = client();
    let first = client.handshake();
    let (_, result) =
        run(&mut client, first, &|| vec![handshake_success()], &|| panic!("handshake only"));
    result.expect("Could not init client");

    let first = client.connect().expect("session is bound");
    let (issued, result) = run(&mut client, first, &|| panic!("no handshake expected"), &|| {
        vec![connect_failure(Some(Reconnect::Retry), "400::Error")]
    });
    let e = match result {
        Err(e) => e,
        Ok(_) => panic!("Connect should not return Ok"),
    };
    let connects = issued.iter().filter(|r| matches!(r, Request::Connect(_))).count();
    assert_eq!(connects, RETRIES_MAX as usize + 1);
    assert_eq!(e.kind, ErrorKind::RetryExhausted);
    assert_eq!(e.message, "400::Error");
}

#[test]
fn handshake_if_advises_to() {
    let mut client = client();
    let first = client.handshake();
    let (_, result) =
        run(&mut client, first, &|| vec![handshake_success()], &|| panic!("handshake only"));
    result.expect("Could not init client");

    let first = client.connect().expect("session is bound");
    let (issued, result) = run(&mut client, first, &|| vec![handshake_success()], &|| {
        vec![connect_failure(Some(Reconnect::Handshake), "error")]
    });
    let e = match result {
        Err(e) => e,
        Ok(_) => panic!("Connect should not return Ok"),
    };
    // Each handshake-then-connect pair spends one unit of budget, so
    // the operation runs connect, then three re-handshaked connects.
    let handshakes = issued.iter().filter(|r| matches!(r, Request::Handshake(_))).count();
    let connects = issued.iter().filter(|r| matches!(r, Request::Connect(_))).count();
    assert_eq!(handshakes, RETRIES_MAX as usize);
    assert_eq!(connects, RETRIES_MAX as usize + 1);
    assert_eq!(e.kind, ErrorKind::RetryExhausted);
    assert_eq!(e.message, "error");
}

#[test]
fn never_advice_fails_immediately() {
    let mut client = client();
    let first = client.handshake();
    let (_, result) =
        run(&mut client, first, &|| vec![handshake_success()], &|| panic!("handshake only"));
    result.expect("Could not init client");

    let first = client.connect().expect("session is bound");
    let (issued, result) = run(&mut client, first, &|| panic!("no handshake expected"), &|| {
        vec![connect_failure(Some(Reconnect::Never), "403::Denied")]
    });
    let e = result.expect_err("Connect should not return Ok");
    assert_eq!(issued.len(), 1);
    assert_eq!(e.kind, ErrorKind::Protocol);
    assert_eq!(e.message, "403::Denied");
}

#[test]
fn missing_advice_fails_immediately() {
    let mut client = client();
    let first = client.handshake();
    let (_, result) =
        run(&mut client, first, &|| vec![handshake_success()], &|| panic!("handshake only"));
    result.expect("Could not init client");

    let first = client.connect().expect("session is bound");
    let (issued, result) = run(&mut client, first, &|| panic!("no handshake expected"), &|| {
        vec![connect_failure(None, "400::Error")]
    });
    let e = result.expect_err("Connect should not return Ok");
    assert_eq!(issued.len(), 1);
    assert_eq!(e.kind, ErrorKind::Protocol);
    assert_eq!(e.message, "400::Error");
}

#[test]
fn operations_require_a_session() {
    let mut client = client();
    let e = client.subscribe("/topic/a").expect_err("subscribe must need a session");
    assert_eq!(e.kind, ErrorKind::Session);
    assert_eq!(e.message, "No client id set for subscribe");
    let e = client.publish("/topic/a", "{}").expect_err("publish must need a session");
    assert_eq!(e.kind, ErrorKind::Session);
    assert_eq!(e.message, "No client id set for publish");
    let e = client.disconnect().expect_err("disconnect must need a session");
    assert_eq!(e.kind, ErrorKind::Session);
    assert_eq!(e.message, "No client id set for disconnect");
    let e = client.connect().expect_err("connect must need a session");
    assert_eq!(e.kind, ErrorKind::Session);
    assert_eq!(e.message, "No client id set for connect");
    let e = client.unsubscribe("/topic/a").expect_err("unsubscribe must need a session");
    assert_eq!(e.kind, ErrorKind::Session);
    assert_eq!(e.message, "No client id set for unsubscribe");
}

#[test]
fn disconnect_is_never_retried() {
    let mut client = client();
    let first = client.handshake();
    let (_, result) =
        run(&mut client, first, &|| vec![handshake_success()], &|| panic!("handshake only"));
    result.expect("Could not init client");

    let first = client.disconnect().expect("session is bound");
    assert!(matches!(first, Request::Disconnect(_)));
    let mut m = RawMessage::empty();
    m.channel = Some("/meta/disconnect".to_string());
    m.successful = Some(false);
    m.error = Some("500::Error".to_string());
    m.advice = Some(advice_with(Reconnect::Retry));
    let e = client.on_batch(vec![m], vec![]).expect_err("disconnect failure is terminal");
    assert_eq!(e.kind, ErrorKind::Protocol);
    assert_eq!(e.message, "500::Error");
}

#[test]
fn handshake_replaces_cookies_wholesale() {
    let mut client = client();
    let _ = client.handshake();
    let step = client.on_batch(vec![handshake_success()], vec!["a=1".to_string(), "b=2".to_string()]);
    assert!(matches!(step, Ok(Step::Complete(_))));
    assert_eq!(client.cookies(), &vec!["a=1".to_string(), "b=2".to_string()]);

    let _ = client.handshake();
    let step = client.on_batch(vec![handshake_success()], vec!["c=3".to_string()]);
    assert!(matches!(step, Ok(Step::Complete(_))));
    assert_eq!(client.cookies(), &vec!["c=3".to_string()]);
}

#[test]
fn empty_batch_completes_an_operation() {
    let mut client = client();
    let _ = client.handshake();
    let _ = client.on_batch(vec![handshake_success()], vec![]).expect("handshake accepted");
    let _ = client.connect().expect("session is bound");
    match client.on_batch(vec![], vec![]) {
        Ok(Step::Complete(resps)) => assert_eq!(resps.len(), 0),
        _ => panic!("an empty batch leaves nothing to answer"),
    }
}

#[test]
fn transport_error_is_terminal() {
    let mut client = client();
    let _ = client.handshake();
    let e = client.on_transport_error();
    assert_eq!(e.kind, ErrorKind::Transport);
    assert_eq!(e.message, "Could not send request to server");
    let e = client.on_batch(vec![], vec![]).expect_err("no operation is left in flight");
    assert_eq!(e.kind, ErrorKind::Session);
    assert_eq!(e.message, "No operation in flight");
}

#[test]
fn deliveries_are_always_accepted() {
    let mut client = client();
    let _ = client.handshake();
    let _ = client.on_batch(vec![handshake_success()], vec![]).expect("handshake accepted");
    let _ = client.subscribe("/topic/a").expect("session is bound");
    let mut ack = RawMessage::empty();
    ack.channel = Some("/meta/subscribe".to_string());
    ack.successful = Some(true);
    let mut delivery = RawMessage::empty();
    delivery.channel = Some("/topic/a".to_string());
    delivery.data = Some("{\"x\":1}".to_string());
    match client.on_batch(vec![ack, delivery], vec![]) {
        Ok(Step::Complete(resps)) => assert_eq!(resps.len(), 2),
        _ => panic!("both responses should be accepted"),
    }
}
