use cometd_client::Advice;
use cometd_client::Decision;
use cometd_client::ErrorKind;
use cometd_client::RawMessage;
use cometd_client::Reconnect;
use cometd_client::Request;
use cometd_client::Response;
use cometd_client::advice::decide;
use cometd_client::response::classify;
use cometd_client::response::classify_batch;
use cometd_client::response::response_raw;

fn plain_advice(reconnect: Reconnect) -> Advice {
    Advice { reconnect, timeout: None, interval: None, multiple_clients: None, hosts: None }
}

fn raw_handshake() -> RawMessage {
    let mut m = RawMessage::empty();
    m.channel = Some("/meta/handshake".to_string());
    m.version = Some("1.0".to_string());
    m.successful = Some(true);
    m.client_id = Some("1234".to_string());
    m.supported_connection_types = Some(vec!["long-polling".to_string()]);
    m
}

#[test]
fn classifies_handshake() {
    let r = classify(raw_handshake()).expect("handshake shape");
    match r {
        Response::Handshake(h) => {
            assert_eq!(h.channel, "/meta/handshake");
            assert_eq!(h.version, "1.0");
            assert!(h.successful);
            assert_eq!(h.client_id, "1234");
            assert_eq!(h.supported_connection_types, vec!["long-polling".to_string()]);
        },
        other => panic!("expected a handshake response, got {:?}", other),
    }
}

#[test]
fn errored_takes_priority_over_every_other_shape() {
    // Even a message with all the handshake fields classifies as
    // errored once it carries an error string and an explicit failure.
    let mut m = raw_handshake();
    m.successful = Some(false);
    m.error = Some("406::Unsupported version".to_string());
    let r = classify(m).expect("errored shape");
    match r {
        Response::Errored(e) => {
            assert_eq!(e.error, "406::Unsupported version");
            assert!(!e.successful);
        },
        other => panic!("expected an errored response, got {:?}", other),
    }
}

#[test]
fn classifies_publish_delivery_and_basic() {
    let mut m = RawMessage::empty();
    m.channel = Some("/topic/a".to_string());
    m.client_id = Some("1234".to_string());
    m.successful = Some(true);
    m.data = Some("{\"x\":1}".to_string());
    assert!(matches!(classify(m).unwrap(), Response::Publish(_)));

    let mut m = RawMessage::empty();
    m.channel = Some("/topic/a".to_string());
    m.data = Some("{\"x\":1}".to_string());
    assert!(matches!(classify(m).unwrap(), Response::Delivery(_)));

    let mut m = RawMessage::empty();
    m.channel = Some("/meta/connect".to_string());
    m.successful = Some(true);
    assert!(matches!(classify(m).unwrap(), Response::Basic(_)));
}

#[test]
fn unclassifiable_message_is_a_parse_error() {
    // A channel alone fits no shape: there is no success flag and no
    // payload.
    let mut m = RawMessage::empty();
    m.channel = Some("/meta/connect".to_string());
    let e = classify(m).expect_err("no shape fits");
    assert_eq!(e.kind, ErrorKind::Parse);
    assert_eq!(e.message, "Could not parse response");
}

#[test]
fn one_bad_element_rejects_the_whole_batch() {
    let good = raw_handshake();
    let bad = RawMessage::empty();
    let e = classify_batch(vec![good, bad]).expect_err("no partial acceptance");
    assert_eq!(e.kind, ErrorKind::Parse);
}

#[test]
fn roundtrip_handshake_response() {
    let r = classify(raw_handshake()).unwrap();
    let again = classify(response_raw(classify(raw_handshake()).unwrap())).unwrap();
    assert_eq!(r, again);
}

#[test]
fn roundtrip_errored_response() {
    let mut m = RawMessage::empty();
    m.channel = Some("/meta/connect".to_string());
    m.successful = Some(false);
    m.error = Some("400::Error".to_string());
    m.advice = Some(plain_advice(Reconnect::Retry));
    let r = classify(m.clone()).unwrap();
    assert!(matches!(r, Response::Errored(_)));
    let again = classify(response_raw(classify(m).unwrap())).unwrap();
    assert_eq!(r, again);
}

#[test]
fn roundtrip_publish_response() {
    let mut m = RawMessage::empty();
    m.channel = Some("/topic/a".to_string());
    m.client_id = Some("1234".to_string());
    m.successful = Some(true);
    m.data = Some("{\"x\":1}".to_string());
    let r = classify(m.clone()).unwrap();
    let again = classify(response_raw(classify(m).unwrap())).unwrap();
    assert_eq!(r, again);
}

#[test]
fn roundtrip_delivery_response() {
    let mut m = RawMessage::empty();
    m.channel = Some("/topic/a".to_string());
    m.data = Some("{\"x\":1}".to_string());
    m.id = Some("7".to_string());
    let r = classify(m.clone()).unwrap();
    let again = classify(response_raw(classify(m).unwrap())).unwrap();
    assert_eq!(r, again);
}

#[test]
fn roundtrip_basic_response() {
    let mut m = RawMessage::empty();
    m.channel = Some("/meta/subscribe".to_string());
    m.successful = Some(true);
    m.client_id = Some("1234".to_string());
    let r = classify(m.clone()).unwrap();
    let again = classify(response_raw(classify(m).unwrap())).unwrap();
    assert_eq!(r, again);
}

#[test]
fn handshake_request_has_canonical_fields() {
    match Request::handshake() {
        Request::Handshake(h) => {
            assert_eq!(h.channel, "/meta/handshake");
            assert_eq!(h.version, "1.0");
            assert_eq!(h.supported_connection_types, vec!["long-polling".to_string()]);
            assert!(h.minimum_version.is_none());
            assert!(h.ext.is_none());
            assert!(h.id.is_none());
        },
        other => panic!("expected a handshake request, got {:?}", other),
    }
}

#[test]
fn operation_requests_carry_the_session() {
    match Request::connect("1234".to_string()) {
        Request::Connect(c) => {
            assert_eq!(c.channel, "/meta/connect");
            assert_eq!(c.client_id, "1234");
            assert_eq!(c.connection_type, "long-polling");
        },
        other => panic!("expected a connect request, got {:?}", other),
    }
    match Request::subscribe("1234".to_string(), "/topic/a".to_string()) {
        Request::Subscribe(s) => {
            assert_eq!(s.channel, "/meta/subscribe");
            assert_eq!(s.subscription, "/topic/a");
        },
        other => panic!("expected a subscribe request, got {:?}", other),
    }
    match Request::unsubscribe("1234".to_string(), "/topic/a".to_string()) {
        Request::Unsubscribe(s) => {
            assert_eq!(s.channel, "/meta/unsubscribe");
            assert_eq!(s.subscription, "/topic/a");
        },
        other => panic!("expected an unsubscribe request, got {:?}", other),
    }
    match Request::disconnect("1234".to_string()) {
        Request::Disconnect(d) => {
            assert_eq!(d.channel, "/meta/disconnect");
            assert_eq!(d.client_id, "1234");
        },
        other => panic!("expected a disconnect request, got {:?}", other),
    }
    match Request::publish("1234".to_string(), "/topic/a".to_string(), "{}".to_string()) {
        Request::Publish(p) => {
            assert_eq!(p.channel, "/topic/a");
            assert_eq!(p.client_id, "1234");
            assert_eq!(p.data, "{}");
        },
        other => panic!("expected a publish request, got {:?}", other),
    }
}

#[test]
fn decide_follows_advice_within_budget() {
    let retry = plain_advice(Reconnect::Retry);
    let handshake = plain_advice(Reconnect::Handshake);
    let never = plain_advice(Reconnect::Never);
    assert_eq!(decide(Some(&retry), 1, 3), Decision::FollowRetry);
    assert_eq!(decide(Some(&retry), 3, 3), Decision::FollowRetry);
    assert_eq!(decide(Some(&retry), 4, 3), Decision::GiveUp);
    assert_eq!(decide(Some(&handshake), 2, 3), Decision::FollowHandshake);
    assert_eq!(decide(Some(&handshake), 4, 3), Decision::GiveUp);
    assert_eq!(decide(Some(&never), 1, 3), Decision::GiveUp);
    assert_eq!(decide(None, 1, 3), Decision::GiveUp);
    assert_eq!(decide(Some(&retry), 1, 0), Decision::GiveUp);
}
