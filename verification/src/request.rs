use vstd::prelude::*;

verus! {

/// The opening negotiation request; the only request that does not
/// need a bound session.
#[derive(Debug, PartialEq)]
pub struct HandshakeRequest {
    pub channel: String,
    pub version: String,
    pub minimum_version: Option<String>,
    pub supported_connection_types: Vec<String>,
    pub ext: Option<String>,
    pub id: Option<String>,
}

/// A long-polling connect request for a bound session.
#[derive(Debug, PartialEq)]
pub struct ConnectRequest {
    pub channel: String,
    pub client_id: String,
    pub connection_type: String,
    pub ext: Option<String>,
    pub id: Option<String>,
}

/// A disconnect request for a bound session.
#[derive(Debug, PartialEq)]
pub struct DisconnectRequest {
    pub channel: String,
    pub client_id: String,
}

/// A subscribe or unsubscribe request; the meta channel tells the two
/// apart.
#[derive(Debug, PartialEq)]
pub struct SubscribeRequest {
    pub channel: String,
    pub client_id: String,
    pub subscription: String,
}

/// A publish request; the payload is opaque text passed through
/// unexamined.
#[derive(Debug, PartialEq)]
pub struct PublishRequest {
    pub channel: String,
    pub client_id: String,
    pub data: String,
}

/// A typed request for the transport to exchange.
#[derive(Debug, PartialEq)]
pub enum Request {
    Handshake(HandshakeRequest),
    Connect(ConnectRequest),
    Disconnect(DisconnectRequest),
    Subscribe(SubscribeRequest),
    Unsubscribe(SubscribeRequest),
    Publish(PublishRequest),
}

/// The canonical handshake request: protocol version `1.0`, with
/// long-polling as the only connection type offered.
pub open spec fn is_handshake_request(r: Request) -> bool {
    &&& r matches Request::Handshake(h)
    &&& h.channel@ == "/meta/handshake"@
    &&& h.version@ == "1.0"@
    &&& h.minimum_version is None
    &&& h.supported_connection_types@.len() == 1
    &&& h.supported_connection_types@[0]@ == "long-polling"@
    &&& h.ext is None
    &&& h.id is None
}

/// The canonical connect request for the given session.
pub open spec fn is_connect_request(r: Request, client_id: String) -> bool {
    &&& r matches Request::Connect(c)
    &&& c.channel@ == "/meta/connect"@
    &&& c.client_id == client_id
    &&& c.connection_type@ == "long-polling"@
    &&& c.ext is None
    &&& c.id is None
}

/// The canonical disconnect request for the given session.
pub open spec fn is_disconnect_request(r: Request, client_id: String) -> bool {
    &&& r matches Request::Disconnect(d)
    &&& d.channel@ == "/meta/disconnect"@
    &&& d.client_id == client_id
}

/// The canonical subscribe request for the given session and channel.
pub open spec fn is_subscribe_request(r: Request, client_id: String, subscription: String) -> bool {
    &&& r matches Request::Subscribe(s)
    &&& s.channel@ == "/meta/subscribe"@
    &&& s.client_id == client_id
    &&& s.subscription == subscription
}

/// The canonical unsubscribe request for the given session and channel.
pub open spec fn is_unsubscribe_request(
    r: Request,
    client_id: String,
    subscription: String,
) -> bool {
    &&& r matches Request::Unsubscribe(s)
    &&& s.channel@ == "/meta/unsubscribe"@
    &&& s.client_id == client_id
    &&& s.subscription == subscription
}

/// The canonical publish request for the given session, channel and
/// payload.
pub open spec fn is_publish_request(
    r: Request,
    client_id: String,
    channel: String,
    data: String,
) -> bool {
    &&& r matches Request::Publish(p)
    &&& p.channel == channel
    &&& p.client_id == client_id
    &&& p.data == data
}

impl Request {
    /// Builds the canonical handshake request.
    pub fn handshake() -> (r: Request)
        ensures
            is_handshake_request(r),
    {
        let mut types: Vec<String> = Vec::new();
        types.push("long-polling".to_owned());
        Request::Handshake(HandshakeRequest {
            channel: "/meta/handshake".to_owned(),
            version: "1.0".to_owned(),
            minimum_version: None,
            supported_connection_types: types,
            ext: None,
            id: None,
        })
    }

    /// Builds the canonical connect request.
    pub fn connect(client_id: String) -> (r: Request)
        ensures
            is_connect_request(r, client_id),
    {
        Request::Connect(ConnectRequest {
            channel: "/meta/connect".to_owned(),
            client_id,
            connection_type: "long-polling".to_owned(),
            ext: None,
            id: None,
        })
    }

    /// Builds the canonical disconnect request.
    pub fn disconnect(client_id: String) -> (r: Request)
        ensures
            is_disconnect_request(r, client_id),
    {
        Request::Disconnect(DisconnectRequest { channel: "/meta/disconnect".to_owned(), client_id })
    }

    /// Builds the canonical subscribe request.
    pub fn subscribe(client_id: String, subscription: String) -> (r: Request)
        ensures
            is_subscribe_request(r, client_id, subscription),
    {
        Request::Subscribe(SubscribeRequest {
            channel: "/meta/subscribe".to_owned(),
            client_id,
            subscription,
        })
    }

    /// Builds the canonical unsubscribe request.
    pub fn unsubscribe(client_id: String, subscription: String) -> (r: Request)
        ensures
            is_unsubscribe_request(r, client_id, subscription),
    {
        Request::Unsubscribe(SubscribeRequest {
            channel: "/meta/unsubscribe".to_owned(),
            client_id,
            subscription,
        })
    }

    /// Builds the canonical publish request.
    pub fn publish(client_id: String, channel: String, data: String) -> (r: Request)
        ensures
            is_publish_request(r, client_id, channel, data),
    {
        Request::Publish(PublishRequest { channel, client_id, data })
    }
}

} // verus!
