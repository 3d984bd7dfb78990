use vstd::prelude::*;

use crate::advice::Advice;
use crate::advice::advice_value;
use crate::error::Error;
use crate::error::ErrorKind;

verus! {

/// The catch-all acknowledgement shape for connect, disconnect,
/// subscribe and unsubscribe exchanges.
#[derive(Debug, PartialEq)]
pub struct BasicResponse {
    pub channel: String,
    pub successful: bool,
    pub error: Option<String>,
    pub advice: Option<Advice>,
    pub ext: Option<String>,
    pub client_id: Option<String>,
    pub id: Option<String>,
}

/// The reply to a handshake request; a successful one carries the
/// client identifier that binds the session.
#[derive(Debug, PartialEq)]
pub struct HandshakeResponse {
    pub channel: String,
    pub successful: bool,
    pub error: Option<String>,
    pub version: String,
    pub minimum_version: Option<String>,
    pub client_id: String,
    pub supported_connection_types: Vec<String>,
    pub advice: Option<Advice>,
    pub ext: Option<String>,
    pub id: Option<String>,
    pub auth_successful: Option<bool>,
}

/// A response that explicitly carries a failure reason. If advice is
/// attached, the engine may follow it and retry.
#[derive(Debug, PartialEq)]
pub struct ErroredResponse {
    pub channel: String,
    pub successful: bool,
    pub error: String,
    pub client_id: Option<String>,
    pub subscription: Option<String>,
    pub advice: Option<Advice>,
    pub ext: Option<String>,
    pub id: Option<String>,
}

/// The reply to a publish request. The payload is carried through as
/// opaque text and never examined by the engine.
#[derive(Debug, PartialEq)]
pub struct PublishResponse {
    pub channel: String,
    pub client_id: String,
    pub successful: bool,
    pub error: Option<String>,
    pub advice: Option<Advice>,
    pub ext: Option<String>,
    pub data: String,
    pub id: Option<String>,
}

/// A server-pushed message on a subscribed channel. It carries no
/// success flag and is always accepted.
#[derive(Debug, PartialEq)]
pub struct DeliveryResponse {
    pub channel: String,
    pub advice: Option<Advice>,
    pub data: String,
    pub ext: Option<String>,
    pub id: Option<String>,
}

/// A classified response from the server.
#[derive(Debug, PartialEq)]
pub enum Response {
    Handshake(HandshakeResponse),
    Publish(PublishResponse),
    Delivery(DeliveryResponse),
    Basic(BasicResponse),
    Errored(ErroredResponse),
}

/// One element of a decoded response batch before classification: the
/// fields of the wire object that the schema knows, each optional.
/// The serialization collaborator fills it from the wire text;
/// `classify` decides which response shape it is.
#[derive(Clone, Debug, PartialEq)]
pub struct RawMessage {
    pub channel: Option<String>,
    pub version: Option<String>,
    pub minimum_version: Option<String>,
    pub successful: Option<bool>,
    pub error: Option<String>,
    pub client_id: Option<String>,
    pub supported_connection_types: Option<Vec<String>>,
    pub subscription: Option<String>,
    pub data: Option<String>,
    pub advice: Option<Advice>,
    pub ext: Option<String>,
    pub id: Option<String>,
    pub auth_successful: Option<bool>,
}

impl RawMessage {
    /// A message with every field absent; tests and encoders start
    /// from it and fill in what a shape requires.
    pub fn empty() -> (m: RawMessage)
        ensures
            m == (RawMessage {
                channel: Option::None,
                version: Option::None,
                minimum_version: Option::None,
                successful: Option::None,
                error: Option::None,
                client_id: Option::None,
                supported_connection_types: Option::None,
                subscription: Option::None,
                data: Option::None,
                advice: Option::None,
                ext: Option::None,
                id: Option::None,
                auth_successful: Option::None,
            }),
    {
        RawMessage {
            channel: None,
            version: None,
            minimum_version: None,
            successful: None,
            error: None,
            client_id: None,
            supported_connection_types: None,
            subscription: None,
            data: None,
            advice: None,
            ext: None,
            id: None,
            auth_successful: None,
        }
    }
}

/// Required fields of the errored shape: a non-optional error string
/// on an explicitly unsuccessful message.
pub open spec fn errored_shape(m: RawMessage) -> bool {
    m.channel is Some && m.error is Some && m.successful == Option::Some(false)
}

/// Required fields of the handshake shape.
pub open spec fn handshake_shape(m: RawMessage) -> bool {
    m.channel is Some && m.successful is Some && m.version is Some && m.client_id is Some
        && m.supported_connection_types is Some
}

/// Required fields of the publish shape.
pub open spec fn publish_shape(m: RawMessage) -> bool {
    m.channel is Some && m.client_id is Some && m.successful is Some && m.data is Some
}

/// Required fields of the delivery shape: a payload but no success flag.
pub open spec fn delivery_shape(m: RawMessage) -> bool {
    m.channel is Some && m.data is Some && m.successful is None
}

/// Required fields of the fallback shape.
pub open spec fn basic_shape(m: RawMessage) -> bool {
    m.channel is Some && m.successful is Some
}

/// Classification, in the fixed priority order: errored first (it must
/// not be swallowed by the laxer shapes), then handshake, publish,
/// delivery, and the basic fallback. The first structurally compatible
/// shape wins; a message that fits none classifies to nothing.
pub open spec fn spec_classify(m: RawMessage) -> Option<Response> {
    if errored_shape(m) {
        Option::Some(Response::Errored(ErroredResponse {
            channel: m.channel->0,
            successful: false,
            error: m.error->0,
            client_id: m.client_id,
            subscription: m.subscription,
            advice: m.advice,
            ext: m.ext,
            id: m.id,
        }))
    } else if handshake_shape(m) {
        Option::Some(Response::Handshake(HandshakeResponse {
            channel: m.channel->0,
            successful: m.successful->0,
            error: m.error,
            version: m.version->0,
            minimum_version: m.minimum_version,
            client_id: m.client_id->0,
            supported_connection_types: m.supported_connection_types->0,
            advice: m.advice,
            ext: m.ext,
            id: m.id,
            auth_successful: m.auth_successful,
        }))
    } else if publish_shape(m) {
        Option::Some(Response::Publish(PublishResponse {
            channel: m.channel->0,
            client_id: m.client_id->0,
            successful: m.successful->0,
            error: m.error,
            advice: m.advice,
            ext: m.ext,
            data: m.data->0,
            id: m.id,
        }))
    } else if delivery_shape(m) {
        Option::Some(Response::Delivery(DeliveryResponse {
            channel: m.channel->0,
            advice: m.advice,
            data: m.data->0,
            ext: m.ext,
            id: m.id,
        }))
    } else if basic_shape(m) {
        Option::Some(Response::Basic(BasicResponse {
            channel: m.channel->0,
            successful: m.successful->0,
            error: m.error,
            advice: m.advice,
            ext: m.ext,
            client_id: m.client_id,
            id: m.id,
        }))
    } else {
        Option::None
    }
}

/// Classifies one decoded message into a typed response, exactly as
/// `spec_classify` states; a message that fits no shape is a parse
/// error.
pub fn classify(m: RawMessage) -> (res: Result<Response, Error>)
    ensures
        res matches Ok(r) ==> spec_classify(m) == Option::Some(r),
        res matches Err(e) ==> spec_classify(m) is None && e.kind == ErrorKind::Parse
            && e.message@ == "Could not parse response"@,
{
    let RawMessage {
        channel,
        version,
        minimum_version,
        successful,
        error,
        client_id,
        supported_connection_types,
        subscription,
        data,
        advice,
        ext,
        id,
        auth_successful,
    } = m;
    let successful_is_false = matches!(successful, Some(false));
    if channel.is_some() && error.is_some() && successful_is_false {
        Ok(Response::Errored(ErroredResponse {
            channel: channel.unwrap(),
            successful: false,
            error: error.unwrap(),
            client_id,
            subscription,
            advice,
            ext,
            id,
        }))
    } else if channel.is_some() && successful.is_some() && version.is_some() && client_id.is_some()
        && supported_connection_types.is_some() {
        Ok(Response::Handshake(HandshakeResponse {
            channel: channel.unwrap(),
            successful: successful.unwrap(),
            error,
            version: version.unwrap(),
            minimum_version,
            client_id: client_id.unwrap(),
            supported_connection_types: supported_connection_types.unwrap(),
            advice,
            ext,
            id,
            auth_successful,
        }))
    } else if channel.is_some() && client_id.is_some() && successful.is_some() && data.is_some() {
        Ok(Response::Publish(PublishResponse {
            channel: channel.unwrap(),
            client_id: client_id.unwrap(),
            successful: successful.unwrap(),
            error,
            advice,
            ext,
            data: data.unwrap(),
            id,
        }))
    } else if channel.is_some() && data.is_some() && successful.is_none() {
        Ok(Response::Delivery(DeliveryResponse {
            channel: channel.unwrap(),
            advice,
            data: data.unwrap(),
            ext,
            id,
        }))
    } else if channel.is_some() && successful.is_some() {
        Ok(Response::Basic(BasicResponse {
            channel: channel.unwrap(),
            successful: successful.unwrap(),
            error,
            advice,
            ext,
            client_id,
            id,
        }))
    } else {
        Err(Error::with_kind(ErrorKind::Parse, "Could not parse response"))
    }
}

/// Classifies a whole decoded batch. The batch is rejected as one
/// malformed unit if any element fits no shape: there is no partial
/// acceptance within one exchange.
pub fn classify_batch(batch: Vec<RawMessage>) -> (res: Result<Vec<Response>, Error>)
    ensures
        res matches Ok(v) ==> {
            &&& v@.len() == batch@.len()
            &&& forall|i: int| 0 <= i < batch@.len() ==> spec_classify(batch@[i]) == Option::Some(
                v@[i],
            )
        },
        res matches Err(e) ==> {
            &&& exists|i: int| 0 <= i < batch@.len() && spec_classify(batch@[i]) is None
            &&& e.kind == ErrorKind::Parse
            &&& e.message@ == "Could not parse response"@
        },
{
    let mut work = batch;
    let mut out: Vec<Response> = Vec::new();
    while work.len() > 0
        invariant
            out@.len() + work@.len() == batch@.len(),
            work@ == batch@.skip(out@.len() as int),
            forall|i: int| 0 <= i < out@.len() ==> spec_classify(batch@[i]) == Option::Some(
                out@[i],
            ),
        decreases work@.len(),
    {
        let ghost k = out@.len() as int;
        let m = work.remove(0);
        assert(m == batch@[k]);
        match classify(m) {
            Ok(r) => {
                out.push(r);
                proof {
                    assert(work@ =~= batch@.skip(out@.len() as int));
                }
            },
            Err(e) => {
                return Err(e);
            },
        }
    }
    assert(out@.len() == batch@.len());
    Ok(out)
}

/// Whether a response counts as successful within a batch: deliveries
/// always do, an errored response never does, and the rest go by
/// their success flag.
pub open spec fn resp_successful(r: Response) -> bool {
    match r {
        Response::Delivery(_) => true,
        Response::Handshake(h) => h.successful,
        Response::Publish(p) => p.successful,
        Response::Basic(b) => b.successful,
        Response::Errored(_) => false,
    }
}

/// The server-reported failure reason of a response, if it carries one.
pub open spec fn resp_error(r: Response) -> Option<String> {
    match r {
        Response::Errored(e) => Option::Some(e.error),
        Response::Handshake(h) => h.error,
        Response::Publish(p) => p.error,
        Response::Basic(b) => b.error,
        Response::Delivery(_) => Option::None,
    }
}

/// The advice a response carries, if any.
pub open spec fn resp_advice(r: Response) -> Option<Advice> {
    match r {
        Response::Handshake(h) => h.advice,
        Response::Publish(p) => p.advice,
        Response::Delivery(d) => d.advice,
        Response::Basic(b) => b.advice,
        Response::Errored(e) => e.advice,
    }
}

/// A response in canonical form: its success flag and its error field
/// do not contradict each other. Classification can only produce such
/// responses — an explicitly unsuccessful message with an error string
/// always classifies as errored — and only such responses survive a
/// round trip through the wire schema unchanged.
pub open spec fn wf_response(r: Response) -> bool {
    match r {
        Response::Errored(e) => e.successful == false,
        Response::Handshake(h) => !(h.error is Some && h.successful == false),
        Response::Publish(p) => !(p.error is Some && p.successful == false),
        Response::Basic(b) => !(b.error is Some && b.successful == false),
        Response::Delivery(_) => true,
    }
}

/// The wire-level encoding of a typed response: each field of the
/// shape goes back to its slot in the untyped message, and the fields
/// the shape does not know stay absent.
pub open spec fn spec_response_raw(r: Response) -> RawMessage {
    match r {
        Response::Errored(e) => RawMessage {
            channel: Option::Some(e.channel),
            version: Option::None,
            minimum_version: Option::None,
            successful: Option::Some(e.successful),
            error: Option::Some(e.error),
            client_id: e.client_id,
            supported_connection_types: Option::None,
            subscription: e.subscription,
            data: Option::None,
            advice: e.advice,
            ext: e.ext,
            id: e.id,
            auth_successful: Option::None,
        },
        Response::Handshake(h) => RawMessage {
            channel: Option::Some(h.channel),
            version: Option::Some(h.version),
            minimum_version: h.minimum_version,
            successful: Option::Some(h.successful),
            error: h.error,
            client_id: Option::Some(h.client_id),
            supported_connection_types: Option::Some(h.supported_connection_types),
            subscription: Option::None,
            data: Option::None,
            advice: h.advice,
            ext: h.ext,
            id: h.id,
            auth_successful: h.auth_successful,
        },
        Response::Publish(p) => RawMessage {
            channel: Option::Some(p.channel),
            version: Option::None,
            minimum_version: Option::None,
            successful: Option::Some(p.successful),
            error: p.error,
            client_id: Option::Some(p.client_id),
            supported_connection_types: Option::None,
            subscription: Option::None,
            data: Option::Some(p.data),
            advice: p.advice,
            ext: p.ext,
            id: p.id,
            auth_successful: Option::None,
        },
        Response::Delivery(d) => RawMessage {
            channel: Option::Some(d.channel),
            version: Option::None,
            minimum_version: Option::None,
            successful: Option::None,
            error: Option::None,
            client_id: Option::None,
            supported_connection_types: Option::None,
            subscription: Option::None,
            data: Option::Some(d.data),
            advice: d.advice,
            ext: d.ext,
            id: d.id,
            auth_successful: Option::None,
        },
        Response::Basic(b) => RawMessage {
            channel: Option::Some(b.channel),
            version: Option::None,
            minimum_version: Option::None,
            successful: Option::Some(b.successful),
            error: b.error,
            client_id: b.client_id,
            supported_connection_types: Option::None,
            subscription: Option::None,
            data: Option::None,
            advice: b.advice,
            ext: b.ext,
            id: b.id,
            auth_successful: Option::None,
        },
    }
}

/// Encodes a typed response back into the untyped wire form, exactly
/// as `spec_response_raw` states.
pub fn response_raw(r: Response) -> (m: RawMessage)
    ensures
        m == spec_response_raw(r),
{
    match r {
        Response::Errored(e) => RawMessage {
            channel: Some(e.channel),
            version: None,
            minimum_version: None,
            successful: Some(e.successful),
            error: Some(e.error),
            client_id: e.client_id,
            supported_connection_types: None,
            subscription: e.subscription,
            data: None,
            advice: e.advice,
            ext: e.ext,
            id: e.id,
            auth_successful: None,
        },
        Response::Handshake(h) => RawMessage {
            channel: Some(h.channel),
            version: Some(h.version),
            minimum_version: h.minimum_version,
            successful: Some(h.successful),
            error: h.error,
            client_id: Some(h.client_id),
            supported_connection_types: Some(h.supported_connection_types),
            subscription: None,
            data: None,
            advice: h.advice,
            ext: h.ext,
            id: h.id,
            auth_successful: h.auth_successful,
        },
        Response::Publish(p) => RawMessage {
            channel: Some(p.channel),
            version: None,
            minimum_version: None,
            successful: Some(p.successful),
            error: p.error,
            client_id: Some(p.client_id),
            supported_connection_types: None,
            subscription: None,
            data: Some(p.data),
            advice: p.advice,
            ext: p.ext,
            id: p.id,
            auth_successful: None,
        },
        Response::Delivery(d) => RawMessage {
            channel: Some(d.channel),
            version: None,
            minimum_version: None,
            successful: None,
            error: None,
            client_id: None,
            supported_connection_types: None,
            subscription: None,
            data: Some(d.data),
            advice: d.advice,
            ext: d.ext,
            id: d.id,
            auth_successful: None,
        },
        Response::Basic(b) => RawMessage {
            channel: Some(b.channel),
            version: None,
            minimum_version: None,
            successful: Some(b.successful),
            error: b.error,
            client_id: b.client_id,
            supported_connection_types: None,
            subscription: None,
            data: None,
            advice: b.advice,
            ext: b.ext,
            id: b.id,
            auth_successful: None,
        },
    }
}

/// Decoding is left inverse to encoding: a canonical response that is
/// encoded into the wire schema and classified again comes back
/// unchanged, for every response variant.
pub proof fn lemma_classify_roundtrip(r: Response)
    requires
        wf_response(r),
    ensures
        spec_classify(spec_response_raw(r)) == Option::Some(r),
{
}

impl Response {
    /// The advice the server attached to this response, if any.
    pub fn advice(&self) -> (a: Option<&Advice>)
        ensures
            advice_value(a) == resp_advice(*self),
    {
        match self {
            Response::Handshake(r) => r.advice.as_ref(),
            Response::Publish(r) => r.advice.as_ref(),
            Response::Delivery(r) => r.advice.as_ref(),
            Response::Basic(r) => r.advice.as_ref(),
            Response::Errored(r) => r.advice.as_ref(),
        }
    }

    /// Whether this response counts as successful within a batch.
    pub fn is_successful(&self) -> (b: bool)
        ensures
            b == resp_successful(*self),
    {
        match self {
            Response::Delivery(_) => true,
            Response::Handshake(h) => h.successful,
            Response::Publish(p) => p.successful,
            Response::Basic(b) => b.successful,
            Response::Errored(_) => false,
        }
    }

    /// Takes the server-reported failure reason out of this response.
    pub fn into_error_message(self) -> (msg: Option<String>)
        ensures
            msg == resp_error(self),
    {
        match self {
            Response::Errored(e) => Some(e.error),
            Response::Handshake(h) => h.error,
            Response::Publish(p) => p.error,
            Response::Basic(b) => b.error,
            Response::Delivery(_) => None,
        }
    }
}

} // verus!
