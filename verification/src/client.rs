use vstd::prelude::*;

use crate::advice::Advice;
use crate::advice::Decision;
use crate::advice::Reconnect;
use crate::advice::decide;
use crate::advice::spec_decide;
use crate::error::Error;
use crate::error::ErrorKind;
use crate::request::Request;
use crate::request::is_connect_request;
use crate::request::is_disconnect_request;
use crate::request::is_handshake_request;
use crate::request::is_publish_request;
use crate::request::is_subscribe_request;
use crate::request::is_unsubscribe_request;
use crate::response::HandshakeResponse;
use crate::response::RawMessage;
use crate::response::Response;
use crate::response::classify_batch;
use crate::response::resp_advice;
use crate::response::resp_error;
use crate::response::resp_successful;
use crate::response::spec_classify;

verus! {

/// Where the engine stands between exchanges.
#[derive(Clone, Copy, Debug, PartialEq, Eq, Structural)]
pub enum Phase {
    /// No operation is in flight.
    Idle,
    /// A handshake request is out; its reply binds or rebinds the
    /// session.
    AwaitingHandshake,
    /// An operation request is out for a bound session.
    AwaitingOperation,
}

/// A logical operation the engine is driving. The operation is kept,
/// not the request that was sent, so a retry re-sends the same logical
/// operation freshly built from the current session.
#[derive(Debug, PartialEq)]
pub enum Op {
    Connect,
    Disconnect,
    Subscribe(String),
    Unsubscribe(String),
    Publish { channel: String, data: String },
}

/// What the caller must do next after feeding a batch in: exchange
/// another request, or take the completed operation's responses.
#[derive(Debug)]
pub enum Step {
    Exchange(Request),
    Complete(Vec<Response>),
}

/// The request the engine plans to send, stated abstractly: either the
/// canonical handshake, or the canonical request of an operation for a
/// session.
pub ghost enum PlannedRequest {
    Handshake,
    Operation { op: Op, client_id: String },
}

/// Whether a concrete request is the one planned.
pub open spec fn request_fits(r: Request, p: PlannedRequest) -> bool {
    match p {
        PlannedRequest::Handshake => is_handshake_request(r),
        PlannedRequest::Operation { op, client_id } => match op {
            Op::Connect => is_connect_request(r, client_id),
            Op::Disconnect => is_disconnect_request(r, client_id),
            Op::Subscribe(sub) => is_subscribe_request(r, client_id, sub),
            Op::Unsubscribe(sub) => is_unsubscribe_request(r, client_id, sub),
            Op::Publish { channel, data } => is_publish_request(r, client_id, channel, data),
        },
    }
}

/// The engine's full state, as the contracts speak of it.
#[verifier::ext_equal]
pub ghost struct Model {
    /// The server-assigned session identifier, set only by a
    /// successful handshake.
    pub client_id: Option<String>,
    /// The sticky cookies of the session, replaced wholesale on every
    /// successful handshake.
    pub cookies: Vec<String>,
    /// The retry budget: how many retries beyond the first attempt an
    /// operation may spend.
    pub max_retries: u32,
    /// Attempts already made for the operation in flight; reset when
    /// the operation terminates.
    pub retry_count: u64,
    pub phase: Phase,
    /// The operation being driven; in `AwaitingHandshake` it is the
    /// operation to resume once the handshake succeeds, if any.
    pub op: Option<Op>,
    /// Whether the resumed operation starts a fresh budget (the
    /// handshake-then-connect composition) rather than continuing the
    /// one in progress (a re-handshake advised by the server).
    pub fresh: bool,
    /// Responses accepted so far for the operation in flight.
    pub acc: Seq<Response>,
}

/// The state after an operation terminates: the session survives, the
/// per-operation bookkeeping is discarded.
pub open spec fn idle_model(s: Model) -> Model {
    Model {
        phase: Phase::Idle,
        retry_count: 0,
        op: Option::None,
        fresh: false,
        acc: Seq::empty(),
        ..s
    }
}

/// The engine's invariant. The retry count stays within two of the
/// budget: one attempt may be in flight past the budget before the
/// interpreter gives up, and a re-handshake pair adds one more.
pub open spec fn wf_model(s: Model) -> bool {
    &&& s.phase is Idle ==> s.retry_count == 0 && s.op is None && !s.fresh && s.acc.len() == 0
    &&& s.phase is AwaitingOperation ==> s.op is Some && s.client_id is Some
    &&& s.phase !is Idle ==> 1 <= s.retry_count <= s.max_retries as u64 + 2
    &&& (s.phase is AwaitingHandshake && s.op is Some && !s.fresh) ==> s.retry_count
        <= s.max_retries as u64 + 1
}

/// What one batch does to the engine: another exchange, a completed
/// operation, or a failure that ends the operation.
pub ghost enum Outcome {
    Failed { state: Model, kind: ErrorKind, message: Seq<char> },
    Sending { state: Model, request: PlannedRequest },
    Finished { state: Model, responses: Seq<Response> },
}

/// The server-reported message if one was supplied, else the
/// synthesized one.
pub open spec fn msg_or(msg: Option<String>, fallback: Seq<char>) -> Seq<char> {
    match msg {
        Option::Some(m) => m@,
        Option::None => fallback,
    }
}

/// The message synthesized when the server reported no reason.
pub open spec fn giveup_fallback(advice: Option<Advice>) -> Seq<char> {
    match advice {
        Option::None => "Server returned an unsuccessful response"@,
        Option::Some(a) => if a.reconnect is Never {
            "Service advised not to reconnect nor handshake"@
        } else {
            "Max retries reached"@
        },
    }
}

/// Giving up on retryable advice means the budget was spent; giving up
/// for any other reason is an ordinary protocol failure.
pub open spec fn giveup_kind(advice: Option<Advice>) -> ErrorKind {
    match advice {
        Option::Some(a) => if a.reconnect is Retry || a.reconnect is Handshake {
            ErrorKind::RetryExhausted
        } else {
            ErrorKind::Protocol
        },
        Option::None => ErrorKind::Protocol,
    }
}

/// The message of the session error raised when an operation must be
/// resumed but no session is bound.
pub open spec fn no_session_message(op: Op) -> Seq<char> {
    match op {
        Op::Connect => "No client id set for connect"@,
        Op::Disconnect => "No client id set for disconnect"@,
        Op::Subscribe(_) => "No client id set for subscribe"@,
        Op::Unsubscribe(_) => "No client id set for unsubscribe"@,
        Op::Publish { .. } => "No client id set for publish"@,
    }
}

/// What one successful response does to the state. A successful
/// handshake binds the session: the client identifier is committed and
/// the sticky cookies are replaced wholesale. Every accepted response
/// is accumulated, except the reply to a re-handshake the server
/// advised, which only rebinds the session.
pub open spec fn record_success(s: Model, r: Response, ck: Vec<String>) -> Model
    recommends
        resp_successful(r),
{
    match r {
        Response::Handshake(h) => {
            let bound = Model { client_id: Option::Some(h.client_id), cookies: ck, ..s };
            if s.phase is AwaitingHandshake && s.op is Some && !s.fresh {
                bound
            } else {
                Model { acc: bound.acc.push(r), ..bound }
            }
        },
        _ => Model { acc: s.acc.push(r), ..s },
    }
}

/// What one failed response does to the state. A failed disconnect is
/// never retried. Otherwise the advice interpreter is consulted:
/// retryable advice within the budget re-sends the handshake or the
/// operation, handshake advice on an operation interposes a handshake
/// without spending budget yet, and anything else surfaces the failure
/// with the per-operation bookkeeping discarded.
pub open spec fn fail_outcome(s: Model, r: Response) -> Outcome
    recommends
        !resp_successful(r),
        s.phase !is Idle,
{
    let advice = resp_advice(r);
    let msg = resp_error(r);
    if s.phase is AwaitingOperation && s.op == Option::Some(Op::Disconnect) {
        Outcome::Failed {
            state: idle_model(s),
            kind: ErrorKind::Protocol,
            message: msg_or(msg, "Server returned an unsuccessful response"@),
        }
    } else {
        match spec_decide(advice, s.retry_count, s.max_retries) {
            Decision::GiveUp => Outcome::Failed {
                state: idle_model(s),
                kind: giveup_kind(advice),
                message: msg_or(msg, giveup_fallback(advice)),
            },
            Decision::FollowRetry => if s.phase is AwaitingHandshake {
                Outcome::Sending {
                    state: (Model { retry_count: (s.retry_count + 1) as u64, ..s }),
                    request: PlannedRequest::Handshake,
                }
            } else {
                Outcome::Sending {
                    state: (Model { retry_count: (s.retry_count + 1) as u64, ..s }),
                    request: PlannedRequest::Operation { op: s.op->0, client_id: s.client_id->0 },
                }
            },
            Decision::FollowHandshake => if s.phase is AwaitingHandshake {
                Outcome::Sending {
                    state: (Model { retry_count: (s.retry_count + 1) as u64, ..s }),
                    request: PlannedRequest::Handshake,
                }
            } else {
                Outcome::Sending {
                    state: (Model { phase: Phase::AwaitingHandshake, fresh: false, ..s }),
                    request: PlannedRequest::Handshake,
                }
            },
        }
    }
}

/// What happens when a batch ran out with nothing left to answer: a
/// pending operation resumes after its interposed handshake — spending
/// one unit of budget for the handshake-and-retry pair, or starting a
/// fresh budget if the composition asked for one — and otherwise the
/// operation completes with what was accumulated.
pub open spec fn finish_outcome(s: Model) -> Outcome
    recommends
        s.phase !is Idle,
{
    if s.phase is AwaitingHandshake && s.op is Some {
        if s.client_id is Some {
            Outcome::Sending {
                state: (Model {
                    phase: Phase::AwaitingOperation,
                    retry_count: if s.fresh {
                        1u64
                    } else {
                        (s.retry_count + 1) as u64
                    },
                    fresh: false,
                    ..s
                }),
                request: PlannedRequest::Operation { op: s.op->0, client_id: s.client_id->0 },
            }
        } else {
            Outcome::Failed {
                state: idle_model(s),
                kind: ErrorKind::Session,
                message: no_session_message(s.op->0),
            }
        }
    } else {
        Outcome::Finished { state: idle_model(s), responses: s.acc }
    }
}

/// The engine's transition on a classified batch, element by element:
/// successes are recorded, and the first failure decides the whole
/// exchange — the rest of the batch is superseded by the retry it
/// triggers, or abandoned by the give-up.
pub open spec fn process(s: Model, resps: Seq<Response>, ck: Vec<String>) -> Outcome
    decreases resps.len(),
{
    if resps.len() == 0 {
        finish_outcome(s)
    } else if resp_successful(resps[0]) {
        process(record_success(s, resps[0], ck), resps.drop_first(), ck)
    } else {
        fail_outcome(s, resps[0])
    }
}

/// Whether every element of a decoded batch fits some response shape.
pub open spec fn batch_classifies(batch: Seq<RawMessage>) -> bool {
    forall|i: int| 0 <= i < batch.len() ==> spec_classify(batch[i]) is Some
}

/// The classified batch, element by element.
pub open spec fn classified(batch: Seq<RawMessage>) -> Seq<Response> {
    Seq::new(batch.len(), |i: int| spec_classify(batch[i])->0)
}

/// The session engine. It owns the session state and drives the
/// handshake/connect/retry sequencing; the caller performs the
/// exchanges it plans.
pub struct Client {
    client_id: Option<String>,
    cookies: Vec<String>,
    max_retries: u32,
    retry_count: u64,
    phase: Phase,
    op: Option<Op>,
    fresh: bool,
    acc: Vec<Response>,
}

impl Client {
    /// The engine's state as one value.
    pub closed spec fn model(self) -> Model {
        Model {
            client_id: self.client_id,
            cookies: self.cookies,
            max_retries: self.max_retries,
            retry_count: self.retry_count,
            phase: self.phase,
            op: self.op,
            fresh: self.fresh,
            acc: self.acc@,
        }
    }

    /// The engine's invariant; every operation preserves it.
    pub open spec fn wf(self) -> bool {
        wf_model(self.model())
    }

    /// A fresh engine: no session bound, no operation in flight, and a
    /// budget of one retry.
    pub fn new() -> (c: Client)
        ensures
            c.wf(),
            c.model().client_id is None,
            c.model().cookies@ == Seq::<String>::empty(),
            c.model().max_retries == 1,
            c.model().retry_count == 0,
            c.model().phase is Idle,
            c.model().op is None,
            !c.model().fresh,
            c.model().acc == Seq::<Response>::empty(),
    {
        Client {
            client_id: None,
            cookies: Vec::new(),
            max_retries: 1,
            retry_count: 0,
            phase: Phase::Idle,
            op: None,
            fresh: false,
            acc: Vec::new(),
        }
    }

    /// Sets how many retries an operation may spend beyond its first
    /// attempt.
    pub fn set_retries(self, retries: u32) -> (c: Client)
        ensures
            c.model() == (Model { max_retries: retries, ..self.model() }),
            self.model().phase is Idle && self.wf() ==> c.wf(),
    {
        Client { max_retries: retries, ..self }
    }

    /// The bound session identifier, if a handshake has succeeded.
    pub fn client_id(&self) -> (r: Option<&String>)
        ensures
            r matches Some(s) ==> self.model().client_id == Option::Some(*s),
            r is None ==> self.model().client_id is None,
    {
        self.client_id.as_ref()
    }

    /// The sticky cookies of the bound session.
    pub fn cookies(&self) -> (r: &Vec<String>)
        ensures
            *r == self.model().cookies,
    {
        &self.cookies
    }

    /// The configured retry budget.
    pub fn max_retries(&self) -> (r: u32)
        ensures
            r == self.model().max_retries,
    {
        self.max_retries
    }

    /// Discards the per-operation bookkeeping; the session survives.
    fn reset(&mut self)
        ensures
            final(self).model() == idle_model(old(self).model()),
    {
        self.phase = Phase::Idle;
        self.retry_count = 0;
        self.op = None;
        self.fresh = false;
        self.acc = Vec::new();
        proof {
            assert(self.model() =~= idle_model(old(self).model()));
        }
    }

    /// The canonical request of the pending operation, built from the
    /// bound session.
    fn operation_request(&self) -> (r: Request)
        requires
            self.model().op is Some,
            self.model().client_id is Some,
        ensures
            request_fits(
                r,
                PlannedRequest::Operation {
                    op: self.model().op->0,
                    client_id: self.model().client_id->0,
                },
            ),
    {
        let cid = self.client_id.as_ref().unwrap().clone();
        match self.op.as_ref().unwrap() {
            Op::Connect => Request::connect(cid),
            Op::Disconnect => Request::disconnect(cid),
            Op::Subscribe(sub) => Request::subscribe(cid, sub.clone()),
            Op::Unsubscribe(sub) => Request::unsubscribe(cid, sub.clone()),
            Op::Publish { channel, data } => Request::publish(cid, channel.clone(), data.clone()),
        }
    }

    /// Starts a handshake operation and plans its request. The
    /// handshake needs no session, so it cannot fail to start.
    pub fn handshake(&mut self) -> (r: Request)
        requires
            old(self).wf(),
        ensures
            final(self).wf(),
            is_handshake_request(r),
            final(self).model() == (Model {
                phase: Phase::AwaitingHandshake,
                retry_count: 1u64,
                op: Option::None,
                fresh: false,
                acc: Seq::<Response>::empty(),
                ..old(self).model()
            }),
    {
        self.phase = Phase::AwaitingHandshake;
        self.retry_count = 1;
        self.op = None;
        self.fresh = false;
        self.acc = Vec::new();
        proof {
            assert(self.model() =~= (Model {
                phase: Phase::AwaitingHandshake,
                retry_count: 1u64,
                op: Option::None,
                fresh: false,
                acc: Seq::<Response>::empty(),
                ..old(self).model()
            }));
        }
        Request::handshake()
    }

    /// Starts the composition of a handshake followed by a connect:
    /// once the handshake succeeds, the engine plans the connect with
    /// a budget of its own.
    pub fn init(&mut self) -> (r: Request)
        requires
            old(self).wf(),
        ensures
            final(self).wf(),
            is_handshake_request(r),
            final(self).model() == (Model {
                phase: Phase::AwaitingHandshake,
                retry_count: 1u64,
                op: Option::Some(Op::Connect),
                fresh: true,
                acc: Seq::<Response>::empty(),
                ..old(self).model()
            }),
    {
        self.phase = Phase::AwaitingHandshake;
        self.retry_count = 1;
        self.op = Some(Op::Connect);
        self.fresh = true;
        self.acc = Vec::new();
        proof {
            assert(self.model() =~= (Model {
                phase: Phase::AwaitingHandshake,
                retry_count: 1u64,
                op: Option::Some(Op::Connect),
                fresh: true,
                acc: Seq::<Response>::empty(),
                ..old(self).model()
            }));
        }
        Request::handshake()
    }

    /// Starts the given operation for the bound session, or fails with
    /// a session error — before any exchange — if no session is bound.
    fn start_operation(&mut self, op: Op) -> (res: Result<Request, Error>)
        requires
            old(self).wf(),
        ensures
            final(self).wf(),
            old(self).model().client_id is None ==> {
                &&& res matches Err(e) && e.kind == ErrorKind::Session && e.message@
                    == no_session_message(op)
                &&& *final(self) == *old(self)
            },
            old(self).model().client_id is Some ==> {
                &&& res matches Ok(r) && request_fits(
                    r,
                    PlannedRequest::Operation {
                        op: op,
                        client_id: old(self).model().client_id->0,
                    },
                )
                &&& final(self).model() == (Model {
                    phase: Phase::AwaitingOperation,
                    retry_count: 1u64,
                    op: Option::Some(op),
                    fresh: false,
                    acc: Seq::<Response>::empty(),
                    ..old(self).model()
                })
            },
    {
        if self.client_id.is_none() {
            let msg: &str = match &op {
                Op::Connect => "No client id set for connect",
                Op::Disconnect => "No client id set for disconnect",
                Op::Subscribe(_) => "No client id set for subscribe",
                Op::Unsubscribe(_) => "No client id set for unsubscribe",
                Op::Publish { .. } => "No client id set for publish",
            };
            return Err(Error::with_kind(ErrorKind::Session, msg));
        }
        self.phase = Phase::AwaitingOperation;
        self.retry_count = 1;
        self.op = Some(op);
        self.fresh = false;
        self.acc = Vec::new();
        proof {
            assert(self.model() =~= (Model {
                phase: Phase::AwaitingOperation,
                retry_count: 1u64,
                op: Option::Some(op),
                fresh: false,
                acc: Seq::<Response>::empty(),
                ..old(self).model()
            }));
        }
        let r = self.operation_request();
        Ok(r)
    }

    /// Starts a connect operation for the bound session.
    pub fn connect(&mut self) -> (res: Result<Request, Error>)
        requires
            old(self).wf(),
        ensures
            final(self).wf(),
            old(self).model().client_id is None ==> {
                &&& res matches Err(e) && e.kind == ErrorKind::Session && e.message@
                    == "No client id set for connect"@
                &&& *final(self) == *old(self)
            },
            old(self).model().client_id is Some ==> {
                &&& res matches Ok(r) && is_connect_request(r, old(self).model().client_id->0)
                &&& final(self).model() == (Model {
                    phase: Phase::AwaitingOperation,
                    retry_count: 1u64,
                    op: Option::Some(Op::Connect),
                    fresh: false,
                    acc: Seq::<Response>::empty(),
                    ..old(self).model()
                })
            },
    {
        self.start_operation(Op::Connect)
    }

    /// Starts a disconnect operation for the bound session. A failed
    /// disconnect is never retried, whatever advice it carries.
    pub fn disconnect(&mut self) -> (res: Result<Request, Error>)
        requires
            old(self).wf(),
        ensures
            final(self).wf(),
            old(self).model().client_id is None ==> {
                &&& res matches Err(e) && e.kind == ErrorKind::Session && e.message@
                    == "No client id set for disconnect"@
                &&& *final(self) == *old(self)
            },
            old(self).model().client_id is Some ==> {
                &&& res matches Ok(r) && is_disconnect_request(r, old(self).model().client_id->0)
                &&& final(self).model() == (Model {
                    phase: Phase::AwaitingOperation,
                    retry_count: 1u64,
                    op: Option::Some(Op::Disconnect),
                    fresh: false,
                    acc: Seq::<Response>::empty(),
                    ..old(self).model()
                })
            },
    {
        self.start_operation(Op::Disconnect)
    }

    /// Starts a subscribe operation for the bound session.
    pub fn subscribe(&mut self, subscription: &str) -> (res: Result<Request, Error>)
        requires
            old(self).wf(),
        ensures
            final(self).wf(),
            old(self).model().client_id is None ==> {
                &&& res matches Err(e) && e.kind == ErrorKind::Session && e.message@
                    == "No client id set for subscribe"@
                &&& *final(self) == *old(self)
            },
            old(self).model().client_id is Some ==> {
                &&& res matches Ok(r)
                &&& final(self).model().op matches Some(o) && o matches Op::Subscribe(s) && s@
                    == subscription@ && is_subscribe_request(
                    r,
                    old(self).model().client_id->0,
                    s,
                )
                &&& final(self).model() == (Model {
                    phase: Phase::AwaitingOperation,
                    retry_count: 1u64,
                    op: final(self).model().op,
                    fresh: false,
                    acc: Seq::<Response>::empty(),
                    ..old(self).model()
                })
            },
    {
        self.start_operation(Op::Subscribe(subscription.to_owned()))
    }

    /// Starts an unsubscribe operation for the bound session.
    pub fn unsubscribe(&mut self, subscription: &str) -> (res: Result<Request, Error>)
        requires
            old(self).wf(),
        ensures
            final(self).wf(),
            old(self).model().client_id is None ==> {
                &&& res matches Err(e) && e.kind == ErrorKind::Session && e.message@
                    == "No client id set for unsubscribe"@
                &&& *final(self) == *old(self)
            },
            old(self).model().client_id is Some ==> {
                &&& res matches Ok(r)
                &&& final(self).model().op matches Some(o) && o matches Op::Unsubscribe(s) && s@
                    == subscription@ && is_unsubscribe_request(
                    r,
                    old(self).model().client_id->0,
                    s,
                )
                &&& final(self).model() == (Model {
                    phase: Phase::AwaitingOperation,
                    retry_count: 1u64,
                    op: final(self).model().op,
                    fresh: false,
                    acc: Seq::<Response>::empty(),
                    ..old(self).model()
                })
            },
    {
        self.start_operation(Op::Unsubscribe(subscription.to_owned()))
    }

    /// Starts a publish operation for the bound session. The payload
    /// is opaque text carried through unexamined.
    pub fn publish(&mut self, channel: &str, data: &str) -> (res: Result<Request, Error>)
        requires
            old(self).wf(),
        ensures
            final(self).wf(),
            old(self).model().client_id is None ==> {
                &&& res matches Err(e) && e.kind == ErrorKind::Session && e.message@
                    == "No client id set for publish"@
                &&& *final(self) == *old(self)
            },
            old(self).model().client_id is Some ==> {
                &&& res matches Ok(r)
                &&& final(self).model().op matches Some(o) && o matches Op::Publish { channel: c, data: d }
                    && c@ == channel@ && d@ == data@ && is_publish_request(
                    r,
                    old(self).model().client_id->0,
                    c,
                    d,
                )
                &&& final(self).model() == (Model {
                    phase: Phase::AwaitingOperation,
                    retry_count: 1u64,
                    op: final(self).model().op,
                    fresh: false,
                    acc: Seq::<Response>::empty(),
                    ..old(self).model()
                })
            },
    {
        self.start_operation(Op::Publish { channel: channel.to_owned(), data: data.to_owned() })
    }

    /// Feeds the decoded response batch of the last exchange back in,
    /// together with the cookies the server set on it, and carries out
    /// the engine's transition: the batch must classify as one unit,
    /// successes are recorded — a successful handshake binds the
    /// session — and the first failure is resolved through the advice
    /// interpreter, exactly as `process` states.
    #[verifier::loop_isolation(false)]
    pub fn on_batch(&mut self, batch: Vec<RawMessage>, response_cookies: Vec<String>) -> (res:
        Result<Step, Error>)
        requires
            old(self).wf(),
        ensures
            final(self).wf(),
            old(self).model().phase is Idle ==> {
                &&& res matches Err(e) && e.kind == ErrorKind::Session && e.message@
                    == "No operation in flight"@
                &&& *final(self) == *old(self)
            },
            old(self).model().phase !is Idle && !batch_classifies(batch@) ==> {
                &&& res matches Err(e) && e.kind == ErrorKind::Parse && e.message@
                    == "Could not parse response"@
                &&& final(self).model() == idle_model(old(self).model())
            },
            old(self).model().phase !is Idle && batch_classifies(batch@) ==> match process(
                old(self).model(),
                classified(batch@),
                response_cookies,
            ) {
                Outcome::Failed { state, kind, message } => res matches Err(e) && e.kind == kind
                    && e.message@ == message && final(self).model() == state,
                Outcome::Sending { state, request } => res matches Ok(st) && st matches
                    Step::Exchange(r) && request_fits(r, request) && final(self).model() == state,
                Outcome::Finished { state, responses } => res matches Ok(st) && st matches
                    Step::Complete(v) && v@ == responses && final(self).model() == state,
            },
    {
        if matches!(self.phase, Phase::Idle) {
            return Err(Error::with_kind(ErrorKind::Session, "No operation in flight"));
        }
        let resps = match classify_batch(batch) {
            Ok(v) => v,
            Err(e) => {
                self.reset();
                return Err(e);
            },
        };
        proof {
            assert(classified(batch@) =~= resps@);
        }
        let ghost s0 = self.model();
        let ghost full = resps@;
        let ghost ck = response_cookies;
        let mut cookie_store: Option<Vec<String>> = Some(response_cookies);
        let mut work = resps;
        while work.len() > 0
            invariant
                self.wf(),
                self.model().phase !is Idle,
                process(s0, full, ck) == process(self.model(), work@, ck),
                cookie_store matches Some(c) ==> c == ck,
                cookie_store is None ==> self.model().cookies == ck,
            decreases work@.len(),
        {
            let ghost s_pre = self.model();
            let ghost w_pre = work@;
            let r = work.remove(0);
            let ghost r_snap = r;
            proof {
                assert(w_pre.remove(0) =~= w_pre.drop_first());
            }
            if r.is_successful() {
                let discard = matches!(r, Response::Handshake(_)) && matches!(
                    self.phase,
                    Phase::AwaitingHandshake,
                ) && self.op.is_some() && !self.fresh;
                if let Response::Handshake(h) = &r {
                    self.client_id = Some(h.client_id.clone());
                    match cookie_store.take() {
                        Some(c) => {
                            self.cookies = c;
                        },
                        None => {},
                    }
                }
                if !discard {
                    self.acc.push(r);
                }
                proof {
                    assert(self.model() =~= record_success(s_pre, r_snap, ck));
                }
            } else {
                proof {
                    assert(process(s0, full, ck) == fail_outcome(s_pre, r_snap));
                }
                let is_disconnect = matches!(self.phase, Phase::AwaitingOperation) && matches!(
                    self.op,
                    Some(Op::Disconnect),
                );
                if is_disconnect {
                    let msg = match r.into_error_message() {
                        Some(m) => m,
                        None => "Server returned an unsuccessful response".to_owned(),
                    };
                    self.reset();
                    return Err(Error { kind: ErrorKind::Protocol, message: msg });
                }
                let rec: Option<Reconnect> = match r.advice() {
                    Some(a) => Some(a.reconnect),
                    None => None,
                };
                let d = decide(r.advice(), self.retry_count, self.max_retries);
                match d {
                    Decision::GiveUp => {
                        let kind = match rec {
                            Some(Reconnect::Retry) => ErrorKind::RetryExhausted,
                            Some(Reconnect::Handshake) => ErrorKind::RetryExhausted,
                            _ => ErrorKind::Protocol,
                        };
                        let fallback: &str = match rec {
                            None => "Server returned an unsuccessful response",
                            Some(Reconnect::Never) => "Service advised not to reconnect nor handshake",
                            Some(_) => "Max retries reached",
                        };
                        let msg = match r.into_error_message() {
                            Some(m) => m,
                            None => fallback.to_owned(),
                        };
                        self.reset();
                        return Err(Error { kind, message: msg });
                    },
                    Decision::FollowRetry => {
                        self.retry_count = self.retry_count + 1;
                        if matches!(self.phase, Phase::AwaitingHandshake) {
                            return Ok(Step::Exchange(Request::handshake()));
                        } else {
                            let req = self.operation_request();
                            return Ok(Step::Exchange(req));
                        }
                    },
                    Decision::FollowHandshake => {
                        if matches!(self.phase, Phase::AwaitingHandshake) {
                            self.retry_count = self.retry_count + 1;
                        } else {
                            self.phase = Phase::AwaitingHandshake;
                            self.fresh = false;
                        }
                        return Ok(Step::Exchange(Request::handshake()));
                    },
                }
            }
        }
        proof {
            assert(process(s0, full, ck) == finish_outcome(self.model()));
        }
        if matches!(self.phase, Phase::AwaitingHandshake) && self.op.is_some() {
            if self.client_id.is_some() {
                if self.fresh {
                    self.retry_count = 1;
                } else {
                    self.retry_count = self.retry_count + 1;
                }
                self.fresh = false;
                self.phase = Phase::AwaitingOperation;
                let req = self.operation_request();
                Ok(Step::Exchange(req))
            } else {
                let msg: &str = match self.op.as_ref().unwrap() {
                    Op::Connect => "No client id set for connect",
                    Op::Disconnect => "No client id set for disconnect",
                    Op::Subscribe(_) => "No client id set for subscribe",
                    Op::Unsubscribe(_) => "No client id set for unsubscribe",
                    Op::Publish { .. } => "No client id set for publish",
                };
                let e = Error::with_kind(ErrorKind::Session, msg);
                self.reset();
                Err(e)
            }
        } else {
            let mut out: Vec<Response> = Vec::new();
            core::mem::swap(&mut out, &mut self.acc);
            self.reset();
            Ok(Step::Complete(out))
        }
    }

    /// Ends the operation in flight because its exchange could not be
    /// performed at all. Transport failures are terminal and never
    /// retried by the engine; the session survives.
    pub fn on_transport_error(&mut self) -> (e: Error)
        ensures
            final(self).wf(),
            final(self).model() == idle_model(old(self).model()),
            e.kind == ErrorKind::Transport,
            e.message@ == "Could not send request to server"@,
    {
        self.reset();
        Error::with_kind(ErrorKind::Transport, "Could not send request to server")
    }
}

/// Retry advice spends the budget one attempt at a time, and spends it
/// exactly: while the attempts already made stay within the budget, a
/// failed operation response advising `retry` plans the same logical
/// operation again and counts one more attempt, so an operation whose
/// every exchange fails this way is attempted `max_retries + 1` times
/// in total; the first failure beyond the budget is terminal, carrying
/// the server's error as the exhaustion error.
pub proof fn lemma_retry_advice_spends_budget(s: Model, r: Response, ck: Vec<String>)
    requires
        wf_model(s),
        s.phase is AwaitingOperation,
        !(s.op == Option::Some(Op::Disconnect)),
        !resp_successful(r),
        resp_advice(r) matches Some(a) && a.reconnect is Retry,
    ensures
        s.retry_count <= s.max_retries as u64 ==> process(s, seq![r], ck) == (Outcome::Sending {
            state: (Model { retry_count: (s.retry_count + 1) as u64, ..s }),
            request: PlannedRequest::Operation { op: s.op->0, client_id: s.client_id->0 },
        }),
        s.retry_count > s.max_retries as u64 ==> process(s, seq![r], ck) == (Outcome::Failed {
            state: idle_model(s),
            kind: ErrorKind::RetryExhausted,
            message: msg_or(resp_error(r), "Max retries reached"@),
        }),
{
    assert(seq![r][0] == r);
}

/// The outcome after feeding the same batch to the engine `k` times
/// in a row, following each exchange it plans in between; the first
/// outcome that plans no exchange stands for every later `k`.
pub open spec fn outcome_after(s: Model, r: Response, ck: Vec<String>, k: nat) -> Outcome
    decreases k,
{
    let first = process(s, seq![r], ck);
    if k <= 1 {
        first
    } else {
        match first {
            Outcome::Sending { state, .. } => outcome_after(state, r, ck, (k - 1) as nat),
            _ => first,
        }
    }
}

/// Retry advice spends the budget completely and exactly: an operation
/// whose every exchange fails with `retry` advice keeps being
/// re-planned while its attempts fit the budget — after `k` failed
/// exchanges the attempt count stands at `retry_count + k` — and the
/// exchange that would exceed `max_retries + 1` attempts is never
/// planned: it fails as exhausted with the server's error instead. In
/// particular, an operation started fresh (one attempt out) is
/// attempted exactly `max_retries + 1` times before the failure
/// surfaces.
pub proof fn lemma_retry_exhausts_budget(s: Model, r: Response, ck: Vec<String>, k: nat)
    requires
        wf_model(s),
        s.phase is AwaitingOperation,
        !(s.op == Option::Some(Op::Disconnect)),
        !resp_successful(r),
        resp_advice(r) matches Some(a) && a.reconnect is Retry,
        1 <= k,
    ensures
        s.retry_count + k <= s.max_retries as u64 + 1 ==> outcome_after(s, r, ck, k)
            == (Outcome::Sending {
            state: (Model { retry_count: (s.retry_count + k) as u64, ..s }),
            request: PlannedRequest::Operation { op: s.op->0, client_id: s.client_id->0 },
        }),
        s.retry_count + k > s.max_retries as u64 + 1 ==> outcome_after(s, r, ck, k)
            == (Outcome::Failed {
            state: idle_model(s),
            kind: ErrorKind::RetryExhausted,
            message: msg_or(resp_error(r), "Max retries reached"@),
        }),
    decreases k,
{
    lemma_retry_advice_spends_budget(s, r, ck);
    if k > 1 {
        if s.retry_count <= s.max_retries as u64 {
            let next = Model { retry_count: (s.retry_count + 1) as u64, ..s };
            assert(wf_model(next));
            lemma_retry_exhausts_budget(next, r, ck, (k - 1) as nat);
            if s.retry_count + k <= s.max_retries as u64 + 1 {
                assert((Model { retry_count: (next.retry_count + (k - 1)) as u64, ..next }) =~= (
                Model { retry_count: (s.retry_count + k) as u64, ..s }));
            } else {
                assert(idle_model(next) =~= idle_model(s));
            }
        }
    }
}

/// Handshake advice re-handshakes before retrying, and the pair spends
/// one unit of budget: the failed operation plans a handshake without
/// counting an attempt, and once that handshake succeeds — rebinding
/// the session to the identifier it carries — the same logical
/// operation is planned again, counting the pair as one more attempt.
pub proof fn lemma_handshake_advice_pair(
    s: Model,
    r: Response,
    h: HandshakeResponse,
    ck: Vec<String>,
    ck2: Vec<String>,
)
    requires
        wf_model(s),
        s.phase is AwaitingOperation,
        !(s.op == Option::Some(Op::Disconnect)),
        !resp_successful(r),
        resp_advice(r) matches Some(a) && a.reconnect is Handshake,
        s.retry_count <= s.max_retries as u64,
        h.successful,
    ensures
        process(s, seq![r], ck) == (Outcome::Sending {
            state: (Model { phase: Phase::AwaitingHandshake, fresh: false, ..s }),
            request: PlannedRequest::Handshake,
        }),
        process(
            (Model { phase: Phase::AwaitingHandshake, fresh: false, ..s }),
            seq![Response::Handshake(h)],
            ck2,
        ) == (Outcome::Sending {
            state: (Model {
                phase: Phase::AwaitingOperation,
                retry_count: (s.retry_count + 1) as u64,
                fresh: false,
                client_id: Option::Some(h.client_id),
                cookies: ck2,
                ..s
            }),
            request: PlannedRequest::Operation { op: s.op->0, client_id: h.client_id },
        }),
{
    assert(seq![r][0] == r);
    let s1 = Model { phase: Phase::AwaitingHandshake, fresh: false, ..s };
    let hr = Response::Handshake(h);
    assert(seq![hr][0] == hr);
    let s2 = record_success(s1, hr, ck2);
    assert(process(s1, seq![hr], ck2) == process(s2, seq![hr].drop_first(), ck2));
    assert(seq![hr].drop_first() =~= Seq::<Response>::empty());
    assert(process(s2, seq![hr].drop_first(), ck2) == finish_outcome(s2));
    assert(finish_outcome(s2) matches Outcome::Sending { state, request } && state =~= (Model {
        phase: Phase::AwaitingOperation,
        retry_count: (s.retry_count + 1) as u64,
        fresh: false,
        client_id: Option::Some(h.client_id),
        cookies: ck2,
        ..s
    }));
}

/// Advice never to reconnect is terminal: a failed response carrying
/// it ends the operation at once, whatever budget is left and whatever
/// else the batch still held, surfacing the server's error message
/// when one was reported.
pub proof fn lemma_never_advice_fails(s: Model, r: Response, rest: Seq<Response>, ck: Vec<String>)
    requires
        wf_model(s),
        s.phase !is Idle,
        !resp_successful(r),
        resp_advice(r) matches Some(a) && a.reconnect is Never,
    ensures
        process(s, seq![r] + rest, ck) matches Outcome::Failed { state, kind, message }
            && state == idle_model(s) && kind == ErrorKind::Protocol && (resp_error(r) matches Some(
            m,
        ) ==> message == m@),
{
    assert((seq![r] + rest)[0] == r);
}

/// A failed response carrying no advice at all is just as terminal:
/// the operation ends at once with the server's error message, or with
/// the synthesized one if the server reported no reason.
pub proof fn lemma_missing_advice_fails(s: Model, r: Response, rest: Seq<Response>, ck: Vec<String>)
    requires
        wf_model(s),
        s.phase !is Idle,
        !resp_successful(r),
        resp_advice(r) is None,
    ensures
        process(s, seq![r] + rest, ck) matches Outcome::Failed { state, kind, message }
            && state == idle_model(s) && kind == ErrorKind::Protocol && (resp_error(r) matches Some(
            m,
        ) ==> message == m@) && (resp_error(r) is None ==> message
            == "Server returned an unsuccessful response"@),
{
    assert((seq![r] + rest)[0] == r);
}

/// A successful handshake binds the session: the reply to a plain
/// handshake operation commits the server-assigned identifier and
/// replaces the sticky cookies wholesale with those of the exchange,
/// and the operation completes with the handshake response delivered.
pub proof fn lemma_handshake_binds(s: Model, h: HandshakeResponse, ck: Vec<String>)
    requires
        wf_model(s),
        s.phase is AwaitingHandshake,
        s.op is None,
        h.successful,
    ensures
        process(s, seq![Response::Handshake(h)], ck) matches Outcome::Finished {
            state,
            responses,
        } && state == (Model { client_id: Option::Some(h.client_id), cookies: ck, ..idle_model(s) })
            && responses == s.acc.push(Response::Handshake(h)),
{
    let hr = Response::Handshake(h);
    assert(seq![hr][0] == hr);
    let s2 = record_success(s, hr, ck);
    assert(process(s, seq![hr], ck) == process(s2, seq![hr].drop_first(), ck));
    assert(seq![hr].drop_first() =~= Seq::<Response>::empty());
    assert(process(s2, seq![hr].drop_first(), ck) == finish_outcome(s2));
    assert(finish_outcome(s2) matches Outcome::Finished { state, responses } && state =~= (Model {
        client_id: Option::Some(h.client_id),
        cookies: ck,
        ..idle_model(s)
    }));
}

} // verus!
