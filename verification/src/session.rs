//! The streaming session: the finite-state machine that owns one in-flight
//! request's lifecycle on the bus. The machine decides; its driver performs
//! the bus work (subscribe, publish, drain) and feeds back what happened.
//! Subscriptions are established strictly before the request publish is
//! instructed, the buffered request body is handed off at most once, and
//! every terminal state leaves no live subscriptions.
use vstd::prelude::*;

use crate::envelope::ResponseEnvelope;
use crate::errors::GatewayError;
use crate::codec::{decode_response, spec_decode_response};

verus! {

/// The signal headers carried by one directive message.
#[derive(Clone, Copy, Debug, PartialEq, Eq, Structural)]
pub struct DirectiveSignals {
    /// The backend asks for the buffered request body out-of-band.
    pub need_request_body: bool,
    /// The backend announces it now streams the response body.
    pub sending_response_body: bool,
}

/// What the session's driver observed on the bus, fed to the machine one at
/// a time.
#[derive(Clone, Copy, Debug, PartialEq, Eq, Structural)]
pub enum SessionEvent {
    /// The directive and response-body subscriptions are established.
    SubscribeOk,
    /// Establishing the subscriptions failed.
    SubscribeFailed,
    /// The request envelope publish was acknowledged as sent.
    PublishOk,
    /// The request envelope publish failed.
    PublishFailed,
    /// A message arrived on the directives address.
    Directive(DirectiveSignals),
    /// The buffered request body was published to the request-body address.
    BodyPublishOk,
    /// Publishing the buffered request body failed.
    BodyPublishFailed,
    /// The directives channel closed before a terminal directive arrived.
    ChannelClosed,
    /// The session deadline elapsed without a terminal directive.
    TimedOut,
}

/// What the driver must do next.
#[derive(Clone, Copy, Debug, PartialEq, Eq, Structural)]
pub enum SessionAction {
    /// Nothing: keep waiting for the next event.
    Continue,
    /// Publish the request envelope; the subscriptions are already live.
    PublishRequest,
    /// Publish the buffered request body to the request-body address.
    PublishRequestBody,
    /// Drain the response-body address and hand the bytes to
    /// `finish_response`.
    ReadResponse,
    /// The session ended: drop the subscriptions and report the outcome.
    Abort,
}

/// Where one session stands.
#[derive(Clone, Copy, Debug, PartialEq, Eq, Structural)]
pub enum SessionState {
    /// Created; the subscriptions are not yet established.
    Init,
    /// Subscriptions live; the request envelope is being published.
    Subscribed,
    /// The request is out; the directive receive loop runs.
    AwaitingDirective,
    /// The buffered request body is being handed off.
    StreamingRequestBody,
    /// A terminal directive arrived; the response body is being drained.
    ReceivingResponseBody,
    /// The response envelope was assembled; the session is over.
    Completed,
    /// The session failed with the carried error; no partial response is
    /// emitted.
    Failed(GatewayError),
}

/// One request's session: owned by exactly one connection task, discarded
/// after producing a response or an error.
pub struct Session {
    pub state: SessionState,
    /// True once the request body hand-off has been actioned; duplicate
    /// `need-request-body` directives after that are ignored.
    pub body_sent: bool,
    /// True while the directive/response-body subscriptions are live.
    pub subscribed: bool,
}

/// True while the session still waits on the bus.
pub open spec fn waiting(s: SessionState) -> bool {
    s == SessionState::Subscribed || s == SessionState::AwaitingDirective || s
        == SessionState::StreamingRequestBody || s == SessionState::ReceivingResponseBody
}

/// True once the session is over.
pub open spec fn terminal(s: SessionState) -> bool {
    s == SessionState::Completed || s matches SessionState::Failed(_)
}

/// The state machine's invariant: subscriptions are live exactly while the
/// session waits on the bus, and a terminal session has none.
pub open spec fn session_inv(s: Session) -> bool {
    &&& s.state == SessionState::Init ==> !s.subscribed && !s.body_sent
    &&& waiting(s.state) ==> s.subscribed
    &&& terminal(s.state) ==> !s.subscribed
}

/// A session that failed, with no live subscriptions.
pub open spec fn failed(s: Session, e: GatewayError) -> Session {
    Session { state: SessionState::Failed(e), body_sent: s.body_sent, subscribed: false }
}

/// The transition function: what one observed event does to a session, and
/// what the driver must do next. The machine is total; events that cannot
/// follow in a correct driver loop fail the session rather than being
/// trusted.
pub open spec fn spec_step(s: Session, e: SessionEvent) -> (Session, SessionAction) {
    if terminal(s.state) {
        (s, SessionAction::Continue)
    } else {
        match e {
            SessionEvent::TimedOut => (failed(s, GatewayError::GatewayTimeout), SessionAction::Abort),
            SessionEvent::ChannelClosed => (
                failed(s, GatewayError::InternalError),
                SessionAction::Abort,
            ),
            SessionEvent::SubscribeOk => if s.state == SessionState::Init {
                (
                    Session { state: SessionState::Subscribed, body_sent: s.body_sent, subscribed: true },
                    SessionAction::PublishRequest,
                )
            } else {
                (failed(s, GatewayError::InternalError), SessionAction::Abort)
            },
            SessionEvent::SubscribeFailed => (
                failed(s, GatewayError::InternalError),
                SessionAction::Abort,
            ),
            SessionEvent::PublishOk => if s.state == SessionState::Subscribed {
                (
                    Session {
                        state: SessionState::AwaitingDirective,
                        body_sent: s.body_sent,
                        subscribed: s.subscribed,
                    },
                    SessionAction::Continue,
                )
            } else {
                (failed(s, GatewayError::InternalError), SessionAction::Abort)
            },
            SessionEvent::PublishFailed => (
                failed(s, GatewayError::InternalError),
                SessionAction::Abort,
            ),
            SessionEvent::Directive(d) => if s.state == SessionState::AwaitingDirective {
                if d.sending_response_body {
                    (
                        Session {
                            state: SessionState::ReceivingResponseBody,
                            body_sent: s.body_sent,
                            subscribed: s.subscribed,
                        },
                        SessionAction::ReadResponse,
                    )
                } else if d.need_request_body && !s.body_sent {
                    (
                        Session {
                            state: SessionState::StreamingRequestBody,
                            body_sent: true,
                            subscribed: s.subscribed,
                        },
                        SessionAction::PublishRequestBody,
                    )
                } else {
                    (s, SessionAction::Continue)
                }
            } else if s.state == SessionState::ReceivingResponseBody && d.need_request_body {
                // A request-body demand after the response body started
                // streaming is a protocol violation.
                (failed(s, GatewayError::InternalError), SessionAction::Abort)
            } else {
                (s, SessionAction::Continue)
            },
            SessionEvent::BodyPublishOk => if s.state == SessionState::StreamingRequestBody {
                (
                    Session {
                        state: SessionState::AwaitingDirective,
                        body_sent: s.body_sent,
                        subscribed: s.subscribed,
                    },
                    SessionAction::Continue,
                )
            } else {
                (failed(s, GatewayError::InternalError), SessionAction::Abort)
            },
            SessionEvent::BodyPublishFailed => (
                failed(s, GatewayError::InternalError),
                SessionAction::Abort,
            ),
        }
    }
}

/// The machine run over a sequence of observed events.
pub open spec fn run(s: Session, evs: Seq<SessionEvent>) -> Session
    decreases evs.len(),
{
    if evs.len() == 0 {
        s
    } else {
        run(spec_step(s, evs[0]).0, evs.drop_first())
    }
}

/// How many times a run instructs the driver to hand off the buffered
/// request body.
pub open spec fn body_publish_count(s: Session, evs: Seq<SessionEvent>) -> nat
    decreases evs.len(),
{
    if evs.len() == 0 {
        0
    } else {
        (if spec_step(s, evs[0]).1 == SessionAction::PublishRequestBody {
            1nat
        } else {
            0nat
        }) + body_publish_count(spec_step(s, evs[0]).0, evs.drop_first())
    }
}

/// Every step preserves the session invariant: subscriptions are live
/// exactly while the session waits on the bus, and never past its end.
pub proof fn lemma_step_preserves_inv(s: Session, e: SessionEvent)
    requires
        session_inv(s),
    ensures
        session_inv(spec_step(s, e).0),
{
}

/// A whole run preserves the session invariant.
pub proof fn lemma_run_preserves_inv(s: Session, evs: Seq<SessionEvent>)
    requires
        session_inv(s),
    ensures
        session_inv(run(s, evs)),
    decreases evs.len(),
{
    if evs.len() > 0 {
        lemma_step_preserves_inv(s, evs[0]);
        lemma_run_preserves_inv(spec_step(s, evs[0]).0, evs.drop_first());
    }
}

/// A duplicate `need-request-body` directive is a no-op: once the body
/// hand-off has been actioned, the directive changes nothing and instructs
/// nothing.
pub proof fn lemma_need_request_body_idempotent(s: Session, d: DirectiveSignals)
    requires
        s.state == SessionState::AwaitingDirective,
        s.body_sent,
        !d.sending_response_body,
    ensures
        spec_step(s, SessionEvent::Directive(d)) == (s, SessionAction::Continue),
{
}

/// Over any run whatsoever, the machine instructs the request-body hand-off
/// at most once; never, if the body was already sent.
pub proof fn lemma_body_published_at_most_once(s: Session, evs: Seq<SessionEvent>)
    ensures
        body_publish_count(s, evs) <= (if s.body_sent {
            0int
        } else {
            1int
        }),
    decreases evs.len(),
{
    if evs.len() > 0 {
        let (s2, a) = spec_step(s, evs[0]);
        lemma_body_published_at_most_once(s2, evs.drop_first());
    }
}

/// The request publish is only ever instructed on the step that confirms
/// the subscriptions, so the directive and response-body subscriptions are
/// live before the request envelope goes out: a directive arriving right
/// after the publish is acknowledged cannot be lost.
pub proof fn lemma_publish_instructed_only_subscribed(s: Session, e: SessionEvent)
    ensures
        spec_step(s, e).1 == SessionAction::PublishRequest ==> e == SessionEvent::SubscribeOk
            && spec_step(s, e).0.subscribed && spec_step(s, e).0.state == SessionState::Subscribed,
{
}

/// A session that is over stays as it is: no event moves it.
pub proof fn lemma_run_terminal_fixed(s: Session, evs: Seq<SessionEvent>)
    requires
        terminal(s.state),
    ensures
        run(s, evs) == s,
    decreases evs.len(),
{
    if evs.len() > 0 {
        lemma_run_terminal_fixed(spec_step(s, evs[0]).0, evs.drop_first());
    }
}

/// No session waits on the bus — and so none has published — unless the
/// driver observed the subscriptions established: every run from a fresh
/// session that stands in a waiting state contains a `SubscribeOk` event.
pub proof fn lemma_waiting_needs_subscribe_event(s: Session, evs: Seq<SessionEvent>)
    requires
        s.state == SessionState::Init,
        waiting(run(s, evs).state),
    ensures
        exists|i: int| 0 <= i < evs.len() && evs[i] == SessionEvent::SubscribeOk,
    decreases evs.len(),
{
    let (s2, _) = spec_step(s, evs[0]);
    if evs[0] == SessionEvent::SubscribeOk {
        assert(0 <= 0 < evs.len() && evs[0] == SessionEvent::SubscribeOk);
    } else if terminal(s2.state) {
        lemma_run_terminal_fixed(s2, evs.drop_first());
        assert(false);
    } else {
        lemma_waiting_needs_subscribe_event(s2, evs.drop_first());
        let i = choose|i: int|
            0 <= i < evs.drop_first().len() && evs.drop_first()[i] == SessionEvent::SubscribeOk;
        assert(evs[i + 1] == SessionEvent::SubscribeOk);
    }
}

/// A deadline that elapses before a terminal directive fails the session
/// with `GatewayTimeout`, instructs the teardown, and leaves no live
/// subscriptions.
pub proof fn lemma_timeout_fails_closed(s: Session)
    requires
        !terminal(s.state),
    ensures
        spec_step(s, SessionEvent::TimedOut).0.state == SessionState::Failed(
            GatewayError::GatewayTimeout,
        ),
        !spec_step(s, SessionEvent::TimedOut).0.subscribed,
        spec_step(s, SessionEvent::TimedOut).1 == SessionAction::Abort,
{
}

impl Session {
    /// A fresh session for one request: nothing subscribed, nothing sent.
    pub fn new() -> (r: Session)
        ensures
            r.state == SessionState::Init,
            !r.body_sent,
            !r.subscribed,
            session_inv(r),
    {
        Session { state: SessionState::Init, body_sent: false, subscribed: false }
    }

    /// Feed one observed event to the machine; returns what the driver must
    /// do next. The behaviour is exactly `spec_step`.
    pub fn step(&mut self, e: SessionEvent) -> (a: SessionAction)
        ensures
            (*final(self), a) == spec_step(*old(self), e),
            session_inv(*old(self)) ==> session_inv(*final(self)),
    {
        let (next, a): (Session, SessionAction) = if self.is_terminal() {
            (
                Session { state: self.state, body_sent: self.body_sent, subscribed: self.subscribed },
                SessionAction::Continue,
            )
        } else {
            match e {
                SessionEvent::TimedOut => (self.to_failed(GatewayError::GatewayTimeout), SessionAction::Abort),
                SessionEvent::ChannelClosed => (
                    self.to_failed(GatewayError::InternalError),
                    SessionAction::Abort,
                ),
                SessionEvent::SubscribeOk => if matches!(self.state, SessionState::Init) {
                    (
                        Session {
                            state: SessionState::Subscribed,
                            body_sent: self.body_sent,
                            subscribed: true,
                        },
                        SessionAction::PublishRequest,
                    )
                } else {
                    (self.to_failed(GatewayError::InternalError), SessionAction::Abort)
                },
                SessionEvent::SubscribeFailed => (
                    self.to_failed(GatewayError::InternalError),
                    SessionAction::Abort,
                ),
                SessionEvent::PublishOk => if matches!(self.state, SessionState::Subscribed) {
                    (
                        Session {
                            state: SessionState::AwaitingDirective,
                            body_sent: self.body_sent,
                            subscribed: self.subscribed,
                        },
                        SessionAction::Continue,
                    )
                } else {
                    (self.to_failed(GatewayError::InternalError), SessionAction::Abort)
                },
                SessionEvent::PublishFailed => (
                    self.to_failed(GatewayError::InternalError),
                    SessionAction::Abort,
                ),
                SessionEvent::Directive(d) => if matches!(self.state, SessionState::AwaitingDirective) {
                    if d.sending_response_body {
                        (
                            Session {
                                state: SessionState::ReceivingResponseBody,
                                body_sent: self.body_sent,
                                subscribed: self.subscribed,
                            },
                            SessionAction::ReadResponse,
                        )
                    } else if d.need_request_body && !self.body_sent {
                        (
                            Session {
                                state: SessionState::StreamingRequestBody,
                                body_sent: true,
                                subscribed: self.subscribed,
                            },
                            SessionAction::PublishRequestBody,
                        )
                    } else {
                        (
                            Session {
                                state: self.state,
                                body_sent: self.body_sent,
                                subscribed: self.subscribed,
                            },
                            SessionAction::Continue,
                        )
                    }
                } else if matches!(self.state, SessionState::ReceivingResponseBody)
                    && d.need_request_body {
                    (self.to_failed(GatewayError::InternalError), SessionAction::Abort)
                } else {
                    (
                        Session {
                            state: self.state,
                            body_sent: self.body_sent,
                            subscribed: self.subscribed,
                        },
                        SessionAction::Continue,
                    )
                },
                SessionEvent::BodyPublishOk => if matches!(self.state, SessionState::StreamingRequestBody) {
                    (
                        Session {
                            state: SessionState::AwaitingDirective,
                            body_sent: self.body_sent,
                            subscribed: self.subscribed,
                        },
                        SessionAction::Continue,
                    )
                } else {
                    (self.to_failed(GatewayError::InternalError), SessionAction::Abort)
                },
                SessionEvent::BodyPublishFailed => (
                    self.to_failed(GatewayError::InternalError),
                    SessionAction::Abort,
                ),
            }
        };
        self.state = next.state;
        self.body_sent = next.body_sent;
        self.subscribed = next.subscribed;
        a
    }

    /// Assemble the session's outcome from the drained response-body bytes:
    /// a decoded response envelope completes the session; undecodable bytes
    /// fail it with `InternalError`. Either way the session is over and its
    /// subscriptions are dropped.
    pub fn finish_response(&mut self, bytes: &Vec<u8>) -> (r: Result<ResponseEnvelope, GatewayError>)
        requires
            old(self).state == SessionState::ReceivingResponseBody,
        ensures
            final(self).body_sent == old(self).body_sent,
            !final(self).subscribed,
            match spec_decode_response(bytes@) {
                Some(v) => r matches Ok(e) && e@ == v && final(self).state
                    == SessionState::Completed,
                None => r == Err::<ResponseEnvelope, GatewayError>(GatewayError::InternalError)
                    && final(self).state == SessionState::Failed(GatewayError::InternalError),
            },
            session_inv(*final(self)),
    {
        self.subscribed = false;
        match decode_response(bytes) {
            Some(e) => {
                self.state = SessionState::Completed;
                Ok(e)
            },
            None => {
                self.state = SessionState::Failed(GatewayError::InternalError);
                Err(GatewayError::InternalError)
            },
        }
    }

    fn is_terminal(&self) -> (r: bool)
        ensures
            r == terminal(self.state),
    {
        matches!(self.state, SessionState::Completed | SessionState::Failed(_))
    }

    fn to_failed(&self, e: GatewayError) -> (r: Session)
        ensures
            r == failed(*self, e),
    {
        Session { state: SessionState::Failed(e), body_sent: self.body_sent, subscribed: false }
    }
}

} // verus!
