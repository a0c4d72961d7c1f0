//! The pipeline of one request, as a machine that is driven from outside.
//!
//! The caller performs what the machine asks for (reading the body, a
//! datastore call, a sign-in, an encoding) and hands back what came of it.
//! The machine decides everything else: whether the body is taken in, in
//! which codec the answer goes out, whether the session may pass, and what a
//! failure looks like.

use vstd::prelude::*;
use vstd::utf8::{decode_utf8, valid_utf8};
use bytes::Bytes;
use crate::body::{announce, contents, declared_fits, decode_text, fits, take_in};
use crate::codec::{report_codec, Accept, Codec};
use crate::credentials::{holds_object, Credentials};
use crate::error::{class_of, last_resort_of, reports, status_of, Class, Error};
use crate::outcome::{Document, ExecutionResult, Grant, Statement};
use crate::response::{render, renders, EncodedResponse, Rendering, SUCCESS};
use crate::route::{max_body, negotiated, permits, Route};
use crate::session::Session;

verus! {

/// Where a request stands.
#[derive(Clone, Copy, Debug, PartialEq, Eq, Structural)]
pub enum State {
    /// Nothing has arrived yet.
    Ready,
    /// The body is coming in. `resolved` is the codec that the head resolved
    /// to, or none if the route does not offer the declared format: that is
    /// judged when the body has been measured.
    Receiving { resolved: Option<Codec> },
    /// The command text is with the datastore.
    AwaitingDatastore { codec: Codec },
    /// The credentials are with the authentication service.
    AwaitingAuth { codec: Codec },
    /// The document of a result is with the encoder.
    Encoding { codec: Codec },
    /// The report of a failure is with the encoder.
    Reporting { class: Class, codec: Codec },
    /// The end of a request that was served: its response has gone out.
    Served,
    /// The end of a request that failed: the report of its class has gone out.
    Failed { class: Class },
    /// The end of a request whose caller went away: nothing has gone out.
    Aborted,
}

/// The machine of one request.
#[derive(Debug, PartialEq, Eq)]
pub struct Pipeline {
    pub route: Route,
    /// The caller's session. Only a sign-in that succeeds replaces it.
    pub session: Option<Session>,
    pub state: State,
    /// What has been taken in of the body so far.
    pub body: Vec<u8>,
    /// Whether the body has been handed to the text decoder.
    pub decoded: bool,
    /// Whether the datastore or the authentication service has been called on.
    pub dispatched: bool,
}

/// What happened outside the machine.
#[derive(Debug, PartialEq)]
pub enum Event {
    /// The head of a request came in: the format that the caller declares,
    /// and the length of the body if the caller declares one.
    Head { accept: Option<Accept>, declared: Option<u64> },
    /// One more piece of the body came in.
    Chunk(Bytes),
    /// The body has come in whole.
    End,
    /// The datastore answered: one outcome for each statement, or its failure.
    Executed(Result<Vec<Statement>, String>),
    /// The authentication service answered.
    SignedIn(Result<Grant, String>),
    /// The encoder answered: the bytes, or nothing if it could not write them.
    Encoded(Option<Vec<u8>>),
    /// The caller went away.
    Disconnected,
}

/// What the caller is to do next.
#[derive(Debug, PartialEq)]
pub enum Action {
    /// Read on: hand over the next piece of the body, or say that it ended.
    Read,
    /// Run the command text against the datastore, under the caller's session.
    Execute { text: String },
    /// Check the credentials with the authentication service.
    Signin { credentials: Credentials },
    /// Write the document in the codec. Nothing more is to be read.
    Encode { codec: Codec, document: Document },
    /// Send the response. This ends the request.
    Reply(EncodedResponse),
    /// Drop what is under way. This ends the request; nothing is sent.
    Abandon,
    /// Nothing: the event was not the one awaited.
    Ignore,
}

/// Why a request is turned away once its body is in, if it is. The checks
/// run in this order, and the first that fails decides: the size of the
/// body, the format that was asked for, the encoding of the body, the
/// authorization of the session, and for a sign-in the shape of the
/// credentials.
pub open spec fn body_refusal(
    route: Route,
    session: Option<Session>,
    resolved: Option<Codec>,
    body: Seq<u8>,
) -> Option<Error> {
    if !fits(body.len(), max_body(route)) {
        Some(Error::PayloadTooLarge)
    } else if resolved is None {
        Some(Error::UnsupportedMediaType)
    } else if !valid_utf8(body) {
        Some(Error::MalformedRequest)
    } else if !permits(route, session) {
        Some(Error::Unauthorized)
    } else if route is Signin && !holds_object(body) {
        Some(Error::MalformedRequest)
    } else {
        None
    }
}

/// Whether the state is one in which a request has ended.
pub open spec fn is_final(state: State) -> bool {
    state is Served || state is Failed || state is Aborted
}

/// The machine turns to reporting the failure `e`: its report goes to the
/// encoder, in the negotiated codec or the fallback.
pub open spec fn fails_with(e: Error, negotiated: Option<Codec>, next: State, action: Action) -> bool {
    &&& action matches Action::Encode { codec, document }
    &&& codec == report_codec(negotiated)
    &&& document matches Document::Failure(m)
    &&& reports(m, e)
    &&& next == (State::Reporting { class: class_of(e), codec: report_codec(negotiated) })
}

/// The machine turns to answering with `result` in `codec`: a body that is
/// already known goes out at once, a document goes to the encoder, and a
/// result that the codec cannot hold is a failure.
pub open spec fn answers(result: ExecutionResult, codec: Codec, next: State, action: Action) -> bool {
    match action {
        Action::Reply(response) => {
            &&& renders(result, codec, Ok(Rendering::Body(response.body)))
            &&& response.status == SUCCESS
            &&& response.codec == codec
            &&& next is Served
        },
        Action::Encode { codec: chosen, document } => {
            ||| {
                &&& renders(result, codec, Ok(Rendering::Encode(document)))
                &&& chosen == codec
                &&& next == (State::Encoding { codec })
            }
            ||| {
                &&& renders(result, codec, Err(Error::InternalEncodingFailed))
                &&& fails_with(Error::InternalEncodingFailed, Some(codec), next, action)
            }
        },
        _ => false,
    }
}

/// The head of a request arrives at a machine that is ready. A declared
/// length over the limit ends the request there, and nothing of the body is
/// read. Nothing else does: the size of a body is judged before its format,
/// so a format that the route does not offer is remembered and the body is
/// read on.
pub open spec fn on_head(
    pre: Pipeline,
    accept: Option<Accept>,
    declared: Option<u64>,
    post: Pipeline,
    action: Action,
) -> bool {
    &&& post.session == pre.session
    &&& post.body@ == pre.body@
    &&& post.decoded == pre.decoded
    &&& post.dispatched == pre.dispatched
    &&& if declared_fits(declared, max_body(pre.route)) {
        &&& action is Read
        &&& post.state == (State::Receiving { resolved: negotiated(pre.route, accept) })
    } else {
        fails_with(Error::PayloadTooLarge, negotiated(pre.route, accept), post.state, action)
    }
}

/// A piece of the body arrives at a machine that is receiving. It is added
/// to the body if the whole stays within the limit. If not, the request
/// fails as too large at once, whatever else is wrong with it, and what was
/// buffered is dropped.
pub open spec fn on_chunk(
    pre: Pipeline,
    resolved: Option<Codec>,
    chunk: Bytes,
    post: Pipeline,
    action: Action,
) -> bool {
    &&& post.session == pre.session
    &&& post.decoded == pre.decoded
    &&& post.dispatched == pre.dispatched
    &&& if fits(pre.body@.len() + contents(chunk).len(), max_body(pre.route)) {
        &&& post.body@ == pre.body@ + contents(chunk)
        &&& post.state == pre.state
        &&& action is Read
    } else {
        &&& post.body@.len() == 0
        &&& fails_with(Error::PayloadTooLarge, resolved, post.state, action)
    }
}

/// Whether a body that has come in whole is handed to the decoder: it is
/// within the limit and its answer has a codec.
pub open spec fn reaches_decoder(route: Route, resolved: Option<Codec>, body: Seq<u8>) -> bool {
    fits(body.len(), max_body(route)) && resolved is Some
}

/// The body has come in whole at a machine that is receiving. Only a
/// request that is turned away for nothing is dispatched. The command text
/// is the body read as UTF-8. The credentials are what the parser read in
/// the body; which object that is, the parser alone decides.
pub open spec fn on_end(pre: Pipeline, resolved: Option<Codec>, post: Pipeline, action: Action) -> bool {
    &&& post.session == pre.session
    &&& post.body@.len() == 0
    &&& post.decoded == (pre.decoded || reaches_decoder(pre.route, resolved, pre.body@))
    &&& match body_refusal(pre.route, pre.session, resolved, pre.body@) {
        Some(e) => post.dispatched == pre.dispatched && fails_with(
            e,
            resolved,
            post.state,
            action,
        ),
        None => post.dispatched && match pre.route {
            Route::Import => {
                &&& action matches Action::Execute { text }
                &&& text@ == decode_utf8(pre.body@)
                &&& post.state == (State::AwaitingDatastore { codec: resolved->0 })
            },
            Route::Signin => {
                &&& action is Signin
                &&& post.state == (State::AwaitingAuth { codec: resolved->0 })
            },
        },
    }
}

/// The datastore answers a machine that awaits it. Statements that failed
/// are part of the answer; only the failure of the datastore itself is a
/// failure of the request.
pub open spec fn on_executed(
    pre: Pipeline,
    codec: Codec,
    outcome: Result<Vec<Statement>, String>,
    post: Pipeline,
    action: Action,
) -> bool {
    &&& post.session == pre.session
    &&& post.body@ == pre.body@
    &&& post.decoded == pre.decoded
    &&& post.dispatched == pre.dispatched
    &&& match outcome {
        Ok(statements) => answers(
            ExecutionResult::Statements(statements),
            codec,
            post.state,
            action,
        ),
        Err(cause) => fails_with(Error::ExecutionFailed(cause), Some(codec), post.state, action),
    }
}

/// The authentication service answers a machine that awaits it. Success
/// raises the session to the granted level; failure leaves it as it was.
pub open spec fn on_signed_in(
    pre: Pipeline,
    codec: Codec,
    outcome: Result<Grant, String>,
    post: Pipeline,
    action: Action,
) -> bool {
    &&& post.body@ == pre.body@
    &&& post.decoded == pre.decoded
    &&& post.dispatched == pre.dispatched
    &&& match outcome {
        Ok(grant) => {
            &&& post.session == Some(Session { level: grant.level })
            &&& answers(ExecutionResult::Auth { token: grant.token }, codec, post.state, action)
        },
        Err(cause) => {
            &&& post.session == pre.session
            &&& fails_with(Error::ExecutionFailed(cause), Some(codec), post.state, action)
        },
    }
}

/// The encoder answers a machine that awaits the document of a result. Its
/// bytes go out as a success. If it could not write them, that failure is
/// reported in turn.
pub open spec fn on_encoded(
    pre: Pipeline,
    codec: Codec,
    bytes: Option<Vec<u8>>,
    post: Pipeline,
    action: Action,
) -> bool {
    &&& post.session == pre.session
    &&& post.body@ == pre.body@
    &&& post.decoded == pre.decoded
    &&& post.dispatched == pre.dispatched
    &&& match bytes {
        Some(body) => {
            &&& action matches Action::Reply(response)
            &&& response == (EncodedResponse { status: SUCCESS, codec, body })
            &&& post.state is Served
        },
        None => fails_with(Error::InternalEncodingFailed, Some(codec), post.state, action),
    }
}

/// The encoder answers a machine that awaits the report of a failure. Its
/// bytes go out under the status of the failure's class. If it could not
/// write them, the report that needs no encoder goes out in their place, so
/// that no failure goes out without its code and its sentence.
pub open spec fn on_reported(
    pre: Pipeline,
    class: Class,
    codec: Codec,
    bytes: Option<Vec<u8>>,
    post: Pipeline,
    action: Action,
) -> bool {
    &&& post.session == pre.session
    &&& post.body@ == pre.body@
    &&& post.decoded == pre.decoded
    &&& post.dispatched == pre.dispatched
    &&& post.state == (State::Failed { class })
    &&& action matches Action::Reply(response)
    &&& response.status == status_of(class)
    &&& match bytes {
        Some(body) => response.codec == codec && response.body == body,
        None => response.codec == Codec::Json && response.body@ == last_resort_of(class),
    }
}

/// The caller goes away from a request that has not ended. What is under
/// way is dropped, and nothing is encoded or sent.
pub open spec fn on_disconnected(pre: Pipeline, post: Pipeline, action: Action) -> bool {
    &&& post.session == pre.session
    &&& post.body@.len() == 0
    &&& post.decoded == pre.decoded
    &&& post.dispatched == pre.dispatched
    &&& post.state is Aborted
    &&& action is Abandon
}

/// Whether a machine is left exactly as it was.
pub open spec fn unchanged(pre: Pipeline, post: Pipeline) -> bool {
    &&& post.route == pre.route
    &&& post.session == pre.session
    &&& post.state == pre.state
    &&& post.body@ == pre.body@
    &&& post.decoded == pre.decoded
    &&& post.dispatched == pre.dispatched
}

/// One step of the machine: from `pre` and `event` to `post` and `action`.
/// An event that the state does not await changes nothing.
pub open spec fn steps(pre: Pipeline, event: Event, post: Pipeline, action: Action) -> bool {
    &&& post.route == pre.route
    &&& match (pre.state, event) {
        (state, Event::Disconnected) => if is_final(state) {
            unchanged(pre, post) && action is Ignore
        } else {
            on_disconnected(pre, post, action)
        },
        (State::Ready, Event::Head { accept, declared }) => on_head(
            pre,
            accept,
            declared,
            post,
            action,
        ),
        (State::Receiving { resolved }, Event::Chunk(chunk)) => on_chunk(
            pre,
            resolved,
            chunk,
            post,
            action,
        ),
        (State::Receiving { resolved }, Event::End) => on_end(pre, resolved, post, action),
        (State::AwaitingDatastore { codec }, Event::Executed(outcome)) => on_executed(
            pre,
            codec,
            outcome,
            post,
            action,
        ),
        (State::AwaitingAuth { codec }, Event::SignedIn(outcome)) => on_signed_in(
            pre,
            codec,
            outcome,
            post,
            action,
        ),
        (State::Encoding { codec }, Event::Encoded(bytes)) => on_encoded(
            pre,
            codec,
            bytes,
            post,
            action,
        ),
        (State::Reporting { class, codec }, Event::Encoded(bytes)) => on_reported(
            pre,
            class,
            codec,
            bytes,
            post,
            action,
        ),
        _ => unchanged(pre, post) && action is Ignore,
    }
}

impl Pipeline {
    /// A machine for one request on `route`, ready for it to arrive.
    pub fn new(route: Route, session: Option<Session>) -> (p: Pipeline)
        ensures
            p.route == route,
            p.session == session,
            p.state is Ready,
            p.body@.len() == 0,
            !p.decoded,
            !p.dispatched,
    {
        Pipeline {
            route,
            session,
            state: State::Ready,
            body: Vec::new(),
            decoded: false,
            dispatched: false,
        }
    }

    /// Whether the request has ended.
    pub fn finished(&self) -> (yes: bool)
        ensures
            yes == is_final(self.state),
    {
        match self.state {
            State::Served | State::Failed { .. } | State::Aborted => true,
            _ => false,
        }
    }

    fn fail(&mut self, e: Error, negotiated: Option<Codec>) -> (action: Action)
        ensures
            fails_with(e, negotiated, final(self).state, action),
            final(self).route == old(self).route,
            final(self).session == old(self).session,
            final(self).body == old(self).body,
            final(self).decoded == old(self).decoded,
            final(self).dispatched == old(self).dispatched,
    {
        let codec = Codec::for_report(negotiated);
        self.state = State::Reporting { class: e.class(), codec };
        Action::Encode { codec, document: Document::Failure(e.into_message()) }
    }

    fn answer(&mut self, result: ExecutionResult, codec: Codec) -> (action: Action)
        ensures
            answers(result, codec, final(self).state, action),
            final(self).route == old(self).route,
            final(self).session == old(self).session,
            final(self).body == old(self).body,
            final(self).decoded == old(self).decoded,
            final(self).dispatched == old(self).dispatched,
    {
        match render(result, codec) {
            Ok(Rendering::Body(body)) => {
                self.state = State::Served;
                Action::Reply(EncodedResponse { status: SUCCESS, codec, body })
            },
            Ok(Rendering::Encode(document)) => {
                self.state = State::Encoding { codec };
                Action::Encode { codec, document }
            },
            Err(e) => self.fail(e, Some(codec)),
        }
    }

    fn open(&mut self, accept: Option<Accept>, declared: Option<u64>) -> (action: Action)
        ensures
            on_head(*old(self), accept, declared, *final(self), action),
            final(self).route == old(self).route,
    {
        let resolved = match self.route.negotiate(accept) {
            Ok(codec) => Some(codec),
            Err(_) => None,
        };
        match announce(declared, self.route.max_body()) {
            Ok(()) => {
                self.state = State::Receiving { resolved };
                Action::Read
            },
            Err(e) => self.fail(e, resolved),
        }
    }

    fn receive(&mut self, resolved: Option<Codec>, chunk: Bytes) -> (action: Action)
        ensures
            on_chunk(*old(self), resolved, chunk, *final(self), action),
            final(self).route == old(self).route,
    {
        match take_in(&mut self.body, &chunk, self.route.max_body()) {
            Ok(()) => Action::Read,
            Err(e) => {
                self.body = Vec::new();
                self.fail(e, resolved)
            },
        }
    }

    fn close(&mut self, resolved: Option<Codec>) -> (action: Action)
        ensures
            on_end(*old(self), resolved, *final(self), action),
            final(self).route == old(self).route,
    {
        let mut body: Vec<u8> = Vec::new();
        core::mem::swap(&mut self.body, &mut body);
        if body.len() as u64 > self.route.max_body() {
            return self.fail(Error::PayloadTooLarge, resolved);
        }
        let codec = match resolved {
            Some(codec) => codec,
            None => {
                return self.fail(Error::UnsupportedMediaType, None);
            },
        };
        self.decoded = true;
        let text = match decode_text(body.as_slice()) {
            Ok(text) => text,
            Err(e) => {
                return self.fail(e, Some(codec));
            },
        };
        if !self.route.permits(self.session) {
            return self.fail(Error::Unauthorized, Some(codec));
        }
        match self.route {
            Route::Import => {
                self.dispatched = true;
                self.state = State::AwaitingDatastore { codec };
                Action::Execute { text: text.to_owned() }
            },
            Route::Signin => match Credentials::read(text) {
                Ok(credentials) => {
                    self.dispatched = true;
                    self.state = State::AwaitingAuth { codec };
                    Action::Signin { credentials }
                },
                Err(e) => self.fail(e, Some(codec)),
            },
        }
    }

    /// Takes one event and says what to do next.
    pub fn step(&mut self, event: Event) -> (action: Action)
        ensures
            steps(*old(self), event, *final(self), action),
    {
        match (self.state, event) {
            (_, Event::Disconnected) => {
                if self.finished() {
                    Action::Ignore
                } else {
                    self.body = Vec::new();
                    self.state = State::Aborted;
                    Action::Abandon
                }
            },
            (State::Ready, Event::Head { accept, declared }) => self.open(accept, declared),
            (State::Receiving { resolved }, Event::Chunk(chunk)) => self.receive(
                resolved,
                chunk,
            ),
            (State::Receiving { resolved }, Event::End) => self.close(resolved),
            (State::AwaitingDatastore { codec }, Event::Executed(outcome)) => match outcome {
                Ok(statements) => self.answer(ExecutionResult::Statements(statements), codec),
                Err(cause) => self.fail(Error::ExecutionFailed(cause), Some(codec)),
            },
            (State::AwaitingAuth { codec }, Event::SignedIn(outcome)) => match outcome {
                Ok(grant) => {
                    self.session = Some(Session { level: grant.level });
                    self.answer(ExecutionResult::Auth { token: grant.token }, codec)
                },
                Err(cause) => self.fail(Error::ExecutionFailed(cause), Some(codec)),
            },
            (State::Encoding { codec }, Event::Encoded(bytes)) => match bytes {
                Some(body) => {
                    self.state = State::Served;
                    Action::Reply(EncodedResponse { status: SUCCESS, codec, body })
                },
                None => self.fail(Error::InternalEncodingFailed, Some(codec)),
            },
            (State::Reporting { class, codec }, Event::Encoded(bytes)) => {
                self.state = State::Failed { class };
                let status: u16 = class.status();
                match bytes {
                    Some(body) => Action::Reply(EncodedResponse { status, codec, body }),
                    None => Action::Reply(
                        EncodedResponse { status, codec: Codec::Json, body: class.last_resort() },
                    ),
                }
            },
            _ => Action::Ignore,
        }
    }
}

} // verus!
