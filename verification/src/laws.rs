//! What holds of every step and of every run of the pipeline.

use vstd::prelude::*;
use vstd::utf8::valid_utf8;
use bytes::Bytes;
use crate::body::{contents, fits};
use crate::codec::{is_structured, Accept, Codec};
use crate::credentials::holds_object;
use crate::error::{status_of, Class, Error};
use crate::outcome::{simplified, Document, Statement};
use crate::pipeline::{
    body_refusal, fails_with, is_final, steps, unchanged, Action, Event, Pipeline, State,
};
use crate::route::{max_body, negotiated, permits, Route};
use crate::session::Session;

verus! {

/// Whether an action calls on the datastore or the authentication service.
pub open spec fn dispatches(action: Action) -> bool {
    action is Execute || action is Signin
}

/// Whether the machine is as `Pipeline::new` makes it.
pub open spec fn is_fresh(p: Pipeline, route: Route, session: Option<Session>) -> bool {
    &&& p.route == route
    &&& p.session == session
    &&& p.state is Ready
    &&& p.body@.len() == 0
    &&& !p.decoded
    &&& !p.dispatched
}

/// Whether the machine, started fresh on `route` with `session`, goes
/// through `states` and answers with `actions` when it is fed `events`.
pub open spec fn is_run(
    route: Route,
    session: Option<Session>,
    events: Seq<Event>,
    states: Seq<Pipeline>,
    actions: Seq<Action>,
) -> bool {
    &&& states.len() == events.len() + 1
    &&& actions.len() == events.len()
    &&& is_fresh(states[0], route, session)
    &&& forall|i: int|
        0 <= i < events.len() ==> steps(states[i], events[i], #[trigger] states[i + 1], actions[i])
}

/// A request whose declared length is over the route's limit is refused as
/// too large on its head, whatever its format and its session: no piece of
/// the body is asked for, nothing is decoded and nothing is dispatched.
pub proof fn declared_oversize_is_refused_unread(
    pre: Pipeline,
    accept: Option<Accept>,
    declared: u64,
    post: Pipeline,
    action: Action,
)
    requires
        pre.state is Ready,
        steps(pre, Event::Head { accept, declared: Some(declared) }, post, action),
        declared > max_body(pre.route),
    ensures
        fails_with(Error::PayloadTooLarge, negotiated(pre.route, accept), post.state, action),
        post.body@ == pre.body@,
        post.decoded == pre.decoded,
        post.dispatched == pre.dispatched,
{
}

/// A piece that takes the body over the route's limit fails the request as
/// too large at once, whatever its format, its session and its bytes:
/// nothing more is asked for, what was buffered is dropped, nothing is
/// decoded and nothing is dispatched.
pub proof fn overflowing_chunk_is_refused_undecoded(
    pre: Pipeline,
    resolved: Option<Codec>,
    chunk: Bytes,
    post: Pipeline,
    action: Action,
)
    requires
        pre.state == (State::Receiving { resolved }),
        steps(pre, Event::Chunk(chunk), post, action),
        pre.body@.len() + contents(chunk).len() > max_body(pre.route),
    ensures
        fails_with(Error::PayloadTooLarge, resolved, post.state, action),
        post.body@.len() == 0,
        post.decoded == pre.decoded,
        post.dispatched == pre.dispatched,
{
}

/// A request is never turned away on its head for anything but its
/// declared length: a format that the route does not offer is judged only
/// when the body has come in whole, and within the limit.
pub proof fn a_format_is_refused_only_after_the_size(
    pre: Pipeline,
    event: Event,
    post: Pipeline,
    action: Action,
)
    requires
        steps(pre, event, post, action),
        !(pre.state is Reporting),
        post.state matches State::Reporting { class, .. } && class
            == Class::UnsupportedMediaType,
    ensures
        pre.state == (State::Receiving { resolved: None }),
        event is End,
        fits(pre.body@.len(), max_body(pre.route)),
        post.decoded == pre.decoded,
        post.dispatched == pre.dispatched,
{
}

/// Whatever the step, a failure other than too large is found only in a
/// body that is within the route's limit.
pub proof fn an_oversize_body_fails_as_nothing_else(
    pre: Pipeline,
    resolved: Option<Codec>,
    post: Pipeline,
    action: Action,
)
    requires
        pre.state == (State::Receiving { resolved }),
        steps(pre, Event::End, post, action),
        pre.body@.len() > max_body(pre.route),
    ensures
        fails_with(Error::PayloadTooLarge, resolved, post.state, action),
        post.decoded == pre.decoded,
        post.dispatched == pre.dispatched,
{
}

/// Whatever the step, the decoder is handed nothing but a whole body that
/// is within the route's limit.
pub proof fn decoder_sees_only_bodies_within_the_limit(
    pre: Pipeline,
    event: Event,
    post: Pipeline,
    action: Action,
)
    requires
        steps(pre, event, post, action),
        post.decoded,
        !pre.decoded,
    ensures
        pre.state is Receiving,
        event is End,
        fits(pre.body@.len(), max_body(pre.route)),
{
}

/// Whatever the step, the datastore and the authentication service are
/// called on only at the end of a body that is turned away for nothing: it
/// is within the limit, its format is offered, it is valid UTF-8, and the
/// session is authorized.
pub proof fn dispatch_needs_a_sound_request(pre: Pipeline, event: Event, post: Pipeline, action: Action)
    requires
        steps(pre, event, post, action),
        dispatches(action) || (post.dispatched && !pre.dispatched),
    ensures
        pre.state matches State::Receiving { resolved } && resolved is Some && body_refusal(
            pre.route,
            pre.session,
            resolved,
            pre.body@,
        ) is None,
        event is End,
        fits(pre.body@.len(), max_body(pre.route)),
        valid_utf8(pre.body@),
        permits(pre.route, pre.session),
{
}

/// A body that is not valid UTF-8 is never dispatched. Where it is within
/// the limit and the format is offered, the request fails as malformed.
pub proof fn invalid_utf8_is_never_dispatched(
    pre: Pipeline,
    resolved: Option<Codec>,
    post: Pipeline,
    action: Action,
)
    requires
        pre.state == (State::Receiving { resolved }),
        steps(pre, Event::End, post, action),
        !valid_utf8(pre.body@),
    ensures
        !dispatches(action),
        post.dispatched == pre.dispatched,
        fits(pre.body@.len(), max_body(pre.route)) && resolved is Some ==> fails_with(
            Error::MalformedRequest,
            resolved,
            post.state,
            action,
        ),
{
}

/// A session below the level that the route requires is never dispatched.
/// Where the body is within the limit, the format is offered and the body is
/// valid UTF-8, the request fails as unauthorized.
pub proof fn low_session_is_never_dispatched(
    pre: Pipeline,
    resolved: Option<Codec>,
    post: Pipeline,
    action: Action,
)
    requires
        pre.state == (State::Receiving { resolved }),
        steps(pre, Event::End, post, action),
        !permits(pre.route, pre.session),
    ensures
        !dispatches(action),
        post.dispatched == pre.dispatched,
        fits(pre.body@.len(), max_body(pre.route)) && resolved is Some && valid_utf8(pre.body@)
            ==> fails_with(Error::Unauthorized, resolved, post.state, action),
{
}

/// A request that has ended stays as it ended: every further event is
/// ignored.
pub proof fn an_ended_request_stays_ended(pre: Pipeline, event: Event, post: Pipeline, action: Action)
    requires
        steps(pre, event, post, action),
        is_final(pre.state),
    ensures
        unchanged(pre, post),
        action is Ignore,
{
}

/// When the caller goes away, nothing is dispatched, nothing is handed to
/// the encoder and nothing is sent at that step, and the request has ended:
/// the next event, whatever it is, is ignored.
pub proof fn a_caller_that_left_gets_nothing(
    pre: Pipeline,
    post: Pipeline,
    action: Action,
    later: Event,
    last: Pipeline,
    reaction: Action,
)
    requires
        steps(pre, Event::Disconnected, post, action),
        steps(post, later, last, reaction),
    ensures
        action is Abandon || action is Ignore,
        is_final(post.state),
        reaction is Ignore,
        unchanged(post, last),
{
}

/// The session changes at one step only: when the authentication service
/// grants a sign-in, it becomes a session of the granted level.
pub proof fn only_a_granted_sign_in_changes_the_session(
    pre: Pipeline,
    event: Event,
    post: Pipeline,
    action: Action,
)
    requires
        steps(pre, event, post, action),
        post.session != pre.session,
    ensures
        pre.state is AwaitingAuth,
        event matches Event::SignedIn(Ok(grant)) && post.session == Some(
            Session { level: grant.level },
        ),
{
}

/// The report of a failure goes out under the status of its class, whether
/// or not the encoder could write it.
pub proof fn a_failure_goes_out_under_its_status(
    pre: Pipeline,
    class: Class,
    codec: Codec,
    bytes: Option<Vec<u8>>,
    post: Pipeline,
    action: Action,
)
    requires
        pre.state == (State::Reporting { class, codec }),
        steps(pre, Event::Encoded(bytes), post, action),
    ensures
        post.state == (State::Failed { class }),
        action matches Action::Reply(response) && response.status == status_of(class) && (
        response.codec == codec || response.codec == Codec::Json),
{
}

/// In every run the route stays the same, the machine never holds more of
/// a body than the route's limit, until something is dispatched the session
/// is the one that the run started with, and a failure is reported in a
/// codec that can hold the report's fields.
pub proof fn run_invariant(
    route: Route,
    session: Option<Session>,
    events: Seq<Event>,
    states: Seq<Pipeline>,
    actions: Seq<Action>,
    i: int,
)
    requires
        is_run(route, session, events, states, actions),
        0 <= i <= events.len(),
    ensures
        states[i].route == route,
        fits(states[i].body@.len(), max_body(route)),
        states[i].state is Ready || states[i].state is Receiving ==> states[i].session == session
            && !states[i].dispatched,
        states[i].state matches State::Reporting { codec, .. } ==> is_structured(codec),
    decreases i,
{
    if i > 0 {
        run_invariant(route, session, events, states, actions, i - 1);
        assert(steps(states[i - 1], events[i - 1], states[(i - 1) + 1], actions[i - 1]));
    }
}

/// What a state holds of the negotiation, if it is a state that works
/// towards an answer: the codec, or none while a body is still coming in for
/// a format that the route does not offer.
pub open spec fn resolved_of(state: State) -> Option<Option<Codec>> {
    match state {
        State::Receiving { resolved } => Some(resolved),
        State::AwaitingDatastore { codec } => Some(Some(codec)),
        State::AwaitingAuth { codec } => Some(Some(codec)),
        State::Encoding { codec } => Some(Some(codec)),
        _ => None,
    }
}

/// Whether the event is the head of a request whose negotiation on `route`
/// comes to `resolved`.
pub open spec fn resolves_to(route: Route, event: Event, resolved: Option<Codec>) -> bool {
    event matches Event::Head { accept, .. } && negotiated(route, accept) == resolved
}

/// In every run, an answer is worked on under one codec only: the one that
/// the head of the request resolved to.
pub proof fn the_codec_is_the_negotiated_one(
    route: Route,
    session: Option<Session>,
    events: Seq<Event>,
    states: Seq<Pipeline>,
    actions: Seq<Action>,
    i: int,
)
    requires
        is_run(route, session, events, states, actions),
        0 <= i <= events.len(),
        resolved_of(states[i].state) is Some,
    ensures
        exists|j: int|
            0 <= j < i && resolves_to(
                route,
                #[trigger] events[j],
                resolved_of(states[i].state)->0,
            ),
    decreases i,
{
    if i > 0 {
        run_invariant(route, session, events, states, actions, i - 1);
        assert(steps(states[i - 1], events[i - 1], states[(i - 1) + 1], actions[i - 1]));
        let resolved = resolved_of(states[i].state)->0;
        if states[i - 1].state is Ready {
            assert(resolves_to(route, events[i - 1], resolved));
        } else {
            assert(resolved_of(states[i - 1].state) == Some(resolved));
            the_codec_is_the_negotiated_one(route, session, events, states, actions, i - 1);
            let j = choose|j: int|
                0 <= j < i - 1 && resolves_to(route, #[trigger] events[j], resolved);
            assert(resolves_to(route, events[j], resolved));
        }
    }
}

/// In every run, whatever is dispatched is dispatched for a session that the
/// route lets in, the one that the run started with, and for a body that is
/// within the limit and valid UTF-8.
pub proof fn dispatch_follows_authorization(
    route: Route,
    session: Option<Session>,
    events: Seq<Event>,
    states: Seq<Pipeline>,
    actions: Seq<Action>,
    i: int,
)
    requires
        is_run(route, session, events, states, actions),
        0 <= i < events.len(),
        dispatches(actions[i]),
    ensures
        permits(route, session),
        events[i] is End,
        valid_utf8(states[i].body@),
        fits(states[i].body@.len(), max_body(route)),
{
    run_invariant(route, session, events, states, actions, i);
    assert(steps(states[i], events[i], states[i + 1], actions[i]));
    dispatch_needs_a_sound_request(states[i], events[i], states[i + 1], actions[i]);
}

/// In a run that starts from a session below the level that the route
/// requires, nothing is ever dispatched.
pub proof fn low_session_never_reaches_the_dispatcher(
    route: Route,
    session: Option<Session>,
    events: Seq<Event>,
    states: Seq<Pipeline>,
    actions: Seq<Action>,
    i: int,
)
    requires
        is_run(route, session, events, states, actions),
        0 <= i <= events.len(),
        !permits(route, session),
    ensures
        !states[i].dispatched,
        i < events.len() ==> !dispatches(actions[i]),
    decreases i,
{
    if i > 0 {
        low_session_never_reaches_the_dispatcher(route, session, events, states, actions, i - 1);
        assert(steps(states[i - 1], events[i - 1], states[(i - 1) + 1], actions[i - 1]));
        if states[i].dispatched {
            run_invariant(route, session, events, states, actions, i - 1);
            dispatch_needs_a_sound_request(
                states[i - 1],
                events[i - 1],
                states[i],
                actions[i - 1],
            );
        }
    }
    if i < events.len() && dispatches(actions[i]) {
        dispatch_follows_authorization(route, session, events, states, actions, i);
    }
}

/// When the datastore answers with statements, failed ones among them, the
/// answer in a client codec is a document with one entry for each statement,
/// in order: a failed statement is a failure entry with the engine's words,
/// a statement that succeeded is a success entry with its value. The answer
/// is a success, not the report of a failure.
pub proof fn failed_statements_stay_entries(
    pre: Pipeline,
    codec: Codec,
    statements: Vec<Statement>,
    post: Pipeline,
    action: Action,
)
    requires
        pre.state == (State::AwaitingDatastore { codec }),
        codec is Json || codec is BinaryCompact || codec is BinaryPack,
        steps(pre, Event::Executed(Ok(statements)), post, action),
    ensures
        post.state == (State::Encoding { codec }),
        action matches Action::Encode { codec: chosen, document: Document::Entries(entries) }
            && chosen == codec && entries@.len() == statements@.len() && forall|k: int|
            0 <= k < statements@.len() ==> entries@[k] == simplified(#[trigger] statements@[k]),
{
}

/// In the internal codec the statements go to the encoder as the engine
/// reported them: none is dropped, reordered or reshaped.
pub proof fn internal_codec_keeps_statements(
    pre: Pipeline,
    statements: Vec<Statement>,
    post: Pipeline,
    action: Action,
)
    requires
        pre.state == (State::AwaitingDatastore { codec: Codec::Internal }),
        steps(pre, Event::Executed(Ok(statements)), post, action),
    ensures
        post.state == (State::Encoding { codec: Codec::Internal }),
        action matches Action::Encode { codec, document: Document::Statements(kept) } && codec
            == Codec::Internal && kept == statements,
{
}

/// A sign-in is dispatched only where the parser reads an object in the
/// body: a body in which it reads none never reaches the authentication
/// service.
pub proof fn a_sign_in_needs_an_object(
    pre: Pipeline,
    resolved: Option<Codec>,
    post: Pipeline,
    action: Action,
)
    requires
        pre.state == (State::Receiving { resolved }),
        steps(pre, Event::End, post, action),
        action is Signin,
    ensures
        pre.route is Signin,
        valid_utf8(pre.body@),
        holds_object(pre.body@),
{
}

/// A sign-in that fails leaves the session as it was, and the failure goes
/// out with the service's own words.
pub proof fn failed_signin_keeps_the_session(
    pre: Pipeline,
    codec: Codec,
    cause: String,
    post: Pipeline,
    action: Action,
)
    requires
        pre.state == (State::AwaitingAuth { codec }),
        steps(pre, Event::SignedIn(Err(cause)), post, action),
    ensures
        post.session == pre.session,
        fails_with(Error::ExecutionFailed(cause), Some(codec), post.state, action),
{
}

} // verus!
