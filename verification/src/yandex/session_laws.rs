//! What holds of every recognition session, whatever happens to it: the
//! order of the audio on the wire, the place of the configuration message,
//! the drain before the write half closes, and the end after a failure.

use crate::rpc::bearer_value;
use crate::yandex::streaming_stt::{
    Action, Event, RecognitionConfig, SessionError, SessionModel, SessionState,
};
use vstd::prelude::*;

verus! {

/// One message on the write side of the stream.
pub enum Wire {
    Config(RecognitionConfig),
    Audio(Seq<u8>),
    /// The write half was closed.
    End,
}

/// What `actions` put on the write side of the stream, in order.
pub open spec fn written<E>(actions: Seq<Action<E>>) -> Seq<Wire>
    decreases actions.len(),
{
    if actions.len() == 0 {
        Seq::empty()
    } else {
        let before = written(actions.drop_last());
        match actions.last() {
            Action::SendConfig(config) => before.push(Wire::Config(config)),
            Action::SendAudio(frame) => before.push(Wire::Audio(frame)),
            Action::CloseWrite => before.push(Wire::End),
            _ => before,
        }
    }
}

/// The audio frames that `actions` wrote, in order.
pub open spec fn sent_frames<E>(actions: Seq<Action<E>>) -> Seq<Seq<u8>>
    decreases actions.len(),
{
    if actions.len() == 0 {
        Seq::empty()
    } else {
        let before = sent_frames(actions.drop_last());
        match actions.last() {
            Action::SendAudio(frame) => before.push(frame),
            _ => before,
        }
    }
}

/// The access tokens that `events` brought, in order.
pub open spec fn tokens<E>(events: Seq<Event<E>>) -> Seq<Seq<char>>
    decreases events.len(),
{
    if events.len() == 0 {
        Seq::empty()
    } else {
        let before = tokens(events.drop_last());
        match events.last() {
            Event::Token(token) => before.push(token),
            _ => before,
        }
    }
}

/// The authorization values with which `actions` asked for the stream to
/// be opened, in order.
pub open spec fn opened<E>(actions: Seq<Action<E>>) -> Seq<Seq<char>>
    decreases actions.len(),
{
    if actions.len() == 0 {
        Seq::empty()
    } else {
        let before = opened(actions.drop_last());
        match actions.last() {
            Action::Open(authorization) => before.push(authorization),
            _ => before,
        }
    }
}

/// Whether `action` puts something on the write side of the stream.
pub open spec fn is_write<E>(action: Action<E>) -> bool {
    action is SendConfig || action is SendAudio || action is CloseWrite
}

/// Whether the caller closed the sink somewhere in `events`.
pub open spec fn sink_closed<E>(events: Seq<Event<E>>) -> bool {
    exists|i: int| 0 <= i < events.len() && events[i] is CloseSink
}

/// The frames that the caller enqueued before closing the sink, in order.
pub open spec fn offered<E>(events: Seq<Event<E>>) -> Seq<Seq<u8>>
    decreases events.len(),
{
    if events.len() == 0 {
        Seq::empty()
    } else {
        let before = offered(events.drop_last());
        match events.last() {
            Event::Enqueue(frame) => if sink_closed(events.drop_last()) {
                before
            } else {
                before.push(frame)
            },
            _ => before,
        }
    }
}

/// A stream that was written in order: the configuration, then audio
/// frames, then the end if the write half was closed.
pub open spec fn stream_of(config: RecognitionConfig, frames: Seq<Seq<u8>>, ended: bool) -> Seq<
    Wire,
> {
    let body = seq![Wire::Config(config)] + frames.map_values(|frame: Seq<u8>| Wire::Audio(frame));
    if ended {
        body.push(Wire::End)
    } else {
        body
    }
}

/// Whether `action` ends the result source.
pub open spec fn is_terminal<E>(action: Action<E>) -> bool {
    action is Abort || action is Finish
}

/// Whether `action` leaves the stream and the result source untouched.
pub open spec fn is_idle<E>(action: Action<E>) -> bool {
    action is Wait || action is Reject
}

/// What ties a session to the events it has seen since it was started with
/// `config` and to the actions it answered with.
pub open spec fn consistent<E>(
    config: RecognitionConfig,
    events: Seq<Event<E>>,
    session: SessionModel,
    actions: Seq<Action<E>>,
) -> bool {
    let sent = sent_frames(actions);
    let wire = written(actions);
    &&& session.wf()
    &&& actions.len() == events.len()
    &&& session.sink_open ==> !sink_closed(events)
    &&& !session.sink_open && session.state != SessionState::Closed ==> sink_closed(events)
    &&& session.state != SessionState::Closed ==> sent + session.queue == offered(events)
    &&& sent.is_prefix_of(offered(events))
    &&& session.write_closed ==> sent == offered(events) && sink_closed(events)
    &&& session.state == SessionState::Connecting ==> session.config == Some(config)
        && wire.len() == 0
    &&& session.state != SessionState::Connecting && session.state != SessionState::Closed
        ==> wire.len() > 0
    &&& wire.len() > 0 ==> wire == stream_of(config, sent, session.write_closed)
    &&& wire.len() == 0 ==> sent.len() == 0 && !session.write_closed
    &&& session.state == SessionState::Closed <==> exists|i: int|
        0 <= i < actions.len() && is_terminal(#[trigger] actions[i])
    &&& forall|i: int, j: int|
        0 <= i < j < actions.len() && is_terminal(#[trigger] actions[i]) ==> is_idle(
            #[trigger] actions[j],
        )
    &&& opened(actions).len() == if session.authorized {
        1nat
    } else {
        0nat
    }
    &&& session.authorized ==> tokens(events).len() > 0 && opened(actions)[0] == bearer_value(
        tokens(events)[0],
    )
    &&& !session.authorized ==> wire.len() == 0
    &&& !session.authorized && session.state != SessionState::Closed ==> tokens(events).len()
        == 0
    &&& forall|i: int, j: int|
        0 <= i < actions.len() && 0 <= j < actions.len() && #[trigger] actions[i] is Open
            && is_write(#[trigger] actions[j]) ==> i < j
}

proof fn lemma_sink_closed_push<E>(events: Seq<Event<E>>, event: Event<E>)
    ensures
        sink_closed(events.push(event)) <==> sink_closed(events) || event is CloseSink,
{
    let longer = events.push(event);
    if sink_closed(events) {
        let i = choose|i: int| 0 <= i < events.len() && events[i] is CloseSink;
        assert(longer[i] is CloseSink);
    }
    if event is CloseSink {
        assert(longer[events.len() as int] is CloseSink);
    }
    if sink_closed(longer) {
        let i = choose|i: int| 0 <= i < longer.len() && longer[i] is CloseSink;
        if i < events.len() {
            assert(events[i] is CloseSink);
        }
    }
}

proof fn lemma_stream_of_push(config: RecognitionConfig, frames: Seq<Seq<u8>>, frame: Seq<u8>)
    ensures
        stream_of(config, frames.push(frame), false) == stream_of(config, frames, false).push(
            Wire::Audio(frame),
        ),
{
    let f = |frame: Seq<u8>| Wire::Audio(frame);
    assert(frames.push(frame).map_values(f) =~= frames.map_values(f).push(Wire::Audio(frame)));
    assert(stream_of(config, frames.push(frame), false) =~= stream_of(config, frames, false).push(
        Wire::Audio(frame),
    ));
}

/// One more event keeps a session consistent with its history.
proof fn lemma_step_consistent<E>(
    config: RecognitionConfig,
    events: Seq<Event<E>>,
    session: SessionModel,
    actions: Seq<Action<E>>,
    event: Event<E>,
)
    requires
        consistent(config, events, session, actions),
    ensures
        consistent(
            config,
            events.push(event),
            session.step(event).0,
            actions.push(session.step(event).1),
        ),
{
    let (after, action) = session.step(event);
    let events2 = events.push(event);
    let actions2 = actions.push(action);
    assert(events2.drop_last() =~= events);
    assert(actions2.drop_last() =~= actions);
    assert(events2.last() == event);
    assert(actions2.last() == action);
    lemma_sink_closed_push(events, event);
    let sent = sent_frames(actions);
    let sent2 = sent_frames(actions2);
    let wire = written(actions);
    let wire2 = written(actions2);
    let open = session.settled();
    match action {
        Action::SendAudio(frame) => {
            assert(open.queue.len() > 0 && frame == open.queue[0]);
            assert(after.queue == open.queue.drop_first());
            assert(sent2 == sent.push(frame));
            assert(sent2 + after.queue =~= sent + session.queue);
            assert(wire2 == wire.push(Wire::Audio(frame)));
            lemma_stream_of_push(config, sent, frame);
            assert(sent2.is_prefix_of(offered(events2)));
        },
        Action::SendConfig(sent_config) => {
            assert(wire2 == wire.push(Wire::Config(config)));
            assert(sent.map_values(|frame: Seq<u8>| Wire::Audio(frame)) =~= Seq::empty());
            assert(wire2 =~= stream_of(config, sent, false));
        },
        Action::CloseWrite => {
            assert(sent + open.queue =~= sent);
            assert(wire2 =~= stream_of(config, sent, true));
        },
        _ => {
            assert(sent2 == sent);
            assert(wire2 == wire);
            match event {
                Event::Enqueue(frame) => {
                    if after.queue.len() == session.queue.len() + 1 {
                        assert(sent + session.queue.push(frame) =~= (sent + session.queue).push(
                            frame,
                        ));
                    }
                },
                _ => {},
            }
        },
    }
    assert(after.state == SessionState::Closed <==> exists|i: int|
        0 <= i < actions2.len() && is_terminal(#[trigger] actions2[i])) by {
        if session.state == SessionState::Closed {
            let i = choose|i: int| 0 <= i < actions.len() && is_terminal(#[trigger] actions[i]);
            assert(is_terminal(actions2[i]));
        }
        if is_terminal(action) {
            assert(is_terminal(actions2[actions.len() as int]));
        }
        if exists|i: int| 0 <= i < actions2.len() && is_terminal(#[trigger] actions2[i]) {
            let i = choose|i: int| 0 <= i < actions2.len() && is_terminal(#[trigger] actions2[i]);
            if i < actions.len() {
                assert(is_terminal(actions[i]));
            }
        }
    }
    assert forall|i: int, j: int|
        0 <= i < j < actions2.len() && is_terminal(#[trigger] actions2[i]) implies is_idle(
        #[trigger] actions2[j],
    ) by {
        assert(is_terminal(actions[i]));
        if j < actions.len() {
            assert(is_idle(actions[j]));
        }
    }
    assert forall|i: int, j: int|
        0 <= i < actions2.len() && 0 <= j < actions2.len() && #[trigger] actions2[i] is Open
            && is_write(#[trigger] actions2[j]) implies i < j by {
        if i < actions.len() && j < actions.len() {
            assert(actions[i] is Open && is_write(actions[j]));
        } else if i == actions.len() {
            // The session was not authorized before, so nothing had been
            // written.
            if j < actions.len() {
                lemma_write_is_written(actions, j);
            }
        }
    }
}

/// An action that writes shows in what was written.
proof fn lemma_write_is_written<E>(actions: Seq<Action<E>>, j: int)
    requires
        0 <= j < actions.len(),
        is_write(actions[j]),
    ensures
        written(actions).len() > 0,
    decreases actions.len(),
{
    if j < actions.len() - 1 {
        lemma_write_is_written(actions.drop_last(), j);
    }
}

/// A session is consistent with whatever it has seen since it was started.
pub proof fn lemma_run_consistent<E>(config: RecognitionConfig, events: Seq<Event<E>>)
    ensures
        consistent(
            config,
            events,
            SessionModel::initial(config).run(events).0,
            SessionModel::initial(config).run(events).1,
        ),
    decreases events.len(),
{
    let start = SessionModel::initial(config);
    if events.len() == 0 {
        assert(sent_frames(Seq::<Action<E>>::empty()) + start.queue =~= Seq::empty());
    } else {
        let earlier = events.drop_last();
        lemma_run_consistent(config, earlier);
        let (before, actions) = start.run(earlier);
        lemma_step_consistent(config, earlier, before, actions, events.last());
        assert(earlier.push(events.last()) =~= events);
    }
}

/// Audio leaves in the order it came: what has been written is the first
/// part of what the caller enqueued before closing the sink, and while the
/// session lives, the rest of it is exactly what still waits in the queue.
pub proof fn lemma_frames_keep_their_order<E>(config: RecognitionConfig, events: Seq<Event<E>>)
    ensures
        ({
            let (session, actions) = SessionModel::initial(config).run(events);
            &&& sent_frames(actions).is_prefix_of(offered(events))
            &&& session.state != SessionState::Closed ==> sent_frames(actions) + session.queue
                == offered(events)
        }),
{
    lemma_run_consistent(config, events);
}

/// The configuration is the first message on the stream and is written
/// once, however many frames were queued before the stream opened; a
/// session that streams or drains has written it.
pub proof fn lemma_configuration_comes_first_once<E>(
    config: RecognitionConfig,
    events: Seq<Event<E>>,
)
    ensures
        ({
            let (session, actions) = SessionModel::initial(config).run(events);
            let wire = written(actions);
            &&& wire.len() > 0 ==> wire[0] == Wire::Config(config)
            &&& forall|i: int| 0 < i < wire.len() ==> !(#[trigger] wire[i] is Config)
            &&& session.state == SessionState::ConfigSent || session.state
                == SessionState::Streaming || session.state == SessionState::Draining
                ==> wire.len() > 0
            &&& session.state == SessionState::Connecting ==> wire.len() == 0
        }),
{
    lemma_run_consistent(config, events);
}

/// The write half closes only after every frame that the caller enqueued
/// before closing the sink has been written, and nothing is written after
/// it.
pub proof fn lemma_drained_before_write_close<E>(config: RecognitionConfig, events: Seq<Event<E>>)
    ensures
        ({
            let (session, actions) = SessionModel::initial(config).run(events);
            let wire = written(actions);
            &&& session.write_closed ==> sent_frames(actions) == offered(events)
            &&& session.write_closed <==> wire.len() > 0 && wire.last() is End
            &&& forall|i: int| 0 <= i < wire.len() - 1 ==> !(#[trigger] wire[i] is End)
        }),
{
    lemma_run_consistent(config, events);
}

/// At most one action ends the result source, and after it the session
/// neither writes nor delivers anything.
pub proof fn lemma_one_terminal_marker<E>(config: RecognitionConfig, events: Seq<Event<E>>)
    ensures
        ({
            let (session, actions) = SessionModel::initial(config).run(events);
            &&& session.state == SessionState::Closed <==> exists|i: int|
                0 <= i < actions.len() && is_terminal(#[trigger] actions[i])
            &&& forall|i: int, j: int|
                0 <= i < j < actions.len() && is_terminal(#[trigger] actions[i]) ==> is_idle(
                    #[trigger] actions[j],
                )
        }),
{
    lemma_run_consistent(config, events);
}

/// A closed session stays as it is: it writes nothing, delivers nothing and
/// hands every frame back.
pub proof fn lemma_closed_is_final<E>(session: SessionModel, events: Seq<Event<E>>)
    requires
        session.state == SessionState::Closed,
    ensures
        ({
            let (after, actions) = session.run(events);
            &&& after == session
            &&& actions.len() == events.len()
            &&& forall|i: int| 0 <= i < actions.len() ==> is_idle(#[trigger] actions[i])
            &&& written(actions).len() == 0
            &&& sent_frames(actions).len() == 0
        }),
    decreases events.len(),
{
    if events.len() > 0 {
        lemma_closed_is_final(session, events.drop_last());
        let (before, actions) = session.run(events.drop_last());
        let (after, action) = before.step(events.last());
        assert(actions.push(action).drop_last() =~= actions);
    }
}

/// The responses that `events` brought from the service, in order.
pub open spec fn received<E>(events: Seq<Event<E>>) -> Seq<E>
    decreases events.len(),
{
    if events.len() == 0 {
        Seq::empty()
    } else {
        let before = received(events.drop_last());
        match events.last() {
            Event::Message(message) => before.push(message),
            _ => before,
        }
    }
}

/// The responses that `actions` handed to the result source, in order.
pub open spec fn delivered<E>(actions: Seq<Action<E>>) -> Seq<E>
    decreases actions.len(),
{
    if actions.len() == 0 {
        Seq::empty()
    } else {
        let before = delivered(actions.drop_last());
        match actions.last() {
            Action::Deliver(message) => before.push(message),
            _ => before,
        }
    }
}

/// Responses reach the result source in the order they came from the
/// service, each at most once: what has been delivered is the first part
/// of what was received, and all of it while the session lives.
pub proof fn lemma_responses_keep_their_order<E>(config: RecognitionConfig, events: Seq<Event<E>>)
    ensures
        ({
            let (session, actions) = SessionModel::initial(config).run(events);
            &&& delivered(actions).is_prefix_of(received(events))
            &&& session.state != SessionState::Closed ==> delivered(actions) == received(events)
        }),
    decreases events.len(),
{
    if events.len() > 0 {
        let earlier = events.drop_last();
        lemma_responses_keep_their_order(config, earlier);
        let (before, actions) = SessionModel::initial(config).run(earlier);
        let (after, action) = before.step(events.last());
        assert(actions.push(action).drop_last() =~= actions);
        lemma_session_moves_forward(SessionModel::initial(config), earlier);
    }
}

/// The stream is opened with the session's token, once, and before
/// anything is written to it: at most one action asks for the stream to be
/// opened; its authorization is `Bearer`, a space and the first token that
/// was brought; whatever was written was written after it; and without it
/// nothing is written at all.
pub proof fn lemma_stream_opens_with_the_token<E>(config: RecognitionConfig, events: Seq<Event<E>>)
    ensures
        ({
            let (session, actions) = SessionModel::initial(config).run(events);
            &&& opened(actions).len() <= 1
            &&& opened(actions).len() == 1 ==> tokens(events).len() > 0 && opened(actions)[0]
                == bearer_value(tokens(events)[0])
            &&& written(actions).len() > 0 ==> opened(actions).len() == 1
            &&& forall|i: int, j: int|
                0 <= i < actions.len() && 0 <= j < actions.len() && #[trigger] actions[i] is Open
                    && is_write(#[trigger] actions[j]) ==> i < j
        }),
{
    lemma_run_consistent(config, events);
}

/// How far a session has come.
pub open spec fn progress(state: SessionState) -> nat {
    match state {
        SessionState::Connecting => 0,
        SessionState::ConfigSent => 1,
        SessionState::Streaming => 2,
        SessionState::Draining => 3,
        SessionState::Closed => 4,
    }
}

/// A session only moves forward: whatever happens, it stays well formed
/// and never returns to a state it has left.
pub proof fn lemma_session_moves_forward<E>(session: SessionModel, events: Seq<Event<E>>)
    requires
        session.wf(),
    ensures
        session.run(events).0.wf(),
        progress(session.run(events).0.state) >= progress(session.state),
    decreases events.len(),
{
    if events.len() > 0 {
        lemma_session_moves_forward(session, events.drop_last());
    }
}

/// Whether `event` reports a failure of the stream.
pub open spec fn is_failure<E>(event: Event<E>) -> bool {
    event is StreamFailed || event is Malformed
}

/// A failure in the middle of a session ends it: the result source gets
/// one error marker, what was queued is dropped, and whatever follows
/// changes nothing and writes nothing.
pub proof fn lemma_failure_ends_session<E>(
    session: SessionModel,
    failure: Event<E>,
    later: Seq<Event<E>>,
)
    requires
        session.wf(),
        session.state != SessionState::Closed,
        is_failure(failure),
    ensures
        ({
            let (failed, marker) = session.step(failure);
            let (end, actions) = failed.run(later);
            &&& marker == Action::<E>::Abort(
                if failure is StreamFailed {
                    SessionError::Stream
                } else {
                    SessionError::Protocol
                },
            )
            &&& failed.state == SessionState::Closed
            &&& failed.queue.len() == 0
            &&& failed.wf()
            &&& end == failed
            &&& forall|i: int| 0 <= i < actions.len() ==> is_idle(#[trigger] actions[i])
            &&& written(actions).len() == 0
        }),
{
    let (failed, marker) = session.step(failure);
    lemma_closed_is_final(failed, later);
}

/// Whether nothing in `events` ends the session.
pub open spec fn undisturbed<E>(events: Seq<Event<E>>) -> bool {
    forall|i: int|
        0 <= i < events.len() ==> !(#[trigger] events[i] is RemoteClosed) && !is_failure(events[i])
}

/// How often the stream was ready to take a message in `events`.
pub open spec fn ready_count<E>(events: Seq<Event<E>>) -> nat
    decreases events.len(),
{
    if events.len() == 0 {
        0
    } else {
        ready_count(events.drop_last()) + if events.last() is WriteReady {
            1nat
        } else {
            0nat
        }
    }
}

/// The drain: once the stream is open and the sink closed, each time the
/// stream is ready the oldest queued frame is written, and when none is
/// left the write half is closed, as long as nothing ends the session.
pub proof fn lemma_drain_completes<E>(session: SessionModel, events: Seq<Event<E>>)
    requires
        session.wf(),
        session.state == SessionState::ConfigSent || session.state == SessionState::Streaming
            || session.state == SessionState::Draining,
        !session.sink_open,
        !session.write_closed,
        undisturbed(events),
    ensures
        ({
            let (after, actions) = session.run(events);
            let ready = ready_count(events);
            let queued = session.queue.len();
            &&& after.wf()
            &&& after.state == SessionState::ConfigSent || after.state
                == SessionState::Streaming || after.state == SessionState::Draining
            &&& !after.sink_open
            &&& ready <= queued ==> {
                &&& sent_frames(actions) == session.queue.take(ready as int)
                &&& after.queue == session.queue.skip(ready as int)
                &&& !after.write_closed
            }
            &&& ready > queued ==> {
                &&& sent_frames(actions) == session.queue
                &&& after.queue.len() == 0
                &&& after.write_closed
            }
        }),
    decreases events.len(),
{
    if events.len() == 0 {
        assert(session.queue.take(0) =~= Seq::empty());
        assert(session.queue.skip(0) =~= session.queue);
    } else {
        let earlier = events.drop_last();
        assert forall|i: int| 0 <= i < earlier.len() implies !(#[trigger] earlier[i]
            is RemoteClosed) && !is_failure(earlier[i]) by {
            assert(earlier[i] == events[i]);
        }
        lemma_drain_completes(session, earlier);
        let (before, actions) = session.run(earlier);
        let event = events.last();
        assert(!(events[events.len() - 1] is RemoteClosed) && !is_failure(events[events.len() - 1]));
        let (after, action) = before.step(event);
        assert(actions.push(action).drop_last() =~= actions);
        let ready = ready_count(earlier);
        let queued = session.queue.len();
        if event is WriteReady {
            if ready < queued {
                assert(session.queue.skip(ready as int)[0] == session.queue[ready as int]);
                assert(session.queue.take(ready as int).push(session.queue[ready as int])
                    =~= session.queue.take(ready as int + 1));
                assert(session.queue.skip(ready as int).drop_first() =~= session.queue.skip(
                    ready as int + 1,
                ));
            } else if ready == queued {
                assert(session.queue.take(ready as int) =~= session.queue);
            }
        }
    }
}

} // verus!
