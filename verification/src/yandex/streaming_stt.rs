//! The streaming recognition session: one bidirectional stream, an audio
//! queue feeding its write side and the events read from it.
//!
//! The session is a state machine. Whoever owns the network stream reports
//! what happened as a [`SessionEvent`] and carries out the [`SessionAction`]
//! that [`Session::step`] answers with. A session begins by waiting for its
//! access token: with the token it says how to open the stream, and it
//! writes nothing to a stream that was opened without.

use crate::rpc::{bearer, bearer_value};
use crate::yandex::auth::AuthError;
use std::collections::VecDeque;
use vstd::prelude::*;

verus! {

/// How the audio of a session is encoded.
#[derive(Clone, Copy, Debug, PartialEq, Eq)]
pub enum AudioEncoding {
    Unspecified,
    Linear16Pcm,
    OggOpus,
}

impl AudioEncoding {
    /// The number that stands for this encoding on the wire.
    pub open spec fn spec_code(self) -> i32 {
        match self {
            AudioEncoding::Unspecified => 0,
            AudioEncoding::Linear16Pcm => 1,
            AudioEncoding::OggOpus => 2,
        }
    }

    #[verifier::when_used_as_spec(spec_code)]
    pub fn code(self) -> (c: i32)
        ensures
            c == self.spec_code(),
    {
        match self {
            AudioEncoding::Unspecified => 0,
            AudioEncoding::Linear16Pcm => 1,
            AudioEncoding::OggOpus => 2,
        }
    }
}

/// What the service is told about the audio and the wanted results.
#[derive(Debug, PartialEq, Eq)]
pub struct RecognitionSpec {
    pub audio_encoding: i32,
    pub sample_rate_hertz: i64,
    pub language_code: String,
    pub profanity_filter: bool,
    pub model: String,
    pub partial_results: bool,
    pub single_utterance: bool,
    pub audio_channel_count: i64,
    pub raw_results: bool,
}

/// The configuration message of a session.
#[derive(Debug, PartialEq, Eq)]
pub struct RecognitionConfig {
    pub specification: Option<RecognitionSpec>,
    pub folder_id: String,
}

impl RecognitionConfig {
    /// Whether this is the configuration used when the caller gives none:
    /// 8 kHz mono linear PCM, Russian, the general model, partial and raw
    /// results, for the folder `folder_id`.
    pub open spec fn is_default_for(self, folder_id: String) -> bool {
        &&& self.folder_id == folder_id
        &&& self.specification matches Some(spec) && {
            &&& spec.audio_encoding == AudioEncoding::Linear16Pcm.spec_code()
            &&& spec.sample_rate_hertz == 8000
            &&& spec.language_code@ == "ru-RU"@
            &&& !spec.profanity_filter
            &&& spec.model@ == "general:rc"@
            &&& spec.partial_results
            &&& !spec.single_utterance
            &&& spec.audio_channel_count == 1
            &&& spec.raw_results
        }
    }
}

/// The configuration used when the caller gives none.
pub fn default_config(folder_id: String) -> (config: RecognitionConfig)
    ensures
        config.is_default_for(folder_id),
{
    RecognitionConfig {
        specification: Some(
            RecognitionSpec {
                audio_encoding: AudioEncoding::Linear16Pcm.code(),
                sample_rate_hertz: 8000,
                language_code: "ru-RU".to_owned(),
                profanity_filter: false,
                model: "general:rc".to_owned(),
                partial_results: true,
                single_utterance: false,
                audio_channel_count: 1,
                raw_results: true,
            },
        ),
        folder_id,
    }
}

/// Where a session stands in its life.
#[derive(Clone, Copy, Debug, PartialEq, Eq)]
pub enum SessionState {
    /// The session waits for its access token and then for the stream to
    /// open; nothing has been written yet.
    Connecting,
    /// The configuration message has been handed to the stream.
    ConfigSent,
    /// Audio is written as it is enqueued; events are read.
    Streaming,
    /// The caller closed the audio sink; what is queued is still written.
    Draining,
    /// Both directions have ended. A closed session never leaves this state.
    Closed,
}

/// Why a session ended without the service closing its side in order.
#[derive(Clone, Copy, Debug, PartialEq, Eq)]
pub enum SessionError {
    /// No access token could be had for the session.
    Auth(AuthError),
    /// The stream could not be opened.
    Connect,
    /// The network failed in the middle of the session.
    Stream,
    /// The service sent something malformed or unexpected.
    Protocol,
}

/// What happened to a session, as reported by the owner of the stream.
/// `E` is the service's response message, which the session passes on
/// without looking into it.
#[derive(Debug, PartialEq, Eq)]
pub enum SessionEvent<E> {
    /// The access token for the session was obtained.
    Token(String),
    /// No access token could be had.
    TokenRefused(AuthError),
    /// The stream was opened.
    Connected,
    /// Opening the stream failed.
    ConnectFailed,
    /// The caller pushed one audio frame into the sink.
    Enqueue(Vec<u8>),
    /// The caller closed the sink: no more audio will come.
    CloseSink,
    /// The stream can take one more message.
    WriteReady,
    /// The service sent one response.
    Message(E),
    /// The service closed its side.
    RemoteClosed,
    /// The network failed.
    StreamFailed,
    /// The service sent what cannot be read as a response.
    Malformed,
}

/// What the owner of the stream has to do after an event.
#[derive(Debug, PartialEq, Eq)]
pub enum SessionAction<E> {
    /// Nothing.
    Wait,
    /// Open the stream, with this value as its `authorization`.
    Open(String),
    /// Write the configuration message.
    SendConfig(RecognitionConfig),
    /// Write one audio frame.
    SendAudio(Vec<u8>),
    /// Close the write half of the stream.
    CloseWrite,
    /// Hand one response to the result source.
    Deliver(E),
    /// Hand the frame back: the sink no longer takes audio.
    Reject(Vec<u8>),
    /// Put the error marker into the result source and close it.
    Abort(SessionError),
    /// Close the result source: the service is done.
    Finish,
}

/// The status code with which a stream ends when the service sent what
/// cannot be read.
pub const STATUS_INTERNAL: i32 = 13;

/// The event for a stream that ended with the status code `code`: a
/// malformed message where the code says that the answer could not be read,
/// a failure of the network for every other code.
pub fn failure_event<E>(code: i32) -> (event: SessionEvent<E>)
    ensures
        event@ == if code == STATUS_INTERNAL {
            Event::<E>::Malformed
        } else {
            Event::<E>::StreamFailed
        },
{
    if code == STATUS_INTERNAL {
        SessionEvent::Malformed
    } else {
        SessionEvent::StreamFailed
    }
}

impl<E> SessionAction<E> {
    /// Whether this action ends the result source: after it the session is
    /// closed.
    pub fn ends_session(&self) -> (ends: bool)
        ensures
            ends == (self@ is Abort || self@ is Finish),
    {
        match self {
            SessionAction::Abort(_) => true,
            SessionAction::Finish => true,
            _ => false,
        }
    }
}

/// The mathematical content of a [`SessionEvent`].
pub enum Event<E> {
    Token(Seq<char>),
    TokenRefused(AuthError),
    Connected,
    ConnectFailed,
    Enqueue(Seq<u8>),
    CloseSink,
    WriteReady,
    Message(E),
    RemoteClosed,
    StreamFailed,
    Malformed,
}

/// The mathematical content of a [`SessionAction`].
pub enum Action<E> {
    Wait,
    Open(Seq<char>),
    SendConfig(RecognitionConfig),
    SendAudio(Seq<u8>),
    CloseWrite,
    Deliver(E),
    Reject(Seq<u8>),
    Abort(SessionError),
    Finish,
}

impl<E> View for SessionEvent<E> {
    type V = Event<E>;

    open spec fn view(&self) -> Event<E> {
        match *self {
            SessionEvent::Token(token) => Event::Token(token@),
            SessionEvent::TokenRefused(error) => Event::TokenRefused(error),
            SessionEvent::Connected => Event::Connected,
            SessionEvent::ConnectFailed => Event::ConnectFailed,
            SessionEvent::Enqueue(frame) => Event::Enqueue(frame@),
            SessionEvent::CloseSink => Event::CloseSink,
            SessionEvent::WriteReady => Event::WriteReady,
            SessionEvent::Message(m) => Event::Message(m),
            SessionEvent::RemoteClosed => Event::RemoteClosed,
            SessionEvent::StreamFailed => Event::StreamFailed,
            SessionEvent::Malformed => Event::Malformed,
        }
    }
}

impl<E> View for SessionAction<E> {
    type V = Action<E>;

    open spec fn view(&self) -> Action<E> {
        match *self {
            SessionAction::Wait => Action::Wait,
            SessionAction::Open(authorization) => Action::Open(authorization@),
            SessionAction::SendConfig(config) => Action::SendConfig(config),
            SessionAction::SendAudio(frame) => Action::SendAudio(frame@),
            SessionAction::CloseWrite => Action::CloseWrite,
            SessionAction::Deliver(m) => Action::Deliver(m),
            SessionAction::Reject(frame) => Action::Reject(frame@),
            SessionAction::Abort(error) => Action::Abort(error),
            SessionAction::Finish => Action::Finish,
        }
    }
}

/// The mathematical content of a list of events.
pub open spec fn events_view<E>(events: Seq<SessionEvent<E>>) -> Seq<Event<E>> {
    events.map_values(|event: SessionEvent<E>| event@)
}

/// The mathematical content of a list of actions.
pub open spec fn actions_view<E>(actions: Seq<SessionAction<E>>) -> Seq<Action<E>> {
    actions.map_values(|action: SessionAction<E>| action@)
}

/// The mathematical content of a [`Session`].
pub struct SessionModel {
    pub state: SessionState,
    /// The configuration, until it has been sent.
    pub config: Option<RecognitionConfig>,
    /// The frames that were enqueued and not yet written, oldest first.
    pub queue: Seq<Seq<u8>>,
    /// Whether the sink still takes audio.
    pub sink_open: bool,
    /// Whether the write half has been closed.
    pub write_closed: bool,
    /// Whether the session has been given its access token.
    pub authorized: bool,
}

impl SessionModel {
    /// A session that has just been started with `config`.
    pub open spec fn initial(config: RecognitionConfig) -> SessionModel {
        SessionModel {
            state: SessionState::Connecting,
            config: Some(config),
            queue: Seq::empty(),
            sink_open: true,
            write_closed: false,
            authorized: false,
        }
    }

    /// What every session that was started and then only stepped satisfies.
    pub open spec fn wf(self) -> bool {
        &&& self.state == SessionState::Connecting ==> self.config is Some
        &&& self.state != SessionState::Connecting && self.state != SessionState::Closed
            ==> self.authorized
        &&& self.state == SessionState::Streaming ==> self.sink_open
        &&& self.state == SessionState::Draining ==> !self.sink_open
        &&& self.state == SessionState::Closed ==> !self.sink_open && self.queue.len() == 0
        &&& self.write_closed ==> self.queue.len() == 0 && !self.sink_open && (self.state
            == SessionState::Draining || self.state == SessionState::Closed)
    }

    /// The session after it has ended for good: nothing queued, sink shut.
    pub open spec fn closed(self) -> SessionModel {
        SessionModel {
            state: SessionState::Closed,
            config: None,
            queue: Seq::empty(),
            sink_open: false,
            ..self
        }
    }

    /// A session whose configuration has been written is streaming, or
    /// draining if the sink was closed meanwhile.
    pub open spec fn settled(self) -> SessionModel {
        if self.state == SessionState::ConfigSent {
            SessionModel {
                state: if self.sink_open {
                    SessionState::Streaming
                } else {
                    SessionState::Draining
                },
                ..self
            }
        } else {
            self
        }
    }

    /// The session and the action after one event.
    pub open spec fn step<E>(self, event: Event<E>) -> (SessionModel, Action<E>) {
        match self.state {
            SessionState::Closed => match event {
                Event::Enqueue(frame) => (self, Action::Reject(frame)),
                _ => (self, Action::Wait),
            },
            SessionState::Connecting => match event {
                Event::Token(token) => if self.authorized {
                    (self, Action::Wait)
                } else {
                    (SessionModel { authorized: true, ..self }, Action::Open(bearer_value(token)))
                },
                Event::TokenRefused(error) => if self.authorized {
                    (self, Action::Wait)
                } else {
                    (self.closed(), Action::Abort(SessionError::Auth(error)))
                },
                Event::Connected => match self.config {
                    Some(config) => if self.authorized {
                        (
                            SessionModel { state: SessionState::ConfigSent, config: None, ..self },
                            Action::SendConfig(config),
                        )
                    } else {
                        (self.closed(), Action::Abort(SessionError::Protocol))
                    },
                    None => (self.closed(), Action::Abort(SessionError::Protocol)),
                },
                Event::ConnectFailed => (self.closed(), Action::Abort(SessionError::Connect)),
                Event::Enqueue(frame) => if self.sink_open {
                    (SessionModel { queue: self.queue.push(frame), ..self }, Action::Wait)
                } else {
                    (self, Action::Reject(frame))
                },
                Event::CloseSink => (SessionModel { sink_open: false, ..self }, Action::Wait),
                Event::WriteReady => (self, Action::Wait),
                Event::StreamFailed => (self.closed(), Action::Abort(SessionError::Stream)),
                Event::Message(_) | Event::RemoteClosed | Event::Malformed => (
                    self.closed(),
                    Action::Abort(SessionError::Protocol),
                ),
            },
            _ => self.settled().step_open(event),
        }
    }

    /// One event on a session that is streaming or draining.
    pub open spec fn step_open<E>(self, event: Event<E>) -> (SessionModel, Action<E>) {
        match event {
            Event::Enqueue(frame) => if self.sink_open {
                (SessionModel { queue: self.queue.push(frame), ..self }, Action::Wait)
            } else {
                (self, Action::Reject(frame))
            },
            Event::CloseSink => (
                SessionModel { state: SessionState::Draining, sink_open: false, ..self },
                Action::Wait,
            ),
            Event::WriteReady => if self.queue.len() > 0 {
                (
                    SessionModel { queue: self.queue.drop_first(), ..self },
                    Action::SendAudio(self.queue[0]),
                )
            } else if !self.sink_open && !self.write_closed {
                (SessionModel { write_closed: true, ..self }, Action::CloseWrite)
            } else {
                (self, Action::Wait)
            },
            Event::Message(m) => (self, Action::Deliver(m)),
            Event::RemoteClosed => (self.closed(), Action::Finish),
            Event::StreamFailed => (self.closed(), Action::Abort(SessionError::Stream)),
            Event::Malformed => (self.closed(), Action::Abort(SessionError::Protocol)),
            Event::Connected | Event::ConnectFailed | Event::Token(_) | Event::TokenRefused(_) => (
                self,
                Action::Wait,
            ),
        }
    }

    /// The session and the actions, in order, after a sequence of events.
    pub open spec fn run<E>(self, events: Seq<Event<E>>) -> (SessionModel, Seq<Action<E>>)
        decreases events.len(),
    {
        if events.len() == 0 {
            (self, Seq::empty())
        } else {
            let (before, actions) = self.run(events.drop_last());
            let (after, action) = before.step(events.last());
            (after, actions.push(action))
        }
    }
}

/// One recognition session.
pub struct Session {
    state: SessionState,
    config: Option<RecognitionConfig>,
    queue: VecDeque<Vec<u8>>,
    sink_open: bool,
    write_closed: bool,
    authorized: bool,
}

impl View for Session {
    type V = SessionModel;

    closed spec fn view(&self) -> SessionModel {
        SessionModel {
            state: self.state,
            config: self.config,
            queue: Seq::new(self.queue@.len(), |i: int| self.queue@[i]@),
            sink_open: self.sink_open,
            write_closed: self.write_closed,
            authorized: self.authorized,
        }
    }
}

impl Session {
    /// Every session is well formed.
    #[verifier::type_invariant]
    pub open spec fn inv(&self) -> bool {
        self@.wf()
    }

    /// Starts a session: nothing is queued and nothing has been written.
    pub fn new(config: RecognitionConfig) -> (session: Session)
        ensures
            session@ == SessionModel::initial(config),
    {
        let session = Session {
            state: SessionState::Connecting,
            config: Some(config),
            queue: VecDeque::new(),
            sink_open: true,
            write_closed: false,
            authorized: false,
        };
        assert(session@.queue =~= Seq::empty());
        session
    }

    /// Where the session stands.
    pub fn state(&self) -> (state: SessionState)
        ensures
            state == self@.state,
    {
        self.state
    }

    /// How many frames wait to be written.
    pub fn pending(&self) -> (n: usize)
        ensures
            n == self@.queue.len(),
    {
        self.queue.len()
    }

    /// Takes one event and says what to do about it.
    pub fn step<E>(&mut self, event: SessionEvent<E>) -> (action: SessionAction<E>)
        ensures
            final(self)@ == old(self)@.step(event@).0,
            action@ == old(self)@.step::<E>(event@).1,
            old(self)@.wf(),
            final(self)@.wf(),
    {
        proof {
            use_type_invariant(&*self);
        }
        // The session is taken out, advanced and put back as a whole, so
        // that it is well formed at every moment.
        let mut taken = Session::ended();
        std::mem::swap(self, &mut taken);
        let (next, action) = taken.advance(event);
        *self = next;
        action
    }

    /// Takes the events one after the other and collects the actions that
    /// answer them.
    pub fn run<E>(&mut self, events: Vec<SessionEvent<E>>) -> (actions: Vec<SessionAction<E>>)
        ensures
            final(self)@ == old(self)@.run(events_view(events@)).0,
            actions_view(actions@) == old(self)@.run(events_view(events@)).1,
    {
        let ghost start = self@;
        let ghost all = events_view(events@);
        let mut actions: Vec<SessionAction<E>> = Vec::new();
        assert(all.take(0) =~= Seq::empty());
        assert(actions_view(actions@) =~= Seq::empty());
        for event in it: events
            invariant
                all == events_view(it.seq()),
                self@ == start.run(all.take(it.index() as int)).0,
                actions_view(actions@) == start.run(all.take(it.index() as int)).1,
        {
            let ghost done = actions_view(actions@);
            let ghost seen = all.take(it.index() as int);
            let action = self.step(event);
            actions.push(action);
            proof {
                let longer = all.take(it.index() + 1);
                assert(longer.drop_last() =~= seen);
                assert(longer.last() == event@);
                assert(actions_view(actions@) =~= done.push(action@));
            }
        }
        assert(all.take(all.len() as int) =~= all);
        actions
    }

    /// A session that is over.
    fn ended() -> (session: Session)
        ensures
            session@.state == SessionState::Closed,
    {
        let session = Session {
            state: SessionState::Closed,
            config: None,
            queue: VecDeque::new(),
            sink_open: false,
            write_closed: false,
            authorized: false,
        };
        assert(session@.queue =~= Seq::empty());
        session
    }

    /// The session after `event`, and the action that answers it.
    fn advance<E>(self, event: SessionEvent<E>) -> (next: (Session, SessionAction<E>))
        ensures
            next.0@ == self@.step(event@).0,
            next.1@ == self@.step::<E>(event@).1,
            next.0@.wf(),
    {
        proof {
            use_type_invariant(&self);
        }
        let ghost before = self@;
        let Session { state, config, queue, sink_open, write_closed, authorized } = self;
        let mut queue = queue;
        let ghost frames = Seq::new(queue@.len(), |i: int| queue@[i]@);
        assert(frames == before.queue);
        match state {
            SessionState::Closed => {
                let action = match event {
                    SessionEvent::Enqueue(frame) => SessionAction::Reject(frame),
                    _ => SessionAction::Wait,
                };
                (Session { state, config, queue, sink_open, write_closed, authorized }, action)
            },
            SessionState::Connecting => match event {
                SessionEvent::Token(token) => {
                    if authorized {
                        (
                            Session { state, config, queue, sink_open, write_closed, authorized },
                            SessionAction::Wait,
                        )
                    } else {
                        (
                            Session {
                                state,
                                config,
                                queue,
                                sink_open,
                                write_closed,
                                authorized: true,
                            },
                            SessionAction::Open(bearer(token.as_str())),
                        )
                    }
                },
                SessionEvent::TokenRefused(error) => {
                    if authorized {
                        (
                            Session { state, config, queue, sink_open, write_closed, authorized },
                            SessionAction::Wait,
                        )
                    } else {
                        (
                            Session::over(write_closed, authorized),
                            SessionAction::Abort(SessionError::Auth(error)),
                        )
                    }
                },
                SessionEvent::Connected => match config {
                    Some(config) => {
                        if authorized {
                            (
                                Session {
                                    state: SessionState::ConfigSent,
                                    config: None,
                                    queue,
                                    sink_open,
                                    write_closed,
                                    authorized,
                                },
                                SessionAction::SendConfig(config),
                            )
                        } else {
                            (
                                Session::over(write_closed, authorized),
                                SessionAction::Abort(SessionError::Protocol),
                            )
                        }
                    },
                    None => (
                        Session::over(write_closed, authorized),
                        SessionAction::Abort(SessionError::Protocol),
                    ),
                },
                SessionEvent::ConnectFailed => (
                    Session::over(write_closed, authorized),
                    SessionAction::Abort(SessionError::Connect),
                ),
                SessionEvent::Enqueue(frame) => {
                    if sink_open {
                        queue.push_back(frame);
                        assert(Seq::new(queue@.len(), |i: int| queue@[i]@) =~= frames.push(frame@));
                        (
                            Session { state, config, queue, sink_open, write_closed, authorized },
                            SessionAction::Wait,
                        )
                    } else {
                        (
                            Session { state, config, queue, sink_open, write_closed, authorized },
                            SessionAction::Reject(frame),
                        )
                    }
                },
                SessionEvent::CloseSink => (
                    Session { state, config, queue, sink_open: false, write_closed, authorized },
                    SessionAction::Wait,
                ),
                SessionEvent::WriteReady => (
                    Session { state, config, queue, sink_open, write_closed, authorized },
                    SessionAction::Wait,
                ),
                SessionEvent::StreamFailed => (
                    Session::over(write_closed, authorized),
                    SessionAction::Abort(SessionError::Stream),
                ),
                SessionEvent::Message(_) | SessionEvent::RemoteClosed | SessionEvent::Malformed => (
                    Session::over(write_closed, authorized),
                    SessionAction::Abort(SessionError::Protocol),
                ),
            },
            _ => {
                let state = match state {
                    SessionState::ConfigSent => if sink_open {
                        SessionState::Streaming
                    } else {
                        SessionState::Draining
                    },
                    _ => state,
                };
                match event {
                    SessionEvent::Enqueue(frame) => {
                        if sink_open {
                            queue.push_back(frame);
                            assert(Seq::new(queue@.len(), |i: int| queue@[i]@) =~= frames.push(
                                frame@,
                            ));
                            (
                                Session { state, config, queue, sink_open, write_closed, authorized },
                                SessionAction::Wait,
                            )
                        } else {
                            (
                                Session { state, config, queue, sink_open, write_closed, authorized },
                                SessionAction::Reject(frame),
                            )
                        }
                    },
                    SessionEvent::CloseSink => (
                        Session {
                            state: SessionState::Draining,
                            config,
                            queue,
                            sink_open: false,
                            write_closed,
                            authorized,
                        },
                        SessionAction::Wait,
                    ),
                    SessionEvent::WriteReady => match queue.pop_front() {
                        Some(frame) => {
                            assert(Seq::new(queue@.len(), |i: int| queue@[i]@)
                                =~= frames.drop_first());
                            (
                                Session { state, config, queue, sink_open, write_closed, authorized },
                                SessionAction::SendAudio(frame),
                            )
                        },
                        None => {
                            assert(Seq::new(queue@.len(), |i: int| queue@[i]@) =~= frames);
                            if !sink_open && !write_closed {
                                (
                                    Session { state, config, queue, sink_open, write_closed: true, authorized },
                                    SessionAction::CloseWrite,
                                )
                            } else {
                                (
                                    Session { state, config, queue, sink_open, write_closed, authorized },
                                    SessionAction::Wait,
                                )
                            }
                        },
                    },
                    SessionEvent::Message(m) => (
                        Session { state, config, queue, sink_open, write_closed, authorized },
                        SessionAction::Deliver(m),
                    ),
                    SessionEvent::RemoteClosed => (Session::over(write_closed, authorized), SessionAction::Finish),
                    SessionEvent::StreamFailed => (
                        Session::over(write_closed, authorized),
                        SessionAction::Abort(SessionError::Stream),
                    ),
                    SessionEvent::Malformed => (
                        Session::over(write_closed, authorized),
                        SessionAction::Abort(SessionError::Protocol),
                    ),
                    SessionEvent::Connected | SessionEvent::ConnectFailed | SessionEvent::Token(_)
                    | SessionEvent::TokenRefused(_) => (
                        Session { state, config, queue, sink_open, write_closed, authorized },
                        SessionAction::Wait,
                    ),
                }
            },
        }
    }

    /// A session that has ended: what was queued is dropped.
    fn over(write_closed: bool, authorized: bool) -> (session: Session)
        ensures
            session@ == (SessionModel {
                state: SessionState::Closed,
                config: None,
                queue: Seq::empty(),
                sink_open: false,
                write_closed,
                authorized,
            }),
    {
        let session = Session {
            state: SessionState::Closed,
            config: None,
            queue: VecDeque::new(),
            sink_open: false,
            write_closed,
            authorized,
        };
        assert(session@.queue =~= Seq::empty());
        session
    }
}

/// Starts a recognition session with `config`, or with the default
/// configuration for `folder_id` where the caller gives none. The session
/// waits for its access token and then for the stream to open; nothing has
/// been queued or written.
pub fn streaming_recognize(config: Option<RecognitionConfig>, folder_id: String) -> (session:
    Session)
    ensures
        session@.config matches Some(used) && session@ == SessionModel::initial(used) && match config {
            Some(given) => used == given,
            None => used.is_default_for(folder_id),
        },
{
    let config = match config {
        Some(config) => config,
        None => default_config(folder_id),
    };
    Session::new(config)
}

} // verus!
