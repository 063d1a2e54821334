use cloud_bridge::yandex::auth::AuthError;
use cloud_bridge::yandex::streaming_stt::{
    default_config, failure_event, streaming_recognize, AudioEncoding, RecognitionConfig,
    RecognitionSpec, Session, SessionAction, SessionError, SessionEvent, SessionState,
    STATUS_INTERNAL,
};

fn config() -> RecognitionConfig {
    default_config("folder".to_string())
}

fn authorize(session: &mut Session) {
    assert_eq!(
        session.step::<()>(SessionEvent::Token("tok".to_string())),
        SessionAction::Open("Bearer tok".to_string())
    );
}

fn connected() -> Session {
    let mut session = Session::new(config());
    authorize(&mut session);
    assert_eq!(session.step::<()>(SessionEvent::Connected), SessionAction::SendConfig(config()));
    session
}

#[test]
fn default_config_is_8khz_russian() {
    let config = default_config("b1g".to_string());
    assert_eq!(
        config,
        RecognitionConfig {
            specification: Some(RecognitionSpec {
                audio_encoding: 1,
                sample_rate_hertz: 8000,
                language_code: "ru-RU".to_string(),
                profanity_filter: false,
                model: "general:rc".to_string(),
                partial_results: true,
                single_utterance: false,
                audio_channel_count: 1,
                raw_results: true,
            }),
            folder_id: "b1g".to_string(),
        }
    );
}

#[test]
fn audio_encoding_codes() {
    assert_eq!(AudioEncoding::Unspecified.code(), 0);
    assert_eq!(AudioEncoding::Linear16Pcm.code(), 1);
    assert_eq!(AudioEncoding::OggOpus.code(), 2);
}

#[test]
fn streaming_recognize_uses_given_config() {
    let given = RecognitionConfig { specification: None, folder_id: "mine".to_string() };
    let mut session = streaming_recognize(
        Some(RecognitionConfig { specification: None, folder_id: "mine".to_string() }),
        "other".to_string(),
    );
    assert_eq!(session.state(), SessionState::Connecting);
    assert_eq!(session.pending(), 0);
    authorize(&mut session);
    assert_eq!(session.state(), SessionState::Connecting);
    assert_eq!(session.step::<()>(SessionEvent::Connected), SessionAction::SendConfig(given));
}

#[test]
fn streaming_recognize_falls_back_to_default_config() {
    let mut session = streaming_recognize(None, "folder".to_string());
    authorize(&mut session);
    assert_eq!(session.step::<()>(SessionEvent::Connected), SessionAction::SendConfig(config()));
    assert_eq!(session.state(), SessionState::ConfigSent);
}

#[test]
fn session_sends_config_then_frames_then_closes() {
    let mut session = streaming_recognize(None, "folder".to_string());
    let f1 = vec![1u8, 2];
    let f2 = vec![3u8];
    let f3 = vec![4u8, 5, 6];
    authorize(&mut session);
    assert_eq!(session.step::<()>(SessionEvent::Connected), SessionAction::SendConfig(config()));
    assert_eq!(session.step::<()>(SessionEvent::Enqueue(f1.clone())), SessionAction::Wait);
    assert_eq!(session.state(), SessionState::Streaming);
    assert_eq!(session.step::<()>(SessionEvent::Enqueue(f2.clone())), SessionAction::Wait);
    assert_eq!(session.step::<()>(SessionEvent::Enqueue(f3.clone())), SessionAction::Wait);
    assert_eq!(session.pending(), 3);
    assert_eq!(session.step::<()>(SessionEvent::CloseSink), SessionAction::Wait);
    assert_eq!(session.state(), SessionState::Draining);
    assert_eq!(session.step::<()>(SessionEvent::WriteReady), SessionAction::SendAudio(f1));
    assert_eq!(session.step::<()>(SessionEvent::WriteReady), SessionAction::SendAudio(f2));
    assert_eq!(session.step::<()>(SessionEvent::WriteReady), SessionAction::SendAudio(f3));
    assert_eq!(session.step::<()>(SessionEvent::WriteReady), SessionAction::CloseWrite);
    assert_eq!(session.step::<()>(SessionEvent::WriteReady), SessionAction::Wait);
    assert_eq!(session.state(), SessionState::Draining);
    assert_eq!(session.step::<()>(SessionEvent::RemoteClosed), SessionAction::Finish);
    assert_eq!(session.state(), SessionState::Closed);
}

#[test]
fn frames_keep_their_order() {
    let mut session = connected();
    let frames: Vec<Vec<u8>> = (0u8..20).map(|i| vec![i, i.wrapping_mul(3)]).collect();
    let mut written = Vec::new();
    for (i, frame) in frames.iter().enumerate() {
        assert_eq!(session.step::<()>(SessionEvent::Enqueue(frame.clone())), SessionAction::Wait);
        if i % 3 == 0 {
            match session.step::<()>(SessionEvent::WriteReady) {
                SessionAction::SendAudio(sent) => written.push(sent),
                other => panic!("unexpected action {:?}", other),
            }
        }
    }
    loop {
        match session.step::<()>(SessionEvent::WriteReady) {
            SessionAction::SendAudio(sent) => written.push(sent),
            SessionAction::Wait => break,
            other => panic!("unexpected action {:?}", other),
        }
    }
    assert_eq!(written, frames);
    assert_eq!(session.pending(), 0);
    assert_eq!(session.state(), SessionState::Streaming);
}

#[test]
fn config_is_first_however_many_frames_are_queued() {
    let mut session = Session::new(config());
    for i in 0u8..5 {
        assert_eq!(session.step::<()>(SessionEvent::Enqueue(vec![i])), SessionAction::Wait);
    }
    assert_eq!(session.step::<()>(SessionEvent::WriteReady), SessionAction::Wait);
    assert_eq!(session.pending(), 5);
    assert_eq!(session.state(), SessionState::Connecting);
    authorize(&mut session);
    assert_eq!(session.pending(), 5);
    assert_eq!(session.step::<()>(SessionEvent::Connected), SessionAction::SendConfig(config()));
    assert_eq!(session.state(), SessionState::ConfigSent);
    assert_eq!(session.step::<()>(SessionEvent::WriteReady), SessionAction::SendAudio(vec![0]));
    assert_eq!(session.state(), SessionState::Streaming);
    assert_eq!(session.step::<()>(SessionEvent::Connected), SessionAction::Wait);
    assert_eq!(session.step::<()>(SessionEvent::WriteReady), SessionAction::SendAudio(vec![1]));
}

#[test]
fn sink_closed_before_connecting_still_drains() {
    let mut session = Session::new(config());
    assert_eq!(session.step::<()>(SessionEvent::Enqueue(vec![9])), SessionAction::Wait);
    assert_eq!(session.step::<()>(SessionEvent::CloseSink), SessionAction::Wait);
    assert_eq!(session.state(), SessionState::Connecting);
    assert_eq!(session.step::<()>(SessionEvent::Enqueue(vec![8])), SessionAction::Reject(vec![8]));
    authorize(&mut session);
    assert_eq!(session.step::<()>(SessionEvent::Connected), SessionAction::SendConfig(config()));
    assert_eq!(session.step::<()>(SessionEvent::WriteReady), SessionAction::SendAudio(vec![9]));
    assert_eq!(session.state(), SessionState::Draining);
    assert_eq!(session.step::<()>(SessionEvent::WriteReady), SessionAction::CloseWrite);
}

#[test]
fn events_are_delivered_as_they_come() {
    let mut session = connected();
    assert_eq!(session.step(SessionEvent::Message("a")), SessionAction::Deliver("a"));
    assert_eq!(session.step(SessionEvent::Message("b")), SessionAction::Deliver("b"));
    assert_eq!(session.step::<&str>(SessionEvent::CloseSink), SessionAction::Wait);
    assert_eq!(session.step::<&str>(SessionEvent::WriteReady), SessionAction::CloseWrite);
    assert_eq!(session.step(SessionEvent::Message("c")), SessionAction::Deliver("c"));
    assert_eq!(session.step::<&str>(SessionEvent::RemoteClosed), SessionAction::Finish);
    assert_eq!(session.step(SessionEvent::Message("d")), SessionAction::Wait);
}

#[test]
fn connect_failure_closes_with_error_marker() {
    let mut session = Session::new(config());
    assert_eq!(session.step::<()>(SessionEvent::Enqueue(vec![1])), SessionAction::Wait);
    assert_eq!(
        session.step::<()>(SessionEvent::ConnectFailed),
        SessionAction::Abort(SessionError::Connect)
    );
    assert_eq!(session.state(), SessionState::Closed);
    assert_eq!(session.pending(), 0);
    assert_eq!(session.step::<()>(SessionEvent::Connected), SessionAction::Wait);
    assert_eq!(session.step::<()>(SessionEvent::WriteReady), SessionAction::Wait);
}

#[test]
fn stream_error_ends_the_session() {
    let mut session = connected();
    assert_eq!(session.step::<()>(SessionEvent::Enqueue(vec![1])), SessionAction::Wait);
    assert_eq!(session.step::<()>(SessionEvent::Enqueue(vec![2])), SessionAction::Wait);
    assert_eq!(session.step::<()>(SessionEvent::WriteReady), SessionAction::SendAudio(vec![1]));
    assert_eq!(
        session.step::<()>(SessionEvent::StreamFailed),
        SessionAction::Abort(SessionError::Stream)
    );
    assert_eq!(session.state(), SessionState::Closed);
    assert_eq!(session.pending(), 0);
    assert_eq!(session.step::<()>(SessionEvent::WriteReady), SessionAction::Wait);
    assert_eq!(session.step::<()>(SessionEvent::StreamFailed), SessionAction::Wait);
    assert_eq!(session.step::<()>(SessionEvent::RemoteClosed), SessionAction::Wait);
    assert_eq!(session.step::<()>(SessionEvent::Message(())), SessionAction::Wait);
    assert_eq!(session.step::<()>(SessionEvent::Enqueue(vec![3])), SessionAction::Reject(vec![3]));
    assert_eq!(session.step::<()>(SessionEvent::CloseSink), SessionAction::Wait);
    assert_eq!(session.state(), SessionState::Closed);
}

#[test]
fn malformed_message_is_a_protocol_error() {
    let mut session = connected();
    assert_eq!(
        session.step::<()>(SessionEvent::Malformed),
        SessionAction::Abort(SessionError::Protocol)
    );
    assert_eq!(session.state(), SessionState::Closed);
}

#[test]
fn message_before_the_stream_opened_is_a_protocol_error() {
    let mut session = Session::new(config());
    assert_eq!(
        session.step(SessionEvent::Message(1u8)),
        SessionAction::Abort(SessionError::Protocol)
    );
    assert_eq!(session.state(), SessionState::Closed);
}

#[test]
fn stream_error_while_connecting() {
    let mut session = Session::new(config());
    assert_eq!(
        session.step::<()>(SessionEvent::StreamFailed),
        SessionAction::Abort(SessionError::Stream)
    );
    assert_eq!(session.state(), SessionState::Closed);
}

#[test]
fn remote_close_drops_what_is_queued() {
    let mut session = connected();
    assert_eq!(session.step::<()>(SessionEvent::Enqueue(vec![1])), SessionAction::Wait);
    assert_eq!(session.step::<()>(SessionEvent::RemoteClosed), SessionAction::Finish);
    assert_eq!(session.pending(), 0);
    assert_eq!(session.step::<()>(SessionEvent::WriteReady), SessionAction::Wait);
}

#[test]
fn closing_the_sink_twice_closes_the_write_half_once() {
    let mut session = connected();
    assert_eq!(session.step::<()>(SessionEvent::CloseSink), SessionAction::Wait);
    assert_eq!(session.step::<()>(SessionEvent::CloseSink), SessionAction::Wait);
    assert_eq!(session.step::<()>(SessionEvent::WriteReady), SessionAction::CloseWrite);
    assert_eq!(session.step::<()>(SessionEvent::CloseSink), SessionAction::Wait);
    assert_eq!(session.step::<()>(SessionEvent::WriteReady), SessionAction::Wait);
    assert_eq!(session.step::<()>(SessionEvent::Enqueue(vec![1])), SessionAction::Reject(vec![1]));
}

#[test]
fn status_codes_become_events() {
    assert_eq!(STATUS_INTERNAL, 13);
    assert_eq!(failure_event::<()>(13), SessionEvent::Malformed);
    assert_eq!(failure_event::<()>(14), SessionEvent::StreamFailed);
    assert_eq!(failure_event::<()>(0), SessionEvent::StreamFailed);
    assert_eq!(failure_event::<()>(-1), SessionEvent::StreamFailed);
    assert_eq!(failure_event::<()>(i32::MAX), SessionEvent::StreamFailed);
}

#[test]
fn abort_and_finish_end_the_session() {
    assert!(SessionAction::<()>::Abort(SessionError::Connect).ends_session());
    assert!(SessionAction::<()>::Abort(SessionError::Stream).ends_session());
    assert!(SessionAction::<()>::Abort(SessionError::Protocol).ends_session());
    assert!(SessionAction::<()>::Finish.ends_session());
    assert!(!SessionAction::<()>::Wait.ends_session());
    assert!(!SessionAction::<()>::CloseWrite.ends_session());
    assert!(!SessionAction::Deliver(1).ends_session());
    assert!(!SessionAction::<()>::SendAudio(vec![]).ends_session());
    assert!(!SessionAction::<()>::Reject(vec![1]).ends_session());
    assert!(!SessionAction::<()>::SendConfig(config()).ends_session());
    assert!(!SessionAction::<()>::Open("Bearer x".to_string()).ends_session());
    assert!(SessionAction::<()>::Abort(SessionError::Auth(AuthError::Exchange)).ends_session());
}

#[test]
fn run_answers_each_event_in_turn() {
    let mut session = Session::new(RecognitionConfig {
        specification: Some(RecognitionSpec {
            audio_encoding: 1,
            sample_rate_hertz: 8000,
            language_code: "ru-RU".to_string(),
            profanity_filter: false,
            model: "general".to_string(),
            partial_results: false,
            single_utterance: false,
            audio_channel_count: 1,
            raw_results: false,
        }),
        folder_id: String::new(),
    });
    let (f1, f2, f3) = (vec![1u8], vec![2u8, 2], vec![3u8, 3, 3]);
    let actions = session.run(vec![
        SessionEvent::Token("t1.abc".to_string()),
        SessionEvent::Connected,
        SessionEvent::Enqueue(f1.clone()),
        SessionEvent::Enqueue(f2.clone()),
        SessionEvent::Enqueue(f3.clone()),
        SessionEvent::CloseSink,
        SessionEvent::WriteReady,
        SessionEvent::Message("partial"),
        SessionEvent::WriteReady,
        SessionEvent::WriteReady,
        SessionEvent::WriteReady,
        SessionEvent::Message("final"),
        SessionEvent::RemoteClosed,
    ]);
    let written: Vec<&SessionAction<&str>> = actions
        .iter()
        .filter(|a| {
            matches!(
                a,
                SessionAction::SendConfig(_) | SessionAction::SendAudio(_) | SessionAction::CloseWrite
            )
        })
        .collect();
    assert_eq!(written.len(), 5);
    assert!(matches!(written[0], SessionAction::SendConfig(c) if c.specification.as_ref().unwrap().language_code == "ru-RU" && c.specification.as_ref().unwrap().sample_rate_hertz == 8000));
    assert_eq!(written[1], &SessionAction::SendAudio(f1));
    assert_eq!(written[2], &SessionAction::SendAudio(f2));
    assert_eq!(written[3], &SessionAction::SendAudio(f3));
    assert_eq!(written[4], &SessionAction::CloseWrite);
    assert_eq!(actions.len(), 13);
    assert_eq!(actions[0], SessionAction::Open("Bearer t1.abc".to_string()));
    assert_eq!(actions[7], SessionAction::Deliver("partial"));
    assert_eq!(actions[11], SessionAction::Deliver("final"));
    assert_eq!(actions[12], SessionAction::Finish);
    assert_eq!(session.state(), SessionState::Closed);
    assert_eq!(session.run::<&str>(vec![]), vec![]);
}

#[test]
fn run_after_an_error_only_waits_and_rejects() {
    let mut session = connected();
    let actions = session.run::<u8>(vec![
        SessionEvent::Enqueue(vec![1]),
        SessionEvent::StreamFailed,
        SessionEvent::WriteReady,
        SessionEvent::Message(5),
        SessionEvent::Enqueue(vec![2]),
        SessionEvent::Malformed,
        SessionEvent::ConnectFailed,
    ]);
    assert_eq!(
        actions,
        vec![
            SessionAction::Wait,
            SessionAction::Abort(SessionError::Stream),
            SessionAction::Wait,
            SessionAction::Wait,
            SessionAction::Reject(vec![2]),
            SessionAction::Wait,
            SessionAction::Wait,
        ]
    );
    assert_eq!(actions.iter().filter(|a| a.ends_session()).count(), 1);
}

#[test]
fn the_stream_is_opened_with_the_bearer_of_the_token() {
    let mut session = Session::new(config());
    assert_eq!(
        session.step::<()>(SessionEvent::Token("abc.def-123".to_string())),
        SessionAction::Open("Bearer abc.def-123".to_string())
    );
    assert_eq!(session.state(), SessionState::Connecting);
    assert_eq!(session.step::<()>(SessionEvent::Token("other".to_string())), SessionAction::Wait);
    assert_eq!(
        session.step::<()>(SessionEvent::TokenRefused(AuthError::Exchange)),
        SessionAction::Wait
    );
    assert_eq!(session.step::<()>(SessionEvent::Connected), SessionAction::SendConfig(config()));
    assert_eq!(session.step::<()>(SessionEvent::Token("late".to_string())), SessionAction::Wait);
    assert_eq!(session.state(), SessionState::Streaming);
}

#[test]
fn an_empty_token_still_makes_an_authorization() {
    let mut session = Session::new(config());
    assert_eq!(
        session.step::<()>(SessionEvent::Token(String::new())),
        SessionAction::Open("Bearer ".to_string())
    );
}

#[test]
fn a_refused_token_ends_the_session() {
    let mut session = Session::new(config());
    assert_eq!(session.step::<()>(SessionEvent::Enqueue(vec![1])), SessionAction::Wait);
    assert_eq!(
        session.step::<()>(SessionEvent::TokenRefused(AuthError::Signing)),
        SessionAction::Abort(SessionError::Auth(AuthError::Signing))
    );
    assert_eq!(session.state(), SessionState::Closed);
    assert_eq!(session.pending(), 0);
    assert_eq!(session.step::<()>(SessionEvent::Token("t".to_string())), SessionAction::Wait);
    assert_eq!(session.step::<()>(SessionEvent::Connected), SessionAction::Wait);
    let mut other = Session::new(config());
    assert_eq!(
        other.step::<()>(SessionEvent::TokenRefused(AuthError::Exchange)),
        SessionAction::Abort(SessionError::Auth(AuthError::Exchange))
    );
}

#[test]
fn a_stream_opened_without_a_token_is_a_protocol_error() {
    let mut session = Session::new(config());
    assert_eq!(
        session.step::<()>(SessionEvent::Connected),
        SessionAction::Abort(SessionError::Protocol)
    );
    assert_eq!(session.state(), SessionState::Closed);
    assert_eq!(session.step::<()>(SessionEvent::WriteReady), SessionAction::Wait);
}

#[test]
fn a_token_opens_the_stream_once_in_a_run() {
    let mut session = Session::new(config());
    let actions = session.run::<()>(vec![
        SessionEvent::Enqueue(vec![1]),
        SessionEvent::Token("first".to_string()),
        SessionEvent::Token("second".to_string()),
        SessionEvent::Connected,
        SessionEvent::WriteReady,
        SessionEvent::Token("third".to_string()),
    ]);
    assert_eq!(
        actions,
        vec![
            SessionAction::Wait,
            SessionAction::Open("Bearer first".to_string()),
            SessionAction::Wait,
            SessionAction::SendConfig(config()),
            SessionAction::SendAudio(vec![1]),
            SessionAction::Wait,
        ]
    );
}
