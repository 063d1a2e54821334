use cloud_bridge::rest::{Method, RestCall};
use cloud_bridge::google::stt::{
    default_config, first_transcript, RecognitionConfig, SpeechRecognitionAlternative,
    SpeechRecognitionResult,
};
use cloud_bridge::google::tasks::{create_task_request, CreateTask, QueueSettings, TaskData};
use cloud_bridge::google::tts::{default_voice_params, ssml, VoiceSelectionParams};
use cloud_bridge::rpc::bearer;
use cloud_bridge::yandex::stt::{recognize_request, recognized_text, SHORT_STT_URL};

#[test]
fn bearer_value() {
    assert_eq!(bearer("abc.def"), "Bearer abc.def");
    assert_eq!(bearer(""), "Bearer ");
}

#[test]
fn queue_name() {
    let queue = QueueSettings { project_id: "p", location: "europe-west1", queue_name: "q" };
    assert_eq!(queue.form_queue(), "projects/p/locations/europe-west1/queues/q");
    let empty = QueueSettings { project_id: "", location: "", queue_name: "" };
    assert_eq!(empty.form_queue(), "projects//locations//queues/");
}

#[test]
fn create_task_request_carries_the_task() {
    let task = TaskData {
        url: "https://example.com/hook".to_string(),
        body: vec![b'{', b'}'],
        queue: QueueSettings { project_id: "p", location: "l", queue_name: "q" },
    };
    assert_eq!(
        create_task_request(task),
        CreateTask {
            parent: "projects/p/locations/l/queues/q".to_string(),
            url: "https://example.com/hook".to_string(),
            body: vec![b'{', b'}'],
            headers: vec![("Content-Type".to_string(), "application/json".to_string())],
            request_params: "parent=projects/p/locations/l/queues/q".to_string(),
        }
    );
}

#[test]
fn default_voice() {
    assert_eq!(
        default_voice_params(),
        VoiceSelectionParams {
            language_code: "ru".to_string(),
            name: "ru-RU-Wavenet-C".to_string(),
            ssml_gender: 2,
        }
    );
}

#[test]
fn ssml_wraps_the_phrase() {
    assert_eq!(ssml("привет"), "<speak>привет</speak>");
    assert_eq!(ssml(""), "<speak></speak>");
}

#[test]
fn default_recognition_config() {
    assert_eq!(
        default_config(),
        RecognitionConfig {
            encoding: 1,
            sample_rate_hertz: 8000,
            audio_channel_count: 1,
            enable_separate_recognition_per_channel: false,
            language_code: "ru".to_string(),
            max_alternatives: 0,
            profanity_filter: false,
            speech_contexts: vec![],
            enable_word_time_offsets: false,
            enable_automatic_punctuation: false,
            diarization_config: None,
            metadata: None,
            model: String::new(),
            use_enhanced: true,
        }
    );
}

fn result(transcripts: &[&str]) -> SpeechRecognitionResult {
    SpeechRecognitionResult {
        alternatives: transcripts
            .iter()
            .map(|t| SpeechRecognitionAlternative { transcript: t.to_string() })
            .collect(),
    }
}

#[test]
fn first_transcript_is_the_first_of_the_first() {
    assert_eq!(first_transcript(&vec![]), None);
    assert_eq!(first_transcript(&vec![result(&[])]), None);
    assert_eq!(first_transcript(&vec![result(&[]), result(&["late"])]), None);
    assert_eq!(
        first_transcript(&vec![result(&["best", "second"]), result(&["other"])]),
        Some("best".to_string())
    );
}

#[test]
fn short_recognition_request() {
    assert_eq!(
        recognize_request(),
        Some(RestCall {
            method: Method::Post,
            url: "https://stt.api.cloud.yandex.net/speech/v1/stt:recognize?topic=general:rc&format=lpcm&sampleRateHertz=8000".to_string(),
        })
    );
    assert_eq!(recognize_request().unwrap().url, SHORT_STT_URL);
}

#[test]
fn recognized_text_is_the_result_member() {
    assert_eq!(recognized_text(br#"{"result":"hello"}"#), Some("hello".to_string()));
    assert_eq!(
        recognized_text("{\"other\": 1, \"result\": \"привет мир\"}".as_bytes()),
        Some("привет мир".to_string())
    );
    assert_eq!(recognized_text(br#"{"result":"a\nb"}"#), Some("a\nb".to_string()));
    assert_eq!(recognized_text(br#"{"result":""}"#), Some(String::new()));
}

#[test]
fn recognized_text_is_missing() {
    assert_eq!(recognized_text(b""), None);
    assert_eq!(recognized_text(b"not json"), None);
    assert_eq!(recognized_text(br#"{"result":5}"#), None);
    assert_eq!(recognized_text(br#"{"result":null}"#), None);
    assert_eq!(recognized_text(br#"{"error_code":"BAD_REQUEST"}"#), None);
    assert_eq!(recognized_text(br#"["result"]"#), None);
    assert_eq!(recognized_text(br#""result""#), None);
    assert_eq!(recognized_text(br#"{"result":"x"} trailing"#), None);
}
