//! Text to speech: the voice used by default and the markup sent for a
//! phrase.

use vstd::prelude::*;

verus! {

/// Which voice speaks.
#[derive(Clone, Debug, PartialEq, Eq)]
pub struct VoiceSelectionParams {
    pub language_code: String,
    pub name: String,
    pub ssml_gender: i32,
}

/// The voice used when the caller names none: a Russian voice, female.
pub fn default_voice_params() -> (voice: VoiceSelectionParams)
    ensures
        voice.language_code@ == "ru"@,
        voice.name@ == "ru-RU-Wavenet-C"@,
        voice.ssml_gender == 2,
{
    VoiceSelectionParams {
        language_code: "ru".to_owned(),
        name: "ru-RU-Wavenet-C".to_owned(),
        ssml_gender: 2,
    }
}

/// The markup for `phrase`: the phrase inside a `speak` element.
pub open spec fn speak_markup(phrase: Seq<char>) -> Seq<char> {
    "<speak>"@ + phrase + "</speak>"@
}

/// Writes the markup for `phrase`.
pub fn ssml(phrase: &str) -> (markup: String)
    ensures
        markup@ == speak_markup(phrase@),
{
    let mut markup = "<speak>".to_owned();
    markup.append(phrase);
    markup.append("</speak>");
    markup
}

} // verus!
