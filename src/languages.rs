//! How the selected language code reaches each engine.
use vstd::prelude::*;

use crate::text::{opt_view, str_equals};

verus! {

/// The languages that the SenseVoice engine is told about.
#[derive(Clone, Copy, Debug, PartialEq, Eq, Structural)]
pub enum SenseVoiceLanguage {
    Chinese,
    English,
    Japanese,
    Korean,
    Cantonese,
    Auto,
}

pub open spec fn sense_voice_language_spec(selected: Seq<char>) -> SenseVoiceLanguage {
    if selected == "zh"@ || selected == "zh-Hans"@ || selected == "zh-Hant"@ {
        SenseVoiceLanguage::Chinese
    } else if selected == "en"@ {
        SenseVoiceLanguage::English
    } else if selected == "ja"@ {
        SenseVoiceLanguage::Japanese
    } else if selected == "ko"@ {
        SenseVoiceLanguage::Korean
    } else if selected == "yue"@ {
        SenseVoiceLanguage::Cantonese
    } else {
        SenseVoiceLanguage::Auto
    }
}

/// The SenseVoice language for a selected language code; any code it does
/// not know is left to detection.
pub fn sense_voice_language(selected: &str) -> (r: SenseVoiceLanguage)
    ensures
        r == sense_voice_language_spec(selected@),
{
    if str_equals(selected, "zh") || str_equals(selected, "zh-Hans") || str_equals(
        selected,
        "zh-Hant",
    ) {
        SenseVoiceLanguage::Chinese
    } else if str_equals(selected, "en") {
        SenseVoiceLanguage::English
    } else if str_equals(selected, "ja") {
        SenseVoiceLanguage::Japanese
    } else if str_equals(selected, "ko") {
        SenseVoiceLanguage::Korean
    } else if str_equals(selected, "yue") {
        SenseVoiceLanguage::Cantonese
    } else {
        SenseVoiceLanguage::Auto
    }
}

impl SenseVoiceLanguage {
    /// The code that the engine takes for this language.
    pub fn code(self) -> (r: &'static str)
        ensures
            r@ == match self {
                SenseVoiceLanguage::Chinese => "zh"@,
                SenseVoiceLanguage::English => "en"@,
                SenseVoiceLanguage::Japanese => "ja"@,
                SenseVoiceLanguage::Korean => "ko"@,
                SenseVoiceLanguage::Cantonese => "yue"@,
                SenseVoiceLanguage::Auto => "auto"@,
            },
    {
        match self {
            SenseVoiceLanguage::Chinese => "zh",
            SenseVoiceLanguage::English => "en",
            SenseVoiceLanguage::Japanese => "ja",
            SenseVoiceLanguage::Korean => "ko",
            SenseVoiceLanguage::Cantonese => "yue",
            SenseVoiceLanguage::Auto => "auto",
        }
    }
}

/// Dhivehi, which the Whisper path decodes as Sinhala.
pub fn is_dhivehi(selected: &str) -> (r: bool)
    ensures
        r == (selected@ == "dv"@),
{
    str_equals(selected, "dv")
}

pub open spec fn whisper_language_spec(selected: Seq<char>) -> Option<Seq<char>> {
    if selected == "auto"@ {
        None
    } else if selected == "zh-Hans"@ || selected == "zh-Hant"@ {
        Some("zh"@)
    } else if selected == "dv"@ {
        Some("si"@)
    } else {
        Some(selected)
    }
}

/// The language that Whisper is told: none for detection, the plain code for
/// either Chinese script, Sinhala for Dhivehi, and any other code as it is.
pub fn whisper_language(selected: &str) -> (r: Option<String>)
    ensures
        opt_view(r) == whisper_language_spec(selected@),
{
    if str_equals(selected, "auto") {
        None
    } else if str_equals(selected, "zh-Hans") || str_equals(selected, "zh-Hant") {
        Some(String::from_str("zh"))
    } else if is_dhivehi(selected) {
        Some(String::from_str("si"))
    } else {
        Some(String::from_str(selected))
    }
}

} // verus!
