use gemini_live_api::codes::{
    ActivityHandling, EndSensitivity, ResponseModality, Role, SpeechLanguageCode,
    StartSensitivity, TurnCoverage,
};

#[test]
fn speech_language_codes_read_and_write() {
    assert_eq!(SpeechLanguageCode::from_code("en-US"), SpeechLanguageCode::EnglishUS);
    assert_eq!(SpeechLanguageCode::from_code("cmn-CN"), SpeechLanguageCode::MandarinCN);
    assert_eq!(SpeechLanguageCode::ThaiTH.code(), "th-TH");
    assert_eq!(SpeechLanguageCode::ArabicXA.code(), "ar-XA");
}

#[test]
fn speech_language_unknown_code_is_kept() {
    let c = SpeechLanguageCode::from_code("sw-KE");
    assert_eq!(c, SpeechLanguageCode::Other("sw-KE".to_string()));
    assert_eq!(c.code(), "sw-KE");
}

#[test]
fn speech_language_codes_are_case_sensitive() {
    assert_eq!(
        SpeechLanguageCode::from_code("en-us"),
        SpeechLanguageCode::Other("en-us".to_string())
    );
}

#[test]
fn other_holding_a_known_code_reads_back_as_the_named_value() {
    let shadowed = SpeechLanguageCode::Other("de-DE".to_string());
    assert_eq!(shadowed.code(), "de-DE");
    assert_eq!(SpeechLanguageCode::from_code(&shadowed.code()), SpeechLanguageCode::GermanDE);
}

#[test]
fn every_named_speech_language_round_trips() {
    let all = [
        "en-US", "en-GB", "en-AU", "en-IN", "es-ES", "es-US", "de-DE", "fr-FR", "fr-CA", "hi-IN",
        "pt-BR", "ar-XA", "id-ID", "it-IT", "ja-JP", "tr-TR", "vi-VN", "bn-IN", "gu-IN", "kn-IN",
        "ml-IN", "mr-IN", "ta-IN", "te-IN", "nl-NL", "ko-KR", "cmn-CN", "pl-PL", "ru-RU", "th-TH",
    ];
    for code in all {
        let value = SpeechLanguageCode::from_code(code);
        assert!(!matches!(value, SpeechLanguageCode::Other(_)), "{}", code);
        assert_eq!(value.code(), code);
    }
}

#[test]
fn response_modalities() {
    assert_eq!(ResponseModality::from_code("TEXT"), ResponseModality::Text);
    assert_eq!(ResponseModality::from_code("AUDIO"), ResponseModality::Audio);
    assert_eq!(
        ResponseModality::from_code("IMAGE"),
        ResponseModality::Other("IMAGE".to_string())
    );
    assert_eq!(ResponseModality::Text.code(), "TEXT");
    assert_eq!(ResponseModality::Audio.code(), "AUDIO");
    assert_eq!(ResponseModality::Other("text".to_string()).code(), "text");
}

#[test]
fn roles() {
    assert_eq!(Role::from_code("user"), Role::User);
    assert_eq!(Role::from_code("model"), Role::Model);
    assert_eq!(Role::from_code("function"), Role::Function);
    assert_eq!(Role::from_code("system"), Role::System);
    assert_eq!(Role::from_code("USER"), Role::Other("USER".to_string()));
    assert_eq!(Role::Model.code(), "model");
    assert_eq!(Role::default(), Role::User);
}

#[test]
fn voice_activity_codes() {
    assert_eq!(ActivityHandling::NoInterruption.code(), "NO_INTERRUPTION");
    assert_eq!(
        ActivityHandling::from_code("START_OF_ACTIVITY_INTERRUPTS"),
        Some(ActivityHandling::StartOfActivityInterrupts)
    );
    assert_eq!(ActivityHandling::from_code("no_interruption"), None);
    assert_eq!(StartSensitivity::StartSensitivityHigh.code(), "START_SENSITIVITY_HIGH");
    assert_eq!(
        StartSensitivity::from_code("START_SENSITIVITY_LOW"),
        Some(StartSensitivity::StartSensitivityLow)
    );
    assert_eq!(EndSensitivity::EndSensitivityUnspecified.code(), "END_SENSITIVITY_UNSPECIFIED");
    assert_eq!(EndSensitivity::from_code("END_SENSITIVITY_HIGH"), Some(EndSensitivity::EndSensitivityHigh));
    assert_eq!(TurnCoverage::TurnIncludesAllInput.code(), "TURN_INCLUDES_ALL_INPUT");
    assert_eq!(
        TurnCoverage::from_code("TURN_INCLUDES_ONLY_ACTIVITY"),
        Some(TurnCoverage::TurnIncludesOnlyActivity)
    );
    assert_eq!(TurnCoverage::from_code(""), None);
}
