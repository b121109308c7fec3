//! The codes by which the wire protocol names languages, roles, modalities and
//! voice-activity settings, and the translation between them and their texts.
use vstd::prelude::*;
use crate::text::{
    is_ascii_lower, is_ascii_upper, lemma_screaming_snake_join, lemma_screaming_snake_word,
    lower_text, same_text, screaming_snake_text, upper_text,
};

verus! {

/// The language of synthesized speech, by its BCP-47 code.
#[derive(Debug, Clone, PartialEq, Eq, Hash)]
pub enum SpeechLanguageCode {
    /// English (United States)
    EnglishUS,
    /// English (United Kingdom)
    EnglishGB,
    /// English (Australia)
    EnglishAU,
    /// English (India)
    EnglishIN,
    /// Spanish (Spain)
    SpanishES,
    /// Spanish (United States)
    SpanishUS,
    /// German
    GermanDE,
    /// French (France)
    FrenchFR,
    /// French (Canada)
    FrenchCA,
    /// Hindi
    HindiIN,
    /// Portuguese (Brazil)
    PortugueseBR,
    /// Arabic (generic regional)
    ArabicXA,
    /// Indonesian
    IndonesianID,
    /// Italian
    ItalianIT,
    /// Japanese
    JapaneseJP,
    /// Turkish
    TurkishTR,
    /// Vietnamese
    VietnameseVN,
    /// Bengali
    BengaliIN,
    /// Gujarati
    GujaratiIN,
    /// Kannada
    KannadaIN,
    /// Malayalam
    MalayalamIN,
    /// Marathi
    MarathiIN,
    /// Tamil
    TamilIN,
    /// Telugu
    TeluguIN,
    /// Dutch
    DutchNL,
    /// Korean
    KoreanKR,
    /// Mandarin Chinese (China)
    MandarinCN,
    /// Polish
    PolishPL,
    /// Russian
    RussianRU,
    /// Thai
    ThaiTH,
    /// Any other code, kept as it was received.
    Other(String),
}

impl SpeechLanguageCode {
    /// The name of this value's variant.
    pub open spec fn variant_name(&self) -> Seq<char> {
        match self {
            SpeechLanguageCode::EnglishUS => "EnglishUS"@,
            SpeechLanguageCode::EnglishGB => "EnglishGB"@,
            SpeechLanguageCode::EnglishAU => "EnglishAU"@,
            SpeechLanguageCode::EnglishIN => "EnglishIN"@,
            SpeechLanguageCode::SpanishES => "SpanishES"@,
            SpeechLanguageCode::SpanishUS => "SpanishUS"@,
            SpeechLanguageCode::GermanDE => "GermanDE"@,
            SpeechLanguageCode::FrenchFR => "FrenchFR"@,
            SpeechLanguageCode::FrenchCA => "FrenchCA"@,
            SpeechLanguageCode::HindiIN => "HindiIN"@,
            SpeechLanguageCode::PortugueseBR => "PortugueseBR"@,
            SpeechLanguageCode::ArabicXA => "ArabicXA"@,
            SpeechLanguageCode::IndonesianID => "IndonesianID"@,
            SpeechLanguageCode::ItalianIT => "ItalianIT"@,
            SpeechLanguageCode::JapaneseJP => "JapaneseJP"@,
            SpeechLanguageCode::TurkishTR => "TurkishTR"@,
            SpeechLanguageCode::VietnameseVN => "VietnameseVN"@,
            SpeechLanguageCode::BengaliIN => "BengaliIN"@,
            SpeechLanguageCode::GujaratiIN => "GujaratiIN"@,
            SpeechLanguageCode::KannadaIN => "KannadaIN"@,
            SpeechLanguageCode::MalayalamIN => "MalayalamIN"@,
            SpeechLanguageCode::MarathiIN => "MarathiIN"@,
            SpeechLanguageCode::TamilIN => "TamilIN"@,
            SpeechLanguageCode::TeluguIN => "TeluguIN"@,
            SpeechLanguageCode::DutchNL => "DutchNL"@,
            SpeechLanguageCode::KoreanKR => "KoreanKR"@,
            SpeechLanguageCode::MandarinCN => "MandarinCN"@,
            SpeechLanguageCode::PolishPL => "PolishPL"@,
            SpeechLanguageCode::RussianRU => "RussianRU"@,
            SpeechLanguageCode::ThaiTH => "ThaiTH"@,
            SpeechLanguageCode::Other(_) => "Other"@,
        }
    }

    /// The text that stands for this value on the wire.
    pub open spec fn code_text(&self) -> Seq<char> {
        match self {
            SpeechLanguageCode::EnglishUS => "en-US"@,
            SpeechLanguageCode::EnglishGB => "en-GB"@,
            SpeechLanguageCode::EnglishAU => "en-AU"@,
            SpeechLanguageCode::EnglishIN => "en-IN"@,
            SpeechLanguageCode::SpanishES => "es-ES"@,
            SpeechLanguageCode::SpanishUS => "es-US"@,
            SpeechLanguageCode::GermanDE => "de-DE"@,
            SpeechLanguageCode::FrenchFR => "fr-FR"@,
            SpeechLanguageCode::FrenchCA => "fr-CA"@,
            SpeechLanguageCode::HindiIN => "hi-IN"@,
            SpeechLanguageCode::PortugueseBR => "pt-BR"@,
            SpeechLanguageCode::ArabicXA => "ar-XA"@,
            SpeechLanguageCode::IndonesianID => "id-ID"@,
            SpeechLanguageCode::ItalianIT => "it-IT"@,
            SpeechLanguageCode::JapaneseJP => "ja-JP"@,
            SpeechLanguageCode::TurkishTR => "tr-TR"@,
            SpeechLanguageCode::VietnameseVN => "vi-VN"@,
            SpeechLanguageCode::BengaliIN => "bn-IN"@,
            SpeechLanguageCode::GujaratiIN => "gu-IN"@,
            SpeechLanguageCode::KannadaIN => "kn-IN"@,
            SpeechLanguageCode::MalayalamIN => "ml-IN"@,
            SpeechLanguageCode::MarathiIN => "mr-IN"@,
            SpeechLanguageCode::TamilIN => "ta-IN"@,
            SpeechLanguageCode::TeluguIN => "te-IN"@,
            SpeechLanguageCode::DutchNL => "nl-NL"@,
            SpeechLanguageCode::KoreanKR => "ko-KR"@,
            SpeechLanguageCode::MandarinCN => "cmn-CN"@,
            SpeechLanguageCode::PolishPL => "pl-PL"@,
            SpeechLanguageCode::RussianRU => "ru-RU"@,
            SpeechLanguageCode::ThaiTH => "th-TH"@,
            SpeechLanguageCode::Other(s) => s@,
        }
    }

    /// The named value whose wire text is `s`, if there is one.
    pub open spec fn known(s: Seq<char>) -> Option<SpeechLanguageCode> {
        if s == "en-US"@ {
            Some(SpeechLanguageCode::EnglishUS)
        } else if s == "en-GB"@ {
            Some(SpeechLanguageCode::EnglishGB)
        } else if s == "en-AU"@ {
            Some(SpeechLanguageCode::EnglishAU)
        } else if s == "en-IN"@ {
            Some(SpeechLanguageCode::EnglishIN)
        } else if s == "es-ES"@ {
            Some(SpeechLanguageCode::SpanishES)
        } else if s == "es-US"@ {
            Some(SpeechLanguageCode::SpanishUS)
        } else if s == "de-DE"@ {
            Some(SpeechLanguageCode::GermanDE)
        } else if s == "fr-FR"@ {
            Some(SpeechLanguageCode::FrenchFR)
        } else if s == "fr-CA"@ {
            Some(SpeechLanguageCode::FrenchCA)
        } else if s == "hi-IN"@ {
            Some(SpeechLanguageCode::HindiIN)
        } else if s == "pt-BR"@ {
            Some(SpeechLanguageCode::PortugueseBR)
        } else if s == "ar-XA"@ {
            Some(SpeechLanguageCode::ArabicXA)
        } else if s == "id-ID"@ {
            Some(SpeechLanguageCode::IndonesianID)
        } else if s == "it-IT"@ {
            Some(SpeechLanguageCode::ItalianIT)
        } else if s == "ja-JP"@ {
            Some(SpeechLanguageCode::JapaneseJP)
        } else if s == "tr-TR"@ {
            Some(SpeechLanguageCode::TurkishTR)
        } else if s == "vi-VN"@ {
            Some(SpeechLanguageCode::VietnameseVN)
        } else if s == "bn-IN"@ {
            Some(SpeechLanguageCode::BengaliIN)
        } else if s == "gu-IN"@ {
            Some(SpeechLanguageCode::GujaratiIN)
        } else if s == "kn-IN"@ {
            Some(SpeechLanguageCode::KannadaIN)
        } else if s == "ml-IN"@ {
            Some(SpeechLanguageCode::MalayalamIN)
        } else if s == "mr-IN"@ {
            Some(SpeechLanguageCode::MarathiIN)
        } else if s == "ta-IN"@ {
            Some(SpeechLanguageCode::TamilIN)
        } else if s == "te-IN"@ {
            Some(SpeechLanguageCode::TeluguIN)
        } else if s == "nl-NL"@ {
            Some(SpeechLanguageCode::DutchNL)
        } else if s == "ko-KR"@ {
            Some(SpeechLanguageCode::KoreanKR)
        } else if s == "cmn-CN"@ {
            Some(SpeechLanguageCode::MandarinCN)
        } else if s == "pl-PL"@ {
            Some(SpeechLanguageCode::PolishPL)
        } else if s == "ru-RU"@ {
            Some(SpeechLanguageCode::RussianRU)
        } else if s == "th-TH"@ {
            Some(SpeechLanguageCode::ThaiTH)
        } else {
            None
        }
    }

    /// Whether this value is `Other` holding the wire text of a named value.
    pub open spec fn is_shadowed(&self) -> bool {
        self matches SpeechLanguageCode::Other(s) && Self::known(s@) is Some
    }

    /// The wire text of this value.
    pub fn code(&self) -> (r: String)
        ensures
            r@ == self.code_text(),
    {
        match self {
            SpeechLanguageCode::EnglishUS => String::from_str("en-US"),
            SpeechLanguageCode::EnglishGB => String::from_str("en-GB"),
            SpeechLanguageCode::EnglishAU => String::from_str("en-AU"),
            SpeechLanguageCode::EnglishIN => String::from_str("en-IN"),
            SpeechLanguageCode::SpanishES => String::from_str("es-ES"),
            SpeechLanguageCode::SpanishUS => String::from_str("es-US"),
            SpeechLanguageCode::GermanDE => String::from_str("de-DE"),
            SpeechLanguageCode::FrenchFR => String::from_str("fr-FR"),
            SpeechLanguageCode::FrenchCA => String::from_str("fr-CA"),
            SpeechLanguageCode::HindiIN => String::from_str("hi-IN"),
            SpeechLanguageCode::PortugueseBR => String::from_str("pt-BR"),
            SpeechLanguageCode::ArabicXA => String::from_str("ar-XA"),
            SpeechLanguageCode::IndonesianID => String::from_str("id-ID"),
            SpeechLanguageCode::ItalianIT => String::from_str("it-IT"),
            SpeechLanguageCode::JapaneseJP => String::from_str("ja-JP"),
            SpeechLanguageCode::TurkishTR => String::from_str("tr-TR"),
            SpeechLanguageCode::VietnameseVN => String::from_str("vi-VN"),
            SpeechLanguageCode::BengaliIN => String::from_str("bn-IN"),
            SpeechLanguageCode::GujaratiIN => String::from_str("gu-IN"),
            SpeechLanguageCode::KannadaIN => String::from_str("kn-IN"),
            SpeechLanguageCode::MalayalamIN => String::from_str("ml-IN"),
            SpeechLanguageCode::MarathiIN => String::from_str("mr-IN"),
            SpeechLanguageCode::TamilIN => String::from_str("ta-IN"),
            SpeechLanguageCode::TeluguIN => String::from_str("te-IN"),
            SpeechLanguageCode::DutchNL => String::from_str("nl-NL"),
            SpeechLanguageCode::KoreanKR => String::from_str("ko-KR"),
            SpeechLanguageCode::MandarinCN => String::from_str("cmn-CN"),
            SpeechLanguageCode::PolishPL => String::from_str("pl-PL"),
            SpeechLanguageCode::RussianRU => String::from_str("ru-RU"),
            SpeechLanguageCode::ThaiTH => String::from_str("th-TH"),
            SpeechLanguageCode::Other(s) => s.clone(),
        }
    }

    /// The value that the wire text `s` stands for: a named value, or `Other(s)`.
    pub fn from_code(s: &str) -> (r: Self)
        ensures
            match Self::known(s@) {
                Some(k) => r == k,
                None => r matches SpeechLanguageCode::Other(t) && t@ == s@,
            },
    {
        if same_text(s, "en-US") {
            return SpeechLanguageCode::EnglishUS;
        }
        if same_text(s, "en-GB") {
            return SpeechLanguageCode::EnglishGB;
        }
        if same_text(s, "en-AU") {
            return SpeechLanguageCode::EnglishAU;
        }
        if same_text(s, "en-IN") {
            return SpeechLanguageCode::EnglishIN;
        }
        if same_text(s, "es-ES") {
            return SpeechLanguageCode::SpanishES;
        }
        if same_text(s, "es-US") {
            return SpeechLanguageCode::SpanishUS;
        }
        if same_text(s, "de-DE") {
            return SpeechLanguageCode::GermanDE;
        }
        if same_text(s, "fr-FR") {
            return SpeechLanguageCode::FrenchFR;
        }
        if same_text(s, "fr-CA") {
            return SpeechLanguageCode::FrenchCA;
        }
        if same_text(s, "hi-IN") {
            return SpeechLanguageCode::HindiIN;
        }
        if same_text(s, "pt-BR") {
            return SpeechLanguageCode::PortugueseBR;
        }
        if same_text(s, "ar-XA") {
            return SpeechLanguageCode::ArabicXA;
        }
        if same_text(s, "id-ID") {
            return SpeechLanguageCode::IndonesianID;
        }
        if same_text(s, "it-IT") {
            return SpeechLanguageCode::ItalianIT;
        }
        if same_text(s, "ja-JP") {
            return SpeechLanguageCode::JapaneseJP;
        }
        if same_text(s, "tr-TR") {
            return SpeechLanguageCode::TurkishTR;
        }
        if same_text(s, "vi-VN") {
            return SpeechLanguageCode::VietnameseVN;
        }
        if same_text(s, "bn-IN") {
            return SpeechLanguageCode::BengaliIN;
        }
        if same_text(s, "gu-IN") {
            return SpeechLanguageCode::GujaratiIN;
        }
        if same_text(s, "kn-IN") {
            return SpeechLanguageCode::KannadaIN;
        }
        if same_text(s, "ml-IN") {
            return SpeechLanguageCode::MalayalamIN;
        }
        if same_text(s, "mr-IN") {
            return SpeechLanguageCode::MarathiIN;
        }
        if same_text(s, "ta-IN") {
            return SpeechLanguageCode::TamilIN;
        }
        if same_text(s, "te-IN") {
            return SpeechLanguageCode::TeluguIN;
        }
        if same_text(s, "nl-NL") {
            return SpeechLanguageCode::DutchNL;
        }
        if same_text(s, "ko-KR") {
            return SpeechLanguageCode::KoreanKR;
        }
        if same_text(s, "cmn-CN") {
            return SpeechLanguageCode::MandarinCN;
        }
        if same_text(s, "pl-PL") {
            return SpeechLanguageCode::PolishPL;
        }
        if same_text(s, "ru-RU") {
            return SpeechLanguageCode::RussianRU;
        }
        if same_text(s, "th-TH") {
            return SpeechLanguageCode::ThaiTH;
        }
        SpeechLanguageCode::Other(String::from_str(s))
    }
}

/// The wire text of every named language is a language tag: two or three small
/// letters for the language, a hyphen, and the two capitals of the region with
/// which the name of the variant ends.
pub proof fn lemma_speech_language_code_is_tag(x: SpeechLanguageCode)
    requires
        !(x is Other),
    ensures
        ({
            let c = x.code_text();
            let n = x.variant_name();
            &&& 5 <= c.len() <= 6
            &&& forall|i: int| 0 <= i < c.len() - 3 ==> is_ascii_lower(#[trigger] c[i])
            &&& c[c.len() - 3] == '-'
            &&& n.len() >= 2
            &&& is_ascii_upper(n[n.len() - 2]) && is_ascii_upper(n[n.len() - 1])
            &&& c.skip(c.len() - 2) == n.skip(n.len() - 2)
        }),
{
    match x {
        SpeechLanguageCode::EnglishUS => {
            reveal_strlit("EnglishUS");
            reveal_strlit("en-US");
            assert(x.code_text().skip(x.code_text().len() - 2) =~= x.variant_name().skip(x.variant_name().len() - 2));
        },
        SpeechLanguageCode::EnglishGB => {
            reveal_strlit("EnglishGB");
            reveal_strlit("en-GB");
            assert(x.code_text().skip(x.code_text().len() - 2) =~= x.variant_name().skip(x.variant_name().len() - 2));
        },
        SpeechLanguageCode::EnglishAU => {
            reveal_strlit("EnglishAU");
            reveal_strlit("en-AU");
            assert(x.code_text().skip(x.code_text().len() - 2) =~= x.variant_name().skip(x.variant_name().len() - 2));
        },
        SpeechLanguageCode::EnglishIN => {
            reveal_strlit("EnglishIN");
            reveal_strlit("en-IN");
            assert(x.code_text().skip(x.code_text().len() - 2) =~= x.variant_name().skip(x.variant_name().len() - 2));
        },
        SpeechLanguageCode::SpanishES => {
            reveal_strlit("SpanishES");
            reveal_strlit("es-ES");
            assert(x.code_text().skip(x.code_text().len() - 2) =~= x.variant_name().skip(x.variant_name().len() - 2));
        },
        SpeechLanguageCode::SpanishUS => {
            reveal_strlit("SpanishUS");
            reveal_strlit("es-US");
            assert(x.code_text().skip(x.code_text().len() - 2) =~= x.variant_name().skip(x.variant_name().len() - 2));
        },
        SpeechLanguageCode::GermanDE => {
            reveal_strlit("GermanDE");
            reveal_strlit("de-DE");
            assert(x.code_text().skip(x.code_text().len() - 2) =~= x.variant_name().skip(x.variant_name().len() - 2));
        },
        SpeechLanguageCode::FrenchFR => {
            reveal_strlit("FrenchFR");
            reveal_strlit("fr-FR");
            assert(x.code_text().skip(x.code_text().len() - 2) =~= x.variant_name().skip(x.variant_name().len() - 2));
        },
        SpeechLanguageCode::FrenchCA => {
            reveal_strlit("FrenchCA");
            reveal_strlit("fr-CA");
            assert(x.code_text().skip(x.code_text().len() - 2) =~= x.variant_name().skip(x.variant_name().len() - 2));
        },
        SpeechLanguageCode::HindiIN => {
            reveal_strlit("HindiIN");
            reveal_strlit("hi-IN");
            assert(x.code_text().skip(x.code_text().len() - 2) =~= x.variant_name().skip(x.variant_name().len() - 2));
        },
        SpeechLanguageCode::PortugueseBR => {
            reveal_strlit("PortugueseBR");
            reveal_strlit("pt-BR");
            assert(x.code_text().skip(x.code_text().len() - 2) =~= x.variant_name().skip(x.variant_name().len() - 2));
        },
        SpeechLanguageCode::ArabicXA => {
            reveal_strlit("ArabicXA");
            reveal_strlit("ar-XA");
            assert(x.code_text().skip(x.code_text().len() - 2) =~= x.variant_name().skip(x.variant_name().len() - 2));
        },
        SpeechLanguageCode::IndonesianID => {
            reveal_strlit("IndonesianID");
            reveal_strlit("id-ID");
            assert(x.code_text().skip(x.code_text().len() - 2) =~= x.variant_name().skip(x.variant_name().len() - 2));
        },
        SpeechLanguageCode::ItalianIT => {
            reveal_strlit("ItalianIT");
            reveal_strlit("it-IT");
            assert(x.code_text().skip(x.code_text().len() - 2) =~= x.variant_name().skip(x.variant_name().len() - 2));
        },
        SpeechLanguageCode::JapaneseJP => {
            reveal_strlit("JapaneseJP");
            reveal_strlit("ja-JP");
            assert(x.code_text().skip(x.code_text().len() - 2) =~= x.variant_name().skip(x.variant_name().len() - 2));
        },
        SpeechLanguageCode::TurkishTR => {
            reveal_strlit("TurkishTR");
            reveal_strlit("tr-TR");
            assert(x.code_text().skip(x.code_text().len() - 2) =~= x.variant_name().skip(x.variant_name().len() - 2));
        },
        SpeechLanguageCode::VietnameseVN => {
            reveal_strlit("VietnameseVN");
            reveal_strlit("vi-VN");
            assert(x.code_text().skip(x.code_text().len() - 2) =~= x.variant_name().skip(x.variant_name().len() - 2));
        },
        SpeechLanguageCode::BengaliIN => {
            reveal_strlit("BengaliIN");
            reveal_strlit("bn-IN");
            assert(x.code_text().skip(x.code_text().len() - 2) =~= x.variant_name().skip(x.variant_name().len() - 2));
        },
        SpeechLanguageCode::GujaratiIN => {
            reveal_strlit("GujaratiIN");
            reveal_strlit("gu-IN");
            assert(x.code_text().skip(x.code_text().len() - 2) =~= x.variant_name().skip(x.variant_name().len() - 2));
        },
        SpeechLanguageCode::KannadaIN => {
            reveal_strlit("KannadaIN");
            reveal_strlit("kn-IN");
            assert(x.code_text().skip(x.code_text().len() - 2) =~= x.variant_name().skip(x.variant_name().len() - 2));
        },
        SpeechLanguageCode::MalayalamIN => {
            reveal_strlit("MalayalamIN");
            reveal_strlit("ml-IN");
            assert(x.code_text().skip(x.code_text().len() - 2) =~= x.variant_name().skip(x.variant_name().len() - 2));
        },
        SpeechLanguageCode::MarathiIN => {
            reveal_strlit("MarathiIN");
            reveal_strlit("mr-IN");
            assert(x.code_text().skip(x.code_text().len() - 2) =~= x.variant_name().skip(x.variant_name().len() - 2));
        },
        SpeechLanguageCode::TamilIN => {
            reveal_strlit("TamilIN");
            reveal_strlit("ta-IN");
            assert(x.code_text().skip(x.code_text().len() - 2) =~= x.variant_name().skip(x.variant_name().len() - 2));
        },
        SpeechLanguageCode::TeluguIN => {
            reveal_strlit("TeluguIN");
            reveal_strlit("te-IN");
            assert(x.code_text().skip(x.code_text().len() - 2) =~= x.variant_name().skip(x.variant_name().len() - 2));
        },
        SpeechLanguageCode::DutchNL => {
            reveal_strlit("DutchNL");
            reveal_strlit("nl-NL");
            assert(x.code_text().skip(x.code_text().len() - 2) =~= x.variant_name().skip(x.variant_name().len() - 2));
        },
        SpeechLanguageCode::KoreanKR => {
            reveal_strlit("KoreanKR");
            reveal_strlit("ko-KR");
            assert(x.code_text().skip(x.code_text().len() - 2) =~= x.variant_name().skip(x.variant_name().len() - 2));
        },
        SpeechLanguageCode::MandarinCN => {
            reveal_strlit("MandarinCN");
            reveal_strlit("cmn-CN");
            assert(x.code_text().skip(x.code_text().len() - 2) =~= x.variant_name().skip(x.variant_name().len() - 2));
        },
        SpeechLanguageCode::PolishPL => {
            reveal_strlit("PolishPL");
            reveal_strlit("pl-PL");
            assert(x.code_text().skip(x.code_text().len() - 2) =~= x.variant_name().skip(x.variant_name().len() - 2));
        },
        SpeechLanguageCode::RussianRU => {
            reveal_strlit("RussianRU");
            reveal_strlit("ru-RU");
            assert(x.code_text().skip(x.code_text().len() - 2) =~= x.variant_name().skip(x.variant_name().len() - 2));
        },
        SpeechLanguageCode::ThaiTH => {
            reveal_strlit("ThaiTH");
            reveal_strlit("th-TH");
            assert(x.code_text().skip(x.code_text().len() - 2) =~= x.variant_name().skip(x.variant_name().len() - 2));
        },
        SpeechLanguageCode::Other(_) => {},
    }
}

/// Reading back the wire text of a value gives the value again, unless the value
/// is `Other` holding the text of a named value.
pub proof fn lemma_speech_language_code_code_round_trip(x: SpeechLanguageCode)
    requires
        !x.is_shadowed(),
    ensures
        match SpeechLanguageCode::known(x.code_text()) {
            Some(k) => k == x,
            None => x matches SpeechLanguageCode::Other(t) && t@ == x.code_text(),
        },
{
    reveal_strlit("en-US");
    reveal_strlit("en-GB");
    reveal_strlit("en-AU");
    reveal_strlit("en-IN");
    reveal_strlit("es-ES");
    reveal_strlit("es-US");
    reveal_strlit("de-DE");
    reveal_strlit("fr-FR");
    reveal_strlit("fr-CA");
    reveal_strlit("hi-IN");
    reveal_strlit("pt-BR");
    reveal_strlit("ar-XA");
    reveal_strlit("id-ID");
    reveal_strlit("it-IT");
    reveal_strlit("ja-JP");
    reveal_strlit("tr-TR");
    reveal_strlit("vi-VN");
    reveal_strlit("bn-IN");
    reveal_strlit("gu-IN");
    reveal_strlit("kn-IN");
    reveal_strlit("ml-IN");
    reveal_strlit("mr-IN");
    reveal_strlit("ta-IN");
    reveal_strlit("te-IN");
    reveal_strlit("nl-NL");
    reveal_strlit("ko-KR");
    reveal_strlit("cmn-CN");
    reveal_strlit("pl-PL");
    reveal_strlit("ru-RU");
    reveal_strlit("th-TH");
    match x {
        SpeechLanguageCode::EnglishUS => {
        },
        SpeechLanguageCode::EnglishGB => {
            assert("en-GB"@[3] != "en-US"@[3]);
        },
        SpeechLanguageCode::EnglishAU => {
            assert("en-AU"@[3] != "en-US"@[3]);
            assert("en-AU"@[3] != "en-GB"@[3]);
        },
        SpeechLanguageCode::EnglishIN => {
            assert("en-IN"@[3] != "en-US"@[3]);
            assert("en-IN"@[3] != "en-GB"@[3]);
            assert("en-IN"@[3] != "en-AU"@[3]);
        },
        SpeechLanguageCode::SpanishES => {
            assert("es-ES"@[1] != "en-US"@[1]);
            assert("es-ES"@[1] != "en-GB"@[1]);
            assert("es-ES"@[1] != "en-AU"@[1]);
            assert("es-ES"@[1] != "en-IN"@[1]);
        },
        SpeechLanguageCode::SpanishUS => {
            assert("es-US"@[1] != "en-US"@[1]);
            assert("es-US"@[1] != "en-GB"@[1]);
            assert("es-US"@[1] != "en-AU"@[1]);
            assert("es-US"@[1] != "en-IN"@[1]);
            assert("es-US"@[3] != "es-ES"@[3]);
        },
        SpeechLanguageCode::GermanDE => {
            assert("de-DE"@[0] != "en-US"@[0]);
            assert("de-DE"@[0] != "en-GB"@[0]);
            assert("de-DE"@[0] != "en-AU"@[0]);
            assert("de-DE"@[0] != "en-IN"@[0]);
            assert("de-DE"@[0] != "es-ES"@[0]);
            assert("de-DE"@[0] != "es-US"@[0]);
        },
        SpeechLanguageCode::FrenchFR => {
            assert("fr-FR"@[0] != "en-US"@[0]);
            assert("fr-FR"@[0] != "en-GB"@[0]);
            assert("fr-FR"@[0] != "en-AU"@[0]);
            assert("fr-FR"@[0] != "en-IN"@[0]);
            assert("fr-FR"@[0] != "es-ES"@[0]);
            assert("fr-FR"@[0] != "es-US"@[0]);
            assert("fr-FR"@[0] != "de-DE"@[0]);
        },
        SpeechLanguageCode::FrenchCA => {
            assert("fr-CA"@[0] != "en-US"@[0]);
            assert("fr-CA"@[0] != "en-GB"@[0]);
            assert("fr-CA"@[0] != "en-AU"@[0]);
            assert("fr-CA"@[0] != "en-IN"@[0]);
            assert("fr-CA"@[0] != "es-ES"@[0]);
            assert("fr-CA"@[0] != "es-US"@[0]);
            assert("fr-CA"@[0] != "de-DE"@[0]);
            assert("fr-CA"@[3] != "fr-FR"@[3]);
        },
        SpeechLanguageCode::HindiIN => {
            assert("hi-IN"@[0] != "en-US"@[0]);
            assert("hi-IN"@[0] != "en-GB"@[0]);
            assert("hi-IN"@[0] != "en-AU"@[0]);
            assert("hi-IN"@[0] != "en-IN"@[0]);
            assert("hi-IN"@[0] != "es-ES"@[0]);
            assert("hi-IN"@[0] != "es-US"@[0]);
            assert("hi-IN"@[0] != "de-DE"@[0]);
            assert("hi-IN"@[0] != "fr-FR"@[0]);
            assert("hi-IN"@[0] != "fr-CA"@[0]);
        },
        SpeechLanguageCode::PortugueseBR => {
            assert("pt-BR"@[0] != "en-US"@[0]);
            assert("pt-BR"@[0] != "en-GB"@[0]);
            assert("pt-BR"@[0] != "en-AU"@[0]);
            assert("pt-BR"@[0] != "en-IN"@[0]);
            assert("pt-BR"@[0] != "es-ES"@[0]);
            assert("pt-BR"@[0] != "es-US"@[0]);
            assert("pt-BR"@[0] != "de-DE"@[0]);
            assert("pt-BR"@[0] != "fr-FR"@[0]);
            assert("pt-BR"@[0] != "fr-CA"@[0]);
            assert("pt-BR"@[0] != "hi-IN"@[0]);
        },
        SpeechLanguageCode::ArabicXA => {
            assert("ar-XA"@[0] != "en-US"@[0]);
            assert("ar-XA"@[0] != "en-GB"@[0]);
            assert("ar-XA"@[0] != "en-AU"@[0]);
            assert("ar-XA"@[0] != "en-IN"@[0]);
            assert("ar-XA"@[0] != "es-ES"@[0]);
            assert("ar-XA"@[0] != "es-US"@[0]);
            assert("ar-XA"@[0] != "de-DE"@[0]);
            assert("ar-XA"@[0] != "fr-FR"@[0]);
            assert("ar-XA"@[0] != "fr-CA"@[0]);
            assert("ar-XA"@[0] != "hi-IN"@[0]);
            assert("ar-XA"@[0] != "pt-BR"@[0]);
        },
        SpeechLanguageCode::IndonesianID => {
            assert("id-ID"@[0] != "en-US"@[0]);
            assert("id-ID"@[0] != "en-GB"@[0]);
            assert("id-ID"@[0] != "en-AU"@[0]);
            assert("id-ID"@[0] != "en-IN"@[0]);
            assert("id-ID"@[0] != "es-ES"@[0]);
            assert("id-ID"@[0] != "es-US"@[0]);
            assert("id-ID"@[0] != "de-DE"@[0]);
            assert("id-ID"@[0] != "fr-FR"@[0]);
            assert("id-ID"@[0] != "fr-CA"@[0]);
            assert("id-ID"@[0] != "hi-IN"@[0]);
            assert("id-ID"@[0] != "pt-BR"@[0]);
            assert("id-ID"@[0] != "ar-XA"@[0]);
        },
        SpeechLanguageCode::ItalianIT => {
            assert("it-IT"@[0] != "en-US"@[0]);
            assert("it-IT"@[0] != "en-GB"@[0]);
            assert("it-IT"@[0] != "en-AU"@[0]);
            assert("it-IT"@[0] != "en-IN"@[0]);
            assert("it-IT"@[0] != "es-ES"@[0]);
            assert("it-IT"@[0] != "es-US"@[0]);
            assert("it-IT"@[0] != "de-DE"@[0]);
            assert("it-IT"@[0] != "fr-FR"@[0]);
            assert("it-IT"@[0] != "fr-CA"@[0]);
            assert("it-IT"@[0] != "hi-IN"@[0]);
            assert("it-IT"@[0] != "pt-BR"@[0]);
            assert("it-IT"@[0] != "ar-XA"@[0]);
            assert("it-IT"@[1] != "id-ID"@[1]);
        },
        SpeechLanguageCode::JapaneseJP => {
            assert("ja-JP"@[0] != "en-US"@[0]);
            assert("ja-JP"@[0] != "en-GB"@[0]);
            assert("ja-JP"@[0] != "en-AU"@[0]);
            assert("ja-JP"@[0] != "en-IN"@[0]);
            assert("ja-JP"@[0] != "es-ES"@[0]);
            assert("ja-JP"@[0] != "es-US"@[0]);
            assert("ja-JP"@[0] != "de-DE"@[0]);
            assert("ja-JP"@[0] != "fr-FR"@[0]);
            assert("ja-JP"@[0] != "fr-CA"@[0]);
            assert("ja-JP"@[0] != "hi-IN"@[0]);
            assert("ja-JP"@[0] != "pt-BR"@[0]);
            assert("ja-JP"@[0] != "ar-XA"@[0]);
            assert("ja-JP"@[0] != "id-ID"@[0]);
            assert("ja-JP"@[0] != "it-IT"@[0]);
        },
        SpeechLanguageCode::TurkishTR => {
            assert("tr-TR"@[0] != "en-US"@[0]);
            assert("tr-TR"@[0] != "en-GB"@[0]);
            assert("tr-TR"@[0] != "en-AU"@[0]);
            assert("tr-TR"@[0] != "en-IN"@[0]);
            assert("tr-TR"@[0] != "es-ES"@[0]);
            assert("tr-TR"@[0] != "es-US"@[0]);
            assert("tr-TR"@[0] != "de-DE"@[0]);
            assert("tr-TR"@[0] != "fr-FR"@[0]);
            assert("tr-TR"@[0] != "fr-CA"@[0]);
            assert("tr-TR"@[0] != "hi-IN"@[0]);
            assert("tr-TR"@[0] != "pt-BR"@[0]);
            assert("tr-TR"@[0] != "ar-XA"@[0]);
            assert("tr-TR"@[0] != "id-ID"@[0]);
            assert("tr-TR"@[0] != "it-IT"@[0]);
            assert("tr-TR"@[0] != "ja-JP"@[0]);
        },
        SpeechLanguageCode::VietnameseVN => {
            assert("vi-VN"@[0] != "en-US"@[0]);
            assert("vi-VN"@[0] != "en-GB"@[0]);
            assert("vi-VN"@[0] != "en-AU"@[0]);
            assert("vi-VN"@[0] != "en-IN"@[0]);
            assert("vi-VN"@[0] != "es-ES"@[0]);
            assert("vi-VN"@[0] != "es-US"@[0]);
            assert("vi-VN"@[0] != "de-DE"@[0]);
            assert("vi-VN"@[0] != "fr-FR"@[0]);
            assert("vi-VN"@[0] != "fr-CA"@[0]);
            assert("vi-VN"@[0] != "hi-IN"@[0]);
            assert("vi-VN"@[0] != "pt-BR"@[0]);
            assert("vi-VN"@[0] != "ar-XA"@[0]);
            assert("vi-VN"@[0] != "id-ID"@[0]);
            assert("vi-VN"@[0] != "it-IT"@[0]);
            assert("vi-VN"@[0] != "ja-JP"@[0]);
            assert("vi-VN"@[0] != "tr-TR"@[0]);
        },
        SpeechLanguageCode::BengaliIN => {
            assert("bn-IN"@[0] != "en-US"@[0]);
            assert("bn-IN"@[0] != "en-GB"@[0]);
            assert("bn-IN"@[0] != "en-AU"@[0]);
            assert("bn-IN"@[0] != "en-IN"@[0]);
            assert("bn-IN"@[0] != "es-ES"@[0]);
            assert("bn-IN"@[0] != "es-US"@[0]);
            assert("bn-IN"@[0] != "de-DE"@[0]);
            assert("bn-IN"@[0] != "fr-FR"@[0]);
            assert("bn-IN"@[0] != "fr-CA"@[0]);
            assert("bn-IN"@[0] != "hi-IN"@[0]);
            assert("bn-IN"@[0] != "pt-BR"@[0]);
            assert("bn-IN"@[0] != "ar-XA"@[0]);
            assert("bn-IN"@[0] != "id-ID"@[0]);
            assert("bn-IN"@[0] != "it-IT"@[0]);
            assert("bn-IN"@[0] != "ja-JP"@[0]);
            assert("bn-IN"@[0] != "tr-TR"@[0]);
            assert("bn-IN"@[0] != "vi-VN"@[0]);
        },
        SpeechLanguageCode::GujaratiIN => {
            assert("gu-IN"@[0] != "en-US"@[0]);
            assert("gu-IN"@[0] != "en-GB"@[0]);
            assert("gu-IN"@[0] != "en-AU"@[0]);
            assert("gu-IN"@[0] != "en-IN"@[0]);
            assert("gu-IN"@[0] != "es-ES"@[0]);
            assert("gu-IN"@[0] != "es-US"@[0]);
            assert("gu-IN"@[0] != "de-DE"@[0]);
            assert("gu-IN"@[0] != "fr-FR"@[0]);
            assert("gu-IN"@[0] != "fr-CA"@[0]);
            assert("gu-IN"@[0] != "hi-IN"@[0]);
            assert("gu-IN"@[0] != "pt-BR"@[0]);
            assert("gu-IN"@[0] != "ar-XA"@[0]);
            assert("gu-IN"@[0] != "id-ID"@[0]);
            assert("gu-IN"@[0] != "it-IT"@[0]);
            assert("gu-IN"@[0] != "ja-JP"@[0]);
            assert("gu-IN"@[0] != "tr-TR"@[0]);
            assert("gu-IN"@[0] != "vi-VN"@[0]);
            assert("gu-IN"@[0] != "bn-IN"@[0]);
        },
        SpeechLanguageCode::KannadaIN => {
            assert("kn-IN"@[0] != "en-US"@[0]);
            assert("kn-IN"@[0] != "en-GB"@[0]);
            assert("kn-IN"@[0] != "en-AU"@[0]);
            assert("kn-IN"@[0] != "en-IN"@[0]);
            assert("kn-IN"@[0] != "es-ES"@[0]);
            assert("kn-IN"@[0] != "es-US"@[0]);
            assert("kn-IN"@[0] != "de-DE"@[0]);
            assert("kn-IN"@[0] != "fr-FR"@[0]);
            assert("kn-IN"@[0] != "fr-CA"@[0]);
            assert("kn-IN"@[0] != "hi-IN"@[0]);
            assert("kn-IN"@[0] != "pt-BR"@[0]);
            assert("kn-IN"@[0] != "ar-XA"@[0]);
            assert("kn-IN"@[0] != "id-ID"@[0]);
            assert("kn-IN"@[0] != "it-IT"@[0]);
            assert("kn-IN"@[0] != "ja-JP"@[0]);
            assert("kn-IN"@[0] != "tr-TR"@[0]);
            assert("kn-IN"@[0] != "vi-VN"@[0]);
            assert("kn-IN"@[0] != "bn-IN"@[0]);
            assert("kn-IN"@[0] != "gu-IN"@[0]);
        },
        SpeechLanguageCode::MalayalamIN => {
            assert("ml-IN"@[0] != "en-US"@[0]);
            assert("ml-IN"@[0] != "en-GB"@[0]);
            assert("ml-IN"@[0] != "en-AU"@[0]);
            assert("ml-IN"@[0] != "en-IN"@[0]);
            assert("ml-IN"@[0] != "es-ES"@[0]);
            assert("ml-IN"@[0] != "es-US"@[0]);
            assert("ml-IN"@[0] != "de-DE"@[0]);
            assert("ml-IN"@[0] != "fr-FR"@[0]);
            assert("ml-IN"@[0] != "fr-CA"@[0]);
            assert("ml-IN"@[0] != "hi-IN"@[0]);
            assert("ml-IN"@[0] != "pt-BR"@[0]);
            assert("ml-IN"@[0] != "ar-XA"@[0]);
            assert("ml-IN"@[0] != "id-ID"@[0]);
            assert("ml-IN"@[0] != "it-IT"@[0]);
            assert("ml-IN"@[0] != "ja-JP"@[0]);
            assert("ml-IN"@[0] != "tr-TR"@[0]);
            assert("ml-IN"@[0] != "vi-VN"@[0]);
            assert("ml-IN"@[0] != "bn-IN"@[0]);
            assert("ml-IN"@[0] != "gu-IN"@[0]);
            assert("ml-IN"@[0] != "kn-IN"@[0]);
        },
        SpeechLanguageCode::MarathiIN => {
            assert("mr-IN"@[0] != "en-US"@[0]);
            assert("mr-IN"@[0] != "en-GB"@[0]);
            assert("mr-IN"@[0] != "en-AU"@[0]);
            assert("mr-IN"@[0] != "en-IN"@[0]);
            assert("mr-IN"@[0] != "es-ES"@[0]);
            assert("mr-IN"@[0] != "es-US"@[0]);
            assert("mr-IN"@[0] != "de-DE"@[0]);
            assert("mr-IN"@[0] != "fr-FR"@[0]);
            assert("mr-IN"@[0] != "fr-CA"@[0]);
            assert("mr-IN"@[0] != "hi-IN"@[0]);
            assert("mr-IN"@[0] != "pt-BR"@[0]);
            assert("mr-IN"@[0] != "ar-XA"@[0]);
            assert("mr-IN"@[0] != "id-ID"@[0]);
            assert("mr-IN"@[0] != "it-IT"@[0]);
            assert("mr-IN"@[0] != "ja-JP"@[0]);
            assert("mr-IN"@[0] != "tr-TR"@[0]);
            assert("mr-IN"@[0] != "vi-VN"@[0]);
            assert("mr-IN"@[0] != "bn-IN"@[0]);
            assert("mr-IN"@[0] != "gu-IN"@[0]);
            assert("mr-IN"@[0] != "kn-IN"@[0]);
            assert("mr-IN"@[1] != "ml-IN"@[1]);
        },
        SpeechLanguageCode::TamilIN => {
            assert("ta-IN"@[0] != "en-US"@[0]);
            assert("ta-IN"@[0] != "en-GB"@[0]);
            assert("ta-IN"@[0] != "en-AU"@[0]);
            assert("ta-IN"@[0] != "en-IN"@[0]);
            assert("ta-IN"@[0] != "es-ES"@[0]);
            assert("ta-IN"@[0] != "es-US"@[0]);
            assert("ta-IN"@[0] != "de-DE"@[0]);
            assert("ta-IN"@[0] != "fr-FR"@[0]);
            assert("ta-IN"@[0] != "fr-CA"@[0]);
            assert("ta-IN"@[0] != "hi-IN"@[0]);
            assert("ta-IN"@[0] != "pt-BR"@[0]);
            assert("ta-IN"@[0] != "ar-XA"@[0]);
            assert("ta-IN"@[0] != "id-ID"@[0]);
            assert("ta-IN"@[0] != "it-IT"@[0]);
            assert("ta-IN"@[0] != "ja-JP"@[0]);
            assert("ta-IN"@[1] != "tr-TR"@[1]);
            assert("ta-IN"@[0] != "vi-VN"@[0]);
            assert("ta-IN"@[0] != "bn-IN"@[0]);
            assert("ta-IN"@[0] != "gu-IN"@[0]);
            assert("ta-IN"@[0] != "kn-IN"@[0]);
            assert("ta-IN"@[0] != "ml-IN"@[0]);
            assert("ta-IN"@[0] != "mr-IN"@[0]);
        },
        SpeechLanguageCode::TeluguIN => {
            assert("te-IN"@[0] != "en-US"@[0]);
            assert("te-IN"@[0] != "en-GB"@[0]);
            assert("te-IN"@[0] != "en-AU"@[0]);
            assert("te-IN"@[0] != "en-IN"@[0]);
            assert("te-IN"@[0] != "es-ES"@[0]);
            assert("te-IN"@[0] != "es-US"@[0]);
            assert("te-IN"@[0] != "de-DE"@[0]);
            assert("te-IN"@[0] != "fr-FR"@[0]);
            assert("te-IN"@[0] != "fr-CA"@[0]);
            assert("te-IN"@[0] != "hi-IN"@[0]);
            assert("te-IN"@[0] != "pt-BR"@[0]);
            assert("te-IN"@[0] != "ar-XA"@[0]);
            assert("te-IN"@[0] != "id-ID"@[0]);
            assert("te-IN"@[0] != "it-IT"@[0]);
            assert("te-IN"@[0] != "ja-JP"@[0]);
            assert("te-IN"@[1] != "tr-TR"@[1]);
            assert("te-IN"@[0] != "vi-VN"@[0]);
            assert("te-IN"@[0] != "bn-IN"@[0]);
            assert("te-IN"@[0] != "gu-IN"@[0]);
            assert("te-IN"@[0] != "kn-IN"@[0]);
            assert("te-IN"@[0] != "ml-IN"@[0]);
            assert("te-IN"@[0] != "mr-IN"@[0]);
            assert("te-IN"@[1] != "ta-IN"@[1]);
        },
        SpeechLanguageCode::DutchNL => {
            assert("nl-NL"@[0] != "en-US"@[0]);
            assert("nl-NL"@[0] != "en-GB"@[0]);
            assert("nl-NL"@[0] != "en-AU"@[0]);
            assert("nl-NL"@[0] != "en-IN"@[0]);
            assert("nl-NL"@[0] != "es-ES"@[0]);
            assert("nl-NL"@[0] != "es-US"@[0]);
            assert("nl-NL"@[0] != "de-DE"@[0]);
            assert("nl-NL"@[0] != "fr-FR"@[0]);
            assert("nl-NL"@[0] != "fr-CA"@[0]);
            assert("nl-NL"@[0] != "hi-IN"@[0]);
            assert("nl-NL"@[0] != "pt-BR"@[0]);
            assert("nl-NL"@[0] != "ar-XA"@[0]);
            assert("nl-NL"@[0] != "id-ID"@[0]);
            assert("nl-NL"@[0] != "it-IT"@[0]);
            assert("nl-NL"@[0] != "ja-JP"@[0]);
            assert("nl-NL"@[0] != "tr-TR"@[0]);
            assert("nl-NL"@[0] != "vi-VN"@[0]);
            assert("nl-NL"@[0] != "bn-IN"@[0]);
            assert("nl-NL"@[0] != "gu-IN"@[0]);
            assert("nl-NL"@[0] != "kn-IN"@[0]);
            assert("nl-NL"@[0] != "ml-IN"@[0]);
            assert("nl-NL"@[0] != "mr-IN"@[0]);
            assert("nl-NL"@[0] != "ta-IN"@[0]);
            assert("nl-NL"@[0] != "te-IN"@[0]);
        },
        SpeechLanguageCode::KoreanKR => {
            assert("ko-KR"@[0] != "en-US"@[0]);
            assert("ko-KR"@[0] != "en-GB"@[0]);
            assert("ko-KR"@[0] != "en-AU"@[0]);
            assert("ko-KR"@[0] != "en-IN"@[0]);
            assert("ko-KR"@[0] != "es-ES"@[0]);
            assert("ko-KR"@[0] != "es-US"@[0]);
            assert("ko-KR"@[0] != "de-DE"@[0]);
            assert("ko-KR"@[0] != "fr-FR"@[0]);
            assert("ko-KR"@[0] != "fr-CA"@[0]);
            assert("ko-KR"@[0] != "hi-IN"@[0]);
            assert("ko-KR"@[0] != "pt-BR"@[0]);
            assert("ko-KR"@[0] != "ar-XA"@[0]);
            assert("ko-KR"@[0] != "id-ID"@[0]);
            assert("ko-KR"@[0] != "it-IT"@[0]);
            assert("ko-KR"@[0] != "ja-JP"@[0]);
            assert("ko-KR"@[0] != "tr-TR"@[0]);
            assert("ko-KR"@[0] != "vi-VN"@[0]);
            assert("ko-KR"@[0] != "bn-IN"@[0]);
            assert("ko-KR"@[0] != "gu-IN"@[0]);
            assert("ko-KR"@[1] != "kn-IN"@[1]);
            assert("ko-KR"@[0] != "ml-IN"@[0]);
            assert("ko-KR"@[0] != "mr-IN"@[0]);
            assert("ko-KR"@[0] != "ta-IN"@[0]);
            assert("ko-KR"@[0] != "te-IN"@[0]);
            assert("ko-KR"@[0] != "nl-NL"@[0]);
        },
        SpeechLanguageCode::MandarinCN => {
            assert("cmn-CN"@.len() != "en-US"@.len());
            assert("cmn-CN"@.len() != "en-GB"@.len());
            assert("cmn-CN"@.len() != "en-AU"@.len());
            assert("cmn-CN"@.len() != "en-IN"@.len());
            assert("cmn-CN"@.len() != "es-ES"@.len());
            assert("cmn-CN"@.len() != "es-US"@.len());
            assert("cmn-CN"@.len() != "de-DE"@.len());
            assert("cmn-CN"@.len() != "fr-FR"@.len());
            assert("cmn-CN"@.len() != "fr-CA"@.len());
            assert("cmn-CN"@.len() != "hi-IN"@.len());
            assert("cmn-CN"@.len() != "pt-BR"@.len());
            assert("cmn-CN"@.len() != "ar-XA"@.len());
            assert("cmn-CN"@.len() != "id-ID"@.len());
            assert("cmn-CN"@.len() != "it-IT"@.len());
            assert("cmn-CN"@.len() != "ja-JP"@.len());
            assert("cmn-CN"@.len() != "tr-TR"@.len());
            assert("cmn-CN"@.len() != "vi-VN"@.len());
            assert("cmn-CN"@.len() != "bn-IN"@.len());
            assert("cmn-CN"@.len() != "gu-IN"@.len());
            assert("cmn-CN"@.len() != "kn-IN"@.len());
            assert("cmn-CN"@.len() != "ml-IN"@.len());
            assert("cmn-CN"@.len() != "mr-IN"@.len());
            assert("cmn-CN"@.len() != "ta-IN"@.len());
            assert("cmn-CN"@.len() != "te-IN"@.len());
            assert("cmn-CN"@.len() != "nl-NL"@.len());
            assert("cmn-CN"@.len() != "ko-KR"@.len());
        },
        SpeechLanguageCode::PolishPL => {
            assert("pl-PL"@[0] != "en-US"@[0]);
            assert("pl-PL"@[0] != "en-GB"@[0]);
            assert("pl-PL"@[0] != "en-AU"@[0]);
            assert("pl-PL"@[0] != "en-IN"@[0]);
            assert("pl-PL"@[0] != "es-ES"@[0]);
            assert("pl-PL"@[0] != "es-US"@[0]);
            assert("pl-PL"@[0] != "de-DE"@[0]);
            assert("pl-PL"@[0] != "fr-FR"@[0]);
            assert("pl-PL"@[0] != "fr-CA"@[0]);
            assert("pl-PL"@[0] != "hi-IN"@[0]);
            assert("pl-PL"@[1] != "pt-BR"@[1]);
            assert("pl-PL"@[0] != "ar-XA"@[0]);
            assert("pl-PL"@[0] != "id-ID"@[0]);
            assert("pl-PL"@[0] != "it-IT"@[0]);
            assert("pl-PL"@[0] != "ja-JP"@[0]);
            assert("pl-PL"@[0] != "tr-TR"@[0]);
            assert("pl-PL"@[0] != "vi-VN"@[0]);
            assert("pl-PL"@[0] != "bn-IN"@[0]);
            assert("pl-PL"@[0] != "gu-IN"@[0]);
            assert("pl-PL"@[0] != "kn-IN"@[0]);
            assert("pl-PL"@[0] != "ml-IN"@[0]);
            assert("pl-PL"@[0] != "mr-IN"@[0]);
            assert("pl-PL"@[0] != "ta-IN"@[0]);
            assert("pl-PL"@[0] != "te-IN"@[0]);
            assert("pl-PL"@[0] != "nl-NL"@[0]);
            assert("pl-PL"@[0] != "ko-KR"@[0]);
            assert("pl-PL"@.len() != "cmn-CN"@.len());
        },
        SpeechLanguageCode::RussianRU => {
            assert("ru-RU"@[0] != "en-US"@[0]);
            assert("ru-RU"@[0] != "en-GB"@[0]);
            assert("ru-RU"@[0] != "en-AU"@[0]);
            assert("ru-RU"@[0] != "en-IN"@[0]);
            assert("ru-RU"@[0] != "es-ES"@[0]);
            assert("ru-RU"@[0] != "es-US"@[0]);
            assert("ru-RU"@[0] != "de-DE"@[0]);
            assert("ru-RU"@[0] != "fr-FR"@[0]);
            assert("ru-RU"@[0] != "fr-CA"@[0]);
            assert("ru-RU"@[0] != "hi-IN"@[0]);
            assert("ru-RU"@[0] != "pt-BR"@[0]);
            assert("ru-RU"@[0] != "ar-XA"@[0]);
            assert("ru-RU"@[0] != "id-ID"@[0]);
            assert("ru-RU"@[0] != "it-IT"@[0]);
            assert("ru-RU"@[0] != "ja-JP"@[0]);
            assert("ru-RU"@[0] != "tr-TR"@[0]);
            assert("ru-RU"@[0] != "vi-VN"@[0]);
            assert("ru-RU"@[0] != "bn-IN"@[0]);
            assert("ru-RU"@[0] != "gu-IN"@[0]);
            assert("ru-RU"@[0] != "kn-IN"@[0]);
            assert("ru-RU"@[0] != "ml-IN"@[0]);
            assert("ru-RU"@[0] != "mr-IN"@[0]);
            assert("ru-RU"@[0] != "ta-IN"@[0]);
            assert("ru-RU"@[0] != "te-IN"@[0]);
            assert("ru-RU"@[0] != "nl-NL"@[0]);
            assert("ru-RU"@[0] != "ko-KR"@[0]);
            assert("ru-RU"@.len() != "cmn-CN"@.len());
            assert("ru-RU"@[0] != "pl-PL"@[0]);
        },
        SpeechLanguageCode::ThaiTH => {
            assert("th-TH"@[0] != "en-US"@[0]);
            assert("th-TH"@[0] != "en-GB"@[0]);
            assert("th-TH"@[0] != "en-AU"@[0]);
            assert("th-TH"@[0] != "en-IN"@[0]);
            assert("th-TH"@[0] != "es-ES"@[0]);
            assert("th-TH"@[0] != "es-US"@[0]);
            assert("th-TH"@[0] != "de-DE"@[0]);
            assert("th-TH"@[0] != "fr-FR"@[0]);
            assert("th-TH"@[0] != "fr-CA"@[0]);
            assert("th-TH"@[0] != "hi-IN"@[0]);
            assert("th-TH"@[0] != "pt-BR"@[0]);
            assert("th-TH"@[0] != "ar-XA"@[0]);
            assert("th-TH"@[0] != "id-ID"@[0]);
            assert("th-TH"@[0] != "it-IT"@[0]);
            assert("th-TH"@[0] != "ja-JP"@[0]);
            assert("th-TH"@[1] != "tr-TR"@[1]);
            assert("th-TH"@[0] != "vi-VN"@[0]);
            assert("th-TH"@[0] != "bn-IN"@[0]);
            assert("th-TH"@[0] != "gu-IN"@[0]);
            assert("th-TH"@[0] != "kn-IN"@[0]);
            assert("th-TH"@[0] != "ml-IN"@[0]);
            assert("th-TH"@[0] != "mr-IN"@[0]);
            assert("th-TH"@[1] != "ta-IN"@[1]);
            assert("th-TH"@[1] != "te-IN"@[1]);
            assert("th-TH"@[0] != "nl-NL"@[0]);
            assert("th-TH"@[0] != "ko-KR"@[0]);
            assert("th-TH"@.len() != "cmn-CN"@.len());
            assert("th-TH"@[0] != "pl-PL"@[0]);
            assert("th-TH"@[0] != "ru-RU"@[0]);
        },
        SpeechLanguageCode::Other(_) => {},
    }
}

/// The value read from any wire text is written back as that same text.
pub proof fn lemma_speech_language_code_text_round_trip(s: Seq<char>, r: SpeechLanguageCode)
    requires
        match SpeechLanguageCode::known(s) {
            Some(k) => r == k,
            None => r matches SpeechLanguageCode::Other(t) && t@ == s,
        },
    ensures
        r.code_text() == s,
{
}

/// A kind of output the model may answer with.
#[derive(Debug, Clone, PartialEq, Eq, Hash)]
pub enum ResponseModality {
    /// Text output.
    Text,
    /// Audio output.
    Audio,
    /// Any other code, kept as it was received.
    Other(String),
}

impl ResponseModality {
    /// The name of this value's variant.
    pub open spec fn variant_name(&self) -> Seq<char> {
        match self {
            ResponseModality::Text => "Text"@,
            ResponseModality::Audio => "Audio"@,
            ResponseModality::Other(_) => "Other"@,
        }
    }

    /// The text that stands for this value on the wire.
    pub open spec fn code_text(&self) -> Seq<char> {
        match self {
            ResponseModality::Text => "TEXT"@,
            ResponseModality::Audio => "AUDIO"@,
            ResponseModality::Other(s) => s@,
        }
    }

    /// The named value whose wire text is `s`, if there is one.
    pub open spec fn known(s: Seq<char>) -> Option<ResponseModality> {
        if s == "TEXT"@ {
            Some(ResponseModality::Text)
        } else if s == "AUDIO"@ {
            Some(ResponseModality::Audio)
        } else {
            None
        }
    }

    /// Whether this value is `Other` holding the wire text of a named value.
    pub open spec fn is_shadowed(&self) -> bool {
        self matches ResponseModality::Other(s) && Self::known(s@) is Some
    }

    /// The wire text of this value.
    pub fn code(&self) -> (r: String)
        ensures
            r@ == self.code_text(),
    {
        match self {
            ResponseModality::Text => String::from_str("TEXT"),
            ResponseModality::Audio => String::from_str("AUDIO"),
            ResponseModality::Other(s) => s.clone(),
        }
    }

    /// The value that the wire text `s` stands for: a named value, or `Other(s)`.
    pub fn from_code(s: &str) -> (r: Self)
        ensures
            match Self::known(s@) {
                Some(k) => r == k,
                None => r matches ResponseModality::Other(t) && t@ == s@,
            },
    {
        if same_text(s, "TEXT") {
            return ResponseModality::Text;
        }
        if same_text(s, "AUDIO") {
            return ResponseModality::Audio;
        }
        ResponseModality::Other(String::from_str(s))
    }
}

/// The wire text of every named value is the name of its variant in capitals.
pub proof fn lemma_response_modality_code_is_uppercase_name(x: ResponseModality)
    requires
        !(x is Other),
    ensures
        x.code_text() == upper_text(x.variant_name()),
{
    match x {
        ResponseModality::Text => {
            reveal_strlit("Text");
            reveal_strlit("TEXT");
            assert(x.code_text() =~= upper_text(x.variant_name()));
        },
        ResponseModality::Audio => {
            reveal_strlit("Audio");
            reveal_strlit("AUDIO");
            assert(x.code_text() =~= upper_text(x.variant_name()));
        },
        ResponseModality::Other(_) => {},
    }
}

/// Reading back the wire text of a value gives the value again, unless the value
/// is `Other` holding the text of a named value.
pub proof fn lemma_response_modality_code_round_trip(x: ResponseModality)
    requires
        !x.is_shadowed(),
    ensures
        match ResponseModality::known(x.code_text()) {
            Some(k) => k == x,
            None => x matches ResponseModality::Other(t) && t@ == x.code_text(),
        },
{
    reveal_strlit("TEXT");
    reveal_strlit("AUDIO");
    match x {
        ResponseModality::Text => {
        },
        ResponseModality::Audio => {
            assert("AUDIO"@.len() != "TEXT"@.len());
        },
        ResponseModality::Other(_) => {},
    }
}

/// The value read from any wire text is written back as that same text.
pub proof fn lemma_response_modality_text_round_trip(s: Seq<char>, r: ResponseModality)
    requires
        match ResponseModality::known(s) {
            Some(k) => r == k,
            None => r matches ResponseModality::Other(t) && t@ == s,
        },
    ensures
        r.code_text() == s,
{
}

/// The author of a piece of content.
#[derive(Debug, Clone, PartialEq, Eq, Hash)]
pub enum Role {
    /// The user.
    User,
    /// The model.
    Model,
    /// A function result.
    Function,
    /// The system.
    System,
    /// Any other code, kept as it was received.
    Other(String),
}

impl Role {
    /// The name of this value's variant.
    pub open spec fn variant_name(&self) -> Seq<char> {
        match self {
            Role::User => "User"@,
            Role::Model => "Model"@,
            Role::Function => "Function"@,
            Role::System => "System"@,
            Role::Other(_) => "Other"@,
        }
    }

    /// The text that stands for this value on the wire.
    pub open spec fn code_text(&self) -> Seq<char> {
        match self {
            Role::User => "user"@,
            Role::Model => "model"@,
            Role::Function => "function"@,
            Role::System => "system"@,
            Role::Other(s) => s@,
        }
    }

    /// The named value whose wire text is `s`, if there is one.
    pub open spec fn known(s: Seq<char>) -> Option<Role> {
        if s == "user"@ {
            Some(Role::User)
        } else if s == "model"@ {
            Some(Role::Model)
        } else if s == "function"@ {
            Some(Role::Function)
        } else if s == "system"@ {
            Some(Role::System)
        } else {
            None
        }
    }

    /// Whether this value is `Other` holding the wire text of a named value.
    pub open spec fn is_shadowed(&self) -> bool {
        self matches Role::Other(s) && Self::known(s@) is Some
    }

    /// The wire text of this value.
    pub fn code(&self) -> (r: String)
        ensures
            r@ == self.code_text(),
    {
        match self {
            Role::User => String::from_str("user"),
            Role::Model => String::from_str("model"),
            Role::Function => String::from_str("function"),
            Role::System => String::from_str("system"),
            Role::Other(s) => s.clone(),
        }
    }

    /// The value that the wire text `s` stands for: a named value, or `Other(s)`.
    pub fn from_code(s: &str) -> (r: Self)
        ensures
            match Self::known(s@) {
                Some(k) => r == k,
                None => r matches Role::Other(t) && t@ == s@,
            },
    {
        if same_text(s, "user") {
            return Role::User;
        }
        if same_text(s, "model") {
            return Role::Model;
        }
        if same_text(s, "function") {
            return Role::Function;
        }
        if same_text(s, "system") {
            return Role::System;
        }
        Role::Other(String::from_str(s))
    }
}

/// The wire text of every named value is the name of its variant in small letters.
pub proof fn lemma_role_code_is_lowercase_name(x: Role)
    requires
        !(x is Other),
    ensures
        x.code_text() == lower_text(x.variant_name()),
{
    match x {
        Role::User => {
            reveal_strlit("User");
            reveal_strlit("user");
            assert(x.code_text() =~= lower_text(x.variant_name()));
        },
        Role::Model => {
            reveal_strlit("Model");
            reveal_strlit("model");
            assert(x.code_text() =~= lower_text(x.variant_name()));
        },
        Role::Function => {
            reveal_strlit("Function");
            reveal_strlit("function");
            assert(x.code_text() =~= lower_text(x.variant_name()));
        },
        Role::System => {
            reveal_strlit("System");
            reveal_strlit("system");
            assert(x.code_text() =~= lower_text(x.variant_name()));
        },
        Role::Other(_) => {},
    }
}

/// Reading back the wire text of a value gives the value again, unless the value
/// is `Other` holding the text of a named value.
pub proof fn lemma_role_code_round_trip(x: Role)
    requires
        !x.is_shadowed(),
    ensures
        match Role::known(x.code_text()) {
            Some(k) => k == x,
            None => x matches Role::Other(t) && t@ == x.code_text(),
        },
{
    reveal_strlit("user");
    reveal_strlit("model");
    reveal_strlit("function");
    reveal_strlit("system");
    match x {
        Role::User => {
        },
        Role::Model => {
            assert("model"@.len() != "user"@.len());
        },
        Role::Function => {
            assert("function"@.len() != "user"@.len());
            assert("function"@.len() != "model"@.len());
        },
        Role::System => {
            assert("system"@.len() != "user"@.len());
            assert("system"@.len() != "model"@.len());
            assert("system"@.len() != "function"@.len());
        },
        Role::Other(_) => {},
    }
}

/// The value read from any wire text is written back as that same text.
pub proof fn lemma_role_text_round_trip(s: Seq<char>, r: Role)
    requires
        match Role::known(s) {
            Some(k) => r == k,
            None => r matches Role::Other(t) && t@ == s,
        },
    ensures
        r.code_text() == s,
{
}

/// How user activity interacts with the model's output.
#[derive(Debug, Clone, PartialEq)]
pub enum ActivityHandling {
    ActivityHandlingUnspecified,
    StartOfActivityInterrupts,
    NoInterruption,
}

impl ActivityHandling {
    /// The name of this value's variant.
    pub open spec fn variant_name(&self) -> Seq<char> {
        match self {
            ActivityHandling::ActivityHandlingUnspecified => "ActivityHandlingUnspecified"@,
            ActivityHandling::StartOfActivityInterrupts => "StartOfActivityInterrupts"@,
            ActivityHandling::NoInterruption => "NoInterruption"@,
        }
    }

    /// The text that stands for this value on the wire.
    pub open spec fn code_text(&self) -> Seq<char> {
        match self {
            ActivityHandling::ActivityHandlingUnspecified => "ACTIVITY_HANDLING_UNSPECIFIED"@,
            ActivityHandling::StartOfActivityInterrupts => "START_OF_ACTIVITY_INTERRUPTS"@,
            ActivityHandling::NoInterruption => "NO_INTERRUPTION"@,
        }
    }

    /// The value whose wire text is `s`, if there is one.
    pub open spec fn known(s: Seq<char>) -> Option<ActivityHandling> {
        if s == "ACTIVITY_HANDLING_UNSPECIFIED"@ {
            Some(ActivityHandling::ActivityHandlingUnspecified)
        } else if s == "START_OF_ACTIVITY_INTERRUPTS"@ {
            Some(ActivityHandling::StartOfActivityInterrupts)
        } else if s == "NO_INTERRUPTION"@ {
            Some(ActivityHandling::NoInterruption)
        } else {
            None
        }
    }

    /// The wire text of this value.
    pub fn code(&self) -> (r: String)
        ensures
            r@ == self.code_text(),
    {
        match self {
            ActivityHandling::ActivityHandlingUnspecified => String::from_str("ACTIVITY_HANDLING_UNSPECIFIED"),
            ActivityHandling::StartOfActivityInterrupts => String::from_str("START_OF_ACTIVITY_INTERRUPTS"),
            ActivityHandling::NoInterruption => String::from_str("NO_INTERRUPTION"),
        }
    }

    /// The value that the wire text `s` stands for; `None` for any other text.
    pub fn from_code(s: &str) -> (r: Option<Self>)
        ensures
            r == Self::known(s@),
    {
        if same_text(s, "ACTIVITY_HANDLING_UNSPECIFIED") {
            return Some(ActivityHandling::ActivityHandlingUnspecified);
        }
        if same_text(s, "START_OF_ACTIVITY_INTERRUPTS") {
            return Some(ActivityHandling::StartOfActivityInterrupts);
        }
        if same_text(s, "NO_INTERRUPTION") {
            return Some(ActivityHandling::NoInterruption);
        }
        None
    }
}

/// The wire text of every value is the SCREAMING_SNAKE_CASE form of the name of
/// its variant, and that text is read back as the value.
pub proof fn lemma_activity_handling_code_is_screaming_snake(x: ActivityHandling)
    ensures
        x.code_text() == screaming_snake_text(x.variant_name()),
        ActivityHandling::known(screaming_snake_text(x.variant_name())) == Some(x),
{
    lemma_activity_handling_codes(x, x.code_text());
    match x {
        ActivityHandling::ActivityHandlingUnspecified => {
            reveal_strlit("Activity");
            reveal_strlit("Handling");
            reveal_strlit("Unspecified");
            reveal_strlit("ActivityHandlingUnspecified");
            reveal_strlit("ACTIVITY_HANDLING_UNSPECIFIED");
            lemma_screaming_snake_word("Activity"@);
            lemma_screaming_snake_word("Handling"@);
            lemma_screaming_snake_word("Unspecified"@);
            lemma_screaming_snake_join("Activity"@, "Handling"@);
            lemma_screaming_snake_join("Activity"@ + "Handling"@, "Unspecified"@);
            assert(x.variant_name() =~= "Activity"@ + "Handling"@ + "Unspecified"@);
            assert(x.code_text() =~= screaming_snake_text("Activity"@ + "Handling"@ + "Unspecified"@));
        },
        ActivityHandling::StartOfActivityInterrupts => {
            reveal_strlit("Start");
            reveal_strlit("Of");
            reveal_strlit("Activity");
            reveal_strlit("Interrupts");
            reveal_strlit("StartOfActivityInterrupts");
            reveal_strlit("START_OF_ACTIVITY_INTERRUPTS");
            lemma_screaming_snake_word("Start"@);
            lemma_screaming_snake_word("Of"@);
            lemma_screaming_snake_word("Activity"@);
            lemma_screaming_snake_word("Interrupts"@);
            lemma_screaming_snake_join("Start"@, "Of"@);
            lemma_screaming_snake_join("Start"@ + "Of"@, "Activity"@);
            lemma_screaming_snake_join("Start"@ + "Of"@ + "Activity"@, "Interrupts"@);
            assert(x.variant_name() =~= "Start"@ + "Of"@ + "Activity"@ + "Interrupts"@);
            assert(x.code_text() =~= screaming_snake_text("Start"@ + "Of"@ + "Activity"@ + "Interrupts"@));
        },
        ActivityHandling::NoInterruption => {
            reveal_strlit("No");
            reveal_strlit("Interruption");
            reveal_strlit("NoInterruption");
            reveal_strlit("NO_INTERRUPTION");
            lemma_screaming_snake_word("No"@);
            lemma_screaming_snake_word("Interruption"@);
            lemma_screaming_snake_join("No"@, "Interruption"@);
            assert(x.variant_name() =~= "No"@ + "Interruption"@);
            assert(x.code_text() =~= screaming_snake_text("No"@ + "Interruption"@));
        },
    }
}

/// Every value is read back from its wire text, and only the wire texts of values are read.
pub proof fn lemma_activity_handling_codes(x: ActivityHandling, s: Seq<char>)
    ensures
        ActivityHandling::known(x.code_text()) == Some(x),
        ActivityHandling::known(s) matches Some(k) ==> k.code_text() == s,
{
    reveal_strlit("ACTIVITY_HANDLING_UNSPECIFIED");
    reveal_strlit("START_OF_ACTIVITY_INTERRUPTS");
    reveal_strlit("NO_INTERRUPTION");
    match x {
        ActivityHandling::ActivityHandlingUnspecified => {
        },
        ActivityHandling::StartOfActivityInterrupts => {
            assert("START_OF_ACTIVITY_INTERRUPTS"@.len() != "ACTIVITY_HANDLING_UNSPECIFIED"@.len());
        },
        ActivityHandling::NoInterruption => {
            assert("NO_INTERRUPTION"@.len() != "ACTIVITY_HANDLING_UNSPECIFIED"@.len());
            assert("NO_INTERRUPTION"@.len() != "START_OF_ACTIVITY_INTERRUPTS"@.len());
        },
    }
}

/// How readily the start of speech is detected.
#[derive(Debug, Clone, PartialEq)]
pub enum StartSensitivity {
    StartSensitivityUnspecified,
    StartSensitivityHigh,
    StartSensitivityLow,
}

impl StartSensitivity {
    /// The name of this value's variant.
    pub open spec fn variant_name(&self) -> Seq<char> {
        match self {
            StartSensitivity::StartSensitivityUnspecified => "StartSensitivityUnspecified"@,
            StartSensitivity::StartSensitivityHigh => "StartSensitivityHigh"@,
            StartSensitivity::StartSensitivityLow => "StartSensitivityLow"@,
        }
    }

    /// The text that stands for this value on the wire.
    pub open spec fn code_text(&self) -> Seq<char> {
        match self {
            StartSensitivity::StartSensitivityUnspecified => "START_SENSITIVITY_UNSPECIFIED"@,
            StartSensitivity::StartSensitivityHigh => "START_SENSITIVITY_HIGH"@,
            StartSensitivity::StartSensitivityLow => "START_SENSITIVITY_LOW"@,
        }
    }

    /// The value whose wire text is `s`, if there is one.
    pub open spec fn known(s: Seq<char>) -> Option<StartSensitivity> {
        if s == "START_SENSITIVITY_UNSPECIFIED"@ {
            Some(StartSensitivity::StartSensitivityUnspecified)
        } else if s == "START_SENSITIVITY_HIGH"@ {
            Some(StartSensitivity::StartSensitivityHigh)
        } else if s == "START_SENSITIVITY_LOW"@ {
            Some(StartSensitivity::StartSensitivityLow)
        } else {
            None
        }
    }

    /// The wire text of this value.
    pub fn code(&self) -> (r: String)
        ensures
            r@ == self.code_text(),
    {
        match self {
            StartSensitivity::StartSensitivityUnspecified => String::from_str("START_SENSITIVITY_UNSPECIFIED"),
            StartSensitivity::StartSensitivityHigh => String::from_str("START_SENSITIVITY_HIGH"),
            StartSensitivity::StartSensitivityLow => String::from_str("START_SENSITIVITY_LOW"),
        }
    }

    /// The value that the wire text `s` stands for; `None` for any other text.
    pub fn from_code(s: &str) -> (r: Option<Self>)
        ensures
            r == Self::known(s@),
    {
        if same_text(s, "START_SENSITIVITY_UNSPECIFIED") {
            return Some(StartSensitivity::StartSensitivityUnspecified);
        }
        if same_text(s, "START_SENSITIVITY_HIGH") {
            return Some(StartSensitivity::StartSensitivityHigh);
        }
        if same_text(s, "START_SENSITIVITY_LOW") {
            return Some(StartSensitivity::StartSensitivityLow);
        }
        None
    }
}

/// The wire text of every value is the SCREAMING_SNAKE_CASE form of the name of
/// its variant, and that text is read back as the value.
pub proof fn lemma_start_sensitivity_code_is_screaming_snake(x: StartSensitivity)
    ensures
        x.code_text() == screaming_snake_text(x.variant_name()),
        StartSensitivity::known(screaming_snake_text(x.variant_name())) == Some(x),
{
    lemma_start_sensitivity_codes(x, x.code_text());
    match x {
        StartSensitivity::StartSensitivityUnspecified => {
            reveal_strlit("Start");
            reveal_strlit("Sensitivity");
            reveal_strlit("Unspecified");
            reveal_strlit("StartSensitivityUnspecified");
            reveal_strlit("START_SENSITIVITY_UNSPECIFIED");
            lemma_screaming_snake_word("Start"@);
            lemma_screaming_snake_word("Sensitivity"@);
            lemma_screaming_snake_word("Unspecified"@);
            lemma_screaming_snake_join("Start"@, "Sensitivity"@);
            lemma_screaming_snake_join("Start"@ + "Sensitivity"@, "Unspecified"@);
            assert(x.variant_name() =~= "Start"@ + "Sensitivity"@ + "Unspecified"@);
            assert(x.code_text() =~= screaming_snake_text("Start"@ + "Sensitivity"@ + "Unspecified"@));
        },
        StartSensitivity::StartSensitivityHigh => {
            reveal_strlit("Start");
            reveal_strlit("Sensitivity");
            reveal_strlit("High");
            reveal_strlit("StartSensitivityHigh");
            reveal_strlit("START_SENSITIVITY_HIGH");
            lemma_screaming_snake_word("Start"@);
            lemma_screaming_snake_word("Sensitivity"@);
            lemma_screaming_snake_word("High"@);
            lemma_screaming_snake_join("Start"@, "Sensitivity"@);
            lemma_screaming_snake_join("Start"@ + "Sensitivity"@, "High"@);
            assert(x.variant_name() =~= "Start"@ + "Sensitivity"@ + "High"@);
            assert(x.code_text() =~= screaming_snake_text("Start"@ + "Sensitivity"@ + "High"@));
        },
        StartSensitivity::StartSensitivityLow => {
            reveal_strlit("Start");
            reveal_strlit("Sensitivity");
            reveal_strlit("Low");
            reveal_strlit("StartSensitivityLow");
            reveal_strlit("START_SENSITIVITY_LOW");
            lemma_screaming_snake_word("Start"@);
            lemma_screaming_snake_word("Sensitivity"@);
            lemma_screaming_snake_word("Low"@);
            lemma_screaming_snake_join("Start"@, "Sensitivity"@);
            lemma_screaming_snake_join("Start"@ + "Sensitivity"@, "Low"@);
            assert(x.variant_name() =~= "Start"@ + "Sensitivity"@ + "Low"@);
            assert(x.code_text() =~= screaming_snake_text("Start"@ + "Sensitivity"@ + "Low"@));
        },
    }
}

/// Every value is read back from its wire text, and only the wire texts of values are read.
pub proof fn lemma_start_sensitivity_codes(x: StartSensitivity, s: Seq<char>)
    ensures
        StartSensitivity::known(x.code_text()) == Some(x),
        StartSensitivity::known(s) matches Some(k) ==> k.code_text() == s,
{
    reveal_strlit("START_SENSITIVITY_UNSPECIFIED");
    reveal_strlit("START_SENSITIVITY_HIGH");
    reveal_strlit("START_SENSITIVITY_LOW");
    match x {
        StartSensitivity::StartSensitivityUnspecified => {
        },
        StartSensitivity::StartSensitivityHigh => {
            assert("START_SENSITIVITY_HIGH"@.len() != "START_SENSITIVITY_UNSPECIFIED"@.len());
        },
        StartSensitivity::StartSensitivityLow => {
            assert("START_SENSITIVITY_LOW"@.len() != "START_SENSITIVITY_UNSPECIFIED"@.len());
            assert("START_SENSITIVITY_LOW"@.len() != "START_SENSITIVITY_HIGH"@.len());
        },
    }
}

/// How readily the end of speech is detected.
#[derive(Debug, Clone, PartialEq)]
pub enum EndSensitivity {
    EndSensitivityUnspecified,
    EndSensitivityHigh,
    EndSensitivityLow,
}

impl EndSensitivity {
    /// The name of this value's variant.
    pub open spec fn variant_name(&self) -> Seq<char> {
        match self {
            EndSensitivity::EndSensitivityUnspecified => "EndSensitivityUnspecified"@,
            EndSensitivity::EndSensitivityHigh => "EndSensitivityHigh"@,
            EndSensitivity::EndSensitivityLow => "EndSensitivityLow"@,
        }
    }

    /// The text that stands for this value on the wire.
    pub open spec fn code_text(&self) -> Seq<char> {
        match self {
            EndSensitivity::EndSensitivityUnspecified => "END_SENSITIVITY_UNSPECIFIED"@,
            EndSensitivity::EndSensitivityHigh => "END_SENSITIVITY_HIGH"@,
            EndSensitivity::EndSensitivityLow => "END_SENSITIVITY_LOW"@,
        }
    }

    /// The value whose wire text is `s`, if there is one.
    pub open spec fn known(s: Seq<char>) -> Option<EndSensitivity> {
        if s == "END_SENSITIVITY_UNSPECIFIED"@ {
            Some(EndSensitivity::EndSensitivityUnspecified)
        } else if s == "END_SENSITIVITY_HIGH"@ {
            Some(EndSensitivity::EndSensitivityHigh)
        } else if s == "END_SENSITIVITY_LOW"@ {
            Some(EndSensitivity::EndSensitivityLow)
        } else {
            None
        }
    }

    /// The wire text of this value.
    pub fn code(&self) -> (r: String)
        ensures
            r@ == self.code_text(),
    {
        match self {
            EndSensitivity::EndSensitivityUnspecified => String::from_str("END_SENSITIVITY_UNSPECIFIED"),
            EndSensitivity::EndSensitivityHigh => String::from_str("END_SENSITIVITY_HIGH"),
            EndSensitivity::EndSensitivityLow => String::from_str("END_SENSITIVITY_LOW"),
        }
    }

    /// The value that the wire text `s` stands for; `None` for any other text.
    pub fn from_code(s: &str) -> (r: Option<Self>)
        ensures
            r == Self::known(s@),
    {
        if same_text(s, "END_SENSITIVITY_UNSPECIFIED") {
            return Some(EndSensitivity::EndSensitivityUnspecified);
        }
        if same_text(s, "END_SENSITIVITY_HIGH") {
            return Some(EndSensitivity::EndSensitivityHigh);
        }
        if same_text(s, "END_SENSITIVITY_LOW") {
            return Some(EndSensitivity::EndSensitivityLow);
        }
        None
    }
}

/// The wire text of every value is the SCREAMING_SNAKE_CASE form of the name of
/// its variant, and that text is read back as the value.
pub proof fn lemma_end_sensitivity_code_is_screaming_snake(x: EndSensitivity)
    ensures
        x.code_text() == screaming_snake_text(x.variant_name()),
        EndSensitivity::known(screaming_snake_text(x.variant_name())) == Some(x),
{
    lemma_end_sensitivity_codes(x, x.code_text());
    match x {
        EndSensitivity::EndSensitivityUnspecified => {
            reveal_strlit("End");
            reveal_strlit("Sensitivity");
            reveal_strlit("Unspecified");
            reveal_strlit("EndSensitivityUnspecified");
            reveal_strlit("END_SENSITIVITY_UNSPECIFIED");
            lemma_screaming_snake_word("End"@);
            lemma_screaming_snake_word("Sensitivity"@);
            lemma_screaming_snake_word("Unspecified"@);
            lemma_screaming_snake_join("End"@, "Sensitivity"@);
            lemma_screaming_snake_join("End"@ + "Sensitivity"@, "Unspecified"@);
            assert(x.variant_name() =~= "End"@ + "Sensitivity"@ + "Unspecified"@);
            assert(x.code_text() =~= screaming_snake_text("End"@ + "Sensitivity"@ + "Unspecified"@));
        },
        EndSensitivity::EndSensitivityHigh => {
            reveal_strlit("End");
            reveal_strlit("Sensitivity");
            reveal_strlit("High");
            reveal_strlit("EndSensitivityHigh");
            reveal_strlit("END_SENSITIVITY_HIGH");
            lemma_screaming_snake_word("End"@);
            lemma_screaming_snake_word("Sensitivity"@);
            lemma_screaming_snake_word("High"@);
            lemma_screaming_snake_join("End"@, "Sensitivity"@);
            lemma_screaming_snake_join("End"@ + "Sensitivity"@, "High"@);
            assert(x.variant_name() =~= "End"@ + "Sensitivity"@ + "High"@);
            assert(x.code_text() =~= screaming_snake_text("End"@ + "Sensitivity"@ + "High"@));
        },
        EndSensitivity::EndSensitivityLow => {
            reveal_strlit("End");
            reveal_strlit("Sensitivity");
            reveal_strlit("Low");
            reveal_strlit("EndSensitivityLow");
            reveal_strlit("END_SENSITIVITY_LOW");
            lemma_screaming_snake_word("End"@);
            lemma_screaming_snake_word("Sensitivity"@);
            lemma_screaming_snake_word("Low"@);
            lemma_screaming_snake_join("End"@, "Sensitivity"@);
            lemma_screaming_snake_join("End"@ + "Sensitivity"@, "Low"@);
            assert(x.variant_name() =~= "End"@ + "Sensitivity"@ + "Low"@);
            assert(x.code_text() =~= screaming_snake_text("End"@ + "Sensitivity"@ + "Low"@));
        },
    }
}

/// Every value is read back from its wire text, and only the wire texts of values are read.
pub proof fn lemma_end_sensitivity_codes(x: EndSensitivity, s: Seq<char>)
    ensures
        EndSensitivity::known(x.code_text()) == Some(x),
        EndSensitivity::known(s) matches Some(k) ==> k.code_text() == s,
{
    reveal_strlit("END_SENSITIVITY_UNSPECIFIED");
    reveal_strlit("END_SENSITIVITY_HIGH");
    reveal_strlit("END_SENSITIVITY_LOW");
    match x {
        EndSensitivity::EndSensitivityUnspecified => {
        },
        EndSensitivity::EndSensitivityHigh => {
            assert("END_SENSITIVITY_HIGH"@.len() != "END_SENSITIVITY_UNSPECIFIED"@.len());
        },
        EndSensitivity::EndSensitivityLow => {
            assert("END_SENSITIVITY_LOW"@.len() != "END_SENSITIVITY_UNSPECIFIED"@.len());
            assert("END_SENSITIVITY_LOW"@.len() != "END_SENSITIVITY_HIGH"@.len());
        },
    }
}

/// Which input a user turn includes.
#[derive(Debug, Clone, PartialEq)]
pub enum TurnCoverage {
    TurnCoverageUnspecified,
    TurnIncludesOnlyActivity,
    TurnIncludesAllInput,
}

impl TurnCoverage {
    /// The name of this value's variant.
    pub open spec fn variant_name(&self) -> Seq<char> {
        match self {
            TurnCoverage::TurnCoverageUnspecified => "TurnCoverageUnspecified"@,
            TurnCoverage::TurnIncludesOnlyActivity => "TurnIncludesOnlyActivity"@,
            TurnCoverage::TurnIncludesAllInput => "TurnIncludesAllInput"@,
        }
    }

    /// The text that stands for this value on the wire.
    pub open spec fn code_text(&self) -> Seq<char> {
        match self {
            TurnCoverage::TurnCoverageUnspecified => "TURN_COVERAGE_UNSPECIFIED"@,
            TurnCoverage::TurnIncludesOnlyActivity => "TURN_INCLUDES_ONLY_ACTIVITY"@,
            TurnCoverage::TurnIncludesAllInput => "TURN_INCLUDES_ALL_INPUT"@,
        }
    }

    /// The value whose wire text is `s`, if there is one.
    pub open spec fn known(s: Seq<char>) -> Option<TurnCoverage> {
        if s == "TURN_COVERAGE_UNSPECIFIED"@ {
            Some(TurnCoverage::TurnCoverageUnspecified)
        } else if s == "TURN_INCLUDES_ONLY_ACTIVITY"@ {
            Some(TurnCoverage::TurnIncludesOnlyActivity)
        } else if s == "TURN_INCLUDES_ALL_INPUT"@ {
            Some(TurnCoverage::TurnIncludesAllInput)
        } else {
            None
        }
    }

    /// The wire text of this value.
    pub fn code(&self) -> (r: String)
        ensures
            r@ == self.code_text(),
    {
        match self {
            TurnCoverage::TurnCoverageUnspecified => String::from_str("TURN_COVERAGE_UNSPECIFIED"),
            TurnCoverage::TurnIncludesOnlyActivity => String::from_str("TURN_INCLUDES_ONLY_ACTIVITY"),
            TurnCoverage::TurnIncludesAllInput => String::from_str("TURN_INCLUDES_ALL_INPUT"),
        }
    }

    /// The value that the wire text `s` stands for; `None` for any other text.
    pub fn from_code(s: &str) -> (r: Option<Self>)
        ensures
            r == Self::known(s@),
    {
        if same_text(s, "TURN_COVERAGE_UNSPECIFIED") {
            return Some(TurnCoverage::TurnCoverageUnspecified);
        }
        if same_text(s, "TURN_INCLUDES_ONLY_ACTIVITY") {
            return Some(TurnCoverage::TurnIncludesOnlyActivity);
        }
        if same_text(s, "TURN_INCLUDES_ALL_INPUT") {
            return Some(TurnCoverage::TurnIncludesAllInput);
        }
        None
    }
}

/// The wire text of every value is the SCREAMING_SNAKE_CASE form of the name of
/// its variant, and that text is read back as the value.
pub proof fn lemma_turn_coverage_code_is_screaming_snake(x: TurnCoverage)
    ensures
        x.code_text() == screaming_snake_text(x.variant_name()),
        TurnCoverage::known(screaming_snake_text(x.variant_name())) == Some(x),
{
    lemma_turn_coverage_codes(x, x.code_text());
    match x {
        TurnCoverage::TurnCoverageUnspecified => {
            reveal_strlit("Turn");
            reveal_strlit("Coverage");
            reveal_strlit("Unspecified");
            reveal_strlit("TurnCoverageUnspecified");
            reveal_strlit("TURN_COVERAGE_UNSPECIFIED");
            lemma_screaming_snake_word("Turn"@);
            lemma_screaming_snake_word("Coverage"@);
            lemma_screaming_snake_word("Unspecified"@);
            lemma_screaming_snake_join("Turn"@, "Coverage"@);
            lemma_screaming_snake_join("Turn"@ + "Coverage"@, "Unspecified"@);
            assert(x.variant_name() =~= "Turn"@ + "Coverage"@ + "Unspecified"@);
            assert(x.code_text() =~= screaming_snake_text("Turn"@ + "Coverage"@ + "Unspecified"@));
        },
        TurnCoverage::TurnIncludesOnlyActivity => {
            reveal_strlit("Turn");
            reveal_strlit("Includes");
            reveal_strlit("Only");
            reveal_strlit("Activity");
            reveal_strlit("TurnIncludesOnlyActivity");
            reveal_strlit("TURN_INCLUDES_ONLY_ACTIVITY");
            lemma_screaming_snake_word("Turn"@);
            lemma_screaming_snake_word("Includes"@);
            lemma_screaming_snake_word("Only"@);
            lemma_screaming_snake_word("Activity"@);
            lemma_screaming_snake_join("Turn"@, "Includes"@);
            lemma_screaming_snake_join("Turn"@ + "Includes"@, "Only"@);
            lemma_screaming_snake_join("Turn"@ + "Includes"@ + "Only"@, "Activity"@);
            assert(x.variant_name() =~= "Turn"@ + "Includes"@ + "Only"@ + "Activity"@);
            assert(x.code_text() =~= screaming_snake_text("Turn"@ + "Includes"@ + "Only"@ + "Activity"@));
        },
        TurnCoverage::TurnIncludesAllInput => {
            reveal_strlit("Turn");
            reveal_strlit("Includes");
            reveal_strlit("All");
            reveal_strlit("Input");
            reveal_strlit("TurnIncludesAllInput");
            reveal_strlit("TURN_INCLUDES_ALL_INPUT");
            lemma_screaming_snake_word("Turn"@);
            lemma_screaming_snake_word("Includes"@);
            lemma_screaming_snake_word("All"@);
            lemma_screaming_snake_word("Input"@);
            lemma_screaming_snake_join("Turn"@, "Includes"@);
            lemma_screaming_snake_join("Turn"@ + "Includes"@, "All"@);
            lemma_screaming_snake_join("Turn"@ + "Includes"@ + "All"@, "Input"@);
            assert(x.variant_name() =~= "Turn"@ + "Includes"@ + "All"@ + "Input"@);
            assert(x.code_text() =~= screaming_snake_text("Turn"@ + "Includes"@ + "All"@ + "Input"@));
        },
    }
}

/// Every value is read back from its wire text, and only the wire texts of values are read.
pub proof fn lemma_turn_coverage_codes(x: TurnCoverage, s: Seq<char>)
    ensures
        TurnCoverage::known(x.code_text()) == Some(x),
        TurnCoverage::known(s) matches Some(k) ==> k.code_text() == s,
{
    reveal_strlit("TURN_COVERAGE_UNSPECIFIED");
    reveal_strlit("TURN_INCLUDES_ONLY_ACTIVITY");
    reveal_strlit("TURN_INCLUDES_ALL_INPUT");
    match x {
        TurnCoverage::TurnCoverageUnspecified => {
        },
        TurnCoverage::TurnIncludesOnlyActivity => {
            assert("TURN_INCLUDES_ONLY_ACTIVITY"@.len() != "TURN_COVERAGE_UNSPECIFIED"@.len());
        },
        TurnCoverage::TurnIncludesAllInput => {
            assert("TURN_INCLUDES_ALL_INPUT"@.len() != "TURN_COVERAGE_UNSPECIFIED"@.len());
            assert("TURN_INCLUDES_ALL_INPUT"@.len() != "TURN_INCLUDES_ONLY_ACTIVITY"@.len());
        },
    }
}

impl Default for Role {
    /// The default author is the user.
    fn default() -> (r: Self)
        ensures
            r == Role::User,
    {
        Role::User
    }
}

} // verus!
