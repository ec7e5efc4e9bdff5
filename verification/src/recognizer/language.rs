//! Languages that the recognizer understands, and their BCP-47 codes.
use vstd::prelude::*;

use crate::text::str_eq;

verus! {

/// Language that the recognizer should recognize.
///
/// The language is used to specify the language that the recognizer should recognize.
/// If the language is not mapped, you can use the `Custom` variant to specify the language.
#[derive(Debug, Clone, PartialEq, Eq)]
pub enum Language {
    AfZa,
    AmEt,
    ArAe,
    ArBh,
    ArDz,
    ArEg,
    ArIq,
    ArJo,
    ArKw,
    ArLy,
    ArMa,
    ArQa,
    ArSa,
    ArSy,
    ArTn,
    ArYe,
    BgBg,
    BnBd,
    BnIn,
    CaEs,
    CsCz,
    CyGb,
    DaDk,
    DeAt,
    DeCh,
    DeDe,
    ElGr,
    EnAu,
    EnCa,
    EnGb,
    EnHk,
    EnIe,
    EnIn,
    EnKe,
    EnNg,
    EnNz,
    EnPh,
    EnSg,
    EnTz,
    EnUs,
    EnZa,
    EsAr,
    EsBo,
    EsCl,
    EsCo,
    EsCr,
    EsCu,
    EsDo,
    EsEc,
    EsEs,
    EsGq,
    EsGt,
    EsHn,
    EsMx,
    EsNi,
    EsPa,
    EsPe,
    EsPr,
    EsPy,
    EsSv,
    EsUs,
    EsUy,
    EsVe,
    EtEe,
    FaIr,
    FiFi,
    FilPh,
    FrBe,
    FrCa,
    FrCh,
    FrFr,
    GaIe,
    GlEs,
    GuIn,
    HeIl,
    HiIn,
    HrHr,
    HuHu,
    IdId,
    IsIs,
    ItIt,
    JaJp,
    JvId,
    KkKz,
    KmKh,
    KnIn,
    KoKr,
    LoLa,
    LtLt,
    LvLv,
    MkMk,
    MlIn,
    MrIn,
    MsMy,
    MtMt,
    MyMm,
    NbNo,
    NlBe,
    NlNl,
    PlPl,
    PsAf,
    PtBr,
    PtPt,
    RoRo,
    RuRu,
    SiLk,
    SkSk,
    SlSi,
    SoSo,
    SrRs,
    SuId,
    SvSe,
    SwKe,
    SwTz,
    TaIn,
    TaLk,
    TaSg,
    TeIn,
    ThTh,
    TrTr,
    UkUa,
    UrIn,
    UrPk,
    UzUz,
    ViVn,
    ZhCn,
    ZhHk,
    ZhTw,
    ZuZa,
    Custom(String),
}

impl Default for Language {
    fn default() -> (r: Self)
        ensures
            r == Language::EnGb,
    {
        Language::EnGb
    }
}

/// The code under which a language is written: the mapped code of a named
/// language, or the text of a custom one.
pub open spec fn language_code(l: Language) -> Seq<char> {
    match l {
        Language::Custom(s) => s@,
        Language::AfZa => "af-ZA"@,
        Language::AmEt => "am-ET"@,
        Language::ArAe => "ar-AE"@,
        Language::ArBh => "ar-BH"@,
        Language::ArDz => "ar-DZ"@,
        Language::ArEg => "ar-EG"@,
        Language::ArIq => "ar-IQ"@,
        Language::ArJo => "ar-JO"@,
        Language::ArKw => "ar-KW"@,
        Language::ArLy => "ar-LY"@,
        Language::ArMa => "ar-MA"@,
        Language::ArQa => "ar-QA"@,
        Language::ArSa => "ar-SA"@,
        Language::ArSy => "ar-SY"@,
        Language::ArTn => "ar-TN"@,
        Language::ArYe => "ar-YE"@,
        Language::BgBg => "bg-BG"@,
        Language::BnBd => "bn-BD"@,
        Language::BnIn => "bn-IN"@,
        Language::CaEs => "ca-ES"@,
        Language::CsCz => "cs-CZ"@,
        Language::CyGb => "cy-GB"@,
        Language::DaDk => "da-DK"@,
        Language::DeAt => "de-AT"@,
        Language::DeCh => "de-CH"@,
        Language::DeDe => "de-DE"@,
        Language::ElGr => "el-GR"@,
        Language::EnAu => "en-AU"@,
        Language::EnCa => "en-CA"@,
        Language::EnGb => "en-GB"@,
        Language::EnHk => "en-HK"@,
        Language::EnIe => "en-IE"@,
        Language::EnIn => "en-IN"@,
        Language::EnKe => "en-KE"@,
        Language::EnNg => "en-NG"@,
        Language::EnNz => "en-NZ"@,
        Language::EnPh => "en-PH"@,
        Language::EnSg => "en-SG"@,
        Language::EnTz => "en-TZ"@,
        Language::EnUs => "en-US"@,
        Language::EnZa => "en-ZA"@,
        Language::EsAr => "es-AR"@,
        Language::EsBo => "es-BO"@,
        Language::EsCl => "es-CL"@,
        Language::EsCo => "es-CO"@,
        Language::EsCr => "es-CR"@,
        Language::EsCu => "es-CU"@,
        Language::EsDo => "es-DO"@,
        Language::EsEc => "es-EC"@,
        Language::EsEs => "es-ES"@,
        Language::EsGq => "es-GQ"@,
        Language::EsGt => "es-GT"@,
        Language::EsHn => "es-HN"@,
        Language::EsMx => "es-MX"@,
        Language::EsNi => "es-NI"@,
        Language::EsPa => "es-PA"@,
        Language::EsPe => "es-PE"@,
        Language::EsPr => "es-PR"@,
        Language::EsPy => "es-PY"@,
        Language::EsSv => "es-SV"@,
        Language::EsUs => "es-US"@,
        Language::EsUy => "es-UY"@,
        Language::EsVe => "es-VE"@,
        Language::EtEe => "et-EE"@,
        Language::FaIr => "fa-IR"@,
        Language::FiFi => "fi-FI"@,
        Language::FilPh => "fil-PH"@,
        Language::FrBe => "fr-BE"@,
        Language::FrCa => "fr-CA"@,
        Language::FrCh => "fr-CH"@,
        Language::FrFr => "fr-FR"@,
        Language::GaIe => "ga-IE"@,
        Language::GlEs => "gl-ES"@,
        Language::GuIn => "gu-IN"@,
        Language::HeIl => "he-IL"@,
        Language::HiIn => "hi-IN"@,
        Language::HrHr => "hr-HR"@,
        Language::HuHu => "hu-HU"@,
        Language::IdId => "id-ID"@,
        Language::IsIs => "is-IS"@,
        Language::ItIt => "it-IT"@,
        Language::JaJp => "ja-JP"@,
        Language::JvId => "jv-ID"@,
        Language::KkKz => "kk-KZ"@,
        Language::KmKh => "km-KH"@,
        Language::KnIn => "kn-IN"@,
        Language::KoKr => "ko-KR"@,
        Language::LoLa => "lo-LA"@,
        Language::LtLt => "lt-LT"@,
        Language::LvLv => "lv-LV"@,
        Language::MkMk => "mk-MK"@,
        Language::MlIn => "ml-IN"@,
        Language::MrIn => "mr-IN"@,
        Language::MsMy => "ms-MY"@,
        Language::MtMt => "mt-MT"@,
        Language::MyMm => "my-MM"@,
        Language::NbNo => "nb-NO"@,
        Language::NlBe => "nl-BE"@,
        Language::NlNl => "nl-NL"@,
        Language::PlPl => "pl-PL"@,
        Language::PsAf => "ps-AF"@,
        Language::PtBr => "pt-BR"@,
        Language::PtPt => "pt-PT"@,
        Language::RoRo => "ro-RO"@,
        Language::RuRu => "ru-RU"@,
        Language::SiLk => "si-LK"@,
        Language::SkSk => "sk-SK"@,
        Language::SlSi => "sl-SI"@,
        Language::SoSo => "so-SO"@,
        Language::SrRs => "sr-RS"@,
        Language::SuId => "su-ID"@,
        Language::SvSe => "sv-SE"@,
        Language::SwKe => "sw-KE"@,
        Language::SwTz => "sw-TZ"@,
        Language::TaIn => "ta-IN"@,
        Language::TaLk => "ta-LK"@,
        Language::TaSg => "ta-SG"@,
        Language::TeIn => "te-IN"@,
        Language::ThTh => "th-TH"@,
        Language::TrTr => "tr-TR"@,
        Language::UkUa => "uk-UA"@,
        Language::UrIn => "ur-IN"@,
        Language::UrPk => "ur-PK"@,
        Language::UzUz => "uz-UZ"@,
        Language::ViVn => "vi-VN"@,
        Language::ZhCn => "zh-CN"@,
        Language::ZhHk => "zh-HK"@,
        Language::ZhTw => "zh-TW"@,
        Language::ZuZa => "zu-ZA"@,
    }
}

/// The named language whose code is exactly `code`, if there is one.
pub open spec fn known_language(code: Seq<char>) -> Option<Language> {
    if code == "af-ZA"@ {
        Some(Language::AfZa)
    } else if code == "am-ET"@ {
        Some(Language::AmEt)
    } else if code == "ar-AE"@ {
        Some(Language::ArAe)
    } else if code == "ar-BH"@ {
        Some(Language::ArBh)
    } else if code == "ar-DZ"@ {
        Some(Language::ArDz)
    } else if code == "ar-EG"@ {
        Some(Language::ArEg)
    } else if code == "ar-IQ"@ {
        Some(Language::ArIq)
    } else if code == "ar-JO"@ {
        Some(Language::ArJo)
    } else if code == "ar-KW"@ {
        Some(Language::ArKw)
    } else if code == "ar-LY"@ {
        Some(Language::ArLy)
    } else if code == "ar-MA"@ {
        Some(Language::ArMa)
    } else if code == "ar-QA"@ {
        Some(Language::ArQa)
    } else if code == "ar-SA"@ {
        Some(Language::ArSa)
    } else if code == "ar-SY"@ {
        Some(Language::ArSy)
    } else if code == "ar-TN"@ {
        Some(Language::ArTn)
    } else if code == "ar-YE"@ {
        Some(Language::ArYe)
    } else if code == "bg-BG"@ {
        Some(Language::BgBg)
    } else if code == "bn-BD"@ {
        Some(Language::BnBd)
    } else if code == "bn-IN"@ {
        Some(Language::BnIn)
    } else if code == "ca-ES"@ {
        Some(Language::CaEs)
    } else if code == "cs-CZ"@ {
        Some(Language::CsCz)
    } else if code == "cy-GB"@ {
        Some(Language::CyGb)
    } else if code == "da-DK"@ {
        Some(Language::DaDk)
    } else if code == "de-AT"@ {
        Some(Language::DeAt)
    } else if code == "de-CH"@ {
        Some(Language::DeCh)
    } else if code == "de-DE"@ {
        Some(Language::DeDe)
    } else if code == "el-GR"@ {
        Some(Language::ElGr)
    } else if code == "en-AU"@ {
        Some(Language::EnAu)
    } else if code == "en-CA"@ {
        Some(Language::EnCa)
    } else if code == "en-GB"@ {
        Some(Language::EnGb)
    } else if code == "en-HK"@ {
        Some(Language::EnHk)
    } else if code == "en-IE"@ {
        Some(Language::EnIe)
    } else if code == "en-IN"@ {
        Some(Language::EnIn)
    } else if code == "en-KE"@ {
        Some(Language::EnKe)
    } else if code == "en-NG"@ {
        Some(Language::EnNg)
    } else if code == "en-NZ"@ {
        Some(Language::EnNz)
    } else if code == "en-PH"@ {
        Some(Language::EnPh)
    } else if code == "en-SG"@ {
        Some(Language::EnSg)
    } else if code == "en-TZ"@ {
        Some(Language::EnTz)
    } else if code == "en-US"@ {
        Some(Language::EnUs)
    } else if code == "en-ZA"@ {
        Some(Language::EnZa)
    } else if code == "es-AR"@ {
        Some(Language::EsAr)
    } else if code == "es-BO"@ {
        Some(Language::EsBo)
    } else if code == "es-CL"@ {
        Some(Language::EsCl)
    } else if code == "es-CO"@ {
        Some(Language::EsCo)
    } else if code == "es-CR"@ {
        Some(Language::EsCr)
    } else if code == "es-CU"@ {
        Some(Language::EsCu)
    } else if code == "es-DO"@ {
        Some(Language::EsDo)
    } else if code == "es-EC"@ {
        Some(Language::EsEc)
    } else if code == "es-ES"@ {
        Some(Language::EsEs)
    } else if code == "es-GQ"@ {
        Some(Language::EsGq)
    } else if code == "es-GT"@ {
        Some(Language::EsGt)
    } else if code == "es-HN"@ {
        Some(Language::EsHn)
    } else if code == "es-MX"@ {
        Some(Language::EsMx)
    } else if code == "es-NI"@ {
        Some(Language::EsNi)
    } else if code == "es-PA"@ {
        Some(Language::EsPa)
    } else if code == "es-PE"@ {
        Some(Language::EsPe)
    } else if code == "es-PR"@ {
        Some(Language::EsPr)
    } else if code == "es-PY"@ {
        Some(Language::EsPy)
    } else if code == "es-SV"@ {
        Some(Language::EsSv)
    } else if code == "es-US"@ {
        Some(Language::EsUs)
    } else if code == "es-UY"@ {
        Some(Language::EsUy)
    } else if code == "es-VE"@ {
        Some(Language::EsVe)
    } else if code == "et-EE"@ {
        Some(Language::EtEe)
    } else if code == "fa-IR"@ {
        Some(Language::FaIr)
    } else if code == "fi-FI"@ {
        Some(Language::FiFi)
    } else if code == "fil-PH"@ {
        Some(Language::FilPh)
    } else if code == "fr-BE"@ {
        Some(Language::FrBe)
    } else if code == "fr-CA"@ {
        Some(Language::FrCa)
    } else if code == "fr-CH"@ {
        Some(Language::FrCh)
    } else if code == "fr-FR"@ {
        Some(Language::FrFr)
    } else if code == "ga-IE"@ {
        Some(Language::GaIe)
    } else if code == "gl-ES"@ {
        Some(Language::GlEs)
    } else if code == "gu-IN"@ {
        Some(Language::GuIn)
    } else if code == "he-IL"@ {
        Some(Language::HeIl)
    } else if code == "hi-IN"@ {
        Some(Language::HiIn)
    } else if code == "hr-HR"@ {
        Some(Language::HrHr)
    } else if code == "hu-HU"@ {
        Some(Language::HuHu)
    } else if code == "id-ID"@ {
        Some(Language::IdId)
    } else if code == "is-IS"@ {
        Some(Language::IsIs)
    } else if code == "it-IT"@ {
        Some(Language::ItIt)
    } else if code == "ja-JP"@ {
        Some(Language::JaJp)
    } else if code == "jv-ID"@ {
        Some(Language::JvId)
    } else if code == "kk-KZ"@ {
        Some(Language::KkKz)
    } else if code == "km-KH"@ {
        Some(Language::KmKh)
    } else if code == "kn-IN"@ {
        Some(Language::KnIn)
    } else if code == "ko-KR"@ {
        Some(Language::KoKr)
    } else if code == "lo-LA"@ {
        Some(Language::LoLa)
    } else if code == "lt-LT"@ {
        Some(Language::LtLt)
    } else if code == "lv-LV"@ {
        Some(Language::LvLv)
    } else if code == "mk-MK"@ {
        Some(Language::MkMk)
    } else if code == "ml-IN"@ {
        Some(Language::MlIn)
    } else if code == "mr-IN"@ {
        Some(Language::MrIn)
    } else if code == "ms-MY"@ {
        Some(Language::MsMy)
    } else if code == "mt-MT"@ {
        Some(Language::MtMt)
    } else if code == "my-MM"@ {
        Some(Language::MyMm)
    } else if code == "nb-NO"@ {
        Some(Language::NbNo)
    } else if code == "nl-BE"@ {
        Some(Language::NlBe)
    } else if code == "nl-NL"@ {
        Some(Language::NlNl)
    } else if code == "pl-PL"@ {
        Some(Language::PlPl)
    } else if code == "ps-AF"@ {
        Some(Language::PsAf)
    } else if code == "pt-BR"@ {
        Some(Language::PtBr)
    } else if code == "pt-PT"@ {
        Some(Language::PtPt)
    } else if code == "ro-RO"@ {
        Some(Language::RoRo)
    } else if code == "ru-RU"@ {
        Some(Language::RuRu)
    } else if code == "si-LK"@ {
        Some(Language::SiLk)
    } else if code == "sk-SK"@ {
        Some(Language::SkSk)
    } else if code == "sl-SI"@ {
        Some(Language::SlSi)
    } else if code == "so-SO"@ {
        Some(Language::SoSo)
    } else if code == "sr-RS"@ {
        Some(Language::SrRs)
    } else if code == "su-ID"@ {
        Some(Language::SuId)
    } else if code == "sv-SE"@ {
        Some(Language::SvSe)
    } else if code == "sw-KE"@ {
        Some(Language::SwKe)
    } else if code == "sw-TZ"@ {
        Some(Language::SwTz)
    } else if code == "ta-IN"@ {
        Some(Language::TaIn)
    } else if code == "ta-LK"@ {
        Some(Language::TaLk)
    } else if code == "ta-SG"@ {
        Some(Language::TaSg)
    } else if code == "te-IN"@ {
        Some(Language::TeIn)
    } else if code == "th-TH"@ {
        Some(Language::ThTh)
    } else if code == "tr-TR"@ {
        Some(Language::TrTr)
    } else if code == "uk-UA"@ {
        Some(Language::UkUa)
    } else if code == "ur-IN"@ {
        Some(Language::UrIn)
    } else if code == "ur-PK"@ {
        Some(Language::UrPk)
    } else if code == "uz-UZ"@ {
        Some(Language::UzUz)
    } else if code == "vi-VN"@ {
        Some(Language::ViVn)
    } else if code == "zh-CN"@ {
        Some(Language::ZhCn)
    } else if code == "zh-HK"@ {
        Some(Language::ZhHk)
    } else if code == "zh-TW"@ {
        Some(Language::ZhTw)
    } else if code == "zu-ZA"@ {
        Some(Language::ZuZa)
    } else {
        None
    }
}

/// The language that a code names: the named language with that code, and
/// otherwise a custom language that keeps the code as it was given.
pub open spec fn language_from(value: String) -> Language {
    match known_language(value@) {
        Some(l) => l,
        None => Language::Custom(value),
    }
}

/// Finds the named language whose code is `code`.
fn lookup_code(code: &str) -> (r: Option<Language>)
    ensures
        r == known_language(code@),
{
    if str_eq(code, "af-ZA") {
        return Some(Language::AfZa);
    }
    if str_eq(code, "am-ET") {
        return Some(Language::AmEt);
    }
    if str_eq(code, "ar-AE") {
        return Some(Language::ArAe);
    }
    if str_eq(code, "ar-BH") {
        return Some(Language::ArBh);
    }
    if str_eq(code, "ar-DZ") {
        return Some(Language::ArDz);
    }
    if str_eq(code, "ar-EG") {
        return Some(Language::ArEg);
    }
    if str_eq(code, "ar-IQ") {
        return Some(Language::ArIq);
    }
    if str_eq(code, "ar-JO") {
        return Some(Language::ArJo);
    }
    if str_eq(code, "ar-KW") {
        return Some(Language::ArKw);
    }
    if str_eq(code, "ar-LY") {
        return Some(Language::ArLy);
    }
    if str_eq(code, "ar-MA") {
        return Some(Language::ArMa);
    }
    if str_eq(code, "ar-QA") {
        return Some(Language::ArQa);
    }
    if str_eq(code, "ar-SA") {
        return Some(Language::ArSa);
    }
    if str_eq(code, "ar-SY") {
        return Some(Language::ArSy);
    }
    if str_eq(code, "ar-TN") {
        return Some(Language::ArTn);
    }
    if str_eq(code, "ar-YE") {
        return Some(Language::ArYe);
    }
    if str_eq(code, "bg-BG") {
        return Some(Language::BgBg);
    }
    if str_eq(code, "bn-BD") {
        return Some(Language::BnBd);
    }
    if str_eq(code, "bn-IN") {
        return Some(Language::BnIn);
    }
    if str_eq(code, "ca-ES") {
        return Some(Language::CaEs);
    }
    if str_eq(code, "cs-CZ") {
        return Some(Language::CsCz);
    }
    if str_eq(code, "cy-GB") {
        return Some(Language::CyGb);
    }
    if str_eq(code, "da-DK") {
        return Some(Language::DaDk);
    }
    if str_eq(code, "de-AT") {
        return Some(Language::DeAt);
    }
    if str_eq(code, "de-CH") {
        return Some(Language::DeCh);
    }
    if str_eq(code, "de-DE") {
        return Some(Language::DeDe);
    }
    if str_eq(code, "el-GR") {
        return Some(Language::ElGr);
    }
    if str_eq(code, "en-AU") {
        return Some(Language::EnAu);
    }
    if str_eq(code, "en-CA") {
        return Some(Language::EnCa);
    }
    if str_eq(code, "en-GB") {
        return Some(Language::EnGb);
    }
    if str_eq(code, "en-HK") {
        return Some(Language::EnHk);
    }
    if str_eq(code, "en-IE") {
        return Some(Language::EnIe);
    }
    if str_eq(code, "en-IN") {
        return Some(Language::EnIn);
    }
    if str_eq(code, "en-KE") {
        return Some(Language::EnKe);
    }
    if str_eq(code, "en-NG") {
        return Some(Language::EnNg);
    }
    if str_eq(code, "en-NZ") {
        return Some(Language::EnNz);
    }
    if str_eq(code, "en-PH") {
        return Some(Language::EnPh);
    }
    if str_eq(code, "en-SG") {
        return Some(Language::EnSg);
    }
    if str_eq(code, "en-TZ") {
        return Some(Language::EnTz);
    }
    if str_eq(code, "en-US") {
        return Some(Language::EnUs);
    }
    if str_eq(code, "en-ZA") {
        return Some(Language::EnZa);
    }
    if str_eq(code, "es-AR") {
        return Some(Language::EsAr);
    }
    if str_eq(code, "es-BO") {
        return Some(Language::EsBo);
    }
    if str_eq(code, "es-CL") {
        return Some(Language::EsCl);
    }
    if str_eq(code, "es-CO") {
        return Some(Language::EsCo);
    }
    if str_eq(code, "es-CR") {
        return Some(Language::EsCr);
    }
    if str_eq(code, "es-CU") {
        return Some(Language::EsCu);
    }
    if str_eq(code, "es-DO") {
        return Some(Language::EsDo);
    }
    if str_eq(code, "es-EC") {
        return Some(Language::EsEc);
    }
    if str_eq(code, "es-ES") {
        return Some(Language::EsEs);
    }
    if str_eq(code, "es-GQ") {
        return Some(Language::EsGq);
    }
    if str_eq(code, "es-GT") {
        return Some(Language::EsGt);
    }
    if str_eq(code, "es-HN") {
        return Some(Language::EsHn);
    }
    if str_eq(code, "es-MX") {
        return Some(Language::EsMx);
    }
    if str_eq(code, "es-NI") {
        return Some(Language::EsNi);
    }
    if str_eq(code, "es-PA") {
        return Some(Language::EsPa);
    }
    if str_eq(code, "es-PE") {
        return Some(Language::EsPe);
    }
    if str_eq(code, "es-PR") {
        return Some(Language::EsPr);
    }
    if str_eq(code, "es-PY") {
        return Some(Language::EsPy);
    }
    if str_eq(code, "es-SV") {
        return Some(Language::EsSv);
    }
    if str_eq(code, "es-US") {
        return Some(Language::EsUs);
    }
    if str_eq(code, "es-UY") {
        return Some(Language::EsUy);
    }
    if str_eq(code, "es-VE") {
        return Some(Language::EsVe);
    }
    if str_eq(code, "et-EE") {
        return Some(Language::EtEe);
    }
    if str_eq(code, "fa-IR") {
        return Some(Language::FaIr);
    }
    if str_eq(code, "fi-FI") {
        return Some(Language::FiFi);
    }
    if str_eq(code, "fil-PH") {
        return Some(Language::FilPh);
    }
    if str_eq(code, "fr-BE") {
        return Some(Language::FrBe);
    }
    if str_eq(code, "fr-CA") {
        return Some(Language::FrCa);
    }
    if str_eq(code, "fr-CH") {
        return Some(Language::FrCh);
    }
    if str_eq(code, "fr-FR") {
        return Some(Language::FrFr);
    }
    if str_eq(code, "ga-IE") {
        return Some(Language::GaIe);
    }
    if str_eq(code, "gl-ES") {
        return Some(Language::GlEs);
    }
    if str_eq(code, "gu-IN") {
        return Some(Language::GuIn);
    }
    if str_eq(code, "he-IL") {
        return Some(Language::HeIl);
    }
    if str_eq(code, "hi-IN") {
        return Some(Language::HiIn);
    }
    if str_eq(code, "hr-HR") {
        return Some(Language::HrHr);
    }
    if str_eq(code, "hu-HU") {
        return Some(Language::HuHu);
    }
    if str_eq(code, "id-ID") {
        return Some(Language::IdId);
    }
    if str_eq(code, "is-IS") {
        return Some(Language::IsIs);
    }
    if str_eq(code, "it-IT") {
        return Some(Language::ItIt);
    }
    if str_eq(code, "ja-JP") {
        return Some(Language::JaJp);
    }
    if str_eq(code, "jv-ID") {
        return Some(Language::JvId);
    }
    if str_eq(code, "kk-KZ") {
        return Some(Language::KkKz);
    }
    if str_eq(code, "km-KH") {
        return Some(Language::KmKh);
    }
    if str_eq(code, "kn-IN") {
        return Some(Language::KnIn);
    }
    if str_eq(code, "ko-KR") {
        return Some(Language::KoKr);
    }
    if str_eq(code, "lo-LA") {
        return Some(Language::LoLa);
    }
    if str_eq(code, "lt-LT") {
        return Some(Language::LtLt);
    }
    if str_eq(code, "lv-LV") {
        return Some(Language::LvLv);
    }
    if str_eq(code, "mk-MK") {
        return Some(Language::MkMk);
    }
    if str_eq(code, "ml-IN") {
        return Some(Language::MlIn);
    }
    if str_eq(code, "mr-IN") {
        return Some(Language::MrIn);
    }
    if str_eq(code, "ms-MY") {
        return Some(Language::MsMy);
    }
    if str_eq(code, "mt-MT") {
        return Some(Language::MtMt);
    }
    if str_eq(code, "my-MM") {
        return Some(Language::MyMm);
    }
    if str_eq(code, "nb-NO") {
        return Some(Language::NbNo);
    }
    if str_eq(code, "nl-BE") {
        return Some(Language::NlBe);
    }
    if str_eq(code, "nl-NL") {
        return Some(Language::NlNl);
    }
    if str_eq(code, "pl-PL") {
        return Some(Language::PlPl);
    }
    if str_eq(code, "ps-AF") {
        return Some(Language::PsAf);
    }
    if str_eq(code, "pt-BR") {
        return Some(Language::PtBr);
    }
    if str_eq(code, "pt-PT") {
        return Some(Language::PtPt);
    }
    if str_eq(code, "ro-RO") {
        return Some(Language::RoRo);
    }
    if str_eq(code, "ru-RU") {
        return Some(Language::RuRu);
    }
    if str_eq(code, "si-LK") {
        return Some(Language::SiLk);
    }
    if str_eq(code, "sk-SK") {
        return Some(Language::SkSk);
    }
    if str_eq(code, "sl-SI") {
        return Some(Language::SlSi);
    }
    if str_eq(code, "so-SO") {
        return Some(Language::SoSo);
    }
    if str_eq(code, "sr-RS") {
        return Some(Language::SrRs);
    }
    if str_eq(code, "su-ID") {
        return Some(Language::SuId);
    }
    if str_eq(code, "sv-SE") {
        return Some(Language::SvSe);
    }
    if str_eq(code, "sw-KE") {
        return Some(Language::SwKe);
    }
    if str_eq(code, "sw-TZ") {
        return Some(Language::SwTz);
    }
    if str_eq(code, "ta-IN") {
        return Some(Language::TaIn);
    }
    if str_eq(code, "ta-LK") {
        return Some(Language::TaLk);
    }
    if str_eq(code, "ta-SG") {
        return Some(Language::TaSg);
    }
    if str_eq(code, "te-IN") {
        return Some(Language::TeIn);
    }
    if str_eq(code, "th-TH") {
        return Some(Language::ThTh);
    }
    if str_eq(code, "tr-TR") {
        return Some(Language::TrTr);
    }
    if str_eq(code, "uk-UA") {
        return Some(Language::UkUa);
    }
    if str_eq(code, "ur-IN") {
        return Some(Language::UrIn);
    }
    if str_eq(code, "ur-PK") {
        return Some(Language::UrPk);
    }
    if str_eq(code, "uz-UZ") {
        return Some(Language::UzUz);
    }
    if str_eq(code, "vi-VN") {
        return Some(Language::ViVn);
    }
    if str_eq(code, "zh-CN") {
        return Some(Language::ZhCn);
    }
    if str_eq(code, "zh-HK") {
        return Some(Language::ZhHk);
    }
    if str_eq(code, "zh-TW") {
        return Some(Language::ZhTw);
    }
    if str_eq(code, "zu-ZA") {
        return Some(Language::ZuZa);
    }
    None
}

impl Language {
    /// The code of the language, such as `en-GB`, or the text of a custom
    /// language.
    pub fn to_string(&self) -> (r: String)
        ensures
            r@ == language_code(*self),
    {
        match self {
            Language::Custom(s) => String::from_str(s.as_str()),
            Language::AfZa => String::from_str("af-ZA"),
            Language::AmEt => String::from_str("am-ET"),
            Language::ArAe => String::from_str("ar-AE"),
            Language::ArBh => String::from_str("ar-BH"),
            Language::ArDz => String::from_str("ar-DZ"),
            Language::ArEg => String::from_str("ar-EG"),
            Language::ArIq => String::from_str("ar-IQ"),
            Language::ArJo => String::from_str("ar-JO"),
            Language::ArKw => String::from_str("ar-KW"),
            Language::ArLy => String::from_str("ar-LY"),
            Language::ArMa => String::from_str("ar-MA"),
            Language::ArQa => String::from_str("ar-QA"),
            Language::ArSa => String::from_str("ar-SA"),
            Language::ArSy => String::from_str("ar-SY"),
            Language::ArTn => String::from_str("ar-TN"),
            Language::ArYe => String::from_str("ar-YE"),
            Language::BgBg => String::from_str("bg-BG"),
            Language::BnBd => String::from_str("bn-BD"),
            Language::BnIn => String::from_str("bn-IN"),
            Language::CaEs => String::from_str("ca-ES"),
            Language::CsCz => String::from_str("cs-CZ"),
            Language::CyGb => String::from_str("cy-GB"),
            Language::DaDk => String::from_str("da-DK"),
            Language::DeAt => String::from_str("de-AT"),
            Language::DeCh => String::from_str("de-CH"),
            Language::DeDe => String::from_str("de-DE"),
            Language::ElGr => String::from_str("el-GR"),
            Language::EnAu => String::from_str("en-AU"),
            Language::EnCa => String::from_str("en-CA"),
            Language::EnGb => String::from_str("en-GB"),
            Language::EnHk => String::from_str("en-HK"),
            Language::EnIe => String::from_str("en-IE"),
            Language::EnIn => String::from_str("en-IN"),
            Language::EnKe => String::from_str("en-KE"),
            Language::EnNg => String::from_str("en-NG"),
            Language::EnNz => String::from_str("en-NZ"),
            Language::EnPh => String::from_str("en-PH"),
            Language::EnSg => String::from_str("en-SG"),
            Language::EnTz => String::from_str("en-TZ"),
            Language::EnUs => String::from_str("en-US"),
            Language::EnZa => String::from_str("en-ZA"),
            Language::EsAr => String::from_str("es-AR"),
            Language::EsBo => String::from_str("es-BO"),
            Language::EsCl => String::from_str("es-CL"),
            Language::EsCo => String::from_str("es-CO"),
            Language::EsCr => String::from_str("es-CR"),
            Language::EsCu => String::from_str("es-CU"),
            Language::EsDo => String::from_str("es-DO"),
            Language::EsEc => String::from_str("es-EC"),
            Language::EsEs => String::from_str("es-ES"),
            Language::EsGq => String::from_str("es-GQ"),
            Language::EsGt => String::from_str("es-GT"),
            Language::EsHn => String::from_str("es-HN"),
            Language::EsMx => String::from_str("es-MX"),
            Language::EsNi => String::from_str("es-NI"),
            Language::EsPa => String::from_str("es-PA"),
            Language::EsPe => String::from_str("es-PE"),
            Language::EsPr => String::from_str("es-PR"),
            Language::EsPy => String::from_str("es-PY"),
            Language::EsSv => String::from_str("es-SV"),
            Language::EsUs => String::from_str("es-US"),
            Language::EsUy => String::from_str("es-UY"),
            Language::EsVe => String::from_str("es-VE"),
            Language::EtEe => String::from_str("et-EE"),
            Language::FaIr => String::from_str("fa-IR"),
            Language::FiFi => String::from_str("fi-FI"),
            Language::FilPh => String::from_str("fil-PH"),
            Language::FrBe => String::from_str("fr-BE"),
            Language::FrCa => String::from_str("fr-CA"),
            Language::FrCh => String::from_str("fr-CH"),
            Language::FrFr => String::from_str("fr-FR"),
            Language::GaIe => String::from_str("ga-IE"),
            Language::GlEs => String::from_str("gl-ES"),
            Language::GuIn => String::from_str("gu-IN"),
            Language::HeIl => String::from_str("he-IL"),
            Language::HiIn => String::from_str("hi-IN"),
            Language::HrHr => String::from_str("hr-HR"),
            Language::HuHu => String::from_str("hu-HU"),
            Language::IdId => String::from_str("id-ID"),
            Language::IsIs => String::from_str("is-IS"),
            Language::ItIt => String::from_str("it-IT"),
            Language::JaJp => String::from_str("ja-JP"),
            Language::JvId => String::from_str("jv-ID"),
            Language::KkKz => String::from_str("kk-KZ"),
            Language::KmKh => String::from_str("km-KH"),
            Language::KnIn => String::from_str("kn-IN"),
            Language::KoKr => String::from_str("ko-KR"),
            Language::LoLa => String::from_str("lo-LA"),
            Language::LtLt => String::from_str("lt-LT"),
            Language::LvLv => String::from_str("lv-LV"),
            Language::MkMk => String::from_str("mk-MK"),
            Language::MlIn => String::from_str("ml-IN"),
            Language::MrIn => String::from_str("mr-IN"),
            Language::MsMy => String::from_str("ms-MY"),
            Language::MtMt => String::from_str("mt-MT"),
            Language::MyMm => String::from_str("my-MM"),
            Language::NbNo => String::from_str("nb-NO"),
            Language::NlBe => String::from_str("nl-BE"),
            Language::NlNl => String::from_str("nl-NL"),
            Language::PlPl => String::from_str("pl-PL"),
            Language::PsAf => String::from_str("ps-AF"),
            Language::PtBr => String::from_str("pt-BR"),
            Language::PtPt => String::from_str("pt-PT"),
            Language::RoRo => String::from_str("ro-RO"),
            Language::RuRu => String::from_str("ru-RU"),
            Language::SiLk => String::from_str("si-LK"),
            Language::SkSk => String::from_str("sk-SK"),
            Language::SlSi => String::from_str("sl-SI"),
            Language::SoSo => String::from_str("so-SO"),
            Language::SrRs => String::from_str("sr-RS"),
            Language::SuId => String::from_str("su-ID"),
            Language::SvSe => String::from_str("sv-SE"),
            Language::SwKe => String::from_str("sw-KE"),
            Language::SwTz => String::from_str("sw-TZ"),
            Language::TaIn => String::from_str("ta-IN"),
            Language::TaLk => String::from_str("ta-LK"),
            Language::TaSg => String::from_str("ta-SG"),
            Language::TeIn => String::from_str("te-IN"),
            Language::ThTh => String::from_str("th-TH"),
            Language::TrTr => String::from_str("tr-TR"),
            Language::UkUa => String::from_str("uk-UA"),
            Language::UrIn => String::from_str("ur-IN"),
            Language::UrPk => String::from_str("ur-PK"),
            Language::UzUz => String::from_str("uz-UZ"),
            Language::ViVn => String::from_str("vi-VN"),
            Language::ZhCn => String::from_str("zh-CN"),
            Language::ZhHk => String::from_str("zh-HK"),
            Language::ZhTw => String::from_str("zh-TW"),
            Language::ZuZa => String::from_str("zu-ZA"),
        }
    }
}

impl vstd::std_specs::convert::FromSpecImpl<String> for Language {
    open spec fn obeys_from_spec() -> bool {
        true
    }

    open spec fn from_spec(v: String) -> Language {
        language_from(v)
    }
}

impl From<String> for Language {
    fn from(value: String) -> (r: Self) {
        match lookup_code(value.as_str()) {
            Some(l) => l,
            None => Language::Custom(value),
        }
    }
}

// A spec value cannot hold the `String` that a custom language keeps, so this
// conversion states its result in the contract of `from` below instead.
impl<'a> vstd::std_specs::convert::FromSpecImpl<&'a str> for Language {
    open spec fn obeys_from_spec() -> bool {
        false
    }

    open spec fn from_spec(v: &'a str) -> Language {
        match known_language(v@) {
            Some(l) => l,
            None => Language::Custom(arbitrary()),
        }
    }
}

impl<'a> From<&'a str> for Language {
    fn from(value: &'a str) -> (r: Self)
        ensures
            language_code(r) == value@,
            known_language(value@) matches Some(l) ==> r == l,
            known_language(value@) is None ==> r is Custom,
    {
        Language::from(String::from_str(value))
    }
}

/// Reading a code and writing the language back gives the code unchanged:
/// for every text, the code of the language it names is that text.
pub proof fn lemma_code_of_parsed(value: String)
    ensures
        language_code(language_from(value)) == value@,
{
}

/// A number that tells the codes of the named languages apart: their
/// length and first six characters.
spec fn code_key(s: Seq<char>) -> int {
    let c = |i: int| if i < s.len() { s[i] as int } else { 0int };
    ((((((s.len() as int) * 128 + c(0)) * 128 + c(1)) * 128 + c(2)) * 128 + c(3)) * 128 + c(4)) * 128 + c(5)
}

/// Every named language is found again from its own code.
pub proof fn lemma_parsed_code(l: Language)
    requires
        !(l is Custom),
    ensures
        known_language(language_code(l)) == Some(l),
{
    assert(code_key("af-ZA"@) == 25350603448448) by {
        reveal_strlit("af-ZA");
    }
    assert(code_key("am-ET"@) == 25352482155008) by {
        reveal_strlit("am-ET");
    }
    assert(code_key("ar-AE"@) == 25353824264832) by {
        reveal_strlit("ar-AE");
    }
    assert(code_key("ar-BH"@) == 25353824281600) by {
        reveal_strlit("ar-BH");
    }
    assert(code_key("ar-DZ"@) == 25353824316672) by {
        reveal_strlit("ar-DZ");
    }
    assert(code_key("ar-EG"@) == 25353824330624) by {
        reveal_strlit("ar-EG");
    }
    assert(code_key("ar-IQ"@) == 25353824397440) by {
        reveal_strlit("ar-IQ");
    }
    assert(code_key("ar-JO"@) == 25353824413568) by {
        reveal_strlit("ar-JO");
    }
    assert(code_key("ar-KW"@) == 25353824430976) by {
        reveal_strlit("ar-KW");
    }
    assert(code_key("ar-LY"@) == 25353824447616) by {
        reveal_strlit("ar-LY");
    }
    assert(code_key("ar-MA"@) == 25353824460928) by {
        reveal_strlit("ar-MA");
    }
    assert(code_key("ar-QA"@) == 25353824526464) by {
        reveal_strlit("ar-QA");
    }
    assert(code_key("ar-SA"@) == 25353824559232) by {
        reveal_strlit("ar-SA");
    }
    assert(code_key("ar-SY"@) == 25353824562304) by {
        reveal_strlit("ar-SY");
    }
    assert(code_key("ar-TN"@) == 25353824577280) by {
        reveal_strlit("ar-TN");
    }
    assert(code_key("ar-YE"@) == 25353824658048) by {
        reveal_strlit("ar-YE");
    }
    assert(code_key("bg-BG"@) == 25385231229824) by {
        reveal_strlit("bg-BG");
    }
    assert(code_key("bn-BD"@) == 25387110277632) by {
        reveal_strlit("bn-BD");
    }
    assert(code_key("bn-IN"@) == 25387110393600) by {
        reveal_strlit("bn-IN");
    }
    assert(code_key("ca-ES"@) == 25417980406144) by {
        reveal_strlit("ca-ES");
    }
    assert(code_key("cs-CZ"@) == 25422812212480) by {
        reveal_strlit("cs-CZ");
    }
    assert(code_key("cy-GB"@) == 25424422887680) by {
        reveal_strlit("cy-GB");
    }
    assert(code_key("da-DK"@) == 25452340127104) by {
        reveal_strlit("da-DK");
    }
    assert(code_key("de-AT"@) == 25453413820928) by {
        reveal_strlit("de-AT");
    }
    assert(code_key("de-CH"@) == 25453413852160) by {
        reveal_strlit("de-CH");
    }
    assert(code_key("de-DE"@) == 25453413868160) by {
        reveal_strlit("de-DE");
    }
    assert(code_key("el-GR"@) == 25489652705536) by {
        reveal_strlit("el-GR");
    }
    assert(code_key("en-AU"@) == 25490189478528) by {
        reveal_strlit("en-AU");
    }
    assert(code_key("en-CA"@) == 25490189508736) by {
        reveal_strlit("en-CA");
    }
    assert(code_key("en-GB"@) == 25490189574400) by {
        reveal_strlit("en-GB");
    }
    assert(code_key("en-HK"@) == 25490189591936) by {
        reveal_strlit("en-HK");
    }
    assert(code_key("en-IE"@) == 25490189607552) by {
        reveal_strlit("en-IE");
    }
    assert(code_key("en-IN"@) == 25490189608704) by {
        reveal_strlit("en-IN");
    }
    assert(code_key("en-KE"@) == 25490189640320) by {
        reveal_strlit("en-KE");
    }
    assert(code_key("en-NG"@) == 25490189689728) by {
        reveal_strlit("en-NG");
    }
    assert(code_key("en-NZ"@) == 25490189692160) by {
        reveal_strlit("en-NZ");
    }
    assert(code_key("en-PH"@) == 25490189722624) by {
        reveal_strlit("en-PH");
    }
    assert(code_key("en-SG"@) == 25490189771648) by {
        reveal_strlit("en-SG");
    }
    assert(code_key("en-TZ"@) == 25490189790464) by {
        reveal_strlit("en-TZ");
    }
    assert(code_key("en-US"@) == 25490189805952) by {
        reveal_strlit("en-US");
    }
    assert(code_key("en-ZA"@) == 25490189885568) by {
        reveal_strlit("en-ZA");
    }
    assert(code_key("es-AR"@) == 25491531655424) by {
        reveal_strlit("es-AR");
    }
    assert(code_key("es-BO"@) == 25491531671424) by {
        reveal_strlit("es-BO");
    }
    assert(code_key("es-CL"@) == 25491531687424) by {
        reveal_strlit("es-CL");
    }
    assert(code_key("es-CO"@) == 25491531687808) by {
        reveal_strlit("es-CO");
    }
    assert(code_key("es-CR"@) == 25491531688192) by {
        reveal_strlit("es-CR");
    }
    assert(code_key("es-CU"@) == 25491531688576) by {
        reveal_strlit("es-CU");
    }
    assert(code_key("es-DO"@) == 25491531704192) by {
        reveal_strlit("es-DO");
    }
    assert(code_key("es-EC"@) == 25491531719040) by {
        reveal_strlit("es-EC");
    }
    assert(code_key("es-ES"@) == 25491531721088) by {
        reveal_strlit("es-ES");
    }
    assert(code_key("es-GQ"@) == 25491531753600) by {
        reveal_strlit("es-GQ");
    }
    assert(code_key("es-GT"@) == 25491531753984) by {
        reveal_strlit("es-GT");
    }
    assert(code_key("es-HN"@) == 25491531769600) by {
        reveal_strlit("es-HN");
    }
    assert(code_key("es-MX"@) == 25491531852800) by {
        reveal_strlit("es-MX");
    }
    assert(code_key("es-NI"@) == 25491531867264) by {
        reveal_strlit("es-NI");
    }
    assert(code_key("es-PA"@) == 25491531899008) by {
        reveal_strlit("es-PA");
    }
    assert(code_key("es-PE"@) == 25491531899520) by {
        reveal_strlit("es-PE");
    }
    assert(code_key("es-PR"@) == 25491531901184) by {
        reveal_strlit("es-PR");
    }
    assert(code_key("es-PY"@) == 25491531902080) by {
        reveal_strlit("es-PY");
    }
    assert(code_key("es-SV"@) == 25491531950848) by {
        reveal_strlit("es-SV");
    }
    assert(code_key("es-US"@) == 25491531983232) by {
        reveal_strlit("es-US");
    }
    assert(code_key("es-UY"@) == 25491531984000) by {
        reveal_strlit("es-UY");
    }
    assert(code_key("es-VE"@) == 25491531997824) by {
        reveal_strlit("es-VE");
    }
    assert(code_key("et-EE"@) == 25491800154752) by {
        reveal_strlit("et-EE");
    }
    assert(code_key("fa-IR"@) == 25521059686656) by {
        reveal_strlit("fa-IR");
    }
    assert(code_key("fi-FI"@) == 25523207120000) by {
        reveal_strlit("fi-FI");
    }
    assert(code_key("fil-PH"@) == 29921385343048) by {
        reveal_strlit("fil-PH");
    }
    assert(code_key("fr-BE"@) == 25525622973056) by {
        reveal_strlit("fr-BE");
    }
    assert(code_key("fr-CA"@) == 25525622988928) by {
        reveal_strlit("fr-CA");
    }
    assert(code_key("fr-CH"@) == 25525622989824) by {
        reveal_strlit("fr-CH");
    }
    assert(code_key("fr-FR"@) == 25525623040256) by {
        reveal_strlit("fr-FR");
    }
    assert(code_key("ga-IE"@) == 25555419423360) by {
        reveal_strlit("ga-IE");
    }
    assert(code_key("gl-ES"@) == 25558372149632) by {
        reveal_strlit("gl-ES");
    }
    assert(code_key("gu-IN"@) == 25560788133632) by {
        reveal_strlit("gu-IN");
    }
    assert(code_key("he-IL"@) == 25590852904448) by {
        reveal_strlit("he-IL");
    }
    assert(code_key("hi-IN"@) == 25591926646528) by {
        reveal_strlit("hi-IN");
    }
    assert(code_key("hr-HR"@) == 25594342549760) by {
        reveal_strlit("hr-HR");
    }
    assert(code_key("hu-HU"@) == 25595147856512) by {
        reveal_strlit("hu-HU");
    }
    assert(code_key("id-ID"@) == 25624944206336) by {
        reveal_strlit("id-ID");
    }
    assert(code_key("is-IS"@) == 25628970740096) by {
        reveal_strlit("is-IS");
    }
    assert(code_key("it-IT"@) == 25629239175680) by {
        reveal_strlit("it-IT");
    }
    assert(code_key("ja-JP"@) == 25658498656256) by {
        reveal_strlit("ja-JP");
    }
    assert(code_key("jv-ID"@) == 25664135782912) by {
        reveal_strlit("jv-ID");
    }
    assert(code_key("kk-KZ"@) == 25695542766848) by {
        reveal_strlit("kk-KZ");
    }
    assert(code_key("km-KH"@) == 25696079635456) by {
        reveal_strlit("km-KH");
    }
    assert(code_key("kn-IN"@) == 25696348038912) by {
        reveal_strlit("kn-IN");
    }
    assert(code_key("ko-KR"@) == 25696616507648) by {
        reveal_strlit("ko-KR");
    }
    assert(code_key("lo-LA"@) == 25730976260224) by {
        reveal_strlit("lo-LA");
    }
    assert(code_key("lt-LT"@) == 25732318439936) by {
        reveal_strlit("lt-LT");
    }
    assert(code_key("lv-LV"@) == 25732855311104) by {
        reveal_strlit("lv-LV");
    }
    assert(code_key("mk-MK"@) == 25764262274432) by {
        reveal_strlit("mk-MK");
    }
    assert(code_key("ml-IN"@) == 25764530644736) by {
        reveal_strlit("ml-IN");
    }
    assert(code_key("mr-IN"@) == 25766141257472) by {
        reveal_strlit("mr-IN");
    }
    assert(code_key("ms-MY"@) == 25766409759872) by {
        reveal_strlit("ms-MY");
    }
    assert(code_key("mt-MT"@) == 25766678194688) by {
        reveal_strlit("mt-MT");
    }
    assert(code_key("my-MM"@) == 25768020371072) by {
        reveal_strlit("my-MM");
    }
    assert(code_key("nb-NO"@) == 25796206110592) by {
        reveal_strlit("nb-NO");
    }
    assert(code_key("nl-BE"@) == 25798890267264) by {
        reveal_strlit("nl-BE");
    }
    assert(code_key("nl-NL"@) == 25798890464768) by {
        reveal_strlit("nl-NL");
    }
    assert(code_key("pl-PL"@) == 25867609974272) by {
        reveal_strlit("pl-PL");
    }
    assert(code_key("ps-AF"@) == 25869488775936) by {
        reveal_strlit("ps-AF");
    }
    assert(code_key("pt-BR"@) == 25869757229312) by {
        reveal_strlit("pt-BR");
    }
    assert(code_key("pt-PT"@) == 25869757458944) by {
        reveal_strlit("pt-PT");
    }
    assert(code_key("ro-RO"@) == 25937134790528) by {
        reveal_strlit("ro-RO");
    }
    assert(code_key("ru-RU"@) == 25938745404032) by {
        reveal_strlit("ru-RU");
    }
    assert(code_key("si-LK"@) == 25969883817344) by {
        reveal_strlit("si-LK");
    }
    assert(code_key("sk-SK"@) == 25970420802944) by {
        reveal_strlit("sk-SK");
    }
    assert(code_key("sl-SI"@) == 25970689238144) by {
        reveal_strlit("sl-SI");
    }
    assert(code_key("so-SO"@) == 25971494545280) by {
        reveal_strlit("so-SO");
    }
    assert(code_key("sr-RS"@) == 25972299835776) by {
        reveal_strlit("sr-RS");
    }
    assert(code_key("su-ID"@) == 25973104992768) by {
        reveal_strlit("su-ID");
    }
    assert(code_key("sv-SE"@) == 25973373592192) by {
        reveal_strlit("sv-SE");
    }
    assert(code_key("sw-KE"@) == 25973641896576) by {
        reveal_strlit("sw-KE");
    }
    assert(code_key("sw-TZ"@) == 25973642046720) by {
        reveal_strlit("sw-TZ");
    }
    assert(code_key("ta-IN"@) == 26002096023296) by {
        reveal_strlit("ta-IN");
    }
    assert(code_key("ta-LK"@) == 26002096072064) by {
        reveal_strlit("ta-LK");
    }
    assert(code_key("ta-SG"@) == 26002096186240) by {
        reveal_strlit("ta-SG");
    }
    assert(code_key("te-IN"@) == 26003169765120) by {
        reveal_strlit("te-IN");
    }
    assert(code_key("th-TH"@) == 26003975250944) by {
        reveal_strlit("th-TH");
    }
    assert(code_key("tr-TR"@) == 26006659606784) by {
        reveal_strlit("tr-TR");
    }
    assert(code_key("uk-UA"@) == 26039140311168) by {
        reveal_strlit("uk-UA");
    }
    assert(code_key("ur-IN"@) == 26041019164416) by {
        reveal_strlit("ur-IN");
    }
    assert(code_key("ur-PK"@) == 26041019278720) by {
        reveal_strlit("ur-PK");
    }
    assert(code_key("uz-UZ"@) == 26043166846208) by {
        reveal_strlit("uz-UZ");
    }
    assert(code_key("vi-VN"@) == 26072963196672) by {
        reveal_strlit("vi-VN");
    }
    assert(code_key("zh-CN"@) == 26210133403392) by {
        reveal_strlit("zh-CN");
    }
    assert(code_key("zh-HK"@) == 26210133484928) by {
        reveal_strlit("zh-HK");
    }
    assert(code_key("zh-TW"@) == 26210133683072) by {
        reveal_strlit("zh-TW");
    }
    assert(code_key("zu-ZA"@) == 26213623439488) by {
        reveal_strlit("zu-ZA");
    }
}

/// The table of named languages and their codes: each named language is
/// written with its own fixed BCP-47 code.
pub proof fn lemma_language_codes()
    ensures
        language_code(Language::AfZa) == "af-ZA"@,
        language_code(Language::AmEt) == "am-ET"@,
        language_code(Language::ArAe) == "ar-AE"@,
        language_code(Language::ArBh) == "ar-BH"@,
        language_code(Language::ArDz) == "ar-DZ"@,
        language_code(Language::ArEg) == "ar-EG"@,
        language_code(Language::ArIq) == "ar-IQ"@,
        language_code(Language::ArJo) == "ar-JO"@,
        language_code(Language::ArKw) == "ar-KW"@,
        language_code(Language::ArLy) == "ar-LY"@,
        language_code(Language::ArMa) == "ar-MA"@,
        language_code(Language::ArQa) == "ar-QA"@,
        language_code(Language::ArSa) == "ar-SA"@,
        language_code(Language::ArSy) == "ar-SY"@,
        language_code(Language::ArTn) == "ar-TN"@,
        language_code(Language::ArYe) == "ar-YE"@,
        language_code(Language::BgBg) == "bg-BG"@,
        language_code(Language::BnBd) == "bn-BD"@,
        language_code(Language::BnIn) == "bn-IN"@,
        language_code(Language::CaEs) == "ca-ES"@,
        language_code(Language::CsCz) == "cs-CZ"@,
        language_code(Language::CyGb) == "cy-GB"@,
        language_code(Language::DaDk) == "da-DK"@,
        language_code(Language::DeAt) == "de-AT"@,
        language_code(Language::DeCh) == "de-CH"@,
        language_code(Language::DeDe) == "de-DE"@,
        language_code(Language::ElGr) == "el-GR"@,
        language_code(Language::EnAu) == "en-AU"@,
        language_code(Language::EnCa) == "en-CA"@,
        language_code(Language::EnGb) == "en-GB"@,
        language_code(Language::EnHk) == "en-HK"@,
        language_code(Language::EnIe) == "en-IE"@,
        language_code(Language::EnIn) == "en-IN"@,
        language_code(Language::EnKe) == "en-KE"@,
        language_code(Language::EnNg) == "en-NG"@,
        language_code(Language::EnNz) == "en-NZ"@,
        language_code(Language::EnPh) == "en-PH"@,
        language_code(Language::EnSg) == "en-SG"@,
        language_code(Language::EnTz) == "en-TZ"@,
        language_code(Language::EnUs) == "en-US"@,
        language_code(Language::EnZa) == "en-ZA"@,
        language_code(Language::EsAr) == "es-AR"@,
        language_code(Language::EsBo) == "es-BO"@,
        language_code(Language::EsCl) == "es-CL"@,
        language_code(Language::EsCo) == "es-CO"@,
        language_code(Language::EsCr) == "es-CR"@,
        language_code(Language::EsCu) == "es-CU"@,
        language_code(Language::EsDo) == "es-DO"@,
        language_code(Language::EsEc) == "es-EC"@,
        language_code(Language::EsEs) == "es-ES"@,
        language_code(Language::EsGq) == "es-GQ"@,
        language_code(Language::EsGt) == "es-GT"@,
        language_code(Language::EsHn) == "es-HN"@,
        language_code(Language::EsMx) == "es-MX"@,
        language_code(Language::EsNi) == "es-NI"@,
        language_code(Language::EsPa) == "es-PA"@,
        language_code(Language::EsPe) == "es-PE"@,
        language_code(Language::EsPr) == "es-PR"@,
        language_code(Language::EsPy) == "es-PY"@,
        language_code(Language::EsSv) == "es-SV"@,
        language_code(Language::EsUs) == "es-US"@,
        language_code(Language::EsUy) == "es-UY"@,
        language_code(Language::EsVe) == "es-VE"@,
        language_code(Language::EtEe) == "et-EE"@,
        language_code(Language::FaIr) == "fa-IR"@,
        language_code(Language::FiFi) == "fi-FI"@,
        language_code(Language::FilPh) == "fil-PH"@,
        language_code(Language::FrBe) == "fr-BE"@,
        language_code(Language::FrCa) == "fr-CA"@,
        language_code(Language::FrCh) == "fr-CH"@,
        language_code(Language::FrFr) == "fr-FR"@,
        language_code(Language::GaIe) == "ga-IE"@,
        language_code(Language::GlEs) == "gl-ES"@,
        language_code(Language::GuIn) == "gu-IN"@,
        language_code(Language::HeIl) == "he-IL"@,
        language_code(Language::HiIn) == "hi-IN"@,
        language_code(Language::HrHr) == "hr-HR"@,
        language_code(Language::HuHu) == "hu-HU"@,
        language_code(Language::IdId) == "id-ID"@,
        language_code(Language::IsIs) == "is-IS"@,
        language_code(Language::ItIt) == "it-IT"@,
        language_code(Language::JaJp) == "ja-JP"@,
        language_code(Language::JvId) == "jv-ID"@,
        language_code(Language::KkKz) == "kk-KZ"@,
        language_code(Language::KmKh) == "km-KH"@,
        language_code(Language::KnIn) == "kn-IN"@,
        language_code(Language::KoKr) == "ko-KR"@,
        language_code(Language::LoLa) == "lo-LA"@,
        language_code(Language::LtLt) == "lt-LT"@,
        language_code(Language::LvLv) == "lv-LV"@,
        language_code(Language::MkMk) == "mk-MK"@,
        language_code(Language::MlIn) == "ml-IN"@,
        language_code(Language::MrIn) == "mr-IN"@,
        language_code(Language::MsMy) == "ms-MY"@,
        language_code(Language::MtMt) == "mt-MT"@,
        language_code(Language::MyMm) == "my-MM"@,
        language_code(Language::NbNo) == "nb-NO"@,
        language_code(Language::NlBe) == "nl-BE"@,
        language_code(Language::NlNl) == "nl-NL"@,
        language_code(Language::PlPl) == "pl-PL"@,
        language_code(Language::PsAf) == "ps-AF"@,
        language_code(Language::PtBr) == "pt-BR"@,
        language_code(Language::PtPt) == "pt-PT"@,
        language_code(Language::RoRo) == "ro-RO"@,
        language_code(Language::RuRu) == "ru-RU"@,
        language_code(Language::SiLk) == "si-LK"@,
        language_code(Language::SkSk) == "sk-SK"@,
        language_code(Language::SlSi) == "sl-SI"@,
        language_code(Language::SoSo) == "so-SO"@,
        language_code(Language::SrRs) == "sr-RS"@,
        language_code(Language::SuId) == "su-ID"@,
        language_code(Language::SvSe) == "sv-SE"@,
        language_code(Language::SwKe) == "sw-KE"@,
        language_code(Language::SwTz) == "sw-TZ"@,
        language_code(Language::TaIn) == "ta-IN"@,
        language_code(Language::TaLk) == "ta-LK"@,
        language_code(Language::TaSg) == "ta-SG"@,
        language_code(Language::TeIn) == "te-IN"@,
        language_code(Language::ThTh) == "th-TH"@,
        language_code(Language::TrTr) == "tr-TR"@,
        language_code(Language::UkUa) == "uk-UA"@,
        language_code(Language::UrIn) == "ur-IN"@,
        language_code(Language::UrPk) == "ur-PK"@,
        language_code(Language::UzUz) == "uz-UZ"@,
        language_code(Language::ViVn) == "vi-VN"@,
        language_code(Language::ZhCn) == "zh-CN"@,
        language_code(Language::ZhHk) == "zh-HK"@,
        language_code(Language::ZhTw) == "zh-TW"@,
        language_code(Language::ZuZa) == "zu-ZA"@,
{
}

/// The codes from `af-ZA` to `ar-YE` read back as their own named languages.
proof fn lemma_lookup_af_za_ar_ye()
    ensures
        known_language("af-ZA"@) == Some(Language::AfZa),
        known_language("am-ET"@) == Some(Language::AmEt),
        known_language("ar-AE"@) == Some(Language::ArAe),
        known_language("ar-BH"@) == Some(Language::ArBh),
        known_language("ar-DZ"@) == Some(Language::ArDz),
        known_language("ar-EG"@) == Some(Language::ArEg),
        known_language("ar-IQ"@) == Some(Language::ArIq),
        known_language("ar-JO"@) == Some(Language::ArJo),
        known_language("ar-KW"@) == Some(Language::ArKw),
        known_language("ar-LY"@) == Some(Language::ArLy),
        known_language("ar-MA"@) == Some(Language::ArMa),
        known_language("ar-QA"@) == Some(Language::ArQa),
        known_language("ar-SA"@) == Some(Language::ArSa),
        known_language("ar-SY"@) == Some(Language::ArSy),
        known_language("ar-TN"@) == Some(Language::ArTn),
        known_language("ar-YE"@) == Some(Language::ArYe),
{
    lemma_language_codes();
    lemma_parsed_code(Language::AfZa);
    lemma_parsed_code(Language::AmEt);
    lemma_parsed_code(Language::ArAe);
    lemma_parsed_code(Language::ArBh);
    lemma_parsed_code(Language::ArDz);
    lemma_parsed_code(Language::ArEg);
    lemma_parsed_code(Language::ArIq);
    lemma_parsed_code(Language::ArJo);
    lemma_parsed_code(Language::ArKw);
    lemma_parsed_code(Language::ArLy);
    lemma_parsed_code(Language::ArMa);
    lemma_parsed_code(Language::ArQa);
    lemma_parsed_code(Language::ArSa);
    lemma_parsed_code(Language::ArSy);
    lemma_parsed_code(Language::ArTn);
    lemma_parsed_code(Language::ArYe);
}

/// The codes from `bg-BG` to `en-IE` read back as their own named languages.
proof fn lemma_lookup_bg_bg_en_ie()
    ensures
        known_language("bg-BG"@) == Some(Language::BgBg),
        known_language("bn-BD"@) == Some(Language::BnBd),
        known_language("bn-IN"@) == Some(Language::BnIn),
        known_language("ca-ES"@) == Some(Language::CaEs),
        known_language("cs-CZ"@) == Some(Language::CsCz),
        known_language("cy-GB"@) == Some(Language::CyGb),
        known_language("da-DK"@) == Some(Language::DaDk),
        known_language("de-AT"@) == Some(Language::DeAt),
        known_language("de-CH"@) == Some(Language::DeCh),
        known_language("de-DE"@) == Some(Language::DeDe),
        known_language("el-GR"@) == Some(Language::ElGr),
        known_language("en-AU"@) == Some(Language::EnAu),
        known_language("en-CA"@) == Some(Language::EnCa),
        known_language("en-GB"@) == Some(Language::EnGb),
        known_language("en-HK"@) == Some(Language::EnHk),
        known_language("en-IE"@) == Some(Language::EnIe),
{
    lemma_language_codes();
    lemma_parsed_code(Language::BgBg);
    lemma_parsed_code(Language::BnBd);
    lemma_parsed_code(Language::BnIn);
    lemma_parsed_code(Language::CaEs);
    lemma_parsed_code(Language::CsCz);
    lemma_parsed_code(Language::CyGb);
    lemma_parsed_code(Language::DaDk);
    lemma_parsed_code(Language::DeAt);
    lemma_parsed_code(Language::DeCh);
    lemma_parsed_code(Language::DeDe);
    lemma_parsed_code(Language::ElGr);
    lemma_parsed_code(Language::EnAu);
    lemma_parsed_code(Language::EnCa);
    lemma_parsed_code(Language::EnGb);
    lemma_parsed_code(Language::EnHk);
    lemma_parsed_code(Language::EnIe);
}

/// The codes from `en-IN` to `es-DO` read back as their own named languages.
proof fn lemma_lookup_en_in_es_do()
    ensures
        known_language("en-IN"@) == Some(Language::EnIn),
        known_language("en-KE"@) == Some(Language::EnKe),
        known_language("en-NG"@) == Some(Language::EnNg),
        known_language("en-NZ"@) == Some(Language::EnNz),
        known_language("en-PH"@) == Some(Language::EnPh),
        known_language("en-SG"@) == Some(Language::EnSg),
        known_language("en-TZ"@) == Some(Language::EnTz),
        known_language("en-US"@) == Some(Language::EnUs),
        known_language("en-ZA"@) == Some(Language::EnZa),
        known_language("es-AR"@) == Some(Language::EsAr),
        known_language("es-BO"@) == Some(Language::EsBo),
        known_language("es-CL"@) == Some(Language::EsCl),
        known_language("es-CO"@) == Some(Language::EsCo),
        known_language("es-CR"@) == Some(Language::EsCr),
        known_language("es-CU"@) == Some(Language::EsCu),
        known_language("es-DO"@) == Some(Language::EsDo),
{
    lemma_language_codes();
    lemma_parsed_code(Language::EnIn);
    lemma_parsed_code(Language::EnKe);
    lemma_parsed_code(Language::EnNg);
    lemma_parsed_code(Language::EnNz);
    lemma_parsed_code(Language::EnPh);
    lemma_parsed_code(Language::EnSg);
    lemma_parsed_code(Language::EnTz);
    lemma_parsed_code(Language::EnUs);
    lemma_parsed_code(Language::EnZa);
    lemma_parsed_code(Language::EsAr);
    lemma_parsed_code(Language::EsBo);
    lemma_parsed_code(Language::EsCl);
    lemma_parsed_code(Language::EsCo);
    lemma_parsed_code(Language::EsCr);
    lemma_parsed_code(Language::EsCu);
    lemma_parsed_code(Language::EsDo);
}

/// The codes from `es-EC` to `et-EE` read back as their own named languages.
proof fn lemma_lookup_es_ec_et_ee()
    ensures
        known_language("es-EC"@) == Some(Language::EsEc),
        known_language("es-ES"@) == Some(Language::EsEs),
        known_language("es-GQ"@) == Some(Language::EsGq),
        known_language("es-GT"@) == Some(Language::EsGt),
        known_language("es-HN"@) == Some(Language::EsHn),
        known_language("es-MX"@) == Some(Language::EsMx),
        known_language("es-NI"@) == Some(Language::EsNi),
        known_language("es-PA"@) == Some(Language::EsPa),
        known_language("es-PE"@) == Some(Language::EsPe),
        known_language("es-PR"@) == Some(Language::EsPr),
        known_language("es-PY"@) == Some(Language::EsPy),
        known_language("es-SV"@) == Some(Language::EsSv),
        known_language("es-US"@) == Some(Language::EsUs),
        known_language("es-UY"@) == Some(Language::EsUy),
        known_language("es-VE"@) == Some(Language::EsVe),
        known_language("et-EE"@) == Some(Language::EtEe),
{
    lemma_language_codes();
    lemma_parsed_code(Language::EsEc);
    lemma_parsed_code(Language::EsEs);
    lemma_parsed_code(Language::EsGq);
    lemma_parsed_code(Language::EsGt);
    lemma_parsed_code(Language::EsHn);
    lemma_parsed_code(Language::EsMx);
    lemma_parsed_code(Language::EsNi);
    lemma_parsed_code(Language::EsPa);
    lemma_parsed_code(Language::EsPe);
    lemma_parsed_code(Language::EsPr);
    lemma_parsed_code(Language::EsPy);
    lemma_parsed_code(Language::EsSv);
    lemma_parsed_code(Language::EsUs);
    lemma_parsed_code(Language::EsUy);
    lemma_parsed_code(Language::EsVe);
    lemma_parsed_code(Language::EtEe);
}

/// The codes from `fa-IR` to `is-IS` read back as their own named languages.
proof fn lemma_lookup_fa_ir_is_is()
    ensures
        known_language("fa-IR"@) == Some(Language::FaIr),
        known_language("fi-FI"@) == Some(Language::FiFi),
        known_language("fil-PH"@) == Some(Language::FilPh),
        known_language("fr-BE"@) == Some(Language::FrBe),
        known_language("fr-CA"@) == Some(Language::FrCa),
        known_language("fr-CH"@) == Some(Language::FrCh),
        known_language("fr-FR"@) == Some(Language::FrFr),
        known_language("ga-IE"@) == Some(Language::GaIe),
        known_language("gl-ES"@) == Some(Language::GlEs),
        known_language("gu-IN"@) == Some(Language::GuIn),
        known_language("he-IL"@) == Some(Language::HeIl),
        known_language("hi-IN"@) == Some(Language::HiIn),
        known_language("hr-HR"@) == Some(Language::HrHr),
        known_language("hu-HU"@) == Some(Language::HuHu),
        known_language("id-ID"@) == Some(Language::IdId),
        known_language("is-IS"@) == Some(Language::IsIs),
{
    lemma_language_codes();
    lemma_parsed_code(Language::FaIr);
    lemma_parsed_code(Language::FiFi);
    lemma_parsed_code(Language::FilPh);
    lemma_parsed_code(Language::FrBe);
    lemma_parsed_code(Language::FrCa);
    lemma_parsed_code(Language::FrCh);
    lemma_parsed_code(Language::FrFr);
    lemma_parsed_code(Language::GaIe);
    lemma_parsed_code(Language::GlEs);
    lemma_parsed_code(Language::GuIn);
    lemma_parsed_code(Language::HeIl);
    lemma_parsed_code(Language::HiIn);
    lemma_parsed_code(Language::HrHr);
    lemma_parsed_code(Language::HuHu);
    lemma_parsed_code(Language::IdId);
    lemma_parsed_code(Language::IsIs);
}

/// The codes from `it-IT` to `my-MM` read back as their own named languages.
proof fn lemma_lookup_it_it_my_mm()
    ensures
        known_language("it-IT"@) == Some(Language::ItIt),
        known_language("ja-JP"@) == Some(Language::JaJp),
        known_language("jv-ID"@) == Some(Language::JvId),
        known_language("kk-KZ"@) == Some(Language::KkKz),
        known_language("km-KH"@) == Some(Language::KmKh),
        known_language("kn-IN"@) == Some(Language::KnIn),
        known_language("ko-KR"@) == Some(Language::KoKr),
        known_language("lo-LA"@) == Some(Language::LoLa),
        known_language("lt-LT"@) == Some(Language::LtLt),
        known_language("lv-LV"@) == Some(Language::LvLv),
        known_language("mk-MK"@) == Some(Language::MkMk),
        known_language("ml-IN"@) == Some(Language::MlIn),
        known_language("mr-IN"@) == Some(Language::MrIn),
        known_language("ms-MY"@) == Some(Language::MsMy),
        known_language("mt-MT"@) == Some(Language::MtMt),
        known_language("my-MM"@) == Some(Language::MyMm),
{
    lemma_language_codes();
    lemma_parsed_code(Language::ItIt);
    lemma_parsed_code(Language::JaJp);
    lemma_parsed_code(Language::JvId);
    lemma_parsed_code(Language::KkKz);
    lemma_parsed_code(Language::KmKh);
    lemma_parsed_code(Language::KnIn);
    lemma_parsed_code(Language::KoKr);
    lemma_parsed_code(Language::LoLa);
    lemma_parsed_code(Language::LtLt);
    lemma_parsed_code(Language::LvLv);
    lemma_parsed_code(Language::MkMk);
    lemma_parsed_code(Language::MlIn);
    lemma_parsed_code(Language::MrIn);
    lemma_parsed_code(Language::MsMy);
    lemma_parsed_code(Language::MtMt);
    lemma_parsed_code(Language::MyMm);
}

/// The codes from `nb-NO` to `sv-SE` read back as their own named languages.
proof fn lemma_lookup_nb_no_sv_se()
    ensures
        known_language("nb-NO"@) == Some(Language::NbNo),
        known_language("nl-BE"@) == Some(Language::NlBe),
        known_language("nl-NL"@) == Some(Language::NlNl),
        known_language("pl-PL"@) == Some(Language::PlPl),
        known_language("ps-AF"@) == Some(Language::PsAf),
        known_language("pt-BR"@) == Some(Language::PtBr),
        known_language("pt-PT"@) == Some(Language::PtPt),
        known_language("ro-RO"@) == Some(Language::RoRo),
        known_language("ru-RU"@) == Some(Language::RuRu),
        known_language("si-LK"@) == Some(Language::SiLk),
        known_language("sk-SK"@) == Some(Language::SkSk),
        known_language("sl-SI"@) == Some(Language::SlSi),
        known_language("so-SO"@) == Some(Language::SoSo),
        known_language("sr-RS"@) == Some(Language::SrRs),
        known_language("su-ID"@) == Some(Language::SuId),
        known_language("sv-SE"@) == Some(Language::SvSe),
{
    lemma_language_codes();
    lemma_parsed_code(Language::NbNo);
    lemma_parsed_code(Language::NlBe);
    lemma_parsed_code(Language::NlNl);
    lemma_parsed_code(Language::PlPl);
    lemma_parsed_code(Language::PsAf);
    lemma_parsed_code(Language::PtBr);
    lemma_parsed_code(Language::PtPt);
    lemma_parsed_code(Language::RoRo);
    lemma_parsed_code(Language::RuRu);
    lemma_parsed_code(Language::SiLk);
    lemma_parsed_code(Language::SkSk);
    lemma_parsed_code(Language::SlSi);
    lemma_parsed_code(Language::SoSo);
    lemma_parsed_code(Language::SrRs);
    lemma_parsed_code(Language::SuId);
    lemma_parsed_code(Language::SvSe);
}

/// The codes from `sw-KE` to `zh-TW` read back as their own named languages.
proof fn lemma_lookup_sw_ke_zh_tw()
    ensures
        known_language("sw-KE"@) == Some(Language::SwKe),
        known_language("sw-TZ"@) == Some(Language::SwTz),
        known_language("ta-IN"@) == Some(Language::TaIn),
        known_language("ta-LK"@) == Some(Language::TaLk),
        known_language("ta-SG"@) == Some(Language::TaSg),
        known_language("te-IN"@) == Some(Language::TeIn),
        known_language("th-TH"@) == Some(Language::ThTh),
        known_language("tr-TR"@) == Some(Language::TrTr),
        known_language("uk-UA"@) == Some(Language::UkUa),
        known_language("ur-IN"@) == Some(Language::UrIn),
        known_language("ur-PK"@) == Some(Language::UrPk),
        known_language("uz-UZ"@) == Some(Language::UzUz),
        known_language("vi-VN"@) == Some(Language::ViVn),
        known_language("zh-CN"@) == Some(Language::ZhCn),
        known_language("zh-HK"@) == Some(Language::ZhHk),
        known_language("zh-TW"@) == Some(Language::ZhTw),
{
    lemma_language_codes();
    lemma_parsed_code(Language::SwKe);
    lemma_parsed_code(Language::SwTz);
    lemma_parsed_code(Language::TaIn);
    lemma_parsed_code(Language::TaLk);
    lemma_parsed_code(Language::TaSg);
    lemma_parsed_code(Language::TeIn);
    lemma_parsed_code(Language::ThTh);
    lemma_parsed_code(Language::TrTr);
    lemma_parsed_code(Language::UkUa);
    lemma_parsed_code(Language::UrIn);
    lemma_parsed_code(Language::UrPk);
    lemma_parsed_code(Language::UzUz);
    lemma_parsed_code(Language::ViVn);
    lemma_parsed_code(Language::ZhCn);
    lemma_parsed_code(Language::ZhHk);
    lemma_parsed_code(Language::ZhTw);
}

/// The codes from `zu-ZA` to `zu-ZA` read back as their own named languages.
proof fn lemma_lookup_zu_za_zu_za()
    ensures
        known_language("zu-ZA"@) == Some(Language::ZuZa),
{
    lemma_language_codes();
    lemma_parsed_code(Language::ZuZa);
}

/// Each code of the table reads back as its own named language.
pub proof fn lemma_language_code_lookup()
    ensures
        known_language("af-ZA"@) == Some(Language::AfZa),
        known_language("am-ET"@) == Some(Language::AmEt),
        known_language("ar-AE"@) == Some(Language::ArAe),
        known_language("ar-BH"@) == Some(Language::ArBh),
        known_language("ar-DZ"@) == Some(Language::ArDz),
        known_language("ar-EG"@) == Some(Language::ArEg),
        known_language("ar-IQ"@) == Some(Language::ArIq),
        known_language("ar-JO"@) == Some(Language::ArJo),
        known_language("ar-KW"@) == Some(Language::ArKw),
        known_language("ar-LY"@) == Some(Language::ArLy),
        known_language("ar-MA"@) == Some(Language::ArMa),
        known_language("ar-QA"@) == Some(Language::ArQa),
        known_language("ar-SA"@) == Some(Language::ArSa),
        known_language("ar-SY"@) == Some(Language::ArSy),
        known_language("ar-TN"@) == Some(Language::ArTn),
        known_language("ar-YE"@) == Some(Language::ArYe),
        known_language("bg-BG"@) == Some(Language::BgBg),
        known_language("bn-BD"@) == Some(Language::BnBd),
        known_language("bn-IN"@) == Some(Language::BnIn),
        known_language("ca-ES"@) == Some(Language::CaEs),
        known_language("cs-CZ"@) == Some(Language::CsCz),
        known_language("cy-GB"@) == Some(Language::CyGb),
        known_language("da-DK"@) == Some(Language::DaDk),
        known_language("de-AT"@) == Some(Language::DeAt),
        known_language("de-CH"@) == Some(Language::DeCh),
        known_language("de-DE"@) == Some(Language::DeDe),
        known_language("el-GR"@) == Some(Language::ElGr),
        known_language("en-AU"@) == Some(Language::EnAu),
        known_language("en-CA"@) == Some(Language::EnCa),
        known_language("en-GB"@) == Some(Language::EnGb),
        known_language("en-HK"@) == Some(Language::EnHk),
        known_language("en-IE"@) == Some(Language::EnIe),
        known_language("en-IN"@) == Some(Language::EnIn),
        known_language("en-KE"@) == Some(Language::EnKe),
        known_language("en-NG"@) == Some(Language::EnNg),
        known_language("en-NZ"@) == Some(Language::EnNz),
        known_language("en-PH"@) == Some(Language::EnPh),
        known_language("en-SG"@) == Some(Language::EnSg),
        known_language("en-TZ"@) == Some(Language::EnTz),
        known_language("en-US"@) == Some(Language::EnUs),
        known_language("en-ZA"@) == Some(Language::EnZa),
        known_language("es-AR"@) == Some(Language::EsAr),
        known_language("es-BO"@) == Some(Language::EsBo),
        known_language("es-CL"@) == Some(Language::EsCl),
        known_language("es-CO"@) == Some(Language::EsCo),
        known_language("es-CR"@) == Some(Language::EsCr),
        known_language("es-CU"@) == Some(Language::EsCu),
        known_language("es-DO"@) == Some(Language::EsDo),
        known_language("es-EC"@) == Some(Language::EsEc),
        known_language("es-ES"@) == Some(Language::EsEs),
        known_language("es-GQ"@) == Some(Language::EsGq),
        known_language("es-GT"@) == Some(Language::EsGt),
        known_language("es-HN"@) == Some(Language::EsHn),
        known_language("es-MX"@) == Some(Language::EsMx),
        known_language("es-NI"@) == Some(Language::EsNi),
        known_language("es-PA"@) == Some(Language::EsPa),
        known_language("es-PE"@) == Some(Language::EsPe),
        known_language("es-PR"@) == Some(Language::EsPr),
        known_language("es-PY"@) == Some(Language::EsPy),
        known_language("es-SV"@) == Some(Language::EsSv),
        known_language("es-US"@) == Some(Language::EsUs),
        known_language("es-UY"@) == Some(Language::EsUy),
        known_language("es-VE"@) == Some(Language::EsVe),
        known_language("et-EE"@) == Some(Language::EtEe),
        known_language("fa-IR"@) == Some(Language::FaIr),
        known_language("fi-FI"@) == Some(Language::FiFi),
        known_language("fil-PH"@) == Some(Language::FilPh),
        known_language("fr-BE"@) == Some(Language::FrBe),
        known_language("fr-CA"@) == Some(Language::FrCa),
        known_language("fr-CH"@) == Some(Language::FrCh),
        known_language("fr-FR"@) == Some(Language::FrFr),
        known_language("ga-IE"@) == Some(Language::GaIe),
        known_language("gl-ES"@) == Some(Language::GlEs),
        known_language("gu-IN"@) == Some(Language::GuIn),
        known_language("he-IL"@) == Some(Language::HeIl),
        known_language("hi-IN"@) == Some(Language::HiIn),
        known_language("hr-HR"@) == Some(Language::HrHr),
        known_language("hu-HU"@) == Some(Language::HuHu),
        known_language("id-ID"@) == Some(Language::IdId),
        known_language("is-IS"@) == Some(Language::IsIs),
        known_language("it-IT"@) == Some(Language::ItIt),
        known_language("ja-JP"@) == Some(Language::JaJp),
        known_language("jv-ID"@) == Some(Language::JvId),
        known_language("kk-KZ"@) == Some(Language::KkKz),
        known_language("km-KH"@) == Some(Language::KmKh),
        known_language("kn-IN"@) == Some(Language::KnIn),
        known_language("ko-KR"@) == Some(Language::KoKr),
        known_language("lo-LA"@) == Some(Language::LoLa),
        known_language("lt-LT"@) == Some(Language::LtLt),
        known_language("lv-LV"@) == Some(Language::LvLv),
        known_language("mk-MK"@) == Some(Language::MkMk),
        known_language("ml-IN"@) == Some(Language::MlIn),
        known_language("mr-IN"@) == Some(Language::MrIn),
        known_language("ms-MY"@) == Some(Language::MsMy),
        known_language("mt-MT"@) == Some(Language::MtMt),
        known_language("my-MM"@) == Some(Language::MyMm),
        known_language("nb-NO"@) == Some(Language::NbNo),
        known_language("nl-BE"@) == Some(Language::NlBe),
        known_language("nl-NL"@) == Some(Language::NlNl),
        known_language("pl-PL"@) == Some(Language::PlPl),
        known_language("ps-AF"@) == Some(Language::PsAf),
        known_language("pt-BR"@) == Some(Language::PtBr),
        known_language("pt-PT"@) == Some(Language::PtPt),
        known_language("ro-RO"@) == Some(Language::RoRo),
        known_language("ru-RU"@) == Some(Language::RuRu),
        known_language("si-LK"@) == Some(Language::SiLk),
        known_language("sk-SK"@) == Some(Language::SkSk),
        known_language("sl-SI"@) == Some(Language::SlSi),
        known_language("so-SO"@) == Some(Language::SoSo),
        known_language("sr-RS"@) == Some(Language::SrRs),
        known_language("su-ID"@) == Some(Language::SuId),
        known_language("sv-SE"@) == Some(Language::SvSe),
        known_language("sw-KE"@) == Some(Language::SwKe),
        known_language("sw-TZ"@) == Some(Language::SwTz),
        known_language("ta-IN"@) == Some(Language::TaIn),
        known_language("ta-LK"@) == Some(Language::TaLk),
        known_language("ta-SG"@) == Some(Language::TaSg),
        known_language("te-IN"@) == Some(Language::TeIn),
        known_language("th-TH"@) == Some(Language::ThTh),
        known_language("tr-TR"@) == Some(Language::TrTr),
        known_language("uk-UA"@) == Some(Language::UkUa),
        known_language("ur-IN"@) == Some(Language::UrIn),
        known_language("ur-PK"@) == Some(Language::UrPk),
        known_language("uz-UZ"@) == Some(Language::UzUz),
        known_language("vi-VN"@) == Some(Language::ViVn),
        known_language("zh-CN"@) == Some(Language::ZhCn),
        known_language("zh-HK"@) == Some(Language::ZhHk),
        known_language("zh-TW"@) == Some(Language::ZhTw),
        known_language("zu-ZA"@) == Some(Language::ZuZa),
{
    lemma_lookup_af_za_ar_ye();
    lemma_lookup_bg_bg_en_ie();
    lemma_lookup_en_in_es_do();
    lemma_lookup_es_ec_et_ee();
    lemma_lookup_fa_ir_is_is();
    lemma_lookup_it_it_my_mm();
    lemma_lookup_nb_no_sv_se();
    lemma_lookup_sw_ke_zh_tw();
    lemma_lookup_zu_za_zu_za();
}

} // verus!
