//! The `Language` enum.
use vstd::prelude::*;

use crate::text::{same_text, to_upper, trim, trimmed, uppercased};

verus! {

/// A language in which names, titles and links are given.
#[derive(Debug, Clone, Copy, PartialEq, Eq, Hash, Structural)]
pub enum Language {
    /// The Japanese language.
    Japanese,
    /// The English language.
    English,
    /// The Korean language.
    Korean,
    /// The Italian language.
    Italian,
    /// The Spanish language.
    Spanish,
    /// The Portuguese language.
    Portuguese,
    /// The French language.
    French,
    /// The German language.
    German,
    /// The Hebrew language.
    Hebrew,
    /// The Hungarian language.
    Hungarian,
    /// The Chinese language.
    Chinese,
    /// The Arabic language.
    Arabic,
    /// The Filipino language.
    Filipino,
    /// The Catalan language.
    Catalan,
    /// The Finnish language.
    Finnish,
    /// The Turkish language.
    Turkish,
    /// The Dutch language.
    Dutch,
    /// The Swedish language.
    Swedish,
    /// The Thai language.
    Thai,
    /// The Tagalog language.
    Tagalog,
    /// The Malaysian language.
    Malaysian,
    /// The Indonesian language.
    Indonesian,
    /// The Vietnamese language.
    Vietnamese,
    /// The Nepali language.
    Nepali,
    /// The Hindi language.
    Hindi,
    /// The Urdu language.
    Urdu,
}

impl Default for Language {
    fn default() -> (r: Language)
        ensures
            r == Language::Japanese,
    {
        Language::Japanese
    }
}

impl Language {
    /// The variant named by an upper-case wire text; `Japanese` for any text that names none.
    pub open spec fn from_wire_spec(s: Seq<char>) -> Language {
        if s == "JA"@ || s == "JP"@ || s == "JAPANESE"@ {
            Language::Japanese
        } else if s == "EN"@ || s == "UK"@ || s == "ENGLISH"@ {
            Language::English
        } else if s == "KO"@ || s == "KOREAN"@ {
            Language::Korean
        } else if s == "IT"@ || s == "ITALIAN"@ {
            Language::Italian
        } else if s == "ES"@ || s == "SPANISH"@ {
            Language::Spanish
        } else if s == "PT"@ || s == "PORTUGUESE"@ {
            Language::Portuguese
        } else if s == "FR"@ || s == "FRENCH"@ {
            Language::French
        } else if s == "DE"@ || s == "GERMAN"@ {
            Language::German
        } else if s == "HE"@ || s == "HEBREW"@ {
            Language::Hebrew
        } else if s == "HU"@ || s == "HUNGARIAN"@ {
            Language::Hungarian
        } else if s == "ZH"@ || s == "CHINESE"@ {
            Language::Chinese
        } else if s == "AR"@ || s == "ARABIC"@ {
            Language::Arabic
        } else if s == "FIL"@ || s == "PHILIPPINE"@ {
            Language::Filipino
        } else if s == "CA"@ || s == "CATALAN"@ {
            Language::Catalan
        } else if s == "FI"@ || s == "FINNISH"@ {
            Language::Finnish
        } else if s == "TR"@ || s == "TURKISH"@ {
            Language::Turkish
        } else if s == "NL"@ || s == "DUTCH"@ {
            Language::Dutch
        } else if s == "SV"@ || s == "SWEDISH"@ {
            Language::Swedish
        } else if s == "TH"@ || s == "THAI"@ {
            Language::Thai
        } else if s == "TL"@ || s == "TAGALOG"@ {
            Language::Tagalog
        } else if s == "MS"@ || s == "MALAYSIAN"@ {
            Language::Malaysian
        } else if s == "ID"@ || s == "INDONESIAN"@ {
            Language::Indonesian
        } else if s == "VI"@ || s == "VIETNAMESE"@ {
            Language::Vietnamese
        } else if s == "NE"@ || s == "NEPALI"@ {
            Language::Nepali
        } else if s == "HI"@ || s == "HINDI"@ {
            Language::Hindi
        } else if s == "UR"@ || s == "URDU"@ {
            Language::Urdu
        } else {
            Language::Japanese
        }
    }

    /// The variant that a wire text reads as, after folding its case.
    pub open spec fn read_spec(raw: Seq<char>) -> Language {
        Language::from_wire_spec(uppercased(trimmed(raw)))
    }

    /// Whether an upper-case wire text names a variant.
    pub open spec fn is_wire_name(s: Seq<char>) -> bool {
        s == "JA"@
        || s == "JP"@
        || s == "JAPANESE"@
        || s == "EN"@
        || s == "UK"@
        || s == "ENGLISH"@
        || s == "KO"@
        || s == "KOREAN"@
        || s == "IT"@
        || s == "ITALIAN"@
        || s == "ES"@
        || s == "SPANISH"@
        || s == "PT"@
        || s == "PORTUGUESE"@
        || s == "FR"@
        || s == "FRENCH"@
        || s == "DE"@
        || s == "GERMAN"@
        || s == "HE"@
        || s == "HEBREW"@
        || s == "HU"@
        || s == "HUNGARIAN"@
        || s == "ZH"@
        || s == "CHINESE"@
        || s == "AR"@
        || s == "ARABIC"@
        || s == "FIL"@
        || s == "PHILIPPINE"@
        || s == "CA"@
        || s == "CATALAN"@
        || s == "FI"@
        || s == "FINNISH"@
        || s == "TR"@
        || s == "TURKISH"@
        || s == "NL"@
        || s == "DUTCH"@
        || s == "SV"@
        || s == "SWEDISH"@
        || s == "TH"@
        || s == "THAI"@
        || s == "TL"@
        || s == "TAGALOG"@
        || s == "MS"@
        || s == "MALAYSIAN"@
        || s == "ID"@
        || s == "INDONESIAN"@
        || s == "VI"@
        || s == "VIETNAMESE"@
        || s == "NE"@
        || s == "NEPALI"@
        || s == "HI"@
        || s == "HINDI"@
        || s == "UR"@
        || s == "URDU"@
    }

    /// Reads a wire text that is already upper case and trimmed.
    pub fn from_folded(s: &str) -> (r: Language)
        ensures
            r == Language::from_wire_spec(s@),
    {
        if same_text(s, "JA") || same_text(s, "JP") || same_text(s, "JAPANESE") {
            Language::Japanese
        } else if same_text(s, "EN") || same_text(s, "UK") || same_text(s, "ENGLISH") {
            Language::English
        } else if same_text(s, "KO") || same_text(s, "KOREAN") {
            Language::Korean
        } else if same_text(s, "IT") || same_text(s, "ITALIAN") {
            Language::Italian
        } else if same_text(s, "ES") || same_text(s, "SPANISH") {
            Language::Spanish
        } else if same_text(s, "PT") || same_text(s, "PORTUGUESE") {
            Language::Portuguese
        } else if same_text(s, "FR") || same_text(s, "FRENCH") {
            Language::French
        } else if same_text(s, "DE") || same_text(s, "GERMAN") {
            Language::German
        } else if same_text(s, "HE") || same_text(s, "HEBREW") {
            Language::Hebrew
        } else if same_text(s, "HU") || same_text(s, "HUNGARIAN") {
            Language::Hungarian
        } else if same_text(s, "ZH") || same_text(s, "CHINESE") {
            Language::Chinese
        } else if same_text(s, "AR") || same_text(s, "ARABIC") {
            Language::Arabic
        } else if same_text(s, "FIL") || same_text(s, "PHILIPPINE") {
            Language::Filipino
        } else if same_text(s, "CA") || same_text(s, "CATALAN") {
            Language::Catalan
        } else if same_text(s, "FI") || same_text(s, "FINNISH") {
            Language::Finnish
        } else if same_text(s, "TR") || same_text(s, "TURKISH") {
            Language::Turkish
        } else if same_text(s, "NL") || same_text(s, "DUTCH") {
            Language::Dutch
        } else if same_text(s, "SV") || same_text(s, "SWEDISH") {
            Language::Swedish
        } else if same_text(s, "TH") || same_text(s, "THAI") {
            Language::Thai
        } else if same_text(s, "TL") || same_text(s, "TAGALOG") {
            Language::Tagalog
        } else if same_text(s, "MS") || same_text(s, "MALAYSIAN") {
            Language::Malaysian
        } else if same_text(s, "ID") || same_text(s, "INDONESIAN") {
            Language::Indonesian
        } else if same_text(s, "VI") || same_text(s, "VIETNAMESE") {
            Language::Vietnamese
        } else if same_text(s, "NE") || same_text(s, "NEPALI") {
            Language::Nepali
        } else if same_text(s, "HI") || same_text(s, "HINDI") {
            Language::Hindi
        } else if same_text(s, "UR") || same_text(s, "URDU") {
            Language::Urdu
        } else {
            Language::Japanese
        }
    }

    /// The text that `code` returns for each variant.
    pub open spec fn code_spec(&self) -> Seq<char> {
        match self {
            Language::Japanese => "ja"@,
            Language::English => "en"@,
            Language::Korean => "ko"@,
            Language::Italian => "it"@,
            Language::Spanish => "es"@,
            Language::Portuguese => "pt"@,
            Language::French => "fr"@,
            Language::German => "de"@,
            Language::Hebrew => "he"@,
            Language::Hungarian => "hu"@,
            Language::Chinese => "zh"@,
            Language::Arabic => "ar"@,
            Language::Filipino => "fil"@,
            Language::Catalan => "ca"@,
            Language::Finnish => "fi"@,
            Language::Turkish => "tr"@,
            Language::Dutch => "nl"@,
            Language::Swedish => "sv"@,
            Language::Thai => "th"@,
            Language::Tagalog => "tl"@,
            Language::Malaysian => "ms"@,
            Language::Indonesian => "id"@,
            Language::Vietnamese => "vi"@,
            Language::Nepali => "ne"@,
            Language::Hindi => "hi"@,
            Language::Urdu => "ur"@,
        }
    }

    /// Returns the ISO 639-1 code of the language.
    pub fn code(&self) -> (r: &str)
        ensures
            r@ == self.code_spec(),
    {
        match self {
            Language::Japanese => "ja",
            Language::English => "en",
            Language::Korean => "ko",
            Language::Italian => "it",
            Language::Spanish => "es",
            Language::Portuguese => "pt",
            Language::French => "fr",
            Language::German => "de",
            Language::Hebrew => "he",
            Language::Hungarian => "hu",
            Language::Chinese => "zh",
            Language::Arabic => "ar",
            Language::Filipino => "fil",
            Language::Catalan => "ca",
            Language::Finnish => "fi",
            Language::Turkish => "tr",
            Language::Dutch => "nl",
            Language::Swedish => "sv",
            Language::Thai => "th",
            Language::Tagalog => "tl",
            Language::Malaysian => "ms",
            Language::Indonesian => "id",
            Language::Vietnamese => "vi",
            Language::Nepali => "ne",
            Language::Hindi => "hi",
            Language::Urdu => "ur",
        }
    }

    /// The text that `native` returns for each variant.
    pub open spec fn native_spec(&self) -> Seq<char> {
        match self {
            Language::Japanese => "日本語"@,
            Language::English => "English"@,
            Language::Korean => "한국어"@,
            Language::Italian => "Italiano"@,
            Language::Spanish => "Español"@,
            Language::Portuguese => "Português"@,
            Language::French => "Français"@,
            Language::German => "Deutsch"@,
            Language::Hebrew => "עברית"@,
            Language::Hungarian => "Magyar"@,
            Language::Chinese => "中文"@,
            Language::Arabic => "العربية"@,
            Language::Filipino => "Filipino"@,
            Language::Catalan => "Català"@,
            Language::Finnish => "Suomi"@,
            Language::Turkish => "Türkçe"@,
            Language::Dutch => "Nederlands"@,
            Language::Swedish => "Svenska"@,
            Language::Thai => "ไทย"@,
            Language::Tagalog => "Tagalog"@,
            Language::Malaysian => "Bahasa Melayu"@,
            Language::Indonesian => "Bahasa Indonesia"@,
            Language::Vietnamese => "Tiếng Việt"@,
            Language::Nepali => "नेपाली"@,
            Language::Hindi => "हिंदी"@,
            Language::Urdu => "اردو"@,
        }
    }

    /// Returns the name of the language in the language itself.
    pub fn native(&self) -> (r: &str)
        ensures
            r@ == self.native_spec(),
    {
        match self {
            Language::Japanese => "日本語",
            Language::English => "English",
            Language::Korean => "한국어",
            Language::Italian => "Italiano",
            Language::Spanish => "Español",
            Language::Portuguese => "Português",
            Language::French => "Français",
            Language::German => "Deutsch",
            Language::Hebrew => "עברית",
            Language::Hungarian => "Magyar",
            Language::Chinese => "中文",
            Language::Arabic => "العربية",
            Language::Filipino => "Filipino",
            Language::Catalan => "Català",
            Language::Finnish => "Suomi",
            Language::Turkish => "Türkçe",
            Language::Dutch => "Nederlands",
            Language::Swedish => "Svenska",
            Language::Thai => "ไทย",
            Language::Tagalog => "Tagalog",
            Language::Malaysian => "Bahasa Melayu",
            Language::Indonesian => "Bahasa Indonesia",
            Language::Vietnamese => "Tiếng Việt",
            Language::Nepali => "नेपाली",
            Language::Hindi => "हिंदी",
            Language::Urdu => "اردو",
        }
    }

    /// The text that `label` returns for each variant.
    pub open spec fn label_spec(&self) -> Seq<char> {
        match self {
            Language::Japanese => "Japanese"@,
            Language::English => "English"@,
            Language::Korean => "Korean"@,
            Language::Italian => "Italian"@,
            Language::Spanish => "Spanish"@,
            Language::Portuguese => "Portuguese"@,
            Language::French => "French"@,
            Language::German => "German"@,
            Language::Hebrew => "Hebrew"@,
            Language::Hungarian => "Hungarian"@,
            Language::Chinese => "Chinese"@,
            Language::Arabic => "Arabic"@,
            Language::Filipino => "Filipino"@,
            Language::Catalan => "Catalan"@,
            Language::Finnish => "Finnish"@,
            Language::Turkish => "Turkish"@,
            Language::Dutch => "Dutch"@,
            Language::Swedish => "Swedish"@,
            Language::Thai => "Thai"@,
            Language::Tagalog => "Tagalog"@,
            Language::Malaysian => "Malaysian"@,
            Language::Indonesian => "Indonesian"@,
            Language::Vietnamese => "Vietnamese"@,
            Language::Nepali => "Nepali"@,
            Language::Hindi => "Hindi"@,
            Language::Urdu => "Urdu"@,
        }
    }

    /// Returns the English name of the language.
    pub fn label(&self) -> (r: &str)
        ensures
            r@ == self.label_spec(),
    {
        match self {
            Language::Japanese => "Japanese",
            Language::English => "English",
            Language::Korean => "Korean",
            Language::Italian => "Italian",
            Language::Spanish => "Spanish",
            Language::Portuguese => "Portuguese",
            Language::French => "French",
            Language::German => "German",
            Language::Hebrew => "Hebrew",
            Language::Hungarian => "Hungarian",
            Language::Chinese => "Chinese",
            Language::Arabic => "Arabic",
            Language::Filipino => "Filipino",
            Language::Catalan => "Catalan",
            Language::Finnish => "Finnish",
            Language::Turkish => "Turkish",
            Language::Dutch => "Dutch",
            Language::Swedish => "Swedish",
            Language::Thai => "Thai",
            Language::Tagalog => "Tagalog",
            Language::Malaysian => "Malaysian",
            Language::Indonesian => "Indonesian",
            Language::Vietnamese => "Vietnamese",
            Language::Nepali => "Nepali",
            Language::Hindi => "Hindi",
            Language::Urdu => "Urdu",
        }
    }

    /// Returns the ISO 639-1 code of the language; the same as `code`.
    pub fn iso(&self) -> (r: &str)
        ensures
            r@ == self.code_spec(),
    {
        self.code()
    }
}

/// Reads a wire text, trimmed and upper-cased first; unknown texts give `Japanese`.
impl From<&str> for Language {
    fn from(value: &str) -> Language {
        let folded = to_upper(trim(value));
        Language::from_folded(folded.as_str())
    }
}

impl vstd::std_specs::convert::FromSpecImpl<&str> for Language {
    open spec fn obeys_from_spec() -> bool {
        true
    }

    open spec fn from_spec(v: &str) -> Language {
        Language::from_wire_spec(uppercased(trimmed(v@)))
    }
}

/// Reads a wire text as the `&str` conversion does.
impl From<String> for Language {
    fn from(value: String) -> Language {
        Language::from(value.as_str())
    }
}

impl vstd::std_specs::convert::FromSpecImpl<String> for Language {
    open spec fn obeys_from_spec() -> bool {
        true
    }

    open spec fn from_spec(v: String) -> Language {
        Language::from_wire_spec(uppercased(trimmed(v@)))
    }
}

} // verus!
