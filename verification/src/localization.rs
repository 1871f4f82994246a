//! Supported languages, the choice of the current language, and the
//! translation tables with their "key = value" file format.
use vstd::prelude::*;
use crate::text::{
    chars_of, has_prefix, occurs_at, replace, replace_all, split_char, split_on, str_eq, string_of,
    trim, trim_ws, views,
};

verus! {

broadcast use vstd::string::group_string_axioms;

/// Supported languages, each with a BCP 47 tag.
#[derive(Clone, Copy, Debug, PartialEq, Eq, Hash, Structural)]
pub enum Language {
    /// English (United States)
    EnglishUS,
    /// Spanish (Spain)
    SpanishES,
    /// German (Germany)
    GermanDE,
    /// Czech (Czechia)
    CzechCZ,
    /// Slovak (Slovakia)
    SlovakSK,
    /// Polish (Poland)
    PolishPL,
    /// Hungarian (Hungary)
    HungarianHU,
    /// French (France)
    FrenchFR,
    /// Italian (Italy)
    ItalianIT,
    /// Portuguese (Brazil)
    PortugueseBR,
    /// Chinese (China)
    ChineseCN,
    /// Japanese (Japan)
    JapaneseJP,
    /// Slovenian (Slovenia)
    SlovenianSI,
    /// Croatian (Croatia)
    CroatianHR,
    /// Romanian (Romania)
    RomanianRO,
    /// Bulgarian (Bulgaria)
    BulgarianBG,
}

/// The BCP 47 tag of each language.
pub open spec fn spec_language_tag(l: Language) -> Seq<char> {
    match l {
        Language::EnglishUS => "en-US"@,
        Language::SpanishES => "es-ES"@,
        Language::GermanDE => "de-DE"@,
        Language::CzechCZ => "cs-CZ"@,
        Language::SlovakSK => "sk-SK"@,
        Language::PolishPL => "pl-PL"@,
        Language::HungarianHU => "hu-HU"@,
        Language::FrenchFR => "fr-FR"@,
        Language::ItalianIT => "it-IT"@,
        Language::PortugueseBR => "pt-BR"@,
        Language::ChineseCN => "zh-CN"@,
        Language::JapaneseJP => "ja-JP"@,
        Language::SlovenianSI => "sl-SI"@,
        Language::CroatianHR => "hr-HR"@,
        Language::RomanianRO => "ro-RO"@,
        Language::BulgarianBG => "bg-BG"@,
    }
}

/// The language a tag names: the full tag, or the bare language code for
/// every language but Portuguese, which only "pt-BR" names.
pub open spec fn spec_from_language_tag(t: Seq<char>) -> Option<Language> {
    if t == "en-US"@ || t == "en"@ {
        Some(Language::EnglishUS)
    } else if t == "es-ES"@ || t == "es"@ {
        Some(Language::SpanishES)
    } else if t == "de-DE"@ || t == "de"@ {
        Some(Language::GermanDE)
    } else if t == "cs-CZ"@ || t == "cs"@ {
        Some(Language::CzechCZ)
    } else if t == "sk-SK"@ || t == "sk"@ {
        Some(Language::SlovakSK)
    } else if t == "pl-PL"@ || t == "pl"@ {
        Some(Language::PolishPL)
    } else if t == "hu-HU"@ || t == "hu"@ {
        Some(Language::HungarianHU)
    } else if t == "fr-FR"@ || t == "fr"@ {
        Some(Language::FrenchFR)
    } else if t == "it-IT"@ || t == "it"@ {
        Some(Language::ItalianIT)
    } else if t == "pt-BR"@ {
        Some(Language::PortugueseBR)
    } else if t == "zh-CN"@ || t == "zh"@ {
        Some(Language::ChineseCN)
    } else if t == "ja-JP"@ || t == "ja"@ {
        Some(Language::JapaneseJP)
    } else if t == "sl-SI"@ || t == "sl"@ {
        Some(Language::SlovenianSI)
    } else if t == "hr-HR"@ || t == "hr"@ {
        Some(Language::CroatianHR)
    } else if t == "ro-RO"@ || t == "ro"@ {
        Some(Language::RomanianRO)
    } else if t == "bg-BG"@ || t == "bg"@ {
        Some(Language::BulgarianBG)
    } else {
        None
    }
}

/// Every supported language, in the order the game lists them.
pub open spec fn spec_all_languages() -> Seq<Language> {
    seq![
        Language::EnglishUS,
        Language::SpanishES,
        Language::GermanDE,
        Language::CzechCZ,
        Language::SlovakSK,
        Language::PolishPL,
        Language::HungarianHU,
        Language::FrenchFR,
        Language::ItalianIT,
        Language::PortugueseBR,
        Language::ChineseCN,
        Language::JapaneseJP,
        Language::SlovenianSI,
        Language::CroatianHR,
        Language::RomanianRO,
        Language::BulgarianBG,
    ]
}

/// The name of each language in that language.
pub open spec fn spec_display_name(l: Language) -> Seq<char> {
    match l {
        Language::EnglishUS => "English (United States)"@,
        Language::SpanishES => "Español (España)"@,
        Language::GermanDE => "Deutsch (Deutschland)"@,
        Language::CzechCZ => "Čeština (Česká republika)"@,
        Language::SlovakSK => "Slovenčina (Slovensko)"@,
        Language::PolishPL => "Polski (Polska)"@,
        Language::HungarianHU => "Magyar (Magyarország)"@,
        Language::FrenchFR => "Français (France)"@,
        Language::ItalianIT => "Italiano (Italia)"@,
        Language::PortugueseBR => "Português (Brasil)"@,
        Language::ChineseCN => "中文 (中国)"@,
        Language::JapaneseJP => "日本語 (日本)"@,
        Language::SlovenianSI => "Slovenščina (Slovenija)"@,
        Language::CroatianHR => "Hrvatski (Hrvatska)"@,
        Language::RomanianRO => "Română (România)"@,
        Language::BulgarianBG => "Български (България)"@,
    }
}

/// Whether `unic_langid` accepts a text as a language identifier.
pub uninterp spec fn language_identifier_accepted(tag: Seq<char>) -> bool;

/// Parses a language identifier with `unic_langid`'s `FromStr`. Claimed:
/// whether it succeeds depends on the text alone. The identifier's contents
/// are left unsaid.
#[verifier::external_body]
fn parse_language_identifier(tag: &str) -> (id: Option<unic_langid::LanguageIdentifier>)
    ensures
        id is Some == language_identifier_accepted(tag@),
{
    tag.parse::<unic_langid::LanguageIdentifier>().ok()
}

#[verifier::external_type_specification]
#[verifier::external_body]
pub struct ExLanguageIdentifier(unic_langid::LanguageIdentifier);

impl Language {
    /// The BCP 47 tag of this language.
    pub fn language_tag(self) -> (t: &'static str)
        ensures
            t@ == spec_language_tag(self),
    {
        match self {
            Language::EnglishUS => "en-US",
            Language::SpanishES => "es-ES",
            Language::GermanDE => "de-DE",
            Language::CzechCZ => "cs-CZ",
            Language::SlovakSK => "sk-SK",
            Language::PolishPL => "pl-PL",
            Language::HungarianHU => "hu-HU",
            Language::FrenchFR => "fr-FR",
            Language::ItalianIT => "it-IT",
            Language::PortugueseBR => "pt-BR",
            Language::ChineseCN => "zh-CN",
            Language::JapaneseJP => "ja-JP",
            Language::SlovenianSI => "sl-SI",
            Language::CroatianHR => "hr-HR",
            Language::RomanianRO => "ro-RO",
            Language::BulgarianBG => "bg-BG",
        }
    }

    /// The language identifier of this language's tag, when `unic_langid`
    /// accepts it.
    pub fn try_language_id(self) -> (id: Option<unic_langid::LanguageIdentifier>)
        ensures
            id is Some == language_identifier_accepted(spec_language_tag(self)),
    {
        match parse_language_identifier(self.language_tag()) {
            Some(_) => Some(self.language_id()),
            None => None,
        }
    }

    /// The language identifier of this language's tag.
    pub fn language_id(self) -> (id: unic_langid::LanguageIdentifier)
        requires
            language_identifier_accepted(spec_language_tag(self)),
    {
        match parse_language_identifier(self.language_tag()) {
            Some(id) => id,
            None => vstd::pervasive::unreached(),
        }
    }

    /// The directory that holds this language's files: its tag.
    pub fn directory_name(self) -> (d: &'static str)
        ensures
            d@ == spec_language_tag(self),
    {
        self.language_tag()
    }

    /// The name of this language, written in it.
    pub fn display_name(self) -> (n: &'static str)
        ensures
            n@ == spec_display_name(self),
    {
        match self {
            Language::EnglishUS => "English (United States)",
            Language::SpanishES => "Español (España)",
            Language::GermanDE => "Deutsch (Deutschland)",
            Language::CzechCZ => "Čeština (Česká republika)",
            Language::SlovakSK => "Slovenčina (Slovensko)",
            Language::PolishPL => "Polski (Polska)",
            Language::HungarianHU => "Magyar (Magyarország)",
            Language::FrenchFR => "Français (France)",
            Language::ItalianIT => "Italiano (Italia)",
            Language::PortugueseBR => "Português (Brasil)",
            Language::ChineseCN => "中文 (中国)",
            Language::JapaneseJP => "日本語 (日本)",
            Language::SlovenianSI => "Slovenščina (Slovenija)",
            Language::CroatianHR => "Hrvatski (Hrvatska)",
            Language::RomanianRO => "Română (România)",
            Language::BulgarianBG => "Български (България)",
        }
    }

    /// Every supported language.
    pub fn all() -> (v: Vec<Language>)
        ensures
            v@ == spec_all_languages(),
    {
        let v = vec![
            Language::EnglishUS,
            Language::SpanishES,
            Language::GermanDE,
            Language::CzechCZ,
            Language::SlovakSK,
            Language::PolishPL,
            Language::HungarianHU,
            Language::FrenchFR,
            Language::ItalianIT,
            Language::PortugueseBR,
            Language::ChineseCN,
            Language::JapaneseJP,
            Language::SlovenianSI,
            Language::CroatianHR,
            Language::RomanianRO,
            Language::BulgarianBG,
        ];
        assert(v@ =~= spec_all_languages());
        v
    }

    /// The language that a BCP 47 tag, or a bare language code, names.
    pub fn from_language_tag(tag: &str) -> (l: Option<Language>)
        ensures
            l == spec_from_language_tag(tag@),
    {
        if str_eq(tag, "en-US") || str_eq(tag, "en") {
            Some(Language::EnglishUS)
        } else if str_eq(tag, "es-ES") || str_eq(tag, "es") {
            Some(Language::SpanishES)
        } else if str_eq(tag, "de-DE") || str_eq(tag, "de") {
            Some(Language::GermanDE)
        } else if str_eq(tag, "cs-CZ") || str_eq(tag, "cs") {
            Some(Language::CzechCZ)
        } else if str_eq(tag, "sk-SK") || str_eq(tag, "sk") {
            Some(Language::SlovakSK)
        } else if str_eq(tag, "pl-PL") || str_eq(tag, "pl") {
            Some(Language::PolishPL)
        } else if str_eq(tag, "hu-HU") || str_eq(tag, "hu") {
            Some(Language::HungarianHU)
        } else if str_eq(tag, "fr-FR") || str_eq(tag, "fr") {
            Some(Language::FrenchFR)
        } else if str_eq(tag, "it-IT") || str_eq(tag, "it") {
            Some(Language::ItalianIT)
        } else if str_eq(tag, "pt-BR") {
            Some(Language::PortugueseBR)
        } else if str_eq(tag, "zh-CN") || str_eq(tag, "zh") {
            Some(Language::ChineseCN)
        } else if str_eq(tag, "ja-JP") || str_eq(tag, "ja") {
            Some(Language::JapaneseJP)
        } else if str_eq(tag, "sl-SI") || str_eq(tag, "sl") {
            Some(Language::SlovenianSI)
        } else if str_eq(tag, "hr-HR") || str_eq(tag, "hr") {
            Some(Language::CroatianHR)
        } else if str_eq(tag, "ro-RO") || str_eq(tag, "ro") {
            Some(Language::RomanianRO)
        } else if str_eq(tag, "bg-BG") || str_eq(tag, "bg") {
            Some(Language::BulgarianBG)
        } else {
            None
        }
    }
}

impl Default for Language {
    fn default() -> (l: Self)
        ensures
            l == Language::EnglishUS,
    {
        Language::EnglishUS
    }
}

} // verus!

verus! {

/// The locale settings of the environment: `LANG`, `LC_ALL` and `LANGUAGE`.
pub struct LocaleEnvironment {
    pub lang: Option<String>,
    pub lc_all: Option<String>,
    pub language: Option<String>,
}

/// `s` with every `from` replaced by `to`.
pub open spec fn replace_char(s: Seq<char>, from: char, to: char) -> Seq<char> {
    s.map_values(|c: char| if c == from { to } else { c })
}

/// The language a locale setting names: the part before the first `sep`,
/// with '_' read as '-'.
pub open spec fn spec_locale_language(value: Seq<char>, sep: char) -> Option<Language> {
    spec_from_language_tag(replace_char(split_on(value, sep)[0], '_', '-'))
}

/// The language of the environment: from `LANG`, else `LC_ALL` (both up to
/// the first '.'), else `LANGUAGE` (up to the first ':'), else English.
pub open spec fn spec_detect_language(
    lang: Option<Seq<char>>,
    lc_all: Option<Seq<char>>,
    language: Option<Seq<char>>,
) -> Language {
    let from_lang = match lang {
        Some(v) => spec_locale_language(v, '.'),
        None => None,
    };
    let from_lc_all = match lc_all {
        Some(v) => spec_locale_language(v, '.'),
        None => None,
    };
    let from_language = match language {
        Some(v) => spec_locale_language(v, ':'),
        None => None,
    };
    if from_lang is Some {
        from_lang->0
    } else if from_lc_all is Some {
        from_lc_all->0
    } else if from_language is Some {
        from_language->0
    } else {
        Language::EnglishUS
    }
}

/// The view of an optional string.
pub open spec fn opt_view(o: Option<String>) -> Option<Seq<char>> {
    match o {
        Some(s) => Some(s@),
        None => None,
    }
}

fn locale_language(value: &str, sep: char) -> (l: Option<Language>)
    ensures
        l == spec_locale_language(value@, sep),
{
    let parts = split_char(value, sep);
    proof {
        crate::text::lemma_split_on_nonempty(value@, sep);
        assert(views(parts@)[0] == parts@[0]@);
    }
    let first = chars_of(parts[0].as_str());
    let mut normalized: Vec<char> = Vec::new();
    let mut i: usize = 0;
    while i < first.len()
        invariant
            i <= first@.len(),
            normalized@ == replace_char(first@.take(i as int), '_', '-'),
        decreases first@.len() - i,
    {
        let c = first[i];
        normalized.push(if c == '_' { '-' } else { c });
        i = i + 1;
        assert(normalized@ =~= replace_char(first@.take(i as int), '_', '-'));
    }
    assert(first@.take(first@.len() as int) == first@);
    let tag = string_of(normalized.as_slice());
    Language::from_language_tag(tag.as_str())
}

/// The language the environment asks for (see [`spec_detect_language`]).
pub fn detect_system_language(env: &LocaleEnvironment) -> (l: Language)
    ensures
        l == spec_detect_language(opt_view(env.lang), opt_view(env.lc_all), opt_view(env.language)),
{
    if let Some(v) = &env.lang {
        if let Some(l) = locale_language(v.as_str(), '.') {
            return l;
        }
    }
    if let Some(v) = &env.lc_all {
        if let Some(l) = locale_language(v.as_str(), '.') {
            return l;
        }
    }
    if let Some(v) = &env.language {
        if let Some(l) = locale_language(v.as_str(), ':') {
            return l;
        }
    }
    Language::EnglishUS
}

/// The current language and the one used when a text is missing.
pub struct LocalizationConfig {
    pub current_language: Language,
    pub fallback_language: Language,
}

impl LocalizationConfig {
    /// The language given on the command line when it names one, else the
    /// environment's; English is the fallback.
    pub fn new(cli_language_override: Option<String>, env: &LocaleEnvironment) -> (c: Self)
        ensures
            c.current_language == (match cli_language_override {
                Some(t) => match spec_from_language_tag(t@) {
                    Some(l) => l,
                    None => spec_detect_language(
                        opt_view(env.lang),
                        opt_view(env.lc_all),
                        opt_view(env.language),
                    ),
                },
                None => spec_detect_language(
                    opt_view(env.lang),
                    opt_view(env.lc_all),
                    opt_view(env.language),
                ),
            }),
            c.fallback_language == Language::EnglishUS,
    {
        let current_language = match &cli_language_override {
            Some(tag) => match Language::from_language_tag(tag.as_str()) {
                Some(l) => l,
                None => detect_system_language(env),
            },
            None => detect_system_language(env),
        };
        LocalizationConfig { current_language, fallback_language: Language::EnglishUS }
    }
}

/// Setting and reading the configured languages.
pub trait LocalizationConfigHelper {
    /// Set the current language; gives whether it changed.
    fn set_language(&mut self, language: Language) -> bool;

    /// The current language.
    fn current_language(&self) -> Language;

    /// The fallback language.
    fn fallback_language(&self) -> Language;
}

impl LocalizationConfigHelper for LocalizationConfig {
    fn set_language(&mut self, language: Language) -> (changed: bool)
        ensures
            changed == (old(self).current_language != language),
            final(self).current_language == language,
            final(self).fallback_language == old(self).fallback_language,
    {
        if self.current_language != language {
            self.current_language = language;
            true
        } else {
            false
        }
    }

    fn current_language(&self) -> (l: Language)
        ensures
            l == self.current_language,
    {
        self.current_language
    }

    fn fallback_language(&self) -> (l: Language)
        ensures
            l == self.fallback_language,
    {
        self.fallback_language
    }
}

} // verus!

verus! {

/// The first position at or after `i` where `p` occurs in `s`.
pub open spec fn find_from(s: Seq<char>, p: Seq<char>, i: int) -> Option<int>
    decreases s.len() - i,
{
    if i < 0 || i >= s.len() || i + p.len() > s.len() {
        None
    } else if occurs_at(s, p, i) {
        Some(i)
    } else {
        find_from(s, p, i + 1)
    }
}

/// The entry a line of a translation file holds: after trimming, a line that
/// is not empty, does not start with '#' and contains " = " gives the trimmed
/// text before the first " = " as key and the trimmed rest as value.
pub open spec fn spec_parse_line(raw: Seq<char>) -> Option<(Seq<char>, Seq<char>)> {
    let l = trim_ws(raw);
    if l.len() == 0 || l[0] == '#' {
        None
    } else {
        match find_from(l, " = "@, 0) {
            Some(p) => Some((trim_ws(l.subrange(0, p)), trim_ws(l.subrange(p + 3, l.len() as int)))),
            None => None,
        }
    }
}

/// The entries of the lines, in order.
pub open spec fn spec_parse_lines(lines: Seq<Seq<char>>) -> Seq<(Seq<char>, Seq<char>)>
    decreases lines.len(),
{
    if lines.len() == 0 {
        Seq::empty()
    } else {
        let e = spec_parse_lines(lines.drop_last());
        match spec_parse_line(lines.last()) {
            Some(kv) => e.push(kv),
            None => e,
        }
    }
}

/// The entries of a translation file.
pub open spec fn spec_parse_translations(content: Seq<char>) -> Seq<(Seq<char>, Seq<char>)> {
    spec_parse_lines(split_on(content, '\n'))
}

/// The value of the last entry for `key`: a later entry overrides an earlier.
pub open spec fn lookup(entries: Seq<(Seq<char>, Seq<char>)>, key: Seq<char>) -> Option<Seq<char>>
    decreases entries.len(),
{
    if entries.len() == 0 {
        None
    } else if entries.last().0 == key {
        Some(entries.last().1)
    } else {
        lookup(entries.drop_last(), key)
    }
}

/// Looking a key up finds the value of its latest entry: a new entry for a
/// key is what the key gives, entries for other keys leave it as it was, an
/// empty table has nothing, and whatever is found is the value of an entry
/// with that key.
pub proof fn law_latest_entry_wins(
    entries: Seq<(Seq<char>, Seq<char>)>,
    key: Seq<char>,
    value: Seq<char>,
    other: Seq<char>,
)
    ensures
        lookup(Seq::empty(), key) is None,
        lookup(entries.push((key, value)), key) == Some(value),
        other != key ==> lookup(entries.push((key, value)), other) == lookup(entries, other),
        lookup(entries, other) matches Some(v) ==> exists|i: int|
            0 <= i < entries.len() && #[trigger] entries[i] == (other, v),
    decreases entries.len(),
{
    assert(entries.push((key, value)).drop_last() =~= entries);
    if entries.len() > 0 {
        law_latest_entry_wins(entries.drop_last(), key, value, other);
        if let Some(v) = lookup(entries, other) {
            if entries.last().0 == other {
                assert(entries[entries.len() - 1] == (other, v));
            } else {
                let i = choose|i: int|
                    0 <= i < entries.drop_last().len() && #[trigger] entries.drop_last()[i] == (
                        other,
                        v,
                    );
                assert(entries[i] == (other, v));
            }
        }
    }
}

/// The placeholder an argument fills: `{$name}`.
pub open spec fn placeholder(name: Seq<char>) -> Seq<char> {
    "{$"@ + name + "}"@
}

/// A template with the arguments filled in, one after the other.
pub open spec fn fill_args(template: Seq<char>, args: Seq<(Seq<char>, Seq<char>)>) -> Seq<char>
    decreases args.len(),
{
    if args.len() == 0 {
        template
    } else {
        replace_all(
            fill_args(template, args.drop_last()),
            placeholder(args.last().0),
            args.last().1,
        )
    }
}

/// Filling in arguments replaces every argument's placeholder in turn:
/// without arguments the template stays as it is, and one more argument
/// replaces every occurrence of its `{$name}` in the text the earlier
/// arguments produced (not in the bare template).
pub proof fn law_fill_replaces_every_argument(
    template: Seq<char>,
    args: Seq<(Seq<char>, Seq<char>)>,
    name: Seq<char>,
    value: Seq<char>,
)
    ensures
        fill_args(template, Seq::empty()) == template,
        fill_args(template, args.push((name, value))) == replace_all(
            fill_args(template, args),
            "{$"@ + name + "}"@,
            value,
        ),
        fill_args(template, seq![(name, value)]) == replace_all(template, "{$"@ + name + "}"@, value),
{
    assert(args.push((name, value)).drop_last() =~= args);
    assert(seq![(name, value)].drop_last() =~= Seq::<(Seq<char>, Seq<char>)>::empty());
}

/// The views of a list of string pairs.
pub open spec fn pair_views(v: Seq<(String, String)>) -> Seq<(Seq<char>, Seq<char>)> {
    v.map_values(|e: (String, String)| (e.0@, e.1@))
}

/// The translation table of a language in the loaded tables, the last one
/// loaded winning.
pub open spec fn table_of(tables: Seq<(Language, Vec<(String, String)>)>, language: Language) -> Option<
    Seq<(Seq<char>, Seq<char>)>,
>
    decreases tables.len(),
{
    if tables.len() == 0 {
        None
    } else if tables.last().0 == language {
        Some(pair_views(tables.last().1@))
    } else {
        table_of(tables.drop_last(), language)
    }
}

/// The text for `key` in `language`, if a loaded table has it.
pub open spec fn spec_translation(
    tables: Seq<(Language, Vec<(String, String)>)>,
    language: Language,
    key: Seq<char>,
) -> Option<Seq<char>> {
    match table_of(tables, language) {
        Some(t) => lookup(t, key),
        None => None,
    }
}

/// The translations of the loaded languages.
pub struct LocalizationBundle {
    translations: Vec<(Language, Vec<(String, String)>)>,
}

/// The index of the first " = " in `cs`.
fn find_separator(cs: &Vec<char>) -> (p: Option<usize>)
    ensures
        match p {
            Some(i) => find_from(cs@, " = "@, 0) == Some(i as int) && i + 3 <= cs@.len(),
            None => find_from(cs@, " = "@, 0) is None,
        },
{
    proof {
        reveal_strlit(" = ");
    }
    let mut i: usize = 0;
    while i < cs.len() && cs.len() - i >= 3
        invariant
            " = "@.len() == 3,
            " = "@[0] == ' ' && " = "@[1] == '=' && " = "@[2] == ' ',
            i <= cs@.len(),
            find_from(cs@, " = "@, 0) == find_from(cs@, " = "@, i as int),
        decreases cs@.len() - i,
    {
        if cs[i] == ' ' && cs[i + 1] == '=' && cs[i + 2] == ' ' {
            assert(cs@.subrange(i as int, i + 3) =~= " = "@);
            return Some(i);
        }
        assert(!occurs_at(cs@, " = "@, i as int)) by {
            if occurs_at(cs@, " = "@, i as int) {
                assert(cs@.subrange(i as int, i + 3)[0] == cs@[i as int]);
                assert(cs@.subrange(i as int, i + 3)[1] == cs@[i + 1]);
                assert(cs@.subrange(i as int, i + 3)[2] == cs@[i + 2]);
            }
        }
        i = i + 1;
    }
    None
}

/// The entry of one line of a translation file, if it holds one.
pub fn parse_translation_line(raw: &str) -> (kv: Option<(String, String)>)
    ensures
        match kv {
            Some((k, v)) => spec_parse_line(raw@) == Some((k@, v@)),
            None => spec_parse_line(raw@) is None,
        },
{
    let line = trim(raw);
    let cs = chars_of(line.as_str());
    if cs.len() == 0 || cs[0] == '#' {
        return None;
    }
    match find_separator(&cs) {
        Some(p) => {
            let key_text = string_of(vstd::slice::slice_subrange(cs.as_slice(), 0, p));
            let value_text = string_of(vstd::slice::slice_subrange(cs.as_slice(), p + 3, cs.len()));
            Some((trim(key_text.as_str()), trim(value_text.as_str())))
        },
        None => None,
    }
}

/// The entries of a translation file, in order.
pub fn parse_translations(content: &str) -> (entries: Vec<(String, String)>)
    ensures
        pair_views(entries@) == spec_parse_translations(content@),
{
    let lines = split_char(content, '\n');
    let ghost ls = split_on(content@, '\n');
    let mut entries: Vec<(String, String)> = Vec::new();
    let mut i: usize = 0;
    assert(ls.take(0) =~= Seq::<Seq<char>>::empty());
    while i < lines.len()
        invariant
            views(lines@) == ls,
            i <= lines@.len(),
            pair_views(entries@) == spec_parse_lines(ls.take(i as int)),
        decreases lines@.len() - i,
    {
        assert(ls[i as int] == lines@[i as int]@);
        assert(ls.take(i + 1).drop_last() == ls.take(i as int));
        assert(ls.take(i + 1).last() == ls[i as int]);
        let ghost before = entries@;
        match parse_translation_line(lines[i].as_str()) {
            Some(kv) => {
                entries.push(kv);
                assert(pair_views(entries@) =~= pair_views(before).push((kv.0@, kv.1@)));
            },
            None => {},
        }
        i = i + 1;
    }
    assert(ls.take(lines@.len() as int) == ls);
    entries
}

/// The value of the last entry for `key`.
fn find_entry<'a>(entries: &'a Vec<(String, String)>, key: &str) -> (v: Option<&'a String>)
    ensures
        match v {
            Some(s) => lookup(pair_views(entries@), key@) == Some(s@),
            None => lookup(pair_views(entries@), key@) is None,
        },
{
    let ghost all = pair_views(entries@);
    let mut i: usize = entries.len();
    assert(all.take(all.len() as int) == all);
    while i > 0
        invariant
            i <= entries@.len(),
            all == pair_views(entries@),
            lookup(all, key@) == lookup(all.take(i as int), key@),
        decreases i,
    {
        let ghost prefix = all.take(i as int);
        assert(prefix.last() == (entries@[i - 1].0@, entries@[i - 1].1@));
        assert(prefix.drop_last() == all.take(i - 1));
        if str_eq(entries[i - 1].0.as_str(), key) {
            return Some(&entries[i - 1].1);
        }
        i = i - 1;
    }
    None
}

impl LocalizationBundle {
    /// No language loaded.
    pub fn new() -> (b: Self)
        ensures
            b.tables() == Seq::<(Language, Vec<(String, String)>)>::empty(),
    {
        LocalizationBundle { translations: Vec::new() }
    }

    /// The loaded tables, in the order they were loaded.
    pub closed spec fn tables(&self) -> Seq<(Language, Vec<(String, String)>)> {
        self.translations@
    }

    /// Load the translations of `language` from the content of its file,
    /// replacing any loaded before.
    pub fn load_language(&mut self, language: Language, content: &str)
        ensures
            table_of(final(self).tables(), language) == Some(spec_parse_translations(content@)),
            forall|other: Language|
                other != language ==> table_of(final(self).tables(), other) == table_of(
                    old(self).tables(),
                    other,
                ),
    {
        let entries = parse_translations(content);
        let ghost before = self.translations@;
        self.translations.push((language, entries));
        assert(self.translations@.drop_last() == before);
    }

    fn table(&self, language: Language) -> (t: Option<&Vec<(String, String)>>)
        ensures
            match t {
                Some(v) => table_of(self.tables(), language) == Some(pair_views(v@)),
                None => table_of(self.tables(), language) is None,
            },
    {
        let mut i: usize = self.translations.len();
        let ghost all = self.translations@;
        assert(all.take(all.len() as int) == all);
        while i > 0
            invariant
                i <= all.len(),
                all == self.translations@,
                table_of(all, language) == table_of(all.take(i as int), language),
            decreases i,
        {
            assert(all.take(i as int).last() == all[i - 1]);
            assert(all.take(i as int).drop_last() == all.take(i - 1));
            if self.translations[i - 1].0 == language {
                return Some(&self.translations[i - 1].1);
            }
            i = i - 1;
        }
        None
    }

    /// The text for `key` in `language` with its arguments filled in; the key
    /// itself when no loaded table has it.
    pub fn get_text(&self, language: Language, key: &str, args: &[(String, String)]) -> (text: String)
        ensures
            text@ == match spec_translation(self.tables(), language, key@) {
                Some(template) => fill_args(template, pair_views(args@)),
                None => key@,
            },
    {
        match self.table(language) {
            Some(t) => match find_entry(t, key) {
                Some(template) => fill_template(template.as_str(), args),
                None => String::from_str(key),
            },
            None => String::from_str(key),
        }
    }

    /// The text for `key` in `language`, else in `fallback`, with its
    /// arguments filled in; the key itself when neither has it.
    pub fn get_text_with_fallback(
        &self,
        language: Language,
        fallback: Language,
        key: &str,
        args: &[(String, String)],
    ) -> (text: String)
        ensures
            text@ == match spec_translation(self.tables(), language, key@) {
                Some(template) => fill_args(template, pair_views(args@)),
                None => match spec_translation(self.tables(), fallback, key@) {
                    Some(template) => fill_args(template, pair_views(args@)),
                    None => key@,
                },
            },
    {
        let primary = match self.table(language) {
            Some(t) => find_entry(t, key),
            None => None,
        };
        match primary {
            Some(template) => fill_template(template.as_str(), args),
            None => self.get_text(fallback, key, args),
        }
    }

    /// The text for `key` in the configured language, falling back to the
    /// configured fallback language.
    pub fn get_current_text(&self, config: &LocalizationConfig, key: &str, args: &[(String, String)]) -> (text: String)
        ensures
            text@ == match spec_translation(self.tables(), config.current_language, key@) {
                Some(template) => fill_args(template, pair_views(args@)),
                None => match spec_translation(self.tables(), config.fallback_language, key@) {
                    Some(template) => fill_args(template, pair_views(args@)),
                    None => key@,
                },
            },
    {
        self.get_text_with_fallback(config.current_language, config.fallback_language, key, args)
    }
}

/// The text for `key` in the configured language (see
/// [`LocalizationBundle::get_current_text`]).
pub fn get_localized_text(
    bundle: &LocalizationBundle,
    config: &LocalizationConfig,
    key: &str,
    args: &[(String, String)],
) -> (text: String)
    ensures
        text@ == match spec_translation(bundle.tables(), config.current_language, key@) {
            Some(template) => fill_args(template, pair_views(args@)),
            None => match spec_translation(bundle.tables(), config.fallback_language, key@) {
                Some(template) => fill_args(template, pair_views(args@)),
                None => key@,
            },
        },
{
    bundle.get_current_text(config, key, args)
}

/// The template with each argument's placeholder replaced by its value.
fn fill_template(template: &str, args: &[(String, String)]) -> (text: String)
    ensures
        text@ == fill_args(template@, pair_views(args@)),
{
    let mut result = String::from_str(template);
    let ghost all = pair_views(args@);
    let mut i: usize = 0;
    assert(all.take(0) =~= Seq::<(Seq<char>, Seq<char>)>::empty());
    while i < args.len()
        invariant
            i <= args@.len(),
            all == pair_views(args@),
            result@ == fill_args(template@, all.take(i as int)),
        decreases args@.len() - i,
    {
        assert(all.take(i + 1).drop_last() == all.take(i as int));
        assert(all.take(i + 1).last() == (args@[i as int].0@, args@[i as int].1@));
        let mut placeholder_text = String::from_str("{$");
        placeholder_text.append(args[i].0.as_str());
        placeholder_text.append("}");
        proof {
            reveal_strlit("{$");
        }
        assert(placeholder_text@.len() > 0);
        result = replace(result.as_str(), placeholder_text.as_str(), args[i].1.as_str());
        i = i + 1;
    }
    assert(all.take(args@.len() as int) == all);
    result
}

} // verus!

verus! {

/// Every language's tag names that language again.
pub proof fn law_language_tag_roundtrip(l: Language)
    ensures
        spec_from_language_tag(spec_language_tag(l)) == Some(l),
{
    reveal_strlit("en-US");
    reveal_strlit("en");
    reveal_strlit("es-ES");
    reveal_strlit("es");
    reveal_strlit("de-DE");
    reveal_strlit("de");
    reveal_strlit("cs-CZ");
    reveal_strlit("cs");
    reveal_strlit("sk-SK");
    reveal_strlit("sk");
    reveal_strlit("pl-PL");
    reveal_strlit("pl");
    reveal_strlit("hu-HU");
    reveal_strlit("hu");
    reveal_strlit("fr-FR");
    reveal_strlit("fr");
    reveal_strlit("it-IT");
    reveal_strlit("it");
    reveal_strlit("pt-BR");
    reveal_strlit("zh-CN");
    reveal_strlit("zh");
    reveal_strlit("ja-JP");
    reveal_strlit("ja");
    reveal_strlit("sl-SI");
    reveal_strlit("sl");
    reveal_strlit("hr-HR");
    reveal_strlit("hr");
    reveal_strlit("ro-RO");
    reveal_strlit("ro");
    reveal_strlit("bg-BG");
    reveal_strlit("bg");
    assert("en-US"@.len() == 5 && "en-US"@[0] == 'e' && "en-US"@[1] == 'n');
    assert("en"@.len() == 2 && "en"@[0] == 'e' && "en"@[1] == 'n');
    assert("es-ES"@.len() == 5 && "es-ES"@[0] == 'e' && "es-ES"@[1] == 's');
    assert("es"@.len() == 2 && "es"@[0] == 'e' && "es"@[1] == 's');
    assert("de-DE"@.len() == 5 && "de-DE"@[0] == 'd' && "de-DE"@[1] == 'e');
    assert("de"@.len() == 2 && "de"@[0] == 'd' && "de"@[1] == 'e');
    assert("cs-CZ"@.len() == 5 && "cs-CZ"@[0] == 'c' && "cs-CZ"@[1] == 's');
    assert("cs"@.len() == 2 && "cs"@[0] == 'c' && "cs"@[1] == 's');
    assert("sk-SK"@.len() == 5 && "sk-SK"@[0] == 's' && "sk-SK"@[1] == 'k');
    assert("sk"@.len() == 2 && "sk"@[0] == 's' && "sk"@[1] == 'k');
    assert("pl-PL"@.len() == 5 && "pl-PL"@[0] == 'p' && "pl-PL"@[1] == 'l');
    assert("pl"@.len() == 2 && "pl"@[0] == 'p' && "pl"@[1] == 'l');
    assert("hu-HU"@.len() == 5 && "hu-HU"@[0] == 'h' && "hu-HU"@[1] == 'u');
    assert("hu"@.len() == 2 && "hu"@[0] == 'h' && "hu"@[1] == 'u');
    assert("fr-FR"@.len() == 5 && "fr-FR"@[0] == 'f' && "fr-FR"@[1] == 'r');
    assert("fr"@.len() == 2 && "fr"@[0] == 'f' && "fr"@[1] == 'r');
    assert("it-IT"@.len() == 5 && "it-IT"@[0] == 'i' && "it-IT"@[1] == 't');
    assert("it"@.len() == 2 && "it"@[0] == 'i' && "it"@[1] == 't');
    assert("pt-BR"@.len() == 5 && "pt-BR"@[0] == 'p' && "pt-BR"@[1] == 't');
    assert("zh-CN"@.len() == 5 && "zh-CN"@[0] == 'z' && "zh-CN"@[1] == 'h');
    assert("zh"@.len() == 2 && "zh"@[0] == 'z' && "zh"@[1] == 'h');
    assert("ja-JP"@.len() == 5 && "ja-JP"@[0] == 'j' && "ja-JP"@[1] == 'a');
    assert("ja"@.len() == 2 && "ja"@[0] == 'j' && "ja"@[1] == 'a');
    assert("sl-SI"@.len() == 5 && "sl-SI"@[0] == 's' && "sl-SI"@[1] == 'l');
    assert("sl"@.len() == 2 && "sl"@[0] == 's' && "sl"@[1] == 'l');
    assert("hr-HR"@.len() == 5 && "hr-HR"@[0] == 'h' && "hr-HR"@[1] == 'r');
    assert("hr"@.len() == 2 && "hr"@[0] == 'h' && "hr"@[1] == 'r');
    assert("ro-RO"@.len() == 5 && "ro-RO"@[0] == 'r' && "ro-RO"@[1] == 'o');
    assert("ro"@.len() == 2 && "ro"@[0] == 'r' && "ro"@[1] == 'o');
    assert("bg-BG"@.len() == 5 && "bg-BG"@[0] == 'b' && "bg-BG"@[1] == 'g');
    assert("bg"@.len() == 2 && "bg"@[0] == 'b' && "bg"@[1] == 'g');
}

/// The list of languages holds each language exactly once.
pub proof fn law_all_languages_listed_once(l: Language)
    ensures
        spec_all_languages().contains(l),
        forall|i: int, j: int|
            0 <= i < j < spec_all_languages().len() ==> spec_all_languages()[i]
                != spec_all_languages()[j],
{
    let all = spec_all_languages();
    let i: int = match l {
        Language::EnglishUS => 0,
        Language::SpanishES => 1,
        Language::GermanDE => 2,
        Language::CzechCZ => 3,
        Language::SlovakSK => 4,
        Language::PolishPL => 5,
        Language::HungarianHU => 6,
        Language::FrenchFR => 7,
        Language::ItalianIT => 8,
        Language::PortugueseBR => 9,
        Language::ChineseCN => 10,
        Language::JapaneseJP => 11,
        Language::SlovenianSI => 12,
        Language::CroatianHR => 13,
        Language::RomanianRO => 14,
        Language::BulgarianBG => 15,
    };
    assert(all[i] == l);
}

} // verus!

verus! {

/// A UI text given by its translation key and arguments.
#[derive(Debug, Clone)]
pub struct LocalizedText {
    pub key: String,
    pub args: Vec<(String, String)>,
}

impl LocalizedText {
    /// A text without arguments.
    pub fn new(key: String) -> (t: Self)
        ensures
            t.key@ == key@,
            t.args@.len() == 0,
    {
        LocalizedText { key, args: Vec::new() }
    }

    /// A text with arguments.
    pub fn with_args(key: String, args: Vec<(String, String)>) -> (t: Self)
        ensures
            t.key@ == key@,
            t.args@ == args@,
    {
        LocalizedText { key, args }
    }

    /// The text with one more argument.
    pub fn with_arg(self, key: String, value: String) -> (t: Self)
        ensures
            t.key@ == self.key@,
            t.args@ == self.args@.push((key, value)),
    {
        let mut t = self;
        t.args.push((key, value));
        t
    }
}

} // verus!
