use iotcraft_client::localization::LocalizedText;
use iotcraft_client::localization::{
    detect_system_language, get_localized_text, parse_translation_line, parse_translations,
    Language, LocaleEnvironment, LocalizationBundle, LocalizationConfig, LocalizationConfigHelper,
};

fn env(lang: Option<&str>, lc_all: Option<&str>, language: Option<&str>) -> LocaleEnvironment {
    LocaleEnvironment {
        lang: lang.map(|s| s.to_string()),
        lc_all: lc_all.map(|s| s.to_string()),
        language: language.map(|s| s.to_string()),
    }
}

#[test]
fn test_localization_bundle_fallback() {
    let bundle = LocalizationBundle::new();

    let text = bundle.get_text(Language::EnglishUS, "non-existent-key", &[]);
    assert_eq!(text, "non-existent-key");
}

#[test]
fn tags_round_trip() {
    for l in Language::all() {
        assert_eq!(Language::from_language_tag(l.language_tag()), Some(l));
        assert_eq!(l.directory_name(), l.language_tag());
    }
    assert_eq!(Language::all().len(), 16);
    assert_eq!(Language::from_language_tag("cs"), Some(Language::CzechCZ));
    assert_eq!(Language::from_language_tag("pt"), None);
    assert_eq!(Language::from_language_tag("en_US"), None);
    assert_eq!(Language::default(), Language::EnglishUS);
    assert_eq!(Language::JapaneseJP.display_name(), "日本語 (日本)");
    assert_eq!(Language::CzechCZ.display_name(), "Čeština (Česká republika)");
}

#[test]
fn language_identifiers_parse() {
    for l in Language::all() {
        assert!(l.try_language_id().is_some());
    }
    assert_eq!(Language::PortugueseBR.language_id().to_string(), "pt-BR");
}

#[test]
fn environment_detection() {
    assert_eq!(detect_system_language(&env(Some("de_DE.UTF-8"), None, None)), Language::GermanDE);
    assert_eq!(
        detect_system_language(&env(Some("C.UTF-8"), Some("fr_FR.UTF-8"), None)),
        Language::FrenchFR
    );
    assert_eq!(
        detect_system_language(&env(None, None, Some("sk_SK:en_US"))),
        Language::SlovakSK
    );
    assert_eq!(detect_system_language(&env(Some("xx"), None, None)), Language::EnglishUS);
    assert_eq!(detect_system_language(&env(None, None, None)), Language::EnglishUS);
}

#[test]
fn config_prefers_the_command_line() {
    let e = env(Some("de_DE.UTF-8"), None, None);
    let c = LocalizationConfig::new(Some("hr-HR".to_string()), &e);
    assert_eq!(c.current_language, Language::CroatianHR);
    assert_eq!(c.fallback_language, Language::EnglishUS);
    let c = LocalizationConfig::new(Some("bogus".to_string()), &e);
    assert_eq!(c.current_language, Language::GermanDE);
    let c = LocalizationConfig::new(None, &e);
    assert_eq!(c.current_language, Language::GermanDE);
}

#[test]
fn set_language_reports_changes() {
    let mut c = LocalizationConfig::new(None, &env(None, None, None));
    assert!(!c.set_language(Language::EnglishUS));
    assert!(c.set_language(Language::ItalianIT));
    assert!(!c.set_language(Language::ItalianIT));
    assert_eq!(c.current_language(), Language::ItalianIT);
    assert_eq!(c.fallback_language(), Language::EnglishUS);
}

#[test]
fn translation_lines_are_parsed() {
    assert_eq!(
        parse_translation_line("  menu-enter-world = Enter the world  "),
        Some(("menu-enter-world".to_string(), "Enter the world".to_string()))
    );
    assert_eq!(parse_translation_line("# comment = no"), None);
    assert_eq!(parse_translation_line("   "), None);
    assert_eq!(parse_translation_line("key=value"), None);
    assert_eq!(
        parse_translation_line("a = b = c"),
        Some(("a".to_string(), "b = c".to_string()))
    );
    let entries = parse_translations("x = 1\r\n# c\n\ny = 2\nx = 3\n");
    assert_eq!(entries.len(), 3);
    assert_eq!(entries[2], ("x".to_string(), "3".to_string()));
}

#[test]
fn bundle_fills_arguments_and_falls_back() {
    let mut bundle = LocalizationBundle::new();
    bundle.load_language(
        Language::EnglishUS,
        "world-last-played = Last played: {$time}\ngreeting = Hello {$name}, {$name}!\nonly-en = English\n",
    );
    bundle.load_language(Language::GermanDE, "greeting = Hallo {$name}\n");
    let args = vec![("time".to_string(), "2023-12-25 15:30".to_string())];
    assert_eq!(
        bundle.get_text(Language::EnglishUS, "world-last-played", &args),
        "Last played: 2023-12-25 15:30"
    );
    let name = vec![("name".to_string(), "Ada".to_string())];
    assert_eq!(bundle.get_text(Language::EnglishUS, "greeting", &name), "Hello Ada, Ada!");
    assert_eq!(bundle.get_text(Language::GermanDE, "greeting", &name), "Hallo Ada");
    assert_eq!(bundle.get_text(Language::GermanDE, "only-en", &[]), "only-en");
    let mut config = LocalizationConfig::new(None, &LocaleEnvironment { lang: None, lc_all: None, language: None });
    config.set_language(Language::GermanDE);
    assert_eq!(get_localized_text(&bundle, &config, "only-en", &[]), "English");
    assert_eq!(get_localized_text(&bundle, &config, "greeting", &name), "Hallo Ada");
    assert_eq!(get_localized_text(&bundle, &config, "missing", &[]), "missing");
    bundle.load_language(Language::GermanDE, "greeting = Servus\n");
    assert_eq!(bundle.get_text(Language::GermanDE, "greeting", &[]), "Servus");
}

#[test]
fn localized_text_builders() {
    let t = LocalizedText::new("menu-title".to_string());
    assert_eq!(t.key, "menu-title");
    assert!(t.args.is_empty());
    let t = t.with_arg("name".to_string(), "Ada".to_string());
    assert_eq!(t.args, vec![("name".to_string(), "Ada".to_string())]);
    let t = LocalizedText::with_args("k".to_string(), vec![("a".to_string(), "b".to_string())]);
    assert_eq!(t.args.len(), 1);
}
