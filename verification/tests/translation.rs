use r18::{FormatError, Locale, Translator};

fn zh_cn_registry() -> Vec<Locale> {
    vec![Locale {
        name: "zh-CN".to_string(),
        translate: vec![
            ("Hello, {}".to_string(), "你好，{}".to_string()),
            ("birthday.Hello, {}".to_string(), "生日快乐，{}".to_string()),
        ],
    }]
}

#[test]
fn identity_when_no_locale_active() {
    let t = Translator::new(zh_cn_registry());
    assert_eq!(t.translate("", "Hello, {}"), "Hello, {}");
    assert_eq!(t.translate("birthday", "Hello, {}"), "Hello, {}");
    assert_eq!(t.get_active_locale_name(), None);
}

#[test]
fn fallback_on_missing_key() {
    let mut t = Translator::new(zh_cn_registry());
    assert_eq!(t.set_locale("zh-CN"), Some("zh-CN".to_string()));
    assert_eq!(t.translate("", "Goodbye"), "Goodbye");
    assert_eq!(t.translate("birthday", "Goodbye"), "Goodbye");
}

#[test]
fn exact_hit_returns_stored_translation() {
    let mut t = Translator::new(zh_cn_registry());
    t.set_locale("zh-CN");
    assert_eq!(t.translate("", "Hello, {}"), "你好，{}");
    assert_eq!(t.translate("birthday", "Hello, {}"), "生日快乐，{}");
}

#[test]
fn distinct_prefixes_resolve_independently() {
    let mut t = Translator::new(vec![Locale {
        name: "de".to_string(),
        translate: vec![
            ("a.T".to_string(), "A-Wert".to_string()),
            ("b.T".to_string(), "B-Wert".to_string()),
        ],
    }]);
    t.set_locale("de");
    assert_eq!(t.translate("a", "T"), "A-Wert");
    assert_eq!(t.translate("b", "T"), "B-Wert");
    assert_eq!(t.translate("c", "T"), "T");
}

#[test]
fn empty_tag_clears_selection() {
    let mut t = Translator::new(zh_cn_registry());
    t.set_locale("zh-CN");
    assert_eq!(t.set_locale(""), None);
    assert_eq!(t.get_active_locale_name(), None);
    assert_eq!(t.translate("", "Hello, {}"), "Hello, {}");
}

#[test]
fn malformed_tag_clears_selection() {
    let mut t = Translator::new(zh_cn_registry());
    t.set_locale("zh-CN");
    assert_eq!(t.set_locale("not a tag!!"), None);
    assert_eq!(t.get_active_locale_name(), None);
    assert_eq!(t.translate("", "Hello, {}"), "Hello, {}");
}

#[test]
fn unregistered_tag_clears_selection() {
    let mut t = Translator::new(zh_cn_registry());
    t.set_locale("zh-CN");
    assert_eq!(t.set_locale("fr-FR"), None);
    assert_eq!(t.get_active_locale_name(), None);
}

#[test]
fn malformed_tag_never_selects_a_registered_name() {
    // The registry even holds a locale under the malformed name: parsing
    // still rejects the tag before any lookup.
    let mut t = Translator::new(vec![Locale {
        name: "not a tag!!".to_string(),
        translate: vec![],
    }]);
    assert_eq!(t.set_locale("not a tag!!"), None);
    assert_eq!(t.get_active_locale_name(), None);
}

#[test]
fn set_locale_reports_the_active_name() {
    let mut t = Translator::new(zh_cn_registry());
    assert_eq!(t.set_locale("zh-CN"), Some("zh-CN".to_string()));
    assert_eq!(t.get_active_locale_name(), Some("zh-CN".to_string()));
}

#[test]
fn format_substitutes_positionally() {
    let r = r18::formatting::format("Hello, {}", &vec!["ho-229".to_string()]);
    assert_eq!(r, Ok("Hello, ho-229".to_string()));
    let r = r18::formatting::format("{} and {}", &vec!["a".to_string(), "b".to_string()]);
    assert_eq!(r, Ok("a and b".to_string()));
}

#[test]
fn format_without_placeholders_keeps_the_template() {
    let r = r18::formatting::format("plain text", &vec![]);
    assert_eq!(r, Ok("plain text".to_string()));
}

#[test]
fn format_fails_on_missing_argument() {
    let r = r18::formatting::format("{} {}", &vec!["only-one".to_string()]);
    assert_eq!(r, Err(FormatError));
}

#[test]
fn failed_substitution_yields_empty_string() {
    let t = Translator::new(zh_cn_registry());
    assert_eq!(t.tr("", "{} {}", &vec!["only-one".to_string()]), "");
}

#[test]
fn translate_then_format_scenario() {
    let mut t = Translator::new(zh_cn_registry());
    t.set_locale("zh-CN");
    assert_eq!(t.tr("", "Hello, {}", &vec!["ho-229".to_string()]), "你好，ho-229");
    t.set_locale("");
    assert_eq!(t.tr("", "Hello, {}", &vec!["ho-229".to_string()]), "Hello, ho-229");
}

#[test]
fn composite_key_joins_with_a_dot() {
    assert_eq!(r18::composite_key("birthday", "Hello, {}"), "birthday.Hello, {}");
    assert_eq!(r18::composite_key("", "Hello, {}"), "Hello, {}");
}

#[test]
fn repeated_key_resolves_to_the_earliest_pair() {
    let mut t = Translator::new(vec![Locale {
        name: "en".to_string(),
        translate: vec![
            ("K".to_string(), "first".to_string()),
            ("K".to_string(), "second".to_string()),
        ],
    }]);
    t.set_locale("en");
    assert_eq!(t.translate("", "K"), "first");
}

#[test]
fn auto_detect_with_empty_registry_selects_nothing() {
    let mut t = Translator::new(Vec::new());
    assert_eq!(t.auto_detect(), None);
    assert_eq!(t.get_active_locale_name(), None);
}

#[test]
fn lookup_finds_only_present_keys() {
    let registry = zh_cn_registry();
    let loc = &registry[0];
    assert_eq!(loc.lookup("Hello, {}"), Some("你好，{}".to_string()));
    assert_eq!(loc.lookup("absent"), None);
}
