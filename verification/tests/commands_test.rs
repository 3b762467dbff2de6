use loco_cli::cli::{PullArgs, PushArgs};
use loco_cli::commands::auth::{auth_detail_lines, authenticated_line};
use loco_cli::commands::completions::{completion_target, install_hint_lines, InstallTarget, ShellKind};
use loco_cli::commands::init::{config_file_text, proposed_output_path, EXPORT_FORMATS};
use loco_cli::commands::locales::{locale_detail_lines, locale_list_lines, locale_total_fits};
use loco_cli::commands::pull::{pull_plan, resolve_path};
use loco_cli::commands::push::{import_params, poll_step, push_plan, PollAction};
use loco_cli::commands::status::{progress_fits, progress_numbers, untranslated_of};
use loco_cli::commands::strings::{
    add_may_continue, add_source_text, asset_detail_lines, entry_action, has_locale,
    new_string_request, source_locale_code, source_locale_pair, string_list_lines,
    translation_detail_lines, translation_entries, translations_or_none, wants_source_locale,
    EntryAction,
};
use loco_cli::commands::tags::tag_list_lines;
use loco_cli::config::{PullConfig, PushConfig};
use loco_cli::error::LocoError;
use loco_cli::models::{
    Asset, AuthProject, AuthResponse, AuthUser, ImportProgress, Locale, LocaleProgress,
    Translation,
};

fn asset(id: &str, asset_type: Option<&str>) -> Asset {
    Asset {
        id: id.to_string(),
        asset_type: asset_type.map(|t| t.to_string()),
        context: String::new(),
        notes: String::new(),
        tags: Vec::new(),
        progress: None,
    }
}

fn progress(translated: u32, untranslated: u32) -> LocaleProgress {
    LocaleProgress {
        num_translated: Some(translated),
        num_untranslated: Some(untranslated),
        num_approved: Some(0),
        num_pending: Some(0),
        translated: Some(translated),
        untranslated: Some(untranslated),
        flagged: Some(0),
    }
}

fn locale(code: &str, name: &str, p: Option<LocaleProgress>) -> Locale {
    Locale { code: code.to_string(), name: name.to_string(), plurals: None, progress: p }
}

fn translation(id: &str, text: &str, translated: bool) -> Translation {
    Translation {
        id: id.to_string(),
        translation_type: Some("text".to_string()),
        translated,
        flagged: None,
        status: Some("translated".to_string()),
        translation: text.to_string(),
        revision: Some(1),
        modified: None,
        locale: None,
    }
}

fn pull_args(format: Option<&str>, locale: Option<&str>, path: Option<&str>) -> PullArgs {
    PullArgs {
        format: format.map(|s| s.to_string()),
        locale: locale.map(|s| s.to_string()),
        path: path.map(|s| s.to_string()),
        filter: None,
        status: None,
    }
}

fn push_args(file: &str, format: Option<&str>, index: Option<&str>, is_async: bool) -> PushArgs {
    PushArgs {
        file: file.to_string(),
        locale: Some("en".to_string()),
        format: format.map(|s| s.to_string()),
        tag_new: None,
        is_async,
        index: index.map(|s| s.to_string()),
    }
}

#[test]
fn pull_custom_path_template() {
    assert_eq!(
        resolve_path("translations/{locale}/strings.{format}", "de", "json"),
        "translations/de/strings.json"
    );
}

#[test]
fn pull_all_locales() {
    let plan = pull_plan(&pull_args(None, None, Some("/tmp/x/{locale}.{format}")), &PullConfig::default());
    assert_eq!(resolve_path(&plan.path_template, "en", &plan.format), "/tmp/x/en.json");
    assert_eq!(resolve_path(&plan.path_template, "fr", &plan.format), "/tmp/x/fr.json");
}

#[test]
fn pull_unicode_content() {
    assert_eq!(resolve_path("./{locale}.{format}", "ja", "json"), "./ja.json");
    assert_eq!(resolve_path("./日本/{locale}.{format}", "ja", "json"), "./日本/ja.json");
}

#[test]
fn resolve_path_edge_cases() {
    assert_eq!(resolve_path("no-placeholders.txt", "en", "json"), "no-placeholders.txt");
    assert_eq!(resolve_path("{locale}-{locale}.{format}", "fr", "po"), "fr-fr.po");
    assert_eq!(resolve_path("{locale", "en", "json"), "{locale");
    // A locale is inserted as is, and a `{format}` inside it is then filled too.
    assert_eq!(resolve_path("{locale}", "x{format}", "po"), "xpo");
    assert_eq!(resolve_path("{format}", "en", "{locale}"), "{locale}");
}

#[test]
fn pull_plan_defaults_and_precedence() {
    let plan = pull_plan(&pull_args(None, None, None), &PullConfig::default());
    assert_eq!(plan.format, "json");
    assert_eq!(plan.path_template, "./{locale}.{format}");
    assert_eq!(plan.params.format.as_deref(), Some("json"));
    assert!(plan.params.index.is_none());
    let config = PullConfig { format: Some("po".to_string()), path: Some("./l/{locale}.po".to_string()) };
    let plan = pull_plan(&pull_args(None, None, None), &config);
    assert_eq!(plan.format, "po");
    assert_eq!(plan.path_template, "./l/{locale}.po");
    let plan = pull_plan(&pull_args(Some("xlf"), None, Some("out/{locale}.{format}")), &config);
    assert_eq!(plan.format, "xlf");
    assert_eq!(plan.path_template, "out/{locale}.{format}");
    assert_eq!(resolve_path(&plan.path_template, "de", &plan.format), "out/de.xlf");
}

#[test]
fn push_unicode_content() {
    let args = push_args("/tmp/dir/messages.json", None, None, false);
    let plan = push_plan(&args, &PushConfig::default());
    assert_eq!(plan.ext, "json");
}

#[test]
fn push_plan_extension_and_index() {
    let plan = push_plan(&push_args("./locales/de.po", None, None, false), &PushConfig::default());
    assert_eq!(plan.ext, "po");
    assert!(plan.index.is_none());
    let plan = push_plan(&push_args("./locales/de.po", Some("xlf"), None, false), &PushConfig::default());
    assert_eq!(plan.ext, "xlf");
    let plan = push_plan(&push_args("./README", None, None, false), &PushConfig { index: Some("text".to_string()) });
    assert_eq!(plan.ext, "json");
    assert_eq!(plan.index.as_deref(), Some("text"));
    let plan = push_plan(&push_args("a.b.yml", None, Some("id"), false), &PushConfig { index: Some("text".to_string()) });
    assert_eq!(plan.ext, "yml");
    assert_eq!(plan.index.as_deref(), Some("id"));
}

#[test]
fn import_params_follow_plan_and_flags() {
    let args = push_args("en.json", None, None, true);
    let plan = push_plan(&args, &PushConfig { index: Some("id".to_string()) });
    let p = import_params(&args, &plan, vec![1, 2, 3]);
    assert_eq!(p.ext, "json");
    assert_eq!(p.body, vec![1, 2, 3]);
    assert_eq!(p.locale, Some("en"));
    assert_eq!(p.index, Some("id"));
    assert_eq!(p.format, None);
    assert!(p.is_async);
}

#[test]
fn poll_step_cases() {
    let done = ImportProgress { progress: 100, success: Some("Import complete".to_string()), error: None };
    assert!(matches!(poll_step(&done), PollAction::Complete));
    let pending = ImportProgress { progress: 42, success: None, error: None };
    assert!(matches!(poll_step(&pending), PollAction::Wait));
    let failed = ImportProgress { progress: 100, success: None, error: Some("bad file".to_string()) };
    assert!(matches!(poll_step(&failed), PollAction::Failed(e) if e == "bad file"));
    let early_error = ImportProgress { progress: 10, success: None, error: Some("x".to_string()) };
    assert!(matches!(poll_step(&early_error), PollAction::Wait));
}

#[test]
fn status_all_locales() {
    let en = locale("en", "English", Some(progress(100, 0)));
    let fr = locale("fr", "French", Some(progress(80, 20)));
    assert_eq!(progress_numbers(&en.progress), (100, 100));
    assert_eq!(progress_numbers(&fr.progress), (80, 100));
}

#[test]
fn status_single_locale() {
    let fr = locale("fr", "French", Some(progress(80, 20)));
    let (translated, total) = progress_numbers(&fr.progress);
    assert_eq!(translated, 80);
    assert_eq!(untranslated_of(translated, total), 20);
}

#[test]
fn progress_numbers_fallbacks_and_overflow() {
    assert_eq!(progress_numbers(&None), (0, 0));
    let only_short_names = LocaleProgress {
        num_translated: None,
        num_untranslated: None,
        num_approved: None,
        num_pending: None,
        translated: Some(3),
        untranslated: Some(4),
        flagged: None,
    };
    assert_eq!(progress_numbers(&Some(only_short_names)), (3, 7));
    let huge = Some(progress(u32::MAX, 1));
    assert!(!progress_fits(&huge));
    assert!(progress_fits(&Some(progress(u32::MAX, 0))));
    assert_eq!(untranslated_of(5, 3), 0);
}

#[test]
fn strings_list() {
    let assets = vec![asset("greeting", Some("text")), asset("farewell", Some("text"))];
    let lines = string_list_lines(&assets);
    assert_eq!(lines, vec!["2 string(s):", "  greeting [text]", "  farewell [text]"]);
    assert!(lines[0].contains("2 string(s)"));
}

#[test]
fn string_list_without_type() {
    let assets = vec![asset("farewell", None)];
    assert_eq!(string_list_lines(&assets), vec!["1 string(s):", "  farewell [unknown]"]);
}

#[test]
fn strings_get() {
    let a = Asset {
        id: "mykey".to_string(),
        asset_type: Some("text".to_string()),
        context: "home screen".to_string(),
        notes: "main greeting".to_string(),
        tags: vec!["ui".to_string()],
        progress: None,
    };
    let translations = vec![translation("en", "Hello", true), translation("fr", "", false)];
    assert_eq!(
        asset_detail_lines(&a, &translations),
        vec![
            "ID: mykey",
            "Type: text",
            "Context: home screen",
            "Notes: main greeting",
            "Tags: ui",
            "Translations:",
            "  ✓ en: Hello",
            "  · fr: ",
        ]
    );
}

#[test]
fn string_details_skip_empty_fields() {
    let mut a = asset("bare", None);
    a.tags = vec!["a".to_string(), "b".to_string(), "c".to_string()];
    assert_eq!(
        asset_detail_lines(&a, &Vec::new()),
        vec!["ID: bare", "Type: unknown", "Tags: a, b, c"]
    );
}

#[test]
fn translation_details() {
    let t = translation("welcome.title", "Welcome", true);
    assert_eq!(
        translation_detail_lines("welcome.title", "en", &t),
        vec![
            "String: welcome.title",
            "Locale: en",
            "Status: translated",
            "Flagged: none",
            "Text: Welcome",
        ]
    );
    let mut t = translation("x", "y", false);
    t.status = None;
    t.flagged = Some("fuzzy".to_string());
    let lines = translation_detail_lines("x", "de", &t);
    assert_eq!(lines[2], "Status: unknown");
    assert_eq!(lines[3], "Flagged: fuzzy");
}

#[test]
fn strings_add_with_translations() {
    let translations = vec![
        loco_cli::cli::parse_translation("en=Hello").unwrap(),
        loco_cli::cli::parse_translation("de=Hallo").unwrap(),
    ];
    let client = loco_cli::client::LocoClient::new("test-key-strings", "http://127.0.0.1:9").unwrap();
    assert_eq!(
        client.set_translation_request("welcome", &translations[0].0, &translations[0].1).url,
        "http://127.0.0.1:9/translations/welcome/en"
    );
    assert_eq!(
        client.set_translation_request("welcome", &translations[1].0, &translations[1].1).url,
        "http://127.0.0.1:9/translations/welcome/de"
    );
    let req = new_string_request("welcome", &translations, None, None, None);
    assert_eq!(req.id, "welcome");
    assert_eq!(req.text.as_deref(), Some("Hello"));
    assert_eq!(
        req.form_fields(),
        vec![
            ("id".to_string(), "welcome".to_string()),
            ("text".to_string(), "Hello".to_string())
        ]
    );
}

#[test]
fn add_update_decisions() {
    let conflict = LocoError::Api { status: 409, message: "exists".to_string() };
    assert!(add_may_continue(&conflict, true));
    assert!(!add_may_continue(&conflict, false));
    assert!(!add_may_continue(&LocoError::Api { status: 500, message: String::new() }, true));
    assert!(!add_may_continue(&LocoError::Unauthorized, true));
    assert!(wants_source_locale(true, &Some("Hi".to_string())));
    assert!(!wants_source_locale(true, &None));
    assert!(!wants_source_locale(false, &Some("Hi".to_string())));

    let given = vec![("de".to_string(), "Hallo".to_string())];
    assert!(has_locale(&given, "de"));
    assert!(!has_locale(&given, "en"));
    assert_eq!(
        source_locale_pair(&"Hallo".to_string(), Some("en"), &given),
        Some(("en".to_string(), "Hallo".to_string()))
    );
    assert_eq!(source_locale_pair(&"Hallo".to_string(), Some("de"), &given), None);
    assert_eq!(source_locale_pair(&"Hallo".to_string(), None, &given), None);
}

#[test]
fn interactive_add_decisions() {
    assert_eq!(source_locale_code(Some("fr")), "fr");
    assert_eq!(source_locale_code(None), "en");
    let mut translations = Vec::new();
    add_source_text(&mut translations, "en".to_string(), String::new());
    assert!(translations.is_empty());
    add_source_text(&mut translations, "en".to_string(), "Hello".to_string());
    assert_eq!(translations, vec![("en".to_string(), "Hello".to_string())]);
    assert!(matches!(entry_action(""), EntryAction::Finish));
    assert!(matches!(entry_action("de=Hallo"), EntryAction::Add(l, t) if l == "de" && t == "Hallo"));
    assert!(matches!(entry_action("oops"), EntryAction::Skip(w) if w == "Skipped: expected LOCALE=TEXT, got: oops"));
    assert!(matches!(entry_action("=x"), EntryAction::Skip(w) if w == "Skipped: locale cannot be empty"));
}

#[test]
fn locales_list() {
    let locales = vec![
        locale("en", "English", None),
        locale("fr", "French", None),
        locale("de", "German", None),
    ];
    assert_eq!(
        locale_list_lines(&locales),
        vec!["3 locale(s):", "  en - English", "  fr - French", "  de - German"]
    );
}

#[test]
fn locales_get() {
    let fr = locale("fr", "French", Some(progress(80, 20)));
    assert!(locale_total_fits(&fr));
    assert_eq!(
        locale_detail_lines(&fr),
        vec!["Code: fr", "Name: French", "Translated: 80/100"]
    );
    let bare = locale("ja", "Japanese", None);
    assert_eq!(locale_detail_lines(&bare)[2], "Translated: 0/0");
}

#[test]
fn tags_list() {
    let tags = vec!["v1".to_string(), "v2".to_string(), "v3".to_string()];
    assert_eq!(tag_list_lines(&tags), vec!["3 tag(s):", "  v1", "  v2", "  v3"]);
    assert_eq!(tag_list_lines(&Vec::new()), vec!["0 tag(s):"]);
}

#[test]
fn auth_lines() {
    let auth = AuthResponse {
        user: AuthUser { id: 42, name: "Alice".to_string(), email: "alice@example.com".to_string() },
        project: AuthProject {
            id: 42,
            name: "My Project".to_string(),
            url: "https://localise.biz/projects/42".to_string(),
        },
    };
    assert_eq!(
        auth_detail_lines(&auth),
        vec!["Project: My Project (42)", "User: Alice <alice@example.com>"]
    );
    assert_eq!(authenticated_line(&auth), "Authenticated: My Project (alice@example.com)");
}

#[test]
fn init_config_text() {
    assert_eq!(EXPORT_FORMATS[0], "json");
    assert_eq!(proposed_output_path("po"), "./locales/{locale}.po");
    assert_eq!(
        config_file_text("json", "./locales/{locale}.json"),
        "# Loco CLI configuration\n# See: https://localise.biz/api\n\n[pull]\nformat = \"json\"\npath = \"./locales/{locale}.json\"\n\n[push]\n# index = \"id\"\n"
    );
}

#[test]
fn completion_targets() {
    let home = Some("/home/me".to_string());
    assert!(matches!(completion_target(ShellKind::Bash, home.clone()), InstallTarget::File(p) if p == "/home/me/.bash_completion.d/loco"));
    assert!(matches!(completion_target(ShellKind::Zsh, home.clone()), InstallTarget::File(p) if p == "/home/me/.zfunc/_loco"));
    assert!(matches!(completion_target(ShellKind::Fish, None), InstallTarget::File(p) if p == "~/.config/fish/completions/loco.fish"));
    assert!(matches!(completion_target(ShellKind::PowerShell, home.clone()), InstallTarget::NoStandardDirectory));
    assert!(matches!(completion_target(ShellKind::Elvish, home), InstallTarget::PrintInstead));
    assert_eq!(install_hint_lines(ShellKind::Zsh).len(), 3);
    assert_eq!(install_hint_lines(ShellKind::Bash)[1], "  for f in ~/.bash_completion.d/*; do source \"$f\"; done");
    assert!(install_hint_lines(ShellKind::Fish).is_empty());
}

#[test]
fn get_all_translations_report() {
    let t = translation("en", "Hello", true);
    let listed = translations_or_none(Ok(vec![t]));
    assert_eq!(listed.len(), 1);
    let entries = translation_entries(&listed);
    assert_eq!(entries.len(), 1);
    assert_eq!(entries[0].locale, "en");
    assert_eq!(entries[0].text, "Hello");
    assert!(entries[0].translated);
    assert!(translations_or_none(Err(LocoError::RateLimited)).is_empty());
    assert!(translation_entries(&Vec::new()).is_empty());
}
