use loco_cli::commands::assets::{asset_list_lines, create_step, CreatePhase, CreatePlan};
use loco_cli::commands::string_flow::{ApiEvent, Call, Note, Step};
use loco_cli::commands::translations::{
    list_text_cuttable, translation_get_lines, translation_list_lines, translation_report,
    translation_reports,
};
use loco_cli::error::LocoError;
use loco_cli::models::{Asset, CreateAssetRequest, Translation};

fn s(x: &str) -> String {
    x.to_string()
}

fn translation(id: &str, text: &str, flagged: Option<&str>) -> Translation {
    Translation {
        id: s(id),
        translation_type: None,
        translated: true,
        flagged: flagged.map(s),
        status: Some(s("translated")),
        translation: s(text),
        revision: Some(3),
        modified: Some(s("2024-01-01")),
        locale: None,
    }
}

#[test]
fn translations_list_lines_count_cut_and_flag() {
    let long = "x".repeat(70);
    let ts = vec![translation("en", "Hello", None), translation("fr", &long, Some("fuzzy"))];
    assert_eq!(
        translation_list_lines("welcome.title", &ts),
        vec![
            s("2 translation(s) for welcome.title:"),
            s("  en - Hello"),
            format!("  fr - {} [flagged]", "x".repeat(60)),
        ]
    );
    assert_eq!(
        translation_list_lines("empty", &Vec::new()),
        vec![s("0 translation(s) for empty:")]
    );
}

#[test]
fn translations_list_cut_must_fall_on_a_char_boundary() {
    assert!(list_text_cuttable("short"));
    assert!(list_text_cuttable(&"a".repeat(61)));
    // 59 ASCII bytes then a two-byte character: byte 60 is inside it.
    let awkward = format!("{}é", "a".repeat(59));
    assert!(!list_text_cuttable(&awkward));
    let fine = format!("{}é", "a".repeat(58));
    assert!(list_text_cuttable(&fine));
}

#[test]
fn translations_get_lines() {
    let t = translation("fr", "Bienvenue", None);
    assert_eq!(
        translation_get_lines("welcome.title", "fr", &t),
        vec![
            s("Asset: welcome.title"),
            s("Locale: fr"),
            s("Status: translated"),
            s("Flagged: none"),
            s("Text: Bienvenue"),
        ]
    );
    let mut bare = translation("de", "Hallo", Some("fuzzy"));
    bare.status = None;
    let lines = translation_get_lines("a", "de", &bare);
    assert_eq!(lines[2], "Status: unknown");
    assert_eq!(lines[3], "Flagged: fuzzy");
}

#[test]
fn translation_reports_keep_fields() {
    let t = translation("fr", "Bienvenue", Some("fuzzy"));
    let r = translation_report(&t);
    assert_eq!(r.id, "fr");
    assert_eq!(r.translation, "Bienvenue");
    assert!(r.translated);
    assert_eq!(r.flagged.as_deref(), Some("fuzzy"));
    assert_eq!(r.status.as_deref(), Some("translated"));
    assert_eq!(r.revision, Some(3));
    assert_eq!(r.modified.as_deref(), Some("2024-01-01"));
    let rs = translation_reports(&vec![t, translation("en", "Welcome", None)]);
    assert_eq!(rs.len(), 2);
    assert_eq!(rs[1].id, "en");
    assert_eq!(rs[1].flagged, None);
}

#[test]
fn assets_list_lines() {
    let assets = vec![
        Asset {
            id: s("welcome.title"),
            asset_type: Some(s("text")),
            context: String::new(),
            notes: String::new(),
            tags: Vec::new(),
            progress: None,
        },
        Asset {
            id: s("logo"),
            asset_type: None,
            context: String::new(),
            notes: String::new(),
            tags: Vec::new(),
            progress: None,
        },
    ];
    assert_eq!(
        asset_list_lines(&assets),
        vec![s("2 asset(s):"), s("  welcome.title [text]"), s("  logo [unknown]")]
    );
}

fn describe(step: &Step) -> (Option<String>, String) {
    let note = match &step.note {
        Some(Note::Success(m)) => Some(format!("success: {m}")),
        Some(Note::Info(m)) => Some(format!("info: {m}")),
        None => None,
    };
    let call = match &step.call {
        Call::Create(r) => format!("create {} {:?}", r.id, r.text),
        Call::SetTranslation(id, l, t) => format!("set {id} {l} {t}"),
        Call::ListLocales => s("locales"),
        Call::Done => s("done"),
        Call::Fail(e) => format!("fail {e:?}"),
    };
    (note, call)
}

fn plan(update: bool) -> CreatePlan {
    CreatePlan {
        request: CreateAssetRequest {
            id: s("welcome.title"),
            text: Some(s("Welcome")),
            context: None,
            notes: Some(s("Homepage heading")),
            asset_type: Some(s("text")),
        },
        translations: vec![(s("de"), s("Willkommen")), (s("fr"), s("Bienvenue"))],
        update,
    }
}

#[test]
fn assets_create_sets_translations_on_returned_id() {
    let plan = plan(false);
    let mut phase = CreatePhase::Start;
    let mut event = ApiEvent::Begin;
    let mut seen = Vec::new();
    loop {
        let (next, step) = create_step(&plan, phase, event);
        phase = next;
        seen.push(describe(&step));
        event = match step.call {
            // The API names the new asset differently from the request.
            Call::Create(_) => ApiEvent::Created(s("welcome-title")),
            Call::SetTranslation(..) => ApiEvent::TranslationSet,
            Call::ListLocales => ApiEvent::Locales(None),
            Call::Done | Call::Fail(_) => break,
        };
    }
    assert_eq!(
        seen,
        vec![
            (None, s("create welcome.title Some(\"Welcome\")")),
            (Some(s("success: Created asset: welcome-title")), s("set welcome-title de Willkommen")),
            (Some(s("success:   de: Willkommen")), s("set welcome-title fr Bienvenue")),
            (Some(s("success:   fr: Bienvenue")), s("done")),
        ]
    );
}

#[test]
fn assets_create_existing_asset() {
    let conflict = || LocoError::Api { status: 409, message: s("exists") };
    let (phase, step) = create_step(&plan(true), CreatePhase::Creating, ApiEvent::Failed(conflict()));
    assert!(matches!(phase, CreatePhase::Setting(ref id, 0) if id == "welcome.title"));
    assert_eq!(
        describe(&step),
        (
            Some(s("info: Asset welcome.title already exists, updating translations")),
            s("set welcome.title de Willkommen")
        )
    );
    let (phase, step) = create_step(&plan(false), CreatePhase::Creating, ApiEvent::Failed(conflict()));
    assert!(matches!(phase, CreatePhase::Finished));
    assert!(matches!(step.call, Call::Fail(LocoError::Api { status: 409, .. })));
    let (_, step) = create_step(
        &plan(true),
        CreatePhase::Setting(s("welcome.title"), 1),
        ApiEvent::Failed(LocoError::RateLimited),
    );
    assert!(matches!(step.call, Call::Fail(LocoError::RateLimited)));
}
