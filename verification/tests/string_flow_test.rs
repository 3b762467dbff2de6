use loco_cli::commands::string_flow::{
    add_step, set_step, set_summary_lines, AddPhase, AddPlan, ApiEvent, Call, Note, SetPhase,
    SetPlan, Step,
};
use loco_cli::error::LocoError;

fn pairs(items: &[(&str, &str)]) -> Vec<(String, String)> {
    items.iter().map(|(a, b)| (a.to_string(), b.to_string())).collect()
}

/// What a step names, as plain text, for comparison.
fn describe(step: &Step) -> (Option<String>, String) {
    let note = match &step.note {
        Some(Note::Success(m)) => Some(format!("success: {m}")),
        Some(Note::Info(m)) => Some(format!("info: {m}")),
        None => None,
    };
    let call = match &step.call {
        Call::Create(r) => format!("create {} {:?}", r.id, r.text),
        Call::SetTranslation(id, l, t) => format!("set {id} {l} {t}"),
        Call::ListLocales => "locales".to_string(),
        Call::Done => "done".to_string(),
        Call::Fail(e) => format!("fail {e:?}"),
    };
    (note, call)
}

/// Runs `strings add` with every call succeeding; the locales answer names
/// `first` first.
fn run_add(plan: &AddPlan, first: Option<&str>) -> Vec<(Option<String>, String)> {
    let mut phase = AddPhase::Start;
    let mut event = ApiEvent::Begin;
    let mut out = Vec::new();
    loop {
        let (next, step) = add_step(plan, phase, event);
        phase = next;
        out.push(describe(&step));
        event = match step.call {
            Call::Create(r) => ApiEvent::Created(r.id),
            Call::SetTranslation(..) => ApiEvent::TranslationSet,
            Call::ListLocales => ApiEvent::Locales(first.map(|c| c.to_string())),
            Call::Done | Call::Fail(_) => return out,
        };
    }
}

fn run_set(plan: &SetPlan) -> Vec<(Option<String>, String)> {
    let mut phase = SetPhase::Start;
    let mut event = ApiEvent::Begin;
    let mut out = Vec::new();
    loop {
        let (next, step) = set_step(plan, phase, event);
        phase = next;
        out.push(describe(&step));
        event = match step.call {
            Call::Create(r) => ApiEvent::Created(r.id),
            Call::SetTranslation(..) => ApiEvent::TranslationSet,
            Call::ListLocales => ApiEvent::Locales(None),
            Call::Done | Call::Fail(_) => return out,
        };
    }
}

fn s(x: &str) -> String {
    x.to_string()
}

#[test]
fn add_creates_then_sets_each_translation() {
    let plan = AddPlan::new(s("welcome"), pairs(&[("en", "Hello"), ("de", "Hallo")]), None, None, None, false);
    assert_eq!(
        run_add(&plan, Some("en")),
        vec![
            (None, s("create welcome Some(\"Hello\")")),
            (Some(s("success: Created string: welcome")), s("set welcome en Hello")),
            (Some(s("success:   en: Hello")), s("set welcome de Hallo")),
            (Some(s("success:   de: Hallo")), s("done")),
        ]
    );
}

#[test]
fn add_update_sets_source_text_on_first_locale() {
    let plan = AddPlan::new(s("welcome"), pairs(&[("de", "Hallo")]), None, None, None, true);
    assert_eq!(
        run_add(&plan, Some("en")),
        vec![
            (None, s("create welcome Some(\"Hallo\")")),
            (Some(s("success: Created string: welcome")), s("set welcome de Hallo")),
            (Some(s("success:   de: Hallo")), s("locales")),
            (None, s("set welcome en Hallo")),
            (None, s("done")),
        ]
    );
    // A translation for the first locale was given: nothing more is saved.
    assert_eq!(
        run_add(&plan, Some("de")),
        vec![
            (None, s("create welcome Some(\"Hallo\")")),
            (Some(s("success: Created string: welcome")), s("set welcome de Hallo")),
            (Some(s("success:   de: Hallo")), s("locales")),
            (None, s("done")),
        ]
    );
    // No locale in the project.
    assert_eq!(run_add(&plan, None).last().unwrap().1, "done");
}

#[test]
fn add_without_translations_creates_only() {
    let plan = AddPlan::new(s("empty"), Vec::new(), Some(s("text")), None, None, true);
    assert_eq!(
        run_add(&plan, Some("en")),
        vec![
            (None, s("create empty None")),
            (Some(s("success: Created string: empty")), s("done")),
        ]
    );
}

#[test]
fn add_existing_string_with_update_goes_on() {
    let plan = AddPlan::new(s("welcome"), pairs(&[("en", "Hello")]), None, None, None, true);
    let (phase, step) = add_step(&plan, AddPhase::Start, ApiEvent::Begin);
    assert!(matches!(phase, AddPhase::Creating));
    assert!(matches!(step.call, Call::Create(_)));
    let conflict = LocoError::Api { status: 409, message: s("exists") };
    let (phase, step) = add_step(&plan, phase, ApiEvent::Failed(conflict));
    assert!(matches!(phase, AddPhase::Setting(0)));
    assert_eq!(
        describe(&step),
        (
            Some(s("info: String welcome already exists, updating translations")),
            s("set welcome en Hello")
        )
    );
}

#[test]
fn add_existing_string_without_update_fails() {
    let plan = AddPlan::new(s("welcome"), pairs(&[("en", "Hello")]), None, None, None, false);
    let conflict = LocoError::Api { status: 409, message: s("exists") };
    let (phase, step) = add_step(&plan, AddPhase::Creating, ApiEvent::Failed(conflict));
    assert!(matches!(phase, AddPhase::Finished));
    assert!(step.note.is_none());
    assert!(matches!(step.call, Call::Fail(LocoError::Api { status: 409, .. })));
}

#[test]
fn add_failed_translation_ends_with_its_error() {
    let plan = AddPlan::new(s("welcome"), pairs(&[("en", "Hello"), ("de", "Hallo")]), None, None, None, true);
    let (phase, step) = add_step(&plan, AddPhase::Setting(0), ApiEvent::Failed(LocoError::RateLimited));
    assert!(matches!(phase, AddPhase::Finished));
    assert!(matches!(step.call, Call::Fail(LocoError::RateLimited)));
    let (_, step) = add_step(&plan, AddPhase::Listing, ApiEvent::Failed(LocoError::Unauthorized));
    assert!(matches!(step.call, Call::Fail(LocoError::Unauthorized)));
}

#[test]
fn add_plan_request_uses_first_text() {
    let plan = AddPlan::new(
        s("welcome"),
        pairs(&[("en", "Hello"), ("de", "Hallo")]),
        Some(s("text")),
        Some(s("ctx")),
        Some(s("note")),
        false,
    );
    assert_eq!(plan.request.id, "welcome");
    assert_eq!(plan.request.text.as_deref(), Some("Hello"));
    assert_eq!(plan.request.asset_type.as_deref(), Some("text"));
    assert_eq!(plan.request.context.as_deref(), Some("ctx"));
    assert_eq!(plan.request.notes.as_deref(), Some("note"));
}

#[test]
fn set_without_create_sets_each_translation() {
    let plan = SetPlan { id: s("mykey"), translations: pairs(&[("en", "Updated"), ("fr", "Mis")]), create: false };
    assert_eq!(
        run_set(&plan),
        vec![
            (None, s("set mykey en Updated")),
            (None, s("set mykey fr Mis")),
            (None, s("done")),
        ]
    );
}

#[test]
fn set_with_create_creates_first() {
    let plan = SetPlan { id: s("mykey"), translations: pairs(&[("en", "Updated")]), create: true };
    assert_eq!(
        run_set(&plan),
        vec![
            (None, s("create mykey None")),
            (Some(s("success: Created string: mykey")), s("set mykey en Updated")),
            (None, s("done")),
        ]
    );
}

#[test]
fn set_create_conflict_is_passed_over() {
    let plan = SetPlan { id: s("mykey"), translations: pairs(&[("en", "Updated")]), create: true };
    let conflict = LocoError::Api { status: 409, message: s("exists") };
    let (phase, step) = set_step(&plan, SetPhase::Creating, ApiEvent::Failed(conflict));
    assert!(matches!(phase, SetPhase::Setting(0)));
    assert_eq!(describe(&step), (None, s("set mykey en Updated")));
    let other = LocoError::Api { status: 500, message: s("boom") };
    let (phase, step) = set_step(&plan, SetPhase::Creating, ApiEvent::Failed(other));
    assert!(matches!(phase, SetPhase::Finished));
    assert!(matches!(step.call, Call::Fail(LocoError::Api { status: 500, .. })));
}

#[test]
fn set_summary_lines_name_each_translation() {
    assert_eq!(
        set_summary_lines("mykey", &pairs(&[("en", "Updated"), ("fr", "Mis")])),
        vec![s("mykey/en: Updated"), s("mykey/fr: Mis")]
    );
    assert!(set_summary_lines("mykey", &Vec::new()).is_empty());
}
