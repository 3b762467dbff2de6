//! The order of the API calls behind `strings add` and `strings set`. Each
//! step takes what came of the previous call and names the next call, with
//! the message to show first; the caller performs the calls.
use crate::commands::strings::{
    add_may_continue, new_string_request, pair_locales, source_locale_pair, wants_source_locale,
};
use crate::error::{is_conflict, is_conflict_error, LocoError};
use crate::models::CreateAssetRequest;
use crate::text::{concat2, concat3, concat4, opt_as_str, opt_view, strings_view};
use vstd::prelude::*;

verus! {

/// What came of the previous call.
#[derive(Debug)]
pub enum ApiEvent {
    /// No call has been made yet.
    Begin,
    /// The string was created; holds its id as the API returned it.
    Created(String),
    /// A translation was saved.
    TranslationSet,
    /// The project's locales were listed; holds the code of the first one.
    Locales(Option<String>),
    /// The call failed with this error.
    Failed(LocoError),
}

/// A message shown before the next call.
#[derive(Debug)]
pub enum Note {
    Success(String),
    Info(String),
}

/// The next API call, or the end of the command.
#[derive(Debug)]
pub enum Call {
    /// Create a string.
    Create(CreateAssetRequest),
    /// Save a translation: string id, locale, text.
    SetTranslation(String, String, String),
    /// List the project's locales.
    ListLocales,
    /// The command is done.
    Done,
    /// The command ends with this error.
    Fail(LocoError),
}

/// One step: an optional message, then the next call.
#[derive(Debug)]
pub struct Step {
    pub note: Option<Note>,
    pub call: Call,
}

/// A message, as text.
pub enum NoteView {
    Success(Seq<char>),
    Info(Seq<char>),
}

/// A call, with its text arguments as sequences of characters.
pub enum CallView {
    Create(CreateAssetRequest),
    SetTranslation(Seq<char>, Seq<char>, Seq<char>),
    ListLocales,
    Done,
    Fail(LocoError),
}

/// A step, as text.
pub struct StepView {
    pub note: Option<NoteView>,
    pub call: CallView,
}

impl View for Note {
    type V = NoteView;

    open spec fn view(&self) -> NoteView {
        match self {
            Note::Success(m) => NoteView::Success(m@),
            Note::Info(m) => NoteView::Info(m@),
        }
    }
}

impl View for Call {
    type V = CallView;

    open spec fn view(&self) -> CallView {
        match self {
            Call::Create(r) => CallView::Create(*r),
            Call::SetTranslation(id, l, t) => CallView::SetTranslation(id@, l@, t@),
            Call::ListLocales => CallView::ListLocales,
            Call::Done => CallView::Done,
            Call::Fail(e) => CallView::Fail(*e),
        }
    }
}

/// The view of an optional message.
pub open spec fn note_view(n: Option<Note>) -> Option<NoteView> {
    match n {
        Some(m) => Some(m@),
        None => None,
    }
}

impl View for Step {
    type V = StepView;

    open spec fn view(&self) -> StepView {
        StepView { note: note_view(self.note), call: self.call@ }
    }
}

/// The message shown once a string is created.
pub open spec fn created_note(id: Seq<char>) -> NoteView {
    NoteView::Success("Created string: "@ + id)
}

/// The message shown when `strings add --update` finds the string already there.
pub open spec fn exists_note(id: Seq<char>) -> NoteView {
    NoteView::Info("String "@ + id + " already exists, updating translations"@)
}

/// The message shown once a translation given to `strings add` is saved.
pub open spec fn pair_note(p: (String, String)) -> NoteView {
    NoteView::Success("  "@ + p.0@ + ": "@ + p.1@)
}

/// The call that saves a `(locale, text)` pair on string `id`.
pub open spec fn set_call(id: Seq<char>, p: (String, String)) -> CallView {
    CallView::SetTranslation(id, p.0@, p.1@)
}

/// Whether the next call ends the command.
pub open spec fn is_last(call: CallView) -> bool {
    call is Done || call is Fail
}

/// What `strings add` works from: the string's id, the translations in the
/// order given, the creation request and whether `--update` was given.
pub struct AddPlan {
    pub id: String,
    pub translations: Vec<(String, String)>,
    pub request: CreateAssetRequest,
    pub update: bool,
}

/// Where `strings add` stands: which call it awaits the outcome of.
#[derive(Debug, Clone, Copy)]
pub enum AddPhase {
    /// Nothing called yet.
    Start,
    /// Awaiting the creation of the string.
    Creating,
    /// Awaiting the saving of the translation at this index.
    Setting(usize),
    /// Awaiting the list of locales.
    Listing,
    /// Awaiting the saving of the source text on the first locale.
    SettingSource,
    /// Nothing more to call.
    Finished,
}

/// Whether `strings add` looks up the source locale after the translations:
/// with `--update` and a source text.
pub open spec fn add_wants_locales(plan: AddPlan) -> bool {
    plan.update && plan.request.text is Some
}

/// The source-locale translation `strings add --update` saves, given the
/// first locale of the project: the source text on that locale, unless a
/// translation for it was given.
pub open spec fn add_source_pair(plan: AddPlan, first: Option<String>) -> Option<(Seq<char>, Seq<char>)> {
    match plan.request.text {
        Some(t) => match first {
            Some(code) => if pair_locales(plan.translations@).contains(code@) {
                None
            } else {
                Some((code@, t@))
            },
            None => None,
        },
        None => None,
    }
}

/// From the translation at index `i` on: save it if there is one, else look
/// up the locales when the source text is to be set, else stop.
pub open spec fn add_next(plan: AddPlan, i: int, note: Option<NoteView>) -> (AddPhase, StepView) {
    if i < plan.translations@.len() {
        (
            AddPhase::Setting(i as usize),
            StepView { note, call: set_call(plan.id@, plan.translations@[i]) },
        )
    } else if add_wants_locales(plan) {
        (AddPhase::Listing, StepView { note, call: CallView::ListLocales })
    } else {
        (AddPhase::Finished, StepView { note, call: CallView::Done })
    }
}

/// The end of a command, with no message.
pub open spec fn add_end(call: CallView) -> (AddPhase, StepView) {
    (AddPhase::Finished, StepView { note: None, call })
}

/// One step of `strings add`. It creates the string; when the API refuses
/// because the string exists and `--update` was given, it says so and goes
/// on. It then saves each translation in order, reporting each, and under
/// `--update` with a source text it lists the locales and saves the source
/// text on the first one unless a translation for it was given. A failed
/// call ends the command with its error; an outcome that does not fit the
/// awaited call ends it.
pub open spec fn add_step_spec(plan: AddPlan, phase: AddPhase, event: ApiEvent) -> (AddPhase, StepView) {
    match phase {
        AddPhase::Start => (
            AddPhase::Creating,
            StepView { note: None, call: CallView::Create(plan.request) },
        ),
        AddPhase::Finished => add_end(CallView::Done),
        _ => match event {
            ApiEvent::Failed(e) => if phase is Creating && plan.update && is_conflict_error(e) {
                add_next(plan, 0, Some(exists_note(plan.id@)))
            } else {
                add_end(CallView::Fail(e))
            },
            ApiEvent::Created(aid) => if phase is Creating {
                add_next(plan, 0, Some(created_note(aid@)))
            } else {
                add_end(CallView::Done)
            },
            ApiEvent::TranslationSet => match phase {
                AddPhase::Setting(i) => if i < plan.translations@.len() {
                    add_next(plan, i + 1, Some(pair_note(plan.translations@[i as int])))
                } else {
                    add_end(CallView::Done)
                },
                _ => add_end(CallView::Done),
            },
            ApiEvent::Locales(first) => if phase is Listing {
                match add_source_pair(plan, first) {
                    Some((c, t)) => (
                        AddPhase::SettingSource,
                        StepView { note: None, call: CallView::SetTranslation(plan.id@, c, t) },
                    ),
                    None => add_end(CallView::Done),
                }
            } else {
                add_end(CallView::Done)
            },
            ApiEvent::Begin => add_end(CallView::Done),
        },
    }
}

/// A copy of an optional string.
fn copy_opt(o: &Option<String>) -> (res: Option<String>)
    ensures
        res == *o,
{
    match o {
        Some(s) => Some(s.clone()),
        None => None,
    }
}

/// A copy of a creation request.
pub(crate) fn copy_request(r: &CreateAssetRequest) -> (res: CreateAssetRequest)
    ensures
        res == *r,
{
    CreateAssetRequest {
        id: r.id.clone(),
        text: copy_opt(&r.text),
        context: copy_opt(&r.context),
        notes: copy_opt(&r.notes),
        asset_type: copy_opt(&r.asset_type),
    }
}

/// The call that saves the pair `p` on string `id`.
pub(crate) fn pair_call(id: &String, p: &(String, String)) -> (c: Call)
    ensures
        c@ == set_call(id@, *p),
{
    Call::SetTranslation(id.clone(), p.0.clone(), p.1.clone())
}

impl AddPlan {
    /// The plan of `strings add`: the string is created with the text of
    /// the first translation as source text.
    pub fn new(
        id: String,
        translations: Vec<(String, String)>,
        asset_type: Option<String>,
        context: Option<String>,
        notes: Option<String>,
        update: bool,
    ) -> (plan: AddPlan)
        ensures
            plan.id == id,
            plan.translations == translations,
            plan.update == update,
            plan.request.id@ == id@,
            translations@.len() == 0 ==> plan.request.text is None,
            translations@.len() > 0 ==> opt_view(plan.request.text) == Some(translations@[0].1@),
            plan.request.asset_type == asset_type,
            plan.request.context == context,
            plan.request.notes == notes,
    {
        let request = new_string_request(id.as_str(), &translations, asset_type, context, notes);
        AddPlan { id, translations, request, update }
    }
}

/// `add_next` on an executable plan.
fn add_next_step(plan: &AddPlan, i: usize, note: Option<Note>) -> (res: (AddPhase, Step))
    requires
        i <= plan.translations@.len(),
    ensures
        res.0 == add_next(*plan, i as int, note_view(note)).0,
        res.1@ == add_next(*plan, i as int, note_view(note)).1,
{
    if i < plan.translations.len() {
        (AddPhase::Setting(i), Step { note, call: pair_call(&plan.id, &plan.translations[i]) })
    } else if wants_source_locale(plan.update, &plan.request.text) {
        (AddPhase::Listing, Step { note, call: Call::ListLocales })
    } else {
        (AddPhase::Finished, Step { note, call: Call::Done })
    }
}

/// The end of `strings add`.
fn add_finish(call: Call) -> (res: (AddPhase, Step))
    ensures
        res.0 == add_end(call@).0,
        res.1@ == add_end(call@).1,
{
    (AddPhase::Finished, Step { note: None, call })
}

/// One step of `strings add`: the next phase and the step to perform.
pub fn add_step(plan: &AddPlan, phase: AddPhase, event: ApiEvent) -> (res: (AddPhase, Step))
    ensures
        res.0 == add_step_spec(*plan, phase, event).0,
        res.1@ == add_step_spec(*plan, phase, event).1,
{
    match phase {
        AddPhase::Start => (
            AddPhase::Creating,
            Step { note: None, call: Call::Create(copy_request(&plan.request)) },
        ),
        AddPhase::Finished => add_finish(Call::Done),
        _ => match event {
            ApiEvent::Failed(e) => {
                let creating = match phase {
                    AddPhase::Creating => true,
                    _ => false,
                };
                if creating && add_may_continue(&e, plan.update) {
                    let msg = concat3(
                        "String ",
                        plan.id.as_str(),
                        " already exists, updating translations",
                    );
                    add_next_step(plan, 0, Some(Note::Info(msg)))
                } else {
                    add_finish(Call::Fail(e))
                }
            },
            ApiEvent::Created(aid) => match phase {
                AddPhase::Creating => {
                    let msg = concat2("Created string: ", aid.as_str());
                    add_next_step(plan, 0, Some(Note::Success(msg)))
                },
                _ => add_finish(Call::Done),
            },
            ApiEvent::TranslationSet => match phase {
                AddPhase::Setting(i) => {
                    if i < plan.translations.len() {
                        let p = &plan.translations[i];
                        let msg = concat4("  ", p.0.as_str(), ": ", p.1.as_str());
                        add_next_step(plan, i + 1, Some(Note::Success(msg)))
                    } else {
                        add_finish(Call::Done)
                    }
                },
                _ => add_finish(Call::Done),
            },
            ApiEvent::Locales(first) => match phase {
                AddPhase::Listing => match &plan.request.text {
                    Some(t) => match source_locale_pair(t, opt_as_str(&first), &plan.translations) {
                        Some((c, x)) => (
                            AddPhase::SettingSource,
                            Step {
                                note: None,
                                call: Call::SetTranslation(plan.id.clone(), c, x),
                            },
                        ),
                        None => add_finish(Call::Done),
                    },
                    None => add_finish(Call::Done),
                },
                _ => add_finish(Call::Done),
            },
            ApiEvent::Begin => add_finish(Call::Done),
        },
    }
}

/// What `strings set` works from: the string's id, the translations in the
/// order given and whether `--create` was given.
pub struct SetPlan {
    pub id: String,
    pub translations: Vec<(String, String)>,
    pub create: bool,
}

/// Where `strings set` stands: which call it awaits the outcome of.
#[derive(Debug, Clone, Copy)]
pub enum SetPhase {
    /// Nothing called yet.
    Start,
    /// Awaiting the creation of the string.
    Creating,
    /// Awaiting the saving of the translation at this index.
    Setting(usize),
    /// Nothing more to call.
    Finished,
}

/// The request that creates a string with nothing but its id.
pub open spec fn bare_request(id: String) -> CreateAssetRequest {
    CreateAssetRequest { id, text: None, context: None, notes: None, asset_type: None }
}

/// From the translation at index `i` on: save it if there is one, else stop.
pub open spec fn set_next(plan: SetPlan, i: int, note: Option<NoteView>) -> (SetPhase, StepView) {
    if i < plan.translations@.len() {
        (
            SetPhase::Setting(i as usize),
            StepView { note, call: set_call(plan.id@, plan.translations@[i]) },
        )
    } else {
        (SetPhase::Finished, StepView { note, call: CallView::Done })
    }
}

/// The end of `strings set`, with no message.
pub open spec fn set_end(call: CallView) -> (SetPhase, StepView) {
    (SetPhase::Finished, StepView { note: None, call })
}

/// One step of `strings set`. With `--create` it first creates the string
/// by its id alone, reporting it; a refusal because the string exists is
/// passed over silently. It then saves each translation in order. A failed
/// call ends the command with its error; an outcome that does not fit the
/// awaited call ends it.
pub open spec fn set_step_spec(plan: SetPlan, phase: SetPhase, event: ApiEvent) -> (SetPhase, StepView) {
    match phase {
        SetPhase::Start => if plan.create {
            (
                SetPhase::Creating,
                StepView { note: None, call: CallView::Create(bare_request(plan.id)) },
            )
        } else {
            set_next(plan, 0, None)
        },
        SetPhase::Finished => set_end(CallView::Done),
        _ => match event {
            ApiEvent::Failed(e) => if phase is Creating && is_conflict_error(e) {
                set_next(plan, 0, None)
            } else {
                set_end(CallView::Fail(e))
            },
            ApiEvent::Created(_) => if phase is Creating {
                set_next(plan, 0, Some(created_note(plan.id@)))
            } else {
                set_end(CallView::Done)
            },
            ApiEvent::TranslationSet => match phase {
                SetPhase::Setting(i) => if i < plan.translations@.len() {
                    set_next(plan, i + 1, None)
                } else {
                    set_end(CallView::Done)
                },
                _ => set_end(CallView::Done),
            },
            _ => set_end(CallView::Done),
        },
    }
}

/// `set_next` on an executable plan.
fn set_next_step(plan: &SetPlan, i: usize, note: Option<Note>) -> (res: (SetPhase, Step))
    requires
        i <= plan.translations@.len(),
    ensures
        res.0 == set_next(*plan, i as int, note_view(note)).0,
        res.1@ == set_next(*plan, i as int, note_view(note)).1,
{
    if i < plan.translations.len() {
        (SetPhase::Setting(i), Step { note, call: pair_call(&plan.id, &plan.translations[i]) })
    } else {
        (SetPhase::Finished, Step { note, call: Call::Done })
    }
}

/// The end of `strings set`.
fn set_finish(call: Call) -> (res: (SetPhase, Step))
    ensures
        res.0 == set_end(call@).0,
        res.1@ == set_end(call@).1,
{
    (SetPhase::Finished, Step { note: None, call })
}

/// One step of `strings set`: the next phase and the step to perform.
pub fn set_step(plan: &SetPlan, phase: SetPhase, event: ApiEvent) -> (res: (SetPhase, Step))
    ensures
        res.0 == set_step_spec(*plan, phase, event).0,
        res.1@ == set_step_spec(*plan, phase, event).1,
{
    match phase {
        SetPhase::Start => {
            if plan.create {
                let req = CreateAssetRequest {
                    id: plan.id.clone(),
                    text: None,
                    context: None,
                    notes: None,
                    asset_type: None,
                };
                (SetPhase::Creating, Step { note: None, call: Call::Create(req) })
            } else {
                set_next_step(plan, 0, None)
            }
        },
        SetPhase::Finished => set_finish(Call::Done),
        _ => match event {
            ApiEvent::Failed(e) => {
                let creating = match phase {
                    SetPhase::Creating => true,
                    _ => false,
                };
                if creating && is_conflict(&e) {
                    set_next_step(plan, 0, None)
                } else {
                    set_finish(Call::Fail(e))
                }
            },
            ApiEvent::Created(_) => match phase {
                SetPhase::Creating => {
                    let msg = concat2("Created string: ", plan.id.as_str());
                    set_next_step(plan, 0, Some(Note::Success(msg)))
                },
                _ => set_finish(Call::Done),
            },
            ApiEvent::TranslationSet => match phase {
                SetPhase::Setting(i) => {
                    if i < plan.translations.len() {
                        set_next_step(plan, i + 1, None)
                    } else {
                        set_finish(Call::Done)
                    }
                },
                _ => set_finish(Call::Done),
            },
            _ => set_finish(Call::Done),
        },
    }
}

/// The line `strings set` prints for a saved translation.
pub open spec fn set_summary_line(id: Seq<char>, p: (String, String)) -> Seq<char> {
    id + "/"@ + p.0@ + ": "@ + p.1@
}

/// The lines `strings set` prints once every translation is saved: one
/// `<id>/<locale>: <text>` line per translation, in order.
pub fn set_summary_lines(id: &str, translations: &Vec<(String, String)>) -> (lines: Vec<String>)
    ensures
        strings_view(lines@) == translations@.map_values(
            |p: (String, String)| set_summary_line(id@, p),
        ),
{
    let n = translations.len();
    let mut lines: Vec<String> = Vec::new();
    let mut i: usize = 0;
    while i < n
        invariant
            n == translations@.len(),
            i <= n,
            strings_view(lines@) == translations@.take(i as int).map_values(
                |p: (String, String)| set_summary_line(id@, p),
            ),
        decreases n - i,
    {
        let p = &translations[i];
        let line = concat4(id, "/", p.0.as_str(), ": ");
        let mut line = line;
        line.append(p.1.as_str());
        let ghost before = strings_view(lines@);
        lines.push(line);
        assert(translations@.take(i + 1).map_values(|p: (String, String)| set_summary_line(id@, p))
            =~= translations@.take(i as int).map_values(
            |p: (String, String)| set_summary_line(id@, p),
        ).push(set_summary_line(id@, translations@[i as int])));
        assert(strings_view(lines@) =~= before.push(line@));
        i = i + 1;
    }
    assert(translations@.take(n as int) =~= translations@);
    lines
}

/// The outcome of a call that succeeded: the string created under the id
/// `aid`, the translation saved, the locales listed with `first` first.
pub open spec fn success_reply(call: CallView, aid: String, first: Option<String>) -> ApiEvent {
    match call {
        CallView::Create(_) => ApiEvent::Created(aid),
        CallView::ListLocales => ApiEvent::Locales(first),
        _ => ApiEvent::TranslationSet,
    }
}

/// The calls `strings add` names, at most `fuel` of them, from `phase` and
/// `event` on, when every call succeeds.
pub open spec fn add_run(
    plan: AddPlan,
    phase: AddPhase,
    event: ApiEvent,
    aid: String,
    first: Option<String>,
    fuel: nat,
) -> Seq<CallView>
    decreases fuel,
{
    if fuel == 0 {
        Seq::empty()
    } else {
        let (next, out) = add_step_spec(plan, phase, event);
        if is_last(out.call) {
            seq![out.call]
        } else {
            seq![out.call] + add_run(
                plan,
                next,
                success_reply(out.call, aid, first),
                aid,
                first,
                (fuel - 1) as nat,
            )
        }
    }
}

/// The calls `strings set` names, at most `fuel` of them, from `phase` and
/// `event` on, when every call succeeds.
pub open spec fn set_run(plan: SetPlan, phase: SetPhase, event: ApiEvent, aid: String, fuel: nat) -> Seq<
    CallView,
>
    decreases fuel,
{
    if fuel == 0 {
        Seq::empty()
    } else {
        let (next, out) = set_step_spec(plan, phase, event);
        if is_last(out.call) {
            seq![out.call]
        } else {
            seq![out.call] + set_run(
                plan,
                next,
                success_reply(out.call, aid, None),
                aid,
                (fuel - 1) as nat,
            )
        }
    }
}

/// The calls that save each pair on string `id`, in order.
pub open spec fn set_calls(id: Seq<char>, pairs: Seq<(String, String)>) -> Seq<CallView> {
    pairs.map_values(|p: (String, String)| CallView::SetTranslation(id, p.0@, p.1@))
}

/// The call that saves the source text on the first locale, if it is made.
/// That is: the source text saved on the project's first locale, unless
/// one of the given translations is for that locale.
pub open spec fn source_calls(plan: AddPlan, first: Option<String>) -> Seq<CallView> {
    match (plan.request.text, first) {
        (Some(t), Some(code)) => if exists|j: int|
            0 <= j < plan.translations@.len() && #[trigger] plan.translations@[j].0@ == code@ {
            Seq::empty()
        } else {
            seq![CallView::SetTranslation(plan.id@, code@, t@)]
        },
        _ => Seq::empty(),
    }
}

/// The calls made after the translations: under `--update` with a source
/// text, the list of locales and then the source-locale save.
pub open spec fn lookup_calls(plan: AddPlan, first: Option<String>) -> Seq<CallView> {
    if plan.update && plan.request.text is Some {
        seq![CallView::ListLocales] + source_calls(plan, first)
    } else {
        Seq::empty()
    }
}

/// Every call of a successful `strings add`: create the string, save each
/// translation in order, then the source-locale lookup, then the end.
pub open spec fn add_calls(plan: AddPlan, first: Option<String>) -> Seq<CallView> {
    seq![CallView::Create(plan.request)] + set_calls(plan.id@, plan.translations@) + lookup_calls(
        plan,
        first,
    ) + seq![CallView::Done]
}

/// Every call of a successful `strings set`: with `--create` the creation
/// of the string by its id, then each translation in order, then the end.
pub open spec fn set_plan_calls(plan: SetPlan) -> Seq<CallView> {
    (if plan.create {
        seq![
            CallView::Create(
                CreateAssetRequest {
                    id: plan.id,
                    text: None,
                    context: None,
                    notes: None,
                    asset_type: None,
                },
            ),
        ]
    } else {
        Seq::empty()
    }) + set_calls(plan.id@, plan.translations@) + seq![CallView::Done]
}

proof fn lemma_add_run_source(plan: AddPlan, aid: String, first: Option<String>, fuel: nat)
    requires
        add_wants_locales(plan),
        fuel >= 2,
    ensures
        add_run(plan, AddPhase::Listing, ApiEvent::Locales(first), aid, first, fuel) == source_calls(
            plan,
            first,
        ) + seq![CallView::Done],
{
    let r = add_run(plan, AddPhase::Listing, ApiEvent::Locales(first), aid, first, fuel);
    if let Some(code) = first {
        let pl = pair_locales(plan.translations@);
        if pl.contains(code@) {
            let j = choose|j: int| 0 <= j < pl.len() && pl[j] == code@;
            assert(plan.translations@[j].0@ == code@);
        }
        if exists|j: int| 0 <= j < plan.translations@.len() && #[trigger] plan.translations@[j].0@
            == code@ {
            let j = choose|j: int|
                0 <= j < plan.translations@.len() && #[trigger] plan.translations@[j].0@ == code@;
            assert(pl[j] == code@);
        }
    }
    match add_source_pair(plan, first) {
        Some((c, t)) => {
            let tail = add_run(
                plan,
                AddPhase::SettingSource,
                ApiEvent::TranslationSet,
                aid,
                first,
                (fuel - 1) as nat,
            );
            assert(tail == seq![CallView::Done]);
            assert(r =~= source_calls(plan, first) + seq![CallView::Done]);
        },
        None => {
            assert(r =~= source_calls(plan, first) + seq![CallView::Done]);
        },
    }
}

proof fn lemma_add_run_pairs(plan: AddPlan, i: int, aid: String, first: Option<String>, fuel: nat)
    requires
        0 <= i < plan.translations@.len(),
        plan.translations@.len() <= usize::MAX,
        fuel >= plan.translations@.len() - i + 2,
    ensures
        add_run(plan, AddPhase::Setting(i as usize), ApiEvent::TranslationSet, aid, first, fuel)
            == set_calls(plan.id@, plan.translations@.subrange(i + 1, plan.translations@.len() as int))
            + lookup_calls(plan, first) + seq![CallView::Done],
    decreases plan.translations@.len() - i,
{
    let n = plan.translations@.len() as int;
    let id = plan.id@;
    let r = add_run(plan, AddPhase::Setting(i as usize), ApiEvent::TranslationSet, aid, first, fuel);
    if i + 1 < n {
        lemma_add_run_pairs(plan, i + 1, aid, first, (fuel - 1) as nat);
        assert(set_calls(id, plan.translations@.subrange(i + 1, n)) =~= seq![
            set_call(id, plan.translations@[i + 1]),
        ] + set_calls(id, plan.translations@.subrange(i + 2, n)));
        assert(r =~= set_calls(id, plan.translations@.subrange(i + 1, n)) + lookup_calls(plan, first)
            + seq![CallView::Done]);
    } else {
        assert(set_calls(id, plan.translations@.subrange(i + 1, n)) =~= Seq::<CallView>::empty());
        if add_wants_locales(plan) {
            lemma_add_run_source(plan, aid, first, (fuel - 1) as nat);
            assert(r =~= lookup_calls(plan, first) + seq![CallView::Done]);
        } else {
            assert(r =~= seq![CallView::Done]);
        }
        assert(r =~= set_calls(id, plan.translations@.subrange(i + 1, n)) + lookup_calls(plan, first)
            + seq![CallView::Done]);
    }
}

/// When every call succeeds, `strings add` creates the string with its
/// request, saves each given translation in order, then, under `--update`
/// with a source text, lists the locales and saves the source text on the
/// first locale unless a translation for it was given, and ends.
pub proof fn law_add_call_order(plan: AddPlan, aid: String, first: Option<String>)
    ensures
        add_run(plan, AddPhase::Start, ApiEvent::Begin, aid, first, plan.translations@.len() + 4)
            == add_calls(plan, first),
{
    let n = plan.translations@.len();
    assert(plan.translations.len() == n);
    let id = plan.id@;
    let fuel = n + 4;
    let r = add_run(plan, AddPhase::Start, ApiEvent::Begin, aid, first, fuel);
    let after = add_run(plan, AddPhase::Creating, ApiEvent::Created(aid), aid, first, (fuel - 1) as nat);
    assert(r == seq![CallView::Create(plan.request)] + after);
    if n > 0 {
        let rest = add_run(
            plan,
            AddPhase::Setting(0),
            ApiEvent::TranslationSet,
            aid,
            first,
            (fuel - 2) as nat,
        );
        assert(after == seq![set_call(id, plan.translations@[0])] + rest);
        lemma_add_run_pairs(plan, 0, aid, first, (fuel - 2) as nat);
        assert(set_calls(id, plan.translations@) =~= seq![set_call(id, plan.translations@[0])]
            + set_calls(id, plan.translations@.subrange(1, n as int)));
        assert(after =~= set_calls(id, plan.translations@) + lookup_calls(plan, first) + seq![
            CallView::Done,
        ]);
    } else {
        assert(set_calls(id, plan.translations@) =~= Seq::<CallView>::empty());
        if add_wants_locales(plan) {
            lemma_add_run_source(plan, aid, first, (fuel - 2) as nat);
            assert(after =~= lookup_calls(plan, first) + seq![CallView::Done]);
        } else {
            assert(after =~= seq![CallView::Done]);
        }
        assert(after =~= set_calls(id, plan.translations@) + lookup_calls(plan, first) + seq![
            CallView::Done,
        ]);
    }
    assert(r =~= add_calls(plan, first));
}

proof fn lemma_set_run_pairs(plan: SetPlan, i: int, aid: String, fuel: nat)
    requires
        0 <= i < plan.translations@.len(),
        plan.translations@.len() <= usize::MAX,
        fuel >= plan.translations@.len() - i,
    ensures
        set_run(plan, SetPhase::Setting(i as usize), ApiEvent::TranslationSet, aid, fuel) == set_calls(
            plan.id@,
            plan.translations@.subrange(i + 1, plan.translations@.len() as int),
        ) + seq![CallView::Done],
    decreases plan.translations@.len() - i,
{
    let n = plan.translations@.len() as int;
    let id = plan.id@;
    let r = set_run(plan, SetPhase::Setting(i as usize), ApiEvent::TranslationSet, aid, fuel);
    if i + 1 < n {
        lemma_set_run_pairs(plan, i + 1, aid, (fuel - 1) as nat);
        assert(set_calls(id, plan.translations@.subrange(i + 1, n)) =~= seq![
            set_call(id, plan.translations@[i + 1]),
        ] + set_calls(id, plan.translations@.subrange(i + 2, n)));
    } else {
        assert(set_calls(id, plan.translations@.subrange(i + 1, n)) =~= Seq::<CallView>::empty());
    }
    assert(r =~= set_calls(id, plan.translations@.subrange(i + 1, n)) + seq![CallView::Done]);
}

/// When every call succeeds, `strings set` creates the string by its id
/// only when `--create` was given, saves each given translation in order,
/// and ends.
pub proof fn law_set_call_order(plan: SetPlan, aid: String)
    ensures
        set_run(plan, SetPhase::Start, ApiEvent::Begin, aid, plan.translations@.len() + 2)
            == set_plan_calls(plan),
{
    let n = plan.translations@.len();
    assert(plan.translations.len() == n);
    let id = plan.id@;
    let fuel = n + 2;
    let r = set_run(plan, SetPhase::Start, ApiEvent::Begin, aid, fuel);
    let head: Seq<CallView> = if plan.create {
        seq![CallView::Create(bare_request(plan.id))]
    } else {
        Seq::empty()
    };
    let k: nat = if plan.create {
        1
    } else {
        0
    };
    let after = if plan.create {
        set_run(plan, SetPhase::Creating, ApiEvent::Created(aid), aid, (fuel - 1) as nat)
    } else {
        r
    };
    assert(r == head + after);
    if n > 0 {
        let rest = set_run(
            plan,
            SetPhase::Setting(0),
            ApiEvent::TranslationSet,
            aid,
            (fuel - k - 1) as nat,
        );
        assert(after == seq![set_call(id, plan.translations@[0])] + rest);
        lemma_set_run_pairs(plan, 0, aid, (fuel - k - 1) as nat);
        assert(set_calls(id, plan.translations@) =~= seq![set_call(id, plan.translations@[0])]
            + set_calls(id, plan.translations@.subrange(1, n as int)));
        assert(after =~= set_calls(id, plan.translations@) + seq![CallView::Done]);
    } else {
        assert(set_calls(id, plan.translations@) =~= Seq::<CallView>::empty());
        assert(after =~= set_calls(id, plan.translations@) + seq![CallView::Done]);
    }
    assert(r =~= set_plan_calls(plan));
}

/// In `strings add`, a failed creation lets the command go on to the
/// translations, with a message, exactly when `--update` was given and the
/// string already exists; any other failed call ends the command with its
/// error.
pub proof fn law_add_failure(plan: AddPlan, phase: AddPhase, e: LocoError)
    requires
        !(phase is Start),
        !(phase is Finished),
    ensures
        add_step_spec(plan, phase, ApiEvent::Failed(e)) == if phase is Creating && plan.update
            && is_conflict_error(e) {
            add_next(plan, 0, Some(exists_note(plan.id@)))
        } else {
            add_end(CallView::Fail(e))
        },
        (add_step_spec(plan, phase, ApiEvent::Failed(e)).1.call is Fail) <==> !(phase is Creating
            && plan.update && is_conflict_error(e)),
{
}

/// In `strings set`, a failed creation because the string already exists
/// is passed over silently and the translations are saved; any other failed
/// call ends the command with its error.
pub proof fn law_set_failure(plan: SetPlan, phase: SetPhase, e: LocoError)
    requires
        !(phase is Start),
        !(phase is Finished),
    ensures
        set_step_spec(plan, phase, ApiEvent::Failed(e)) == if phase is Creating && is_conflict_error(
            e,
        ) {
            set_next(plan, 0, None)
        } else {
            set_end(CallView::Fail(e))
        },
        (set_step_spec(plan, phase, ApiEvent::Failed(e)).1.call is Fail) <==> !(phase is Creating
            && is_conflict_error(e)),
{
}

} // verus!
