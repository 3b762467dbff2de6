//! `assets`: the asset list and the calls behind `assets create`.
use crate::commands::string_flow::{
    copy_request, pair_call, pair_note, set_call, success_reply, is_last, ApiEvent, Call, CallView,
    Note, NoteView, Step, StepView, note_view,
};
use crate::commands::strings::{add_may_continue, asset_list_line};
use crate::error::{is_conflict_error, LocoError};
use crate::models::{Asset, CreateAssetRequest};
use crate::text::{concat2, concat3, decimal, decimal_string, strings_view};
use vstd::prelude::*;

verus! {

/// The lines of `assets list`: a count, then one line per asset.
pub open spec fn asset_listing(assets: Seq<Asset>) -> Seq<Seq<char>> {
    seq![decimal(assets.len()) + " asset(s):"@] + assets.map_values(|a: Asset| asset_list_line(a))
}

/// The lines printed by `assets list`.
pub fn asset_list_lines(assets: &Vec<Asset>) -> (lines: Vec<String>)
    ensures
        strings_view(lines@) == asset_listing(assets@),
{
    let n = assets.len();
    let mut lines: Vec<String> = Vec::new();
    lines.push(concat2(decimal_string(n as u64).as_str(), " asset(s):"));
    let mut i: usize = 0;
    while i < n
        invariant
            n == assets@.len(),
            i <= n,
            strings_view(lines@) == seq![decimal(n as nat) + " asset(s):"@] + assets@.take(
                i as int,
            ).map_values(|a: Asset| asset_list_line(a)),
        decreases n - i,
    {
        let a = &assets[i];
        let mut line = concat3("  ", a.id.as_str(), " [");
        match &a.asset_type {
            Some(t) => line.append(t.as_str()),
            None => line.append("unknown"),
        }
        line.append("]");
        let ghost before = strings_view(lines@);
        lines.push(line);
        assert(assets@.take(i + 1).map_values(|a: Asset| asset_list_line(a)) =~= assets@.take(
            i as int,
        ).map_values(|a: Asset| asset_list_line(a)).push(asset_list_line(assets@[i as int])));
        assert(strings_view(lines@) =~= before.push(line@));
        i = i + 1;
    }
    assert(assets@.take(n as int) =~= assets@);
    lines
}

/// What `assets create` works from: the creation request, the translations
/// to save on the new asset in the order given, and whether `--update` was
/// given.
pub struct CreatePlan {
    pub request: CreateAssetRequest,
    pub translations: Vec<(String, String)>,
    pub update: bool,
}

/// Where `assets create` stands: which call it awaits the outcome of.
#[derive(Debug)]
pub enum CreatePhase {
    /// Nothing called yet.
    Start,
    /// Awaiting the creation of the asset.
    Creating,
    /// Awaiting the saving of the translation at this index on the asset
    /// with this id.
    Setting(String, usize),
    /// Nothing more to call.
    Finished,
}

/// The message shown once the asset is created.
pub open spec fn asset_created_note(id: Seq<char>) -> NoteView {
    NoteView::Success("Created asset: "@ + id)
}

/// The message shown when `assets create --update` finds the asset already there.
pub open spec fn asset_exists_note(id: Seq<char>) -> NoteView {
    NoteView::Info("Asset "@ + id + " already exists, updating translations"@)
}

/// From the translation at index `i` on, on the asset `aid`: save it if
/// there is one, else stop.
pub open spec fn create_next(plan: CreatePlan, aid: String, i: int, note: Option<NoteView>) -> (
    CreatePhase,
    StepView,
) {
    if i < plan.translations@.len() {
        (
            CreatePhase::Setting(aid, i as usize),
            StepView { note, call: set_call(aid@, plan.translations@[i]) },
        )
    } else {
        (CreatePhase::Finished, StepView { note, call: CallView::Done })
    }
}

/// The end of `assets create`, with no message.
pub open spec fn create_end(call: CallView) -> (CreatePhase, StepView) {
    (CreatePhase::Finished, StepView { note: None, call })
}

/// One step of `assets create`. It creates the asset and reports it under
/// the id the API gave; when the API refuses because the asset exists and
/// `--update` was given, it says so and goes on with the requested id. It
/// then saves each translation on that asset in order, reporting each. A
/// failed call ends the command with its error; an outcome that does not
/// fit the awaited call ends it.
pub open spec fn create_step_spec(plan: CreatePlan, phase: CreatePhase, event: ApiEvent) -> (
    CreatePhase,
    StepView,
) {
    match phase {
        CreatePhase::Start => (
            CreatePhase::Creating,
            StepView { note: None, call: CallView::Create(plan.request) },
        ),
        CreatePhase::Creating => match event {
            ApiEvent::Created(aid) => create_next(plan, aid, 0, Some(asset_created_note(aid@))),
            ApiEvent::Failed(e) => if plan.update && is_conflict_error(e) {
                create_next(plan, plan.request.id, 0, Some(asset_exists_note(plan.request.id@)))
            } else {
                create_end(CallView::Fail(e))
            },
            _ => create_end(CallView::Done),
        },
        CreatePhase::Setting(aid, i) => match event {
            ApiEvent::TranslationSet => if i < plan.translations@.len() {
                create_next(plan, aid, i + 1, Some(pair_note(plan.translations@[i as int])))
            } else {
                create_end(CallView::Done)
            },
            ApiEvent::Failed(e) => create_end(CallView::Fail(e)),
            _ => create_end(CallView::Done),
        },
        CreatePhase::Finished => create_end(CallView::Done),
    }
}

/// `create_next` on an executable plan.
fn create_next_step(plan: &CreatePlan, aid: String, i: usize, note: Option<Note>) -> (res: (
    CreatePhase,
    Step,
))
    requires
        i <= plan.translations@.len(),
    ensures
        res.0 == create_next(*plan, aid, i as int, note_view(note)).0,
        res.1@ == create_next(*plan, aid, i as int, note_view(note)).1,
{
    if i < plan.translations.len() {
        let call = pair_call(&aid, &plan.translations[i]);
        (CreatePhase::Setting(aid, i), Step { note, call })
    } else {
        (CreatePhase::Finished, Step { note, call: Call::Done })
    }
}

/// The end of `assets create`.
fn create_finish(call: Call) -> (res: (CreatePhase, Step))
    ensures
        res.0 == create_end(call@).0,
        res.1@ == create_end(call@).1,
{
    (CreatePhase::Finished, Step { note: None, call })
}

/// One step of `assets create`: the next phase and the step to perform.
pub fn create_step(plan: &CreatePlan, phase: CreatePhase, event: ApiEvent) -> (res: (
    CreatePhase,
    Step,
))
    ensures
        res.0 == create_step_spec(*plan, phase, event).0,
        res.1@ == create_step_spec(*plan, phase, event).1,
{
    match phase {
        CreatePhase::Start => (
            CreatePhase::Creating,
            Step { note: None, call: Call::Create(copy_request(&plan.request)) },
        ),
        CreatePhase::Creating => match event {
            ApiEvent::Created(aid) => {
                let msg = concat2("Created asset: ", aid.as_str());
                create_next_step(plan, aid, 0, Some(Note::Success(msg)))
            },
            ApiEvent::Failed(e) => {
                if add_may_continue(&e, plan.update) {
                    let id = plan.request.id.clone();
                    let msg = concat3(
                        "Asset ",
                        id.as_str(),
                        " already exists, updating translations",
                    );
                    create_next_step(plan, id, 0, Some(Note::Info(msg)))
                } else {
                    create_finish(Call::Fail(e))
                }
            },
            _ => create_finish(Call::Done),
        },
        CreatePhase::Setting(aid, i) => match event {
            ApiEvent::TranslationSet => {
                if i < plan.translations.len() {
                    let p = &plan.translations[i];
                    let mut msg = concat3("  ", p.0.as_str(), ": ");
                    msg.append(p.1.as_str());
                    create_next_step(plan, aid, i + 1, Some(Note::Success(msg)))
                } else {
                    create_finish(Call::Done)
                }
            },
            ApiEvent::Failed(e) => create_finish(Call::Fail(e)),
            _ => create_finish(Call::Done),
        },
        CreatePhase::Finished => create_finish(Call::Done),
    }
}

/// The calls `assets create` names, at most `fuel` of them, from `phase`
/// and `event` on, when every call succeeds and the API gives the new asset
/// the id `aid`.
pub open spec fn create_run(plan: CreatePlan, phase: CreatePhase, event: ApiEvent, aid: String, fuel: nat) -> Seq<
    CallView,
>
    decreases fuel,
{
    if fuel == 0 {
        Seq::empty()
    } else {
        let (next, out) = create_step_spec(plan, phase, event);
        if is_last(out.call) {
            seq![out.call]
        } else {
            seq![out.call] + create_run(
                plan,
                next,
                success_reply(out.call, aid, None),
                aid,
                (fuel - 1) as nat,
            )
        }
    }
}

/// Every call of a successful `assets create`: create the asset, save each
/// translation on the asset under the id the API gave, in order, then the end.
pub open spec fn create_calls(plan: CreatePlan, aid: String) -> Seq<CallView> {
    seq![CallView::Create(plan.request)] + plan.translations@.map_values(
        |p: (String, String)| CallView::SetTranslation(aid@, p.0@, p.1@),
    ) + seq![CallView::Done]
}

proof fn lemma_create_run_pairs(plan: CreatePlan, i: int, aid: String, fuel: nat)
    requires
        0 <= i < plan.translations@.len(),
        plan.translations@.len() <= usize::MAX,
        fuel >= plan.translations@.len() - i,
    ensures
        create_run(plan, CreatePhase::Setting(aid, i as usize), ApiEvent::TranslationSet, aid, fuel)
            == plan.translations@.subrange(i + 1, plan.translations@.len() as int).map_values(
            |p: (String, String)| set_call(aid@, p),
        ) + seq![CallView::Done],
    decreases plan.translations@.len() - i,
{
    let n = plan.translations@.len() as int;
    let r = create_run(plan, CreatePhase::Setting(aid, i as usize), ApiEvent::TranslationSet, aid, fuel);
    if i + 1 < n {
        lemma_create_run_pairs(plan, i + 1, aid, (fuel - 1) as nat);
        assert(plan.translations@.subrange(i + 1, n).map_values(|p: (String, String)| set_call(aid@, p))
            =~= seq![set_call(aid@, plan.translations@[i + 1])] + plan.translations@.subrange(
            i + 2,
            n,
        ).map_values(|p: (String, String)| set_call(aid@, p)));
    } else {
        assert(plan.translations@.subrange(i + 1, n).map_values(|p: (String, String)| set_call(aid@, p))
            =~= Seq::<CallView>::empty());
    }
    assert(r =~= plan.translations@.subrange(i + 1, n).map_values(
        |p: (String, String)| set_call(aid@, p),
    ) + seq![CallView::Done]);
}

/// When every call succeeds, `assets create` creates the asset with its
/// request, saves each given translation in order on the asset under the id
/// the API returned, and ends.
pub proof fn law_create_call_order(plan: CreatePlan, aid: String)
    ensures
        create_run(plan, CreatePhase::Start, ApiEvent::Begin, aid, plan.translations@.len() + 2)
            == create_calls(plan, aid),
{
    let n = plan.translations@.len();
    assert(plan.translations.len() == n);
    let fuel = n + 2;
    let r = create_run(plan, CreatePhase::Start, ApiEvent::Begin, aid, fuel);
    let after = create_run(plan, CreatePhase::Creating, ApiEvent::Created(aid), aid, (fuel - 1) as nat);
    assert(r == seq![CallView::Create(plan.request)] + after);
    let sets = plan.translations@.map_values(|p: (String, String)| set_call(aid@, p));
    if n > 0 {
        let rest = create_run(
            plan,
            CreatePhase::Setting(aid, 0),
            ApiEvent::TranslationSet,
            aid,
            (fuel - 2) as nat,
        );
        assert(after == seq![set_call(aid@, plan.translations@[0])] + rest);
        lemma_create_run_pairs(plan, 0, aid, (fuel - 2) as nat);
        assert(sets =~= seq![set_call(aid@, plan.translations@[0])] + plan.translations@.subrange(
            1,
            n as int,
        ).map_values(|p: (String, String)| set_call(aid@, p)));
        assert(after =~= sets + seq![CallView::Done]);
    } else {
        assert(sets =~= Seq::<CallView>::empty());
        assert(after =~= sets + seq![CallView::Done]);
    }
    assert(r =~= create_calls(plan, aid));
}

/// In `assets create`, a failed creation lets the command go on, with a
/// message, to save the translations on the requested id exactly when
/// `--update` was given and the asset already exists; any other failed call
/// ends the command with its error.
pub proof fn law_create_failure(plan: CreatePlan, phase: CreatePhase, e: LocoError)
    requires
        !(phase is Start),
        !(phase is Finished),
    ensures
        create_step_spec(plan, phase, ApiEvent::Failed(e)) == if phase is Creating && plan.update
            && is_conflict_error(e) {
            create_next(plan, plan.request.id, 0, Some(asset_exists_note(plan.request.id@)))
        } else {
            create_end(CallView::Fail(e))
        },
        (create_step_spec(plan, phase, ApiEvent::Failed(e)).1.call is Fail) <==> !(phase is Creating
            && plan.update && is_conflict_error(e)),
{
}

} // verus!
