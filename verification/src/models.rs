//! Data exchanged with the Loco API.
use crate::text::{
    lemma_param_values_concat, lemma_param_values_opt_pair, opt_as_str,
    opt_pair, opt_set, opt_view, owned, pairs_view, param_values, push_opt_pair, push_pair,
};
use vstd::prelude::*;

verus! {

/// Answer of `GET /auth/verify`.
#[derive(Debug)]
pub struct AuthResponse {
    pub user: AuthUser,
    pub project: AuthProject,
}

/// The user that owns an API key.
#[derive(Debug)]
pub struct AuthUser {
    pub id: u64,
    pub name: String,
    pub email: String,
}

/// The project that an API key belongs to.
#[derive(Debug)]
pub struct AuthProject {
    pub id: u64,
    pub name: String,
    pub url: String,
}

/// A project locale.
#[derive(Debug)]
pub struct Locale {
    pub code: String,
    pub name: String,
    pub plurals: Option<PluralRules>,
    pub progress: Option<LocaleProgress>,
}

/// Plural rules of a locale.
#[derive(Debug)]
pub struct PluralRules {
    pub length: u32,
    pub equation: String,
    pub forms: Vec<String>,
}

/// Translation counters of a locale. The API may send the counters under
/// either of two names (`num-translated` or `translated`, and so on).
#[derive(Debug)]
pub struct LocaleProgress {
    pub num_translated: Option<u32>,
    pub num_untranslated: Option<u32>,
    pub num_approved: Option<u32>,
    pub num_pending: Option<u32>,
    pub translated: Option<u32>,
    pub untranslated: Option<u32>,
    pub flagged: Option<u32>,
}

/// A translatable string ("asset").
#[derive(Debug)]
pub struct Asset {
    pub id: String,
    pub asset_type: Option<String>,
    pub context: String,
    pub notes: String,
    pub tags: Vec<String>,
    pub progress: Option<AssetProgress>,
}

/// Translation counters of an asset.
#[derive(Debug)]
pub struct AssetProgress {
    pub num_translated: Option<u32>,
    pub num_locales: Option<u32>,
}

/// Fields sent to create an asset; absent fields are not sent.
#[derive(Debug)]
pub struct CreateAssetRequest {
    pub id: String,
    pub text: Option<String>,
    pub context: Option<String>,
    pub notes: Option<String>,
    pub asset_type: Option<String>,
}

/// One translation of an asset into one locale.
#[derive(Debug)]
pub struct Translation {
    pub id: String,
    pub translation_type: Option<String>,
    pub translated: bool,
    pub flagged: Option<String>,
    pub status: Option<String>,
    pub translation: String,
    pub revision: Option<u32>,
    pub modified: Option<String>,
    /// Present in list answers, absent in single-translation answers.
    pub locale: Option<TranslationLocale>,
}

/// Locale named inside a translation.
#[derive(Debug)]
pub struct TranslationLocale {
    pub code: String,
    pub name: String,
}

/// Answer of an import.
#[derive(Debug)]
pub struct ImportResult {
    pub message: String,
    pub status: Option<u32>,
}

/// Progress of an asynchronous import.
#[derive(Debug)]
pub struct ImportProgress {
    pub progress: u32,
    pub success: Option<String>,
    pub error: Option<String>,
}

/// A tag.
#[derive(Debug)]
pub struct Tag {
    pub name: String,
}

/// Error body that the API sends with unsuccessful answers.
#[derive(Debug)]
pub struct ApiError {
    pub status: u16,
    pub error: String,
}

/// The raw value of a translation's `flagged` field: the API sends `false`
/// when unflagged, or a string such as `"fuzzy"` when flagged.
#[derive(Debug)]
pub enum FlaggedValue {
    Bool(bool),
    Text(String),
    Null,
}

/// The flag that a raw `flagged` value stands for.
pub open spec fn flag_of(v: FlaggedValue) -> Option<Seq<char>> {
    match v {
        FlaggedValue::Bool(b) => if b {
            Some("flagged"@)
        } else {
            None
        },
        FlaggedValue::Text(s) => if s@.len() == 0 {
            None
        } else {
            Some(s@)
        },
        FlaggedValue::Null => None,
    }
}

/// Reads the flag of a translation: `true` means "flagged", a non-empty
/// string names the flag, and `false`, `null` or `""` mean no flag.
pub fn flag_from(v: FlaggedValue) -> (res: Option<String>)
    ensures
        match res {
            Some(s) => flag_of(v) == Some(s@),
            None => flag_of(v) is None,
        },
{
    match v {
        FlaggedValue::Bool(b) => if b {
            Some(owned("flagged"))
        } else {
            None
        },
        FlaggedValue::Text(s) => if s.as_str().is_empty() {
            None
        } else {
            Some(s)
        },
        FlaggedValue::Null => None,
    }
}

/// The form fields that create an asset: `id` always, then `text`,
/// `context`, `notes` and `type` each where it is present, in that order.
pub open spec fn asset_form(req: CreateAssetRequest) -> Seq<(Seq<char>, Seq<char>)> {
    seq![("id"@, req.id@)] + opt_pair("text"@, opt_view(req.text)) + opt_pair(
        "context"@,
        opt_view(req.context),
    ) + opt_pair("notes"@, opt_view(req.notes)) + opt_pair("type"@, opt_view(req.asset_type))
}

impl CreateAssetRequest {
    /// The form fields sent to `POST /assets`.
    pub fn form_fields(&self) -> (res: Vec<(String, String)>)
        ensures
            pairs_view(res@) == asset_form(*self),
    {
        let mut out: Vec<(String, String)> = Vec::new();
        push_pair(&mut out, "id", &self.id);
        assert(pairs_view(out@) =~= seq![("id"@, self.id@)]);
        push_opt_pair(&mut out, "text", opt_as_str(&self.text));
        push_opt_pair(&mut out, "context", opt_as_str(&self.context));
        push_opt_pair(&mut out, "notes", opt_as_str(&self.notes));
        push_opt_pair(&mut out, "type", opt_as_str(&self.asset_type));
        out
    }
}

/// The form that creates an asset sends its id, and each optional field
/// that the request carries (source text, context, notes, type) under its
/// own name with its value, once; it sends nothing for a field that is
/// absent.
pub proof fn law_asset_form_carries_fields(req: CreateAssetRequest)
    ensures
        param_values(asset_form(req), "id"@) == set![req.id@],
        param_values(asset_form(req), "text"@) == opt_set(opt_view(req.text)),
        param_values(asset_form(req), "context"@) == opt_set(opt_view(req.context)),
        param_values(asset_form(req), "notes"@) == opt_set(opt_view(req.notes)),
        param_values(asset_form(req), "type"@) == opt_set(opt_view(req.asset_type)),
{
    reveal_strlit("id");
    reveal_strlit("text");
    reveal_strlit("context");
    reveal_strlit("notes");
    reveal_strlit("type");
    let names = seq!["id"@, "text"@, "context"@, "notes"@, "type"@];
    let vals = seq![
        Some(req.id@),
        opt_view(req.text),
        opt_view(req.context),
        opt_view(req.notes),
        opt_view(req.asset_type),
    ];
    assert(names[0][0] == 'i' && names[1][0] == 't' && names[2][0] == 'c' && names[3][0] == 'n'
        && names[4][0] == 't' && names[1][1] == 'e' && names[4][1] == 'y');
    assert forall|i: int, j: int| 0 <= i < 5 && 0 <= j < 5 && i != j implies #[trigger] names[i]
        != #[trigger] names[j] by {
        if names[i][0] == names[j][0] {
            assert(names[i][1] != names[j][1]);
        }
    }
    let a = seq![("id"@, req.id@)];
    let b = opt_pair("text"@, opt_view(req.text));
    let c = opt_pair("context"@, opt_view(req.context));
    let d = opt_pair("notes"@, opt_view(req.notes));
    let e = opt_pair("type"@, opt_view(req.asset_type));
    assert(a == opt_pair("id"@, Some(req.id@)));
    assert forall|k: int| 0 <= k < 5 implies param_values(asset_form(req), #[trigger] names[k])
        == opt_set(vals[k]) by {
        let n = names[k];
        lemma_param_values_concat(a + b + c + d, e, n);
        lemma_param_values_concat(a + b + c, d, n);
        lemma_param_values_concat(a + b, c, n);
        lemma_param_values_concat(a, b, n);
        lemma_param_values_opt_pair("id"@, Some(req.id@), n);
        lemma_param_values_opt_pair("text"@, opt_view(req.text), n);
        lemma_param_values_opt_pair("context"@, opt_view(req.context), n);
        lemma_param_values_opt_pair("notes"@, opt_view(req.notes), n);
        lemma_param_values_opt_pair("type"@, opt_view(req.asset_type), n);
        assert(names[0] == "id"@ && names[1] == "text"@ && names[2] == "context"@ && names[3]
            == "notes"@ && names[4] == "type"@);
        assert(param_values(asset_form(req), n) =~= opt_set(vals[k]));
    }
    assert(param_values(asset_form(req), names[0]) == opt_set(vals[0]));
    assert(param_values(asset_form(req), names[1]) == opt_set(vals[1]));
    assert(param_values(asset_form(req), names[2]) == opt_set(vals[2]));
    assert(param_values(asset_form(req), names[3]) == opt_set(vals[3]));
    assert(param_values(asset_form(req), names[4]) == opt_set(vals[4]));
    assert(opt_set(Some(req.id@)) =~= set![req.id@]);
}

/// How a raw `flagged` value reads: `true` is the flag "flagged", a
/// non-empty string is that flag, and `false`, `null` and the empty string
/// are no flag.
pub proof fn law_flag_reading(b: bool, s: String)
    ensures
        flag_of(FlaggedValue::Bool(true)) == Some("flagged"@),
        flag_of(FlaggedValue::Bool(false)) is None,
        flag_of(FlaggedValue::Null) is None,
        s@.len() == 0 ==> flag_of(FlaggedValue::Text(s)) is None,
        s@.len() > 0 ==> flag_of(FlaggedValue::Text(s)) == Some(s@),
{
}

} // verus!
