//! `strings`: how strings are created and what their listings show.
use crate::cli::{parse_translation, translation_pair};
use crate::error::{is_conflict, is_conflict_error, LocoError};
use crate::models::{Asset, CreateAssetRequest, Translation};
use crate::text::{
    concat2, concat3, decimal, decimal_string, join, join_strings, opt_view, owned, strings_view,
};
use vstd::prelude::*;

verus! {

/// The text of an optional field, or `fallback` when it is absent.
pub open spec fn or_else(o: Option<String>, fallback: Seq<char>) -> Seq<char> {
    match o {
        Some(s) => s@,
        None => fallback,
    }
}

/// Borrows an optional string's text, or `fallback` when it is absent.
pub fn text_or<'a>(o: &'a Option<String>, fallback: &'a str) -> (res: &'a str)
    ensures
        res@ == or_else(*o, fallback@),
{
    match o {
        Some(s) => s.as_str(),
        None => fallback,
    }
}

/// One line of the string list: `  <id> [<type or "unknown">]`.
pub open spec fn asset_list_line(a: Asset) -> Seq<char> {
    "  "@ + a.id@ + " ["@ + or_else(a.asset_type, "unknown"@) + "]"@
}

/// The lines of `strings list`: a count, then one line per string.
pub open spec fn string_list(assets: Seq<Asset>) -> Seq<Seq<char>> {
    seq![decimal(assets.len()) + " string(s):"@] + assets.map_values(|a: Asset| asset_list_line(a))
}

/// The lines printed by `strings list`.
pub fn string_list_lines(assets: &Vec<Asset>) -> (lines: Vec<String>)
    ensures
        strings_view(lines@) == string_list(assets@),
{
    let n = assets.len();
    let mut lines: Vec<String> = Vec::new();
    lines.push(concat2(decimal_string(n as u64).as_str(), " string(s):"));
    let mut i: usize = 0;
    while i < n
        invariant
            n == assets@.len(),
            i <= n,
            strings_view(lines@) == seq![decimal(n as nat) + " string(s):"@] + assets@.take(
                i as int,
            ).map_values(|a: Asset| asset_list_line(a)),
        decreases n - i,
    {
        let a = &assets[i];
        let mut line = concat3("  ", a.id.as_str(), " [");
        line.append(text_or(&a.asset_type, "unknown"));
        line.append("]");
        let ghost before = strings_view(lines@);
        lines.push(line);
        assert(assets@.take(i + 1).map_values(|a: Asset| asset_list_line(a)) =~= assets@.take(
            i as int,
        ).map_values(|a: Asset| asset_list_line(a)).push(asset_list_line(assets@[i as int])));
        assert(strings_view(lines@) =~= before.push(line@));
        i = i + 1;
    }
    assert(assets@.take(n as int) =~= assets@);
    lines
}

/// A line of the string details when the text is not empty, nothing otherwise.
pub open spec fn labelled_if_present(label: Seq<char>, value: Seq<char>) -> Seq<Seq<char>> {
    if value.len() > 0 {
        seq![label + value]
    } else {
        Seq::empty()
    }
}

/// One translation in the string details: a check mark when translated, a
/// dot otherwise, then `<locale>: <text>`.
pub open spec fn translation_line(t: Translation) -> Seq<char> {
    "  "@ + (if t.translated {
        "✓"@
    } else {
        "·"@
    }) + " "@ + t.id@ + ": "@ + t.translation@
}

/// The lines of `strings get <id>`: id and type, then context, notes and
/// tags where not empty, then the translations where there are any.
pub open spec fn asset_details(asset: Asset, translations: Seq<Translation>) -> Seq<Seq<char>> {
    seq!["ID: "@ + asset.id@, "Type: "@ + or_else(asset.asset_type, "unknown"@)]
        + labelled_if_present("Context: "@, asset.context@) + labelled_if_present(
        "Notes: "@,
        asset.notes@,
    ) + (if asset.tags@.len() > 0 {
        seq!["Tags: "@ + join(strings_view(asset.tags@), ", "@)]
    } else {
        Seq::empty()
    }) + (if translations.len() > 0 {
        seq!["Translations:"@] + translations.map_values(|t: Translation| translation_line(t))
    } else {
        Seq::empty()
    })
}

/// Appends `label + value` to `lines` when `value` is not empty.
fn push_labelled_if_present(lines: &mut Vec<String>, label: &str, value: &str)
    ensures
        strings_view(final(lines)@) == strings_view(old(lines)@) + labelled_if_present(label@, value@),
{
    let ghost before = strings_view(lines@);
    if !value.is_empty() {
        lines.push(concat2(label, value));
    }
    assert(strings_view(lines@) =~= before + labelled_if_present(label@, value@));
}

/// The lines printed by `strings get <id>`.
pub fn asset_detail_lines(asset: &Asset, translations: &Vec<Translation>) -> (lines: Vec<String>)
    ensures
        strings_view(lines@) == asset_details(*asset, translations@),
{
    let mut lines: Vec<String> = Vec::new();
    lines.push(concat2("ID: ", asset.id.as_str()));
    lines.push(concat2("Type: ", text_or(&asset.asset_type, "unknown")));
    let ghost head = strings_view(lines@);
    assert(head =~= seq!["ID: "@ + asset.id@, "Type: "@ + or_else(asset.asset_type, "unknown"@)]);
    push_labelled_if_present(&mut lines, "Context: ", asset.context.as_str());
    push_labelled_if_present(&mut lines, "Notes: ", asset.notes.as_str());
    let ghost before_tags = strings_view(lines@);
    if asset.tags.len() > 0 {
        let joined = join_strings(&asset.tags, ", ");
        lines.push(concat2("Tags: ", joined.as_str()));
    }
    let ghost with_tags = strings_view(lines@);
    assert(with_tags =~= before_tags + (if asset.tags@.len() > 0 {
        seq!["Tags: "@ + join(strings_view(asset.tags@), ", "@)]
    } else {
        Seq::<Seq<char>>::empty()
    }));
    let n = translations.len();
    if n > 0 {
        lines.push(owned("Translations:"));
        let mut i: usize = 0;
        while i < n
            invariant
                n == translations@.len(),
                i <= n,
                strings_view(lines@) == with_tags + seq!["Translations:"@] + translations@.take(
                    i as int,
                ).map_values(|t: Translation| translation_line(t)),
            decreases n - i,
        {
            let t = &translations[i];
            let mark = if t.translated {
                "✓"
            } else {
                "·"
            };
            let mut line = concat3("  ", mark, " ");
            line.append(t.id.as_str());
            line.append(": ");
            line.append(t.translation.as_str());
            let ghost before = strings_view(lines@);
            lines.push(line);
            assert(translations@.take(i + 1).map_values(|t: Translation| translation_line(t))
                =~= translations@.take(i as int).map_values(|t: Translation| translation_line(t)).push(
                translation_line(translations@[i as int]),
            ));
            assert(strings_view(lines@) =~= before.push(line@));
            i = i + 1;
        }
        assert(translations@.take(n as int) =~= translations@);
    } else {
        assert(strings_view(lines@) =~= with_tags + Seq::<Seq<char>>::empty());
    }
    lines
}

/// The translations `strings get <id>` reports: those the API listed, or
/// none when they could not be listed.
pub fn translations_or_none(listed: Result<Vec<Translation>, LocoError>) -> (res: Vec<Translation>)
    ensures
        match listed {
            Ok(v) => res == v,
            Err(_) => res@.len() == 0,
        },
{
    match listed {
        Ok(v) => v,
        Err(_) => Vec::new(),
    }
}

/// One translation as the JSON report of `strings get <id>` gives it.
#[derive(Debug)]
pub struct TranslationEntry {
    pub locale: String,
    pub text: String,
    pub translated: bool,
}

/// The entry of a translation: its locale, its text and whether it is translated.
pub open spec fn entry_matches(e: TranslationEntry, t: Translation) -> bool {
    e.locale@ == t.id@ && e.text@ == t.translation@ && e.translated == t.translated
}

/// The translations of the JSON report of `strings get <id>`, in order.
pub fn translation_entries(translations: &Vec<Translation>) -> (res: Vec<TranslationEntry>)
    ensures
        res@.len() == translations@.len(),
        forall|i: int| 0 <= i < res@.len() ==> entry_matches(#[trigger] res@[i], translations@[i]),
{
    let n = translations.len();
    let mut res: Vec<TranslationEntry> = Vec::new();
    let mut i: usize = 0;
    while i < n
        invariant
            n == translations@.len(),
            i <= n,
            res@.len() == i,
            forall|j: int| 0 <= j < i ==> entry_matches(#[trigger] res@[j], translations@[j]),
        decreases n - i,
    {
        let t = &translations[i];
        res.push(
            TranslationEntry {
                locale: t.id.clone(),
                text: t.translation.clone(),
                translated: t.translated,
            },
        );
        i = i + 1;
    }
    res
}

/// The lines of `strings get <id> <locale>`.
pub open spec fn translation_details(id: Seq<char>, locale: Seq<char>, t: Translation) -> Seq<Seq<char>> {
    seq![
        "String: "@ + id,
        "Locale: "@ + locale,
        "Status: "@ + or_else(t.status, "unknown"@),
        "Flagged: "@ + or_else(t.flagged, "none"@),
        "Text: "@ + t.translation@,
    ]
}

/// The lines printed by `strings get <id> <locale>`.
pub fn translation_detail_lines(id: &str, locale: &str, t: &Translation) -> (lines: Vec<String>)
    ensures
        strings_view(lines@) == translation_details(id@, locale@, *t),
{
    let mut lines: Vec<String> = Vec::new();
    lines.push(concat2("String: ", id));
    lines.push(concat2("Locale: ", locale));
    lines.push(concat2("Status: ", text_or(&t.status, "unknown")));
    lines.push(concat2("Flagged: ", text_or(&t.flagged, "none")));
    lines.push(concat2("Text: ", t.translation.as_str()));
    assert(strings_view(lines@) =~= translation_details(id@, locale@, *t));
    lines
}

/// The locales of a list of `(locale, text)` pairs.
pub open spec fn pair_locales(translations: Seq<(String, String)>) -> Seq<Seq<char>> {
    translations.map_values(|p: (String, String)| p.0@)
}

/// The request that creates a string: its id, the text of the first given
/// translation as source text, and the optional type, context and notes.
pub fn new_string_request(
    id: &str,
    translations: &Vec<(String, String)>,
    asset_type: Option<String>,
    context: Option<String>,
    notes: Option<String>,
) -> (req: CreateAssetRequest)
    ensures
        req.id@ == id@,
        translations@.len() == 0 ==> req.text is None,
        translations@.len() > 0 ==> opt_view(req.text) == Some(translations@[0].1@),
        req.asset_type == asset_type,
        req.context == context,
        req.notes == notes,
{
    let text = if translations.len() > 0 {
        Some(translations[0].1.clone())
    } else {
        None
    };
    CreateAssetRequest { id: owned(id), text, context, notes, asset_type }
}

/// Whether `strings add` goes on after the API refused to create the
/// string: only with `--update`, and only when the string already exists.
pub fn add_may_continue(err: &LocoError, update: bool) -> (res: bool)
    ensures
        res == (update && is_conflict_error(*err)),
{
    update && is_conflict(err)
}

/// Whether `strings add` sets the source locale afterwards: with
/// `--update` and a source text.
pub fn wants_source_locale(update: bool, source_text: &Option<String>) -> (res: bool)
    ensures
        res == (update && source_text is Some),
{
    update && source_text.is_some()
}

/// Whether a list of `(locale, text)` pairs has a pair for `locale`.
pub fn has_locale(translations: &Vec<(String, String)>, locale: &str) -> (res: bool)
    ensures
        res == pair_locales(translations@).contains(locale@),
{
    let n = translations.len();
    let mut i: usize = 0;
    while i < n
        invariant
            n == translations@.len(),
            i <= n,
            forall|j: int| 0 <= j < i ==> translations@[j].0@ != locale@,
        decreases n - i,
    {
        if crate::text::str_equal(translations[i].0.as_str(), locale) {
            assert(pair_locales(translations@)[i as int] == locale@);
            return true;
        }
        i = i + 1;
    }
    proof {
        if pair_locales(translations@).contains(locale@) {
            let j = choose|j: int|
                0 <= j < pair_locales(translations@).len() && pair_locales(translations@)[j]
                    == locale@;
            assert(translations@[j].0@ == locale@);
        }
    }
    false
}

/// The extra translation that `strings add --update` sets: the source text
/// on the project's first locale, unless a translation for that locale was
/// given. `first_locale` is the code of the first project locale, if any.
pub fn source_locale_pair(
    source_text: &String,
    first_locale: Option<&str>,
    translations: &Vec<(String, String)>,
) -> (res: Option<(String, String)>)
    ensures
        match first_locale {
            Some(code) => if pair_locales(translations@).contains(code@) {
                res is None
            } else {
                res matches Some(p) && p.0@ == code@ && p.1@ == source_text@
            },
            None => res is None,
        },
{
    match first_locale {
        Some(code) => {
            if has_locale(translations, code) {
                None
            } else {
                Some((owned(code), source_text.clone()))
            }
        },
        None => None,
    }
}

/// The locale whose text the interactive `strings add` asks first: the
/// project's first locale, else `en`.
pub fn source_locale_code(first_locale: Option<&str>) -> (res: String)
    ensures
        res@ == match first_locale {
            Some(c) => c@,
            None => "en"@,
        },
{
    match first_locale {
        Some(c) => owned(c),
        None => owned("en"),
    }
}

/// Records the source text typed in the interactive `strings add` as the
/// translation of the source locale, unless it is empty.
pub fn add_source_text(translations: &mut Vec<(String, String)>, code: String, text: String)
    ensures
        text@.len() == 0 ==> final(translations)@ == old(translations)@,
        text@.len() > 0 ==> final(translations)@ == old(translations)@.push((code, text)),
{
    if !text.as_str().is_empty() {
        translations.push((code, text));
    }
}

/// What the interactive `strings add` does with one line of input.
#[derive(Debug)]
pub enum EntryAction {
    /// An empty line ends the input.
    Finish,
    /// A `LOCALE=TEXT` line adds a translation.
    Add(String, String),
    /// Any other line is skipped with this warning.
    Skip(String),
}

/// Reads one line of the interactive `strings add`.
pub fn entry_action(input: &str) -> (action: EntryAction)
    ensures
        input@.len() == 0 ==> action is Finish,
        input@.len() > 0 ==> match translation_pair(input@) {
            Ok((l, t)) => action matches EntryAction::Add(a, b) && a@ == l && b@ == t,
            Err(e) => action matches EntryAction::Skip(w) && w@ == "Skipped: "@ + e,
        },
{
    if input.is_empty() {
        return EntryAction::Finish;
    }
    match parse_translation(input) {
        Ok((l, t)) => EntryAction::Add(l, t),
        Err(e) => EntryAction::Skip(concat2("Skipped: ", e.as_str())),
    }
}

} // verus!
