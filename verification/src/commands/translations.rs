//! `translations`: what is shown of the translations of a string.
use crate::commands::strings::or_else;
use crate::models::Translation;
use crate::text::{concat2, concat4, decimal, decimal_string, strings_view, truncate};
use vstd::prelude::*;
use vstd::utf8::{decode_utf8, encode_utf8, is_char_boundary};

verus! {

/// How many bytes of a translation's text the list shows.
pub const LIST_TEXT_BYTES: usize = 60;

/// The text whose UTF-8 encoding is the first `max` bytes of that of
/// `text`, or `text` itself when it is no longer.
pub open spec fn truncated_text(text: Seq<char>, max: int) -> Seq<char> {
    if encode_utf8(text).len() <= max {
        text
    } else {
        decode_utf8(encode_utf8(text).subrange(0, max))
    }
}

/// Whether a text can be cut to `max` bytes: it is no longer, or byte
/// `max` starts a character.
pub open spec fn cuttable(text: Seq<char>, max: int) -> bool {
    encode_utf8(text).len() <= max || is_char_boundary(encode_utf8(text), max)
}

/// Whether the list can show a translation's text: cutting it to 60 bytes
/// falls on a character boundary.
pub fn list_text_cuttable(text: &str) -> (res: bool)
    ensures
        res == cuttable(text@, LIST_TEXT_BYTES as int),
{
    text.as_bytes().len() <= LIST_TEXT_BYTES || text.is_char_boundary(LIST_TEXT_BYTES)
}

/// One line of `translations list`: the locale, the text cut to 60 bytes,
/// and a mark when the translation is flagged.
pub open spec fn translation_list_line(t: Translation) -> Seq<char> {
    "  "@ + t.id@ + " - "@ + truncated_text(t.translation@, LIST_TEXT_BYTES as int) + (if t.flagged is Some {
        " [flagged]"@
    } else {
        ""@
    })
}

/// The lines of `translations list <id>`: a count, then one line per translation.
pub open spec fn translation_listing(asset_id: Seq<char>, translations: Seq<Translation>) -> Seq<Seq<char>> {
    seq![decimal(translations.len()) + " translation(s) for "@ + asset_id + ":"@]
        + translations.map_values(|t: Translation| translation_list_line(t))
}

/// The line of `translations list` for one translation.
fn list_line(t: &Translation) -> (line: String)
    requires
        cuttable(t.translation@, LIST_TEXT_BYTES as int),
    ensures
        line@ == translation_list_line(*t),
{
    let text = t.translation.as_str();
    let cut = truncate(text, LIST_TEXT_BYTES);
    proof {
        vstd::utf8::encode_utf8_decode_utf8(cut@);
        vstd::utf8::encode_utf8_decode_utf8(t.translation@);
    }
    let mut line = concat4("  ", t.id.as_str(), " - ", cut);
    if t.flagged.is_some() {
        line.append(" [flagged]");
    } else {
        assert(line@ + ""@ =~= line@) by {
            reveal_strlit("");
        }
    }
    line
}

/// The lines printed by `translations list <id>`. Each text must be cut on
/// a character boundary (slicing a `str` elsewhere panics).
pub fn translation_list_lines(asset_id: &str, translations: &Vec<Translation>) -> (lines: Vec<String>)
    requires
        forall|i: int|
            0 <= i < translations@.len() ==> cuttable(
                #[trigger] translations@[i].translation@,
                LIST_TEXT_BYTES as int,
            ),
    ensures
        strings_view(lines@) == translation_listing(asset_id@, translations@),
{
    let n = translations.len();
    let mut lines: Vec<String> = Vec::new();
    let mut head = concat2(decimal_string(n as u64).as_str(), " translation(s) for ");
    head.append(asset_id);
    head.append(":");
    lines.push(head);
    let mut i: usize = 0;
    while i < n
        invariant
            n == translations@.len(),
            i <= n,
            forall|j: int|
                0 <= j < translations@.len() ==> cuttable(
                    #[trigger] translations@[j].translation@,
                    LIST_TEXT_BYTES as int,
                ),
            strings_view(lines@) == seq![
                decimal(n as nat) + " translation(s) for "@ + asset_id@ + ":"@,
            ] + translations@.take(i as int).map_values(|t: Translation| translation_list_line(t)),
        decreases n - i,
    {
        let line = list_line(&translations[i]);
        let ghost before = strings_view(lines@);
        lines.push(line);
        assert(translations@.take(i + 1).map_values(|t: Translation| translation_list_line(t))
            =~= translations@.take(i as int).map_values(|t: Translation| translation_list_line(t)).push(
            translation_list_line(translations@[i as int]),
        ));
        assert(strings_view(lines@) =~= before.push(line@));
        i = i + 1;
    }
    assert(translations@.take(n as int) =~= translations@);
    lines
}

/// The lines of `translations get <id> <locale>`.
pub open spec fn translation_get_details(asset_id: Seq<char>, locale: Seq<char>, t: Translation) -> Seq<
    Seq<char>,
> {
    seq![
        "Asset: "@ + asset_id,
        "Locale: "@ + locale,
        "Status: "@ + or_else(t.status, "unknown"@),
        "Flagged: "@ + or_else(t.flagged, "none"@),
        "Text: "@ + t.translation@,
    ]
}

/// The lines printed by `translations get <id> <locale>`.
pub fn translation_get_lines(asset_id: &str, locale: &str, t: &Translation) -> (lines: Vec<String>)
    ensures
        strings_view(lines@) == translation_get_details(asset_id@, locale@, *t),
{
    let status = match &t.status {
        Some(s) => s.as_str(),
        None => "unknown",
    };
    let flagged = match &t.flagged {
        Some(f) => f.as_str(),
        None => "none",
    };
    let mut lines: Vec<String> = Vec::new();
    lines.push(concat2("Asset: ", asset_id));
    lines.push(concat2("Locale: ", locale));
    lines.push(concat2("Status: ", status));
    lines.push(concat2("Flagged: ", flagged));
    lines.push(concat2("Text: ", t.translation.as_str()));
    assert(strings_view(lines@) =~= translation_get_details(asset_id@, locale@, *t));
    lines
}

/// The fields of a translation that the JSON reports give.
#[derive(Debug)]
pub struct TranslationReport {
    pub id: String,
    pub translation: String,
    pub translated: bool,
    pub flagged: Option<String>,
    pub status: Option<String>,
    pub revision: Option<u32>,
    pub modified: Option<String>,
}

/// The report of a translation: its fields, as the API gave them.
pub open spec fn report_of(t: Translation) -> TranslationReport {
    TranslationReport {
        id: t.id,
        translation: t.translation,
        translated: t.translated,
        flagged: t.flagged,
        status: t.status,
        revision: t.revision,
        modified: t.modified,
    }
}

/// A copy of an optional string.
fn copy_text(o: &Option<String>) -> (res: Option<String>)
    ensures
        res == *o,
{
    match o {
        Some(s) => Some(s.clone()),
        None => None,
    }
}

/// The JSON report of one translation.
pub fn translation_report(t: &Translation) -> (r: TranslationReport)
    ensures
        r == report_of(*t),
{
    TranslationReport {
        id: t.id.clone(),
        translation: t.translation.clone(),
        translated: t.translated,
        flagged: copy_text(&t.flagged),
        status: copy_text(&t.status),
        revision: t.revision,
        modified: copy_text(&t.modified),
    }
}

/// The JSON reports of a list of translations, in order.
pub fn translation_reports(translations: &Vec<Translation>) -> (res: Vec<TranslationReport>)
    ensures
        res@ == translations@.map_values(|t: Translation| report_of(t)),
{
    let n = translations.len();
    let mut res: Vec<TranslationReport> = Vec::new();
    let mut i: usize = 0;
    while i < n
        invariant
            n == translations@.len(),
            i <= n,
            res@ == translations@.take(i as int).map_values(|t: Translation| report_of(t)),
        decreases n - i,
    {
        let r = translation_report(&translations[i]);
        res.push(r);
        assert(translations@.take(i + 1).map_values(|t: Translation| report_of(t))
            =~= translations@.take(i as int).map_values(|t: Translation| report_of(t)).push(
            report_of(translations@[i as int]),
        ));
        i = i + 1;
    }
    assert(translations@.take(n as int) =~= translations@);
    res
}

/// `translations list` prints a count line and then one line per
/// translation, in order: its locale, then its text (whole when it is at
/// most 60 bytes long), then ` [flagged]` exactly when it is flagged.
pub proof fn law_translation_listing(asset_id: Seq<char>, translations: Seq<Translation>, i: int)
    requires
        0 <= i < translations.len(),
    ensures
        translation_listing(asset_id, translations).len() == translations.len() + 1,
        translation_listing(asset_id, translations)[0] == decimal(translations.len())
            + " translation(s) for "@ + asset_id + ":"@,
        encode_utf8(translations[i].translation@).len() <= 60 ==> translation_listing(
            asset_id,
            translations,
        )[i + 1] == "  "@ + translations[i].id@ + " - "@ + translations[i].translation@ + (
        if translations[i].flagged is Some {
            " [flagged]"@
        } else {
            ""@
        }),
        translation_listing(asset_id, translations)[i + 1].take(
            (2 + translations[i].id@.len() + 3) as int,
        ) == "  "@ + translations[i].id@ + " - "@,
{
    reveal_strlit("  ");
    reveal_strlit(" - ");
    let l = translation_listing(asset_id, translations)[i + 1];
    assert(l == translation_list_line(translations[i]));
    let head = "  "@ + translations[i].id@ + " - "@;
    assert(head.len() == 2 + translations[i].id@.len() + 3);
    let rest = truncated_text(translations[i].translation@, 60) + (if translations[i].flagged is Some {
        " [flagged]"@
    } else {
        ""@
    });
    assert(l =~= head + rest);
    assert((head + rest).take(head.len() as int) =~= head);
}

/// A flagged translation's line in `translations list` ends with
/// ` [flagged]`; an unflagged one's line is the locale and the cut text.
pub proof fn law_translation_flag_mark(t: Translation)
    ensures
        t.flagged is Some ==> translation_list_line(t) == "  "@ + t.id@ + " - "@ + truncated_text(
            t.translation@,
            60,
        ) + " [flagged]"@,
        t.flagged is None ==> translation_list_line(t) == "  "@ + t.id@ + " - "@ + truncated_text(
            t.translation@,
            60,
        ),
{
    reveal_strlit("");
    assert(("  "@ + t.id@ + " - "@ + truncated_text(t.translation@, 60)) + ""@ =~= "  "@ + t.id@
        + " - "@ + truncated_text(t.translation@, 60));
}

} // verus!
