//! `locales`: what the listings of locales show.
use crate::models::Locale;
use crate::text::{concat2, concat4, decimal, decimal_string, strings_view};
use vstd::prelude::*;

verus! {

/// One line of the locale list: `  <code> - <name>`.
pub open spec fn locale_list_line(l: Locale) -> Seq<char> {
    "  "@ + l.code@ + " - "@ + l.name@
}

/// The lines of `locales list`: a count, then one line per locale.
pub open spec fn locale_list(locales: Seq<Locale>) -> Seq<Seq<char>> {
    seq![decimal(locales.len()) + " locale(s):"@] + locales.map_values(|l: Locale| locale_list_line(l))
}

/// The lines printed by `locales list`.
pub fn locale_list_lines(locales: &Vec<Locale>) -> (lines: Vec<String>)
    ensures
        strings_view(lines@) == locale_list(locales@),
{
    let n = locales.len();
    let mut lines: Vec<String> = Vec::new();
    lines.push(concat2(decimal_string(n as u64).as_str(), " locale(s):"));
    let mut i: usize = 0;
    while i < n
        invariant
            n == locales@.len(),
            i <= n,
            strings_view(lines@) == seq![decimal(n as nat) + " locale(s):"@] + locales@.take(
                i as int,
            ).map_values(|l: Locale| locale_list_line(l)),
        decreases n - i,
    {
        let l = &locales[i];
        let line = concat4("  ", l.code.as_str(), " - ", l.name.as_str());
        let ghost before = strings_view(lines@);
        lines.push(line);
        assert(locales@.take(i + 1).map_values(|l: Locale| locale_list_line(l)) =~= locales@.take(
            i as int,
        ).map_values(|l: Locale| locale_list_line(l)).push(locale_list_line(locales@[i as int])));
        assert(strings_view(lines@) =~= before.push(line@));
        i = i + 1;
    }
    assert(locales@.take(n as int) =~= locales@);
    lines
}

/// Translated strings counted by `locales get`: the `num-translated`
/// counter, or 0.
pub open spec fn detail_translated(l: Locale) -> int {
    match l.progress {
        Some(p) => match p.num_translated {
            Some(n) => n as int,
            None => 0,
        },
        None => 0,
    }
}

/// Untranslated strings counted by `locales get`: the `num-untranslated`
/// counter, or 0.
pub open spec fn detail_untranslated(l: Locale) -> int {
    match l.progress {
        Some(p) => match p.num_untranslated {
            Some(n) => n as int,
            None => 0,
        },
        None => 0,
    }
}

/// The lines of `locales get <code>`: code, name and `translated/total`.
pub open spec fn locale_details(l: Locale) -> Seq<Seq<char>> {
    seq![
        "Code: "@ + l.code@,
        "Name: "@ + l.name@,
        "Translated: "@ + decimal(detail_translated(l) as nat) + "/"@ + decimal(
            (detail_translated(l) + detail_untranslated(l)) as nat,
        ),
    ]
}

/// Whether the total of `locales get` fits in a `u32`.
pub fn locale_total_fits(l: &Locale) -> (res: bool)
    ensures
        res == (detail_translated(*l) + detail_untranslated(*l) <= u32::MAX),
{
    let (t, u) = detail_counts(l);
    t <= u32::MAX - u
}

/// The two counters of `locales get`.
fn detail_counts(l: &Locale) -> (res: (u32, u32))
    ensures
        res.0 == detail_translated(*l),
        res.1 == detail_untranslated(*l),
{
    match &l.progress {
        Some(p) => (
            match p.num_translated {
                Some(n) => n,
                None => 0,
            },
            match p.num_untranslated {
                Some(n) => n,
                None => 0,
            },
        ),
        None => (0, 0),
    }
}

/// The lines printed by `locales get <code>`.
pub fn locale_detail_lines(l: &Locale) -> (lines: Vec<String>)
    requires
        detail_translated(*l) + detail_untranslated(*l) <= u32::MAX,
    ensures
        strings_view(lines@) == locale_details(*l),
{
    let (t, u) = detail_counts(l);
    let total = t + u;
    let mut lines: Vec<String> = Vec::new();
    lines.push(concat2("Code: ", l.code.as_str()));
    lines.push(concat2("Name: ", l.name.as_str()));
    let ts = decimal_string(t as u64);
    let totals = decimal_string(total as u64);
    lines.push(concat4("Translated: ", ts.as_str(), "/", totals.as_str()));
    assert(strings_view(lines@) =~= locale_details(*l));
    lines
}

/// `locales get` counts a locale's translated strings from its
/// `num-translated` counter and its total as that plus `num-untranslated`,
/// each 0 when absent.
pub proof fn law_locale_detail_counts(l: Locale)
    ensures
        detail_translated(l) == (if l.progress is Some && l.progress->0.num_translated is Some {
            l.progress->0.num_translated->0 as int
        } else {
            0
        }),
        detail_untranslated(l) == (if l.progress is Some && l.progress->0.num_untranslated is Some {
            l.progress->0.num_untranslated->0 as int
        } else {
            0
        }),
        0 <= detail_translated(l) <= detail_translated(l) + detail_untranslated(l),
{
}

} // verus!
