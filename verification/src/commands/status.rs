//! `status`: the translation counters behind the progress of a locale.
use crate::models::LocaleProgress;
use vstd::prelude::*;

verus! {

/// A counter the API may send under two names: the first name when present,
/// else the second, else 0.
pub open spec fn counter(primary: Option<u32>, fallback: Option<u32>) -> int {
    match primary {
        Some(n) => n as int,
        None => match fallback {
            Some(n) => n as int,
            None => 0,
        },
    }
}

/// Translated strings of a locale (0 without progress data).
pub open spec fn translated_count(progress: Option<LocaleProgress>) -> int {
    match progress {
        Some(p) => counter(p.num_translated, p.translated),
        None => 0,
    }
}

/// Untranslated strings of a locale (0 without progress data).
pub open spec fn untranslated_count(progress: Option<LocaleProgress>) -> int {
    match progress {
        Some(p) => counter(p.num_untranslated, p.untranslated),
        None => 0,
    }
}

/// Whether the total of a locale's counters fits in a `u32`.
pub open spec fn total_fits(progress: Option<LocaleProgress>) -> bool {
    translated_count(progress) + untranslated_count(progress) <= u32::MAX
}

/// Reads one counter.
fn read_counter(primary: Option<u32>, fallback: Option<u32>) -> (n: u32)
    ensures
        n as int == counter(primary, fallback),
{
    match primary {
        Some(n) => n,
        None => match fallback {
            Some(n) => n,
            None => 0,
        },
    }
}

/// Whether `progress_numbers` can add up the counters without overflow.
pub fn progress_fits(progress: &Option<LocaleProgress>) -> (res: bool)
    ensures
        res == total_fits(*progress),
{
    match progress {
        Some(p) => {
            let t = read_counter(p.num_translated, p.translated);
            let u = read_counter(p.num_untranslated, p.untranslated);
            t <= u32::MAX - u
        },
        None => true,
    }
}

/// The translated count of a locale and its total (translated plus
/// untranslated).
pub fn progress_numbers(progress: &Option<LocaleProgress>) -> (res: (u32, u32))
    requires
        total_fits(*progress),
    ensures
        res.0 == translated_count(*progress),
        res.1 == translated_count(*progress) + untranslated_count(*progress),
{
    match progress {
        Some(p) => {
            let translated = read_counter(p.num_translated, p.translated);
            let untranslated = read_counter(p.num_untranslated, p.untranslated);
            (translated, translated + untranslated)
        },
        None => (0, 0),
    }
}

/// The untranslated count shown for a locale: the total minus the
/// translated count, never below 0.
pub fn untranslated_of(translated: u32, total: u32) -> (res: u32)
    ensures
        res == if total >= translated { total - translated } else { 0 },
{
    if total >= translated {
        total - translated
    } else {
        0
    }
}

/// The translated count never exceeds the total, so the progress of a
/// locale never exceeds 100%; what is shown as untranslated is exactly the
/// locale's untranslated counter.
pub proof fn law_progress_bounded(progress: Option<LocaleProgress>)
    requires
        total_fits(progress),
    ensures
        0 <= translated_count(progress) <= translated_count(progress) + untranslated_count(progress),
        (translated_count(progress) + untranslated_count(progress)) - translated_count(progress)
            == untranslated_count(progress),
{
}

/// A counter sent under two names is read from the first name when that is
/// present, from the second otherwise, and is 0 when neither is; a locale
/// without progress data counts nothing.
pub proof fn law_counter_preference(primary: Option<u32>, fallback: Option<u32>, progress: Option<LocaleProgress>)
    ensures
        primary matches Some(n) ==> counter(primary, fallback) == n,
        primary is None && fallback is Some ==> counter(primary, fallback) == fallback->0,
        primary is None && fallback is None ==> counter(primary, fallback) == 0,
        progress is None ==> translated_count(progress) == 0 && untranslated_count(progress) == 0,
        progress is Some ==> translated_count(progress) == counter(
            progress->0.num_translated,
            progress->0.translated,
        ) && untranslated_count(progress) == counter(
            progress->0.num_untranslated,
            progress->0.untranslated,
        ),
{
}

} // verus!
