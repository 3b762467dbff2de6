//! `pull`: which export to ask for and where each exported file goes.
use crate::cli::PullArgs;
use crate::client::endpoints::ExportParams;
use crate::config::{first_present, PullConfig};
use crate::text::{
    lemma_absent_first_char, lemma_no_straddle_boundary, lemma_no_straddle_prefix,
    lemma_replace_absent, lemma_replace_concat, occurs, occurs_at, opt_view, owned, replace_all,
    replace_str,
};
use vstd::prelude::*;

verus! {

/// Export format used when neither the flag nor the config file names one.
pub const DEFAULT_FORMAT: &'static str = "json";

/// Output path template used when neither the flag nor the config file gives one.
pub const DEFAULT_PATH_TEMPLATE: &'static str = "./{locale}.{format}";

/// The settings of one pull: format, path template and export options.
#[derive(Debug)]
pub struct PullPlan {
    pub format: String,
    pub path_template: String,
    pub params: ExportParams,
}

/// The file path for one locale: `{locale}` in the template replaced by the
/// locale code, then `{format}` replaced by the format.
pub open spec fn export_path(template: Seq<char>, locale: Seq<char>, format: Seq<char>) -> Seq<char> {
    replace_all(replace_all(template, "{locale}"@, locale), "{format}"@, format)
}

/// Fills the placeholders of an output path template.
pub fn resolve_path(template: &str, locale: &str, format: &str) -> (res: String)
    ensures
        res@ == export_path(template@, locale@, format@),
{
    proof {
        reveal_strlit("{locale}");
        reveal_strlit("{format}");
    }
    let with_locale = replace_str(template, "{locale}", locale);
    replace_str(with_locale.as_str(), "{format}", format)
}

/// A template without placeholders names the same file whatever the locale
/// and format.
pub proof fn law_template_without_placeholders(
    template: Seq<char>,
    locale: Seq<char>,
    format: Seq<char>,
)
    requires
        !occurs(template, "{locale}"@),
        !occurs(template, "{format}"@),
    ensures
        export_path(template, locale, format) == template,
{
    reveal_strlit("{locale}");
    reveal_strlit("{format}");
    lemma_replace_absent(template, "{locale}"@, locale);
    lemma_replace_absent(template, "{format}"@, format);
}

/// `{locale}` replaced in a template made of `{locale}` alone gives the
/// locale code.
proof fn lemma_replace_whole(pat: Seq<char>, rep: Seq<char>)
    requires
        pat.len() > 0,
    ensures
        replace_all(pat, pat, rep) == rep,
{
    assert(pat.take(pat.len() as int) =~= pat);
    assert(pat.skip(pat.len() as int) =~= Seq::<char>::empty());
    assert(replace_all(Seq::<char>::empty(), pat, rep) == Seq::<char>::empty());
    assert(rep + Seq::<char>::empty() =~= rep);
}

/// The default template `./{locale}.{format}` names `./<locale>.<format>`
/// for every format and every locale code in which `{format}` does not occur.
pub proof fn law_default_template(locale: Seq<char>, format: Seq<char>)
    requires
        !occurs(locale, "{format}"@),
    ensures
        export_path(DEFAULT_PATH_TEMPLATE@, locale, format) == "./"@ + locale + "."@ + format,
{
    reveal_strlit("./{locale}.{format}");
    reveal_strlit("{locale}");
    reveal_strlit("{format}");
    reveal_strlit("./");
    reveal_strlit(".");
    let l = "{locale}"@;
    let f = "{format}"@;
    let p1 = "./"@;
    let dot = "."@;
    let p3 = dot + f;
    assert(DEFAULT_PATH_TEMPLATE@ =~= p1 + (l + p3));
    assert(!p1.contains('{')) by {
        if p1.contains('{') {
            let k = choose|k: int| 0 <= k < p1.len() && p1[k] == '{';
        }
    }
    assert(!dot.contains('{')) by {
        if dot.contains('{') {
            let k = choose|k: int| 0 <= k < dot.len() && dot[k] == '{';
        }
    }
    assert(!l.contains('.')) by {
        if l.contains('.') {
            let k = choose|k: int| 0 <= k < l.len() && l[k] == '.';
        }
    }
    assert(!f.contains('.')) by {
        if f.contains('.') {
            let k = choose|k: int| 0 <= k < f.len() && f[k] == '.';
        }
    }
    // First pass: `{locale}`.
    lemma_no_straddle_prefix(p1, l + p3, l);
    lemma_replace_concat(p1, l + p3, l, locale);
    lemma_absent_first_char(p1, l);
    lemma_replace_absent(p1, l, locale);
    lemma_no_straddle_boundary(l, p3, l);
    lemma_replace_concat(l, p3, l, locale);
    lemma_replace_whole(l, locale);
    assert(!occurs(p3, l)) by {
        if occurs(p3, l) {
            let i = choose|i: int| occurs_at(p3, l, i);
            assert(p3.subrange(i, i + l.len())[0] == p3[i]);
            assert(p3.subrange(i, i + l.len())[1] == p3[i + 1]);
        }
    }
    lemma_replace_absent(p3, l, locale);
    let r1 = p1 + (locale + p3);
    assert(replace_all(DEFAULT_PATH_TEMPLATE@, l, locale) == r1);
    // Second pass: `{format}`.
    assert(r1 =~= (p1 + locale) + p3);
    lemma_no_straddle_boundary(p1 + locale, p3, f);
    lemma_replace_concat(p1 + locale, p3, f, format);
    lemma_no_straddle_prefix(p1, locale, f);
    lemma_replace_concat(p1, locale, f, format);
    lemma_absent_first_char(p1, f);
    lemma_replace_absent(p1, f, format);
    lemma_replace_absent(locale, f, format);
    lemma_no_straddle_prefix(dot, f, f);
    lemma_replace_concat(dot, f, f, format);
    lemma_absent_first_char(dot, f);
    lemma_replace_absent(dot, f, format);
    lemma_replace_whole(f, format);
    assert(replace_all(r1, f, format) == (p1 + locale) + (dot + format));
    assert((p1 + locale) + (dot + format) =~= p1 + locale + dot + format);
}

/// The settings of a pull: the `--format` flag, else the `[pull]` format of
/// the config file, else `json`; the `--path` flag, else the config path,
/// else `./{locale}.{format}`; the export asks for that format with the
/// tag and status filters of the flags.
pub fn pull_plan(args: &PullArgs, config: &PullConfig) -> (plan: PullPlan)
    ensures
        Some(plan.format@) == first_present(
            opt_view(args.format),
            opt_view(config.format),
            Some(DEFAULT_FORMAT@),
        ),
        Some(plan.path_template@) == first_present(
            opt_view(args.path),
            opt_view(config.path),
            Some(DEFAULT_PATH_TEMPLATE@),
        ),
        opt_view(plan.params.format) == Some(plan.format@),
        plan.params.filter == args.filter,
        plan.params.status == args.status,
        plan.params.index is None,
{
    let format = match &args.format {
        Some(f) => f.clone(),
        None => match &config.format {
            Some(f) => f.clone(),
            None => owned(DEFAULT_FORMAT),
        },
    };
    let path_template = match &args.path {
        Some(p) => p.clone(),
        None => match &config.path {
            Some(p) => p.clone(),
            None => owned(DEFAULT_PATH_TEMPLATE),
        },
    };
    let params = ExportParams {
        format: Some(format.clone()),
        filter: args.filter.clone(),
        status: args.status.clone(),
        index: None,
    };
    PullPlan { format, path_template, params }
}

} // verus!
