//! `push`: how a local file is imported and how an asynchronous import is
//! followed.
use crate::cli::PushArgs;
use crate::client::endpoints::ImportParams;
use crate::config::{first_present, PushConfig};
use crate::models::ImportProgress;
use crate::text::{opt_as_str, opt_str_view, opt_view, owned};
use vstd::prelude::*;

verus! {

/// The extension of the last component of a path, as std's
/// `Path::extension` finds it.
pub uninterp spec fn path_extension(path: Seq<char>) -> Option<Seq<char>>;

/// `std::path::Path::extension` of a path given as text, read back as text.
/// Claimed: the result is `path_extension` of the path. A path that is a
/// `&str` has a UTF-8 extension, so reading it back as text never fails.
#[verifier::external_body]
fn file_extension(path: &str) -> (res: Option<String>)
    ensures
        opt_view(res) == path_extension(path@),
{
    std::path::Path::new(path).extension().and_then(|e| e.to_str()).map(|e| e.to_string())
}

/// Import format used when neither the flag nor the file name gives one.
pub const DEFAULT_IMPORT_EXT: &'static str = "json";

/// The settings of one push: the import format and the key mapping.
#[derive(Debug)]
pub struct PushPlan {
    pub ext: String,
    pub index: Option<String>,
}

/// The settings of a push: the format is the `--format` flag, else the
/// extension of the file, else `json`; the key mapping is the `--index`
/// flag, else the `[push]` index of the config file.
pub fn push_plan(args: &PushArgs, config: &PushConfig) -> (plan: PushPlan)
    ensures
        Some(plan.ext@) == first_present(
            opt_view(args.format),
            path_extension(args.file@),
            Some(DEFAULT_IMPORT_EXT@),
        ),
        opt_view(plan.index) == first_present(opt_view(args.index), opt_view(config.index), None),
{
    let ext = match &args.format {
        Some(f) => f.clone(),
        None => match file_extension(args.file.as_str()) {
            Some(e) => e,
            None => owned(DEFAULT_IMPORT_EXT),
        },
    };
    let index = match &args.index {
        Some(i) => Some(i.clone()),
        None => config.index.clone(),
    };
    PushPlan { ext, index }
}

/// The import of a file's contents under a push plan: the format and key
/// mapping of the plan, and the locale, format hint, tag and async switch of
/// the flags.
pub fn import_params<'a>(args: &'a PushArgs, plan: &'a PushPlan, body: Vec<u8>) -> (p: ImportParams<'a>)
    ensures
        p.ext@ == plan.ext@,
        p.body == body,
        opt_str_view(p.locale) == opt_view(args.locale),
        opt_str_view(p.index) == opt_view(plan.index),
        opt_str_view(p.format) == opt_view(args.format),
        opt_str_view(p.tag_new) == opt_view(args.tag_new),
        p.is_async == args.is_async,
{
    ImportParams {
        ext: plan.ext.as_str(),
        body,
        locale: opt_as_str(&args.locale),
        index: opt_as_str(&plan.index),
        format: opt_as_str(&args.format),
        tag_new: opt_as_str(&args.tag_new),
        is_async: args.is_async,
    }
}

/// What to do after reading the progress of an asynchronous import.
#[derive(Debug)]
pub enum PollAction {
    /// Not finished: wait a second and ask again.
    Wait,
    /// Finished without error.
    Complete,
    /// Finished with the given error.
    Failed(String),
}

/// Follows an asynchronous import: it is finished once its progress reaches
/// 100, failed when it then reports an error.
pub fn poll_step(progress: &ImportProgress) -> (action: PollAction)
    ensures
        progress.progress < 100 <==> action is Wait,
        progress.progress >= 100 ==> match progress.error {
            Some(e) => action matches PollAction::Failed(m) && m@ == e@,
            None => action is Complete,
        },
{
    if progress.progress >= 100 {
        match &progress.error {
            Some(e) => PollAction::Failed(e.clone()),
            None => PollAction::Complete,
        }
    } else {
        PollAction::Wait
    }
}

} // verus!
