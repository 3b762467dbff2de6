//! Command-line arguments of the client and the parsing of `LOCALE=TEXT` pairs.
use crate::text::{chars_of, concat2, find_char, first_index_of, lemma_first_index_of, lemma_first_index_unique, owned, string_from_range};
use vstd::prelude::*;

verus! {

/// What `parse_translation` makes of an argument: the text before the first
/// `=` is the locale, the rest is the translation; the locale may not be empty.
pub open spec fn translation_pair(s: Seq<char>) -> Result<(Seq<char>, Seq<char>), Seq<char>> {
    match first_index_of(s, '=') {
        None => Err("expected LOCALE=TEXT, got: "@ + s),
        Some(i) => if i == 0 {
            Err("locale cannot be empty"@)
        } else {
            Ok((s.take(i), s.skip(i + 1)))
        },
    }
}

/// Splits a `LOCALE=TEXT` argument at its first `=`.
pub fn parse_translation(s: &str) -> (res: Result<(String, String), String>)
    ensures
        match res {
            Ok((locale, text)) => translation_pair(s@) == Ok::<(Seq<char>, Seq<char>), Seq<char>>(
                (locale@, text@),
            ),
            Err(msg) => translation_pair(s@) == Err::<(Seq<char>, Seq<char>), Seq<char>>(msg@),
        },
{
    let v = chars_of(s);
    match find_char(&v, '=') {
        None => Err(concat2("expected LOCALE=TEXT, got: ", s)),
        Some(i) => {
            if i == 0 {
                Err(owned("locale cannot be empty"))
            } else {
                let locale = string_from_range(&v, 0, i);
                let n = v.len();
                let text = string_from_range(&v, i + 1, n);
                assert(locale@ =~= s@.take(i as int));
                assert(text@ =~= s@.skip(i + 1));
                Ok((locale, text))
            }
        },
    }
}

/// A locale without `=` joined to any text by `=` parses back into the same
/// locale and text.
pub proof fn law_translation_pair_round_trip(locale: Seq<char>, text: Seq<char>)
    requires
        locale.len() > 0,
        !locale.contains('='),
    ensures
        translation_pair(locale + seq!['='] + text) == Ok::<(Seq<char>, Seq<char>), Seq<char>>(
            (locale, text),
        ),
{
    let s = locale + seq!['='] + text;
    assert(s.take(locale.len() as int) =~= locale);
    lemma_first_index_unique(s, '=', locale.len() as int);
    assert(s.skip(locale.len() as int + 1) =~= text);
}

/// An argument is refused exactly when it has no `=` or starts with `=`.
pub proof fn law_translation_pair_refusal(s: Seq<char>)
    ensures
        translation_pair(s) is Err <==> (!s.contains('=') || s[0] == '=') && (s.len() > 0 || !s.contains('=')),
{
    lemma_first_index_of(s, '=');
    if s.len() > 0 && s[0] == '=' {
        assert(s.take(0) =~= Seq::<char>::empty());
        lemma_first_index_unique(s, '=', 0);
    }
}

/// Arguments of `pull`.
#[derive(Debug)]
pub struct PullArgs {
    /// Export format (json, po, xlf, strings, yml, etc.)
    pub format: Option<String>,
    /// Single locale code to export (default: all)
    pub locale: Option<String>,
    /// Output path template (`{locale}` and `{format}` placeholders)
    pub path: Option<String>,
    /// Filter by tag
    pub filter: Option<String>,
    /// Filter by translation status
    pub status: Option<String>,
}

/// Arguments of `push`.
#[derive(Debug)]
pub struct PushArgs {
    /// File to upload
    pub file: String,
    /// Locale of the file
    pub locale: Option<String>,
    /// Format hint (e.g. json, po, xlf)
    pub format: Option<String>,
    /// Tag new assets with this tag
    pub tag_new: Option<String>,
    /// Run import asynchronously
    pub is_async: bool,
    /// Key mapping: "id" or "text"
    pub index: Option<String>,
}

/// Arguments of `status`.
#[derive(Debug)]
pub struct StatusArgs {
    /// Show progress for a specific locale
    pub locale: Option<String>,
}

/// Subcommands of `auth`.
#[derive(Debug)]
pub enum AuthCommand {
    /// Verify your API key
    Verify,
    /// Set up and save your API key
    Init,
}

/// Subcommands of `strings`.
#[allow(inconsistent_fields)]
#[derive(Debug)]
pub enum StringCommand {
    /// List all strings
    List { filter: Option<String> },
    /// Get string details (optionally for a single locale)
    Get { id: String, locale: Option<String> },
    /// Add a new string with translations
    Add {
        id: String,
        translations: Vec<(String, String)>,
        asset_type: Option<String>,
        context: Option<String>,
        notes: Option<String>,
        update: bool,
    },
    /// Delete a string and all its translations
    Delete { id: String, force: bool },
    /// Set translations for a string (the `set` subcommand)
    SetTranslations { id: String, translations: Vec<(String, String)>, create: bool },
    /// Remove a single translation
    Rm { id: String, locale: String },
    /// Add a tag to a string
    Tag { id: String, tag: String },
    /// Remove a tag from a string
    Untag { id: String, tag: String },
    /// Flag a translation
    Flag { id: String, locale: String, flag: Option<String> },
    /// Unflag a translation
    Unflag { id: String, locale: String },
}

/// Subcommands of `assets`.
#[allow(inconsistent_fields)]
#[derive(Debug)]
pub enum AssetCommand {
    /// List all assets, or the translations of one asset
    List { id: Option<String>, filter: Option<String> },
    /// Get asset details with translations
    Get { id: String },
    /// Create a new asset, optionally with translations
    Create {
        id: String,
        text: Option<String>,
        asset_type: Option<String>,
        context: Option<String>,
        notes: Option<String>,
        translate: Vec<(String, String)>,
        update: bool,
    },
    /// Set a translation for an asset (the `set` subcommand)
    SetTranslation { id: String, locale: String, text: String, create: bool },
    /// Delete an asset
    Delete { id: String },
    /// Add a tag to an asset
    Tag { id: String, tag: String },
    /// Remove a tag from an asset
    Untag { id: String, tag: String },
}

/// Subcommands of `translations`.
#[derive(Debug)]
pub enum TranslationCommand {
    /// List translations for an asset
    List { asset_id: String },
    /// Get a specific translation
    Get { asset_id: String, locale: String },
    /// Set a translation value (the `set` subcommand)
    SetTranslation { asset_id: String, locale: String, text: String },
    /// Delete a translation
    Delete { asset_id: String, locale: String },
    /// Flag a translation
    Flag { asset_id: String, locale: String, flag: Option<String> },
    /// Unflag a translation
    Unflag { asset_id: String, locale: String },
}

/// Subcommands of `locales`.
#[derive(Debug)]
pub enum LocaleCommand {
    /// List all locales
    List,
    /// Get locale details
    Get { code: String },
    /// Create a new locale
    Create { code: String },
    /// Delete a locale
    Delete { code: String, force: bool },
}

/// Subcommands of `tags`.
#[derive(Debug)]
pub enum TagCommand {
    /// List all tags
    List,
    /// Create a tag
    Create { name: String },
    /// Rename a tag
    Rename { old: String, new: String },
    /// Delete a tag
    Delete { name: String, force: bool },
}

} // verus!
