//! `init`: the configuration file that the setup wizard writes.
use crate::text::{concat2, concat4};
use vstd::prelude::*;

verus! {

/// Export formats offered by the setup wizard, the first being the default.
pub const EXPORT_FORMATS: [&'static str; 7] = ["json", "po", "xlf", "strings", "yml", "xml", "csv"];

/// The output path proposed by the wizard for a format.
pub open spec fn default_output_path(format: Seq<char>) -> Seq<char> {
    "./locales/{locale}."@ + format
}

/// Proposes `./locales/{locale}.<format>` as output path.
pub fn proposed_output_path(format: &str) -> (res: String)
    ensures
        res@ == default_output_path(format@),
{
    concat2("./locales/{locale}.", format)
}

/// The contents of the `.loco.toml` written by the wizard.
pub open spec fn config_text(format: Seq<char>, path: Seq<char>) -> Seq<char> {
    "# Loco CLI configuration\n# See: https://localise.biz/api\n\n[pull]\nformat = \""@ + format
        + "\"\npath = \""@ + path + "\"\n\n[push]\n# index = \"id\"\n"@
}

/// Writes the configuration for the chosen format and path.
pub fn config_file_text(format: &str, path: &str) -> (res: String)
    ensures
        res@ == config_text(format@, path@),
{
    let mut text = concat4(
        "# Loco CLI configuration\n# See: https://localise.biz/api\n\n[pull]\nformat = \"",
        format,
        "\"\npath = \"",
        path,
    );
    text.append("\"\n\n[push]\n# index = \"id\"\n");
    text
}

} // verus!
