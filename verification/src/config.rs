//! Configuration: the `.loco.toml` file and how its settings combine with
//! command-line flags and environment variables.
use crate::error::LocoError;
use crate::text::{opt_str_view, opt_view, owned};
use vstd::prelude::*;

verus! {

/// `std::path::PathBuf`, carried opaquely as the location of the config file.
#[verifier::external_type_specification]
#[verifier::external_body]
pub struct ExPathBuf(std::path::PathBuf);

/// Name of the configuration file looked up from the working directory upwards.
pub const CONFIG_FILENAME: &'static str = ".loco.toml";

/// API address used when `LOCO_API_URL` is not set.
pub const DEFAULT_BASE_URL: &'static str = "https://localise.biz/api";

/// Message of the error raised when no API key can be found.
pub const MISSING_KEY_MESSAGE: &'static str = "No API key found. Set LOCO_API_KEY env var, use --key, or add to .loco.toml";

/// Contents of a `.loco.toml` file; every section may be absent.
#[derive(Debug, Default)]
pub struct ConfigFile {
    pub api: ApiConfig,
    pub pull: PullConfig,
    pub push: PushConfig,
}

/// The `[api]` section.
#[derive(Debug, Default)]
pub struct ApiConfig {
    pub key: Option<String>,
}

/// The `[pull]` section.
#[derive(Debug, Default)]
pub struct PullConfig {
    pub format: Option<String>,
    pub path: Option<String>,
}

/// The `[push]` section.
#[derive(Debug, Default)]
pub struct PushConfig {
    pub index: Option<String>,
}

/// Settings in force for one run.
#[derive(Debug)]
pub struct ResolvedConfig {
    pub api_key: String,
    pub base_url: String,
    pub pull: PullConfig,
    pub push: PushConfig,
    pub config_path: Option<std::path::PathBuf>,
}

/// The first value that is present, in the order given.
pub open spec fn first_present(
    a: Option<Seq<char>>,
    b: Option<Seq<char>>,
    c: Option<Seq<char>>,
) -> Option<Seq<char>> {
    if a is Some {
        a
    } else if b is Some {
        b
    } else {
        c
    }
}

/// The API key in force: the `--key` flag, else `LOCO_API_KEY`, else the
/// key of the config file.
pub open spec fn chosen_key(
    cli_key: Option<Seq<char>>,
    env_key: Option<Seq<char>>,
    file_key: Option<Seq<char>>,
) -> Option<Seq<char>> {
    first_present(cli_key, env_key, file_key)
}

/// The API address in force: `LOCO_API_URL` when set, else the default.
pub open spec fn chosen_base_url(env_url: Option<Seq<char>>) -> Seq<char> {
    match env_url {
        Some(u) => u,
        None => DEFAULT_BASE_URL@,
    }
}

impl ResolvedConfig {
    /// Merges the settings of one run: CLI flags > env vars > config file >
    /// defaults. `env_key` and `env_base_url` are the values of
    /// `LOCO_API_KEY` and `LOCO_API_URL`, `file` the config file that was
    /// found (or the default one) and `config_path` where it was found.
    pub fn load(
        cli_key: Option<&str>,
        env_key: Option<String>,
        file: ConfigFile,
        env_base_url: Option<String>,
        config_path: Option<std::path::PathBuf>,
    ) -> (res: Result<Self, LocoError>)
        ensures
            match res {
                Ok(cfg) => {
                    &&& chosen_key(opt_str_view(cli_key), opt_view(env_key), opt_view(file.api.key))
                        == Some(cfg.api_key@)
                    &&& cfg.base_url@ == chosen_base_url(opt_view(env_base_url))
                    &&& cfg.pull == file.pull
                    &&& cfg.push == file.push
                    &&& cfg.config_path == config_path
                },
                Err(e) => {
                    &&& chosen_key(opt_str_view(cli_key), opt_view(env_key), opt_view(file.api.key))
                        is None
                    &&& e matches LocoError::Config(m) && m@ == MISSING_KEY_MESSAGE@
                },
            },
    {
        let api_key = match cli_key {
            Some(k) => owned(k),
            None => match env_key {
                Some(k) => k,
                None => match file.api.key {
                    Some(k) => k,
                    None => {
                        return Err(LocoError::Config(owned(MISSING_KEY_MESSAGE)));
                    },
                },
            },
        };
        let base_url = match env_base_url {
            Some(u) => u,
            None => owned(DEFAULT_BASE_URL),
        };
        Ok(ResolvedConfig { api_key, base_url, pull: file.pull, push: file.push, config_path })
    }
}

/// Resolution order of the API key: a key given with `--key` is always the
/// one used; without it `LOCO_API_KEY` wins over the config file; a key is
/// missing only when none of the three gives one.
pub proof fn law_key_resolution_order(
    cli_key: Option<Seq<char>>,
    env_key: Option<Seq<char>>,
    file_key: Option<Seq<char>>,
)
    ensures
        cli_key is Some ==> chosen_key(cli_key, env_key, file_key) == cli_key,
        cli_key is None && env_key is Some ==> chosen_key(cli_key, env_key, file_key) == env_key,
        cli_key is None && env_key is None ==> chosen_key(cli_key, env_key, file_key) == file_key,
        chosen_key(cli_key, env_key, file_key) is None <==> (cli_key is None && env_key is None
            && file_key is None),
{
}

/// What to do next when looking for the config file.
#[derive(Debug, Clone, Copy, PartialEq, Eq)]
pub enum LookupAction {
    /// Read the candidate file.
    Read,
    /// Try `.loco.toml` in the parent directory.
    Parent,
    /// Use the default settings: there is no config file.
    Defaults,
}

/// The next move of the config file lookup. A path given with `--config`
/// is the only candidate: when it does not exist the defaults are used.
/// Otherwise `.loco.toml` is looked for in the working directory and then
/// in each parent in turn, until one exists or there is no parent left.
pub fn lookup_step(explicit: bool, candidate_exists: bool, has_parent: bool) -> (a: LookupAction)
    ensures
        candidate_exists ==> a == LookupAction::Read,
        !candidate_exists && explicit ==> a == LookupAction::Defaults,
        !candidate_exists && !explicit && has_parent ==> a == LookupAction::Parent,
        !candidate_exists && !explicit && !has_parent ==> a == LookupAction::Defaults,
{
    if candidate_exists {
        LookupAction::Read
    } else if explicit || !has_parent {
        LookupAction::Defaults
    } else {
        LookupAction::Parent
    }
}

/// The API address is `LOCO_API_URL` when it is set, whatever it holds,
/// and `https://localise.biz/api` otherwise.
pub proof fn law_base_url_choice(env_url: Option<Seq<char>>)
    ensures
        env_url matches Some(u) ==> chosen_base_url(env_url) == u,
        env_url is None ==> chosen_base_url(env_url) == "https://localise.biz/api"@,
{
}

} // verus!
