use loco_cli::config::{lookup_step, LookupAction};
use loco_cli::config::{
    ApiConfig, ConfigFile, PullConfig, PushConfig, ResolvedConfig, DEFAULT_BASE_URL,
    MISSING_KEY_MESSAGE,
};
use loco_cli::error::LocoError;

fn file_with_key(key: Option<&str>) -> ConfigFile {
    ConfigFile {
        api: ApiConfig { key: key.map(|k| k.to_string()) },
        pull: PullConfig::default(),
        push: PushConfig::default(),
    }
}

#[test]
fn load_with_env_var() {
    let key = "env-key-12345";
    // No config file at "/nonexistent/.loco.toml": the default file is used.
    let cfg = ResolvedConfig::load(None, Some(key.to_string()), ConfigFile::default(), None, None);
    let cfg = cfg.unwrap();
    assert_eq!(cfg.api_key, key);
}

#[test]
fn load_with_config_file() {
    let cfg = ResolvedConfig::load(None, None, file_with_key(Some("file-key-abc")), None, None).unwrap();
    assert_eq!(cfg.api_key, "file-key-abc");
}

#[test]
fn load_cli_key_takes_precedence() {
    let cfg = ResolvedConfig::load(
        Some("cli-key"),
        Some("env-key".to_string()),
        ConfigFile::default(),
        None,
        None,
    );
    let cfg = cfg.unwrap();
    assert_eq!(cfg.api_key, "cli-key");
}

#[test]
fn load_missing_key_returns_error() {
    let result = ResolvedConfig::load(None, None, ConfigFile::default(), None, None);
    assert!(result.is_err());
    let err = result.unwrap_err();
    assert!(matches!(err, LocoError::Config(_)));
}

#[test]
fn pull_missing_api_key() {
    let result = ResolvedConfig::load(
        None,
        None,
        ConfigFile::default(),
        Some("http://127.0.0.1:1".to_string()),
        None,
    );
    match result {
        Err(LocoError::Config(msg)) => {
            assert_eq!(msg, MISSING_KEY_MESSAGE);
            assert!(msg.contains("API key"));
        }
        _ => panic!("expected a configuration error"),
    }
}

#[test]
fn env_key_wins_over_file_key() {
    let cfg = ResolvedConfig::load(
        None,
        Some("env-key".to_string()),
        file_with_key(Some("file-key")),
        None,
        None,
    )
    .unwrap();
    assert_eq!(cfg.api_key, "env-key");
}

#[test]
fn cli_key_wins_over_env_and_file() {
    let cfg = ResolvedConfig::load(
        Some("cli"),
        Some("env".to_string()),
        file_with_key(Some("file")),
        None,
        None,
    )
    .unwrap();
    assert_eq!(cfg.api_key, "cli");
}

#[test]
fn base_url_defaults_and_env_override() {
    let cfg = ResolvedConfig::load(Some("k"), None, ConfigFile::default(), None, None).unwrap();
    assert_eq!(cfg.base_url, DEFAULT_BASE_URL);
    assert_eq!(cfg.base_url, "https://localise.biz/api");
    let cfg = ResolvedConfig::load(
        Some("k"),
        None,
        ConfigFile::default(),
        Some("http://localhost:9999".to_string()),
        None,
    )
    .unwrap();
    assert_eq!(cfg.base_url, "http://localhost:9999");
}

#[test]
fn file_sections_are_kept() {
    let file = ConfigFile {
        api: ApiConfig { key: Some("k".to_string()) },
        pull: PullConfig { format: Some("po".to_string()), path: Some("./l/{locale}.po".to_string()) },
        push: PushConfig { index: Some("id".to_string()) },
    };
    let cfg = ResolvedConfig::load(None, None, file, None, None).unwrap();
    assert_eq!(cfg.pull.format.as_deref(), Some("po"));
    assert_eq!(cfg.pull.path.as_deref(), Some("./l/{locale}.po"));
    assert_eq!(cfg.push.index.as_deref(), Some("id"));
    assert!(cfg.config_path.is_none());
}

#[test]
fn config_path_is_kept() {
    let path = std::path::PathBuf::from("/tmp/project/.loco.toml");
    let cfg = ResolvedConfig::load(Some("k"), None, ConfigFile::default(), None, Some(path.clone())).unwrap();
    assert_eq!(cfg.config_path, Some(path));
}

#[test]
fn empty_env_key_is_still_a_key() {
    let cfg = ResolvedConfig::load(None, Some(String::new()), file_with_key(Some("file")), None, None).unwrap();
    assert_eq!(cfg.api_key, "");
}

#[test]
fn config_lookup_steps() {
    assert_eq!(lookup_step(true, true, true), LookupAction::Read);
    assert_eq!(lookup_step(false, true, false), LookupAction::Read);
    assert_eq!(lookup_step(true, false, true), LookupAction::Defaults);
    assert_eq!(lookup_step(false, false, true), LookupAction::Parent);
    assert_eq!(lookup_step(false, false, false), LookupAction::Defaults);
}
