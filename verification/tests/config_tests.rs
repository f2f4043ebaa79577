use hookd::config::dynamic::DynamicConfig;
use hookd::config::loader::Loader;
use hookd::config::parse::{config_format_from_extension, ConfigFormat};
use hookd::config::static_conf::{Logging, Server, StaticConfig};
use hookd::config::Hook;
use hookd::model::CommandResult;

fn table(entries: Vec<(&str, Hook)>) -> Vec<(String, Hook)> {
    entries.into_iter().map(|(k, v)| (k.to_string(), v)).collect()
}

fn echo_hook() -> Hook {
    Hook {
        command: "echo".to_string(),
        method: Some("post".to_string()),
        auth: Some(vec!["ci".to_string(), "admin".to_string()]),
        args: Some(vec!["ok".to_string(), "now".to_string()]),
        env: None,
    }
}

#[test]
fn extensions_select_their_parsers() {
    assert_eq!(config_format_from_extension("yml"), Some(ConfigFormat::Yaml));
    assert_eq!(config_format_from_extension("yaml"), Some(ConfigFormat::Yaml));
    assert_eq!(config_format_from_extension("toml"), Some(ConfigFormat::Toml));
    assert_eq!(config_format_from_extension("json"), Some(ConfigFormat::Json));
}

#[test]
fn unknown_extensions_select_nothing() {
    assert_eq!(config_format_from_extension(""), None);
    assert_eq!(config_format_from_extension("ini"), None);
    assert_eq!(config_format_from_extension("YAML"), None);
    assert_eq!(config_format_from_extension("yamll"), None);
}

#[test]
fn effective_address_prefers_the_configured_one() {
    let cfg = StaticConfig {
        server: Some(Server { address: Some("127.0.0.1:9000".to_string()) }),
        logging: None,
    };
    assert_eq!(cfg.effective_address(), "127.0.0.1:9000");
}

#[test]
fn effective_address_falls_back_to_the_default() {
    let absent = StaticConfig { server: None, logging: Some(Logging { level: None }) };
    assert_eq!(absent.effective_address(), "0.0.0.0:8080");
    let empty = StaticConfig { server: Some(Server { address: None }), logging: None };
    assert_eq!(empty.effective_address(), "0.0.0.0:8080");
}

#[test]
fn render_lists_hooks_with_method_args_and_auth() {
    let cfg = DynamicConfig {
        auth: None,
        hooks: table(vec![("deploy", echo_hook())]),
    };
    assert_eq!(
        cfg.render(),
        "-> POST /deploy : echo ok now\n   Auth: ci, admin\n"
    );
}

#[test]
fn render_marks_open_hooks() {
    let mut open_hook = echo_hook();
    open_hook.method = None;
    open_hook.auth = None;
    open_hook.args = None;
    let mut listed_hook = echo_hook();
    listed_hook.auth = Some(vec![]);
    let cfg = DynamicConfig {
        auth: None,
        hooks: table(vec![("a", open_hook), ("b", listed_hook)]),
    };
    assert_eq!(
        cfg.render(),
        "-> ANY /a : echo\n   Auth: NONE\n-> POST /b : echo ok now\n   Auth: NONE\n"
    );
}

#[test]
fn render_of_an_empty_table_is_empty() {
    let cfg = DynamicConfig { auth: None, hooks: Vec::new() };
    assert_eq!(cfg.render(), "");
}

#[test]
fn fresh_loader_serves_its_first_snapshot() {
    let cfg = DynamicConfig { auth: None, hooks: table(vec![("a", echo_hook())]) };
    let loader = Loader::new(cfg, 1000);
    assert_eq!(loader.get_cached().hooks[0].0, "a");
    assert_eq!(loader.last_modified, 1000);
}

#[test]
fn reads_are_idempotent_while_the_file_is_unchanged() {
    let cfg = DynamicConfig { auth: None, hooks: table(vec![("a", echo_hook())]) };
    let loader = Loader::new(cfg, 1000);
    // Same observed modification time twice: the same cached snapshot both
    // times, no reload asked for.
    let first = loader.get(1000).expect("cached");
    assert_eq!(first.hooks[0].0, "a");
    let second = loader.get(1000).expect("cached");
    assert_eq!(second.hooks[0].0, "a");
    // An older observed time also short-circuits to the cache.
    assert!(loader.get(999).is_some());
}

#[test]
fn staleness_is_detected_and_a_reload_installs_the_fresh_table() {
    let old = DynamicConfig { auth: None, hooks: table(vec![("a", echo_hook())]) };
    let mut loader = Loader::new(old, 1000);
    // The file advanced: the cache must not be served.
    assert!(loader.get(2000).is_none());
    // Before the reload lands, the cached accessor still holds the old table.
    assert_eq!(loader.get_cached().hooks[0].0, "a");
    let fresh = DynamicConfig { auth: None, hooks: table(vec![("b", echo_hook())]) };
    loader.install(fresh, 2000);
    let now = loader.get(2000).expect("fresh snapshot");
    assert_eq!(now.hooks[0].0, "b");
    assert_eq!(loader.get_cached().hooks[0].0, "b");
}

#[test]
fn failed_reload_leaves_the_old_snapshot_in_effect() {
    // A parse failure never reaches install: the loader still asks for a
    // reload, and the cache still serves the previous good snapshot.
    let old = DynamicConfig { auth: None, hooks: table(vec![("a", echo_hook())]) };
    let loader = Loader::new(old, 1000);
    assert!(loader.get(2000).is_none());
    assert_eq!(loader.get_cached().hooks[0].0, "a");
    assert!(loader.get(2000).is_none());
}

#[test]
fn command_result_decodes_utf8_output() {
    let r = CommandResult::from_output_parts(b"ok\n".to_vec(), Vec::new(), Some(0))
        .expect("utf8 output");
    assert_eq!(r.stdout.as_deref(), Some("ok\n"));
    assert_eq!(r.stderr.as_deref(), Some(""));
    assert_eq!(r.status_code, Some(0));
}

#[test]
fn command_result_refuses_non_utf8_output() {
    assert!(CommandResult::from_output_parts(vec![0xff, 0x00], Vec::new(), Some(0)).is_none());
    assert!(CommandResult::from_output_parts(Vec::new(), vec![0xc0, 0x80], Some(1)).is_none());
}

#[test]
fn command_result_keeps_a_signal_death_codeless() {
    let r = CommandResult::from_output_parts(Vec::new(), Vec::new(), None).expect("empty output");
    assert_eq!(r.status_code, None);
}

#[test]
fn status_only_result_carries_no_output() {
    let r = CommandResult::from_status_code(Some(7));
    assert!(r.stdout.is_none());
    assert!(r.stderr.is_none());
    assert_eq!(r.status_code, Some(7));
}

#[test]
fn default_command_result_is_empty() {
    let r = CommandResult::default();
    assert!(r.stdout.is_none());
    assert!(r.stderr.is_none());
    assert!(r.status_code.is_none());
}
