use frippy::config::{bot_settings, require_configs, BotOptions};

fn options() -> BotOptions {
    BotOptions {
        disabled_plugins: None,
        prefix: None,
        mysql_url: Some("mysql://localhost/frippy".to_string()),
        ollama_url: None,
        ollama_model: None,
        urls_whitelisted: None,
    }
}

#[test]
fn database_is_required() {
    assert_eq!(bot_settings(None).err(), Some("Must set mysql_url option".to_string()));
    let mut o = options();
    o.mysql_url = None;
    assert_eq!(bot_settings(Some(o)).err(), Some("Must set mysql_url".to_string()));
}

#[test]
fn defaults() {
    let s = bot_settings(Some(options())).ok().unwrap();
    assert_eq!(s.prefix, ".");
    assert_eq!(s.mysql_url, "mysql://localhost/frippy");
    assert!(s.disabled_plugins.is_none());
    assert!(s.ollama.is_none());
    assert_eq!(s.urls_whitelisted, vec![String::new()]);
}

#[test]
fn options_are_read() {
    let mut o = options();
    o.disabled_plugins = Some(" Help, Sed ,\tTell ".to_string());
    o.prefix = Some("!".to_string());
    o.ollama_url = Some("http://h".to_string());
    o.ollama_model = Some("m".to_string());
    o.urls_whitelisted = Some("a.org,b.org".to_string());
    let s = bot_settings(Some(o)).ok().unwrap();
    assert_eq!(s.disabled_plugins, Some(vec!["Help".to_string(), "Sed".to_string(), "Tell".to_string()]));
    assert_eq!(s.prefix, "!");
    let ollama = s.ollama.unwrap();
    assert_eq!(ollama.url, "http://h");
    assert_eq!(ollama.model, "m");
    assert_eq!(s.urls_whitelisted, vec!["a.org".to_string(), "b.org".to_string()]);
}

#[test]
fn model_needs_url_and_name() {
    let mut o = options();
    o.ollama_url = Some("http://h".to_string());
    assert!(bot_settings(Some(o)).ok().unwrap().ollama.is_none());
}

#[test]
fn configs_are_required() {
    assert_eq!(require_configs(0), Err("No config file was found".to_string()));
    assert_eq!(require_configs(2), Ok(()));
}
