//! What the bot makes of a connection's options before it starts its plugins.
use vstd::prelude::*;

use crate::text::{chars_of, split_chars, split_on, string_from_chars, trim_chars, trimmed, views};

verus! {

/// The options of one connection, as the configuration gives them.
pub struct BotOptions {
    pub disabled_plugins: Option<String>,
    pub prefix: Option<String>,
    pub mysql_url: Option<String>,
    pub ollama_url: Option<String>,
    pub ollama_model: Option<String>,
    pub urls_whitelisted: Option<String>,
}

/// Where a language model is served, and which one.
pub struct OllamaTarget {
    pub url: String,
    pub model: String,
}

/// How the bot is set up for one connection.
pub struct BotSettings {
    /// The names of the plugins to remove, if any were named.
    pub disabled_plugins: Option<Vec<String>>,
    /// What starts a command.
    pub prefix: String,
    /// The database to use.
    pub mysql_url: String,
    /// The model to chat with, when both its address and its name are set.
    pub ollama: Option<OllamaTarget>,
    /// The hosts whose link titles may be shown.
    pub urls_whitelisted: Vec<String>,
}

/// Each piece trimmed of white space.
pub open spec fn trimmed_all(parts: Seq<Seq<char>>) -> Seq<Seq<char>> {
    parts.map_values(|p: Seq<char>| trimmed(p))
}

/// The optional text `o`.
pub open spec fn opt_view(o: Option<String>) -> Option<Seq<char>> {
    match o {
        Some(s) => Some(s@),
        None => None,
    }
}

/// The options are usable: a connection needs a database.
pub open spec fn settings_error(options: Option<BotOptions>) -> Option<Seq<char>> {
    match options {
        None => Some("Must set mysql_url option"@),
        Some(o) => if o.mysql_url is None {
            Some("Must set mysql_url"@)
        } else {
            None
        },
    }
}

/// `settings` are what the options `o` ask for: the disabled plugins are the
/// comma-separated names, trimmed; the prefix defaults to `.`; the model is
/// used only when both its address and name are given; the whitelisted hosts
/// are the comma-separated pieces of the option (one empty piece if unset).
pub open spec fn settings_for(o: BotOptions, settings: BotSettings) -> bool {
    &&& match (o.disabled_plugins, settings.disabled_plugins) {
        (Some(d), Some(names)) => views(names@) == trimmed_all(split_on(d@, ',')),
        (None, None) => true,
        _ => false,
    }
    &&& settings.prefix@ == match o.prefix {
        Some(p) => p@,
        None => "."@,
    }
    &&& Some(settings.mysql_url@) == opt_view(o.mysql_url)
    &&& match (o.ollama_url, o.ollama_model, settings.ollama) {
        (Some(u), Some(m), Some(t)) => t.url@ == u@ && t.model@ == m@,
        (Some(_), Some(_), None) => false,
        (_, _, Some(_)) => false,
        _ => true,
    }
    &&& views(settings.urls_whitelisted@) == split_on(
        match o.urls_whitelisted {
            Some(u) => u@,
            None => Seq::<char>::empty(),
        },
        ',',
    )
}

fn trim_all(parts: Vec<String>) -> (r: Vec<String>)
    ensures
        views(r@) == trimmed_all(views(parts@)),
{
    let mut r: Vec<String> = Vec::new();
    let mut i: usize = 0;
    while i < parts.len()
        invariant
            i <= parts@.len(),
            views(r@) == trimmed_all(views(parts@.take(i as int))),
        decreases parts@.len() - i,
    {
        let cs = chars_of(parts[i].as_str());
        let t = trim_chars(cs.as_slice());
        let ghost before = r@;
        r.push(string_from_chars(t.as_slice()));
        proof {
            assert(views(r@) =~= views(before).push(t@));
            assert(trimmed_all(views(parts@.take(i + 1))) =~= trimmed_all(
                views(parts@.take(i as int)),
            ).push(trimmed(parts@[i as int]@)));
        }
        i = i + 1;
    }
    proof {
        assert(parts@.take(parts@.len() as int) == parts@);
    }
    r
}

/// How the bot is set up for a connection with these options (the first
/// part of `run`'s work for each configuration).
pub fn bot_settings(options: Option<BotOptions>) -> (r: Result<BotSettings, String>)
    ensures
        match (r, settings_error(options)) {
            (Err(m), Some(t)) => m@ == t,
            (Ok(s), None) => settings_for(options->Some_0, s),
            _ => false,
        },
{
    let o = match options {
        None => return Err("Must set mysql_url option".to_owned()),
        Some(o) => o,
    };
    let disabled_plugins = match &o.disabled_plugins {
        Some(d) => {
            let cs = chars_of(d.as_str());
            let parts = split_chars(cs.as_slice(), ',');
            Some(trim_all(parts))
        },
        None => None,
    };
    let prefix = match &o.prefix {
        Some(p) => p.clone(),
        None => ".".to_owned(),
    };
    let mysql_url = match &o.mysql_url {
        Some(u) => u.clone(),
        None => return Err("Must set mysql_url".to_owned()),
    };
    let ollama = match (&o.ollama_url, &o.ollama_model) {
        (Some(u), Some(m)) => Some(OllamaTarget { url: u.clone(), model: m.clone() }),
        _ => None,
    };
    let urls = match &o.urls_whitelisted {
        Some(u) => chars_of(u.as_str()),
        None => Vec::new(),
    };
    let urls_whitelisted = split_chars(urls.as_slice(), ',');
    Ok(BotSettings { disabled_plugins, prefix, mysql_url, ollama, urls_whitelisted })
}

/// Without a configuration the bot would only idle: at least one is needed.
pub fn require_configs(count: usize) -> (r: Result<(), String>)
    ensures
        count == 0 <==> r is Err,
        r matches Err(m) ==> m@ == "No config file was found"@,
{
    if count == 0 {
        Err("No config file was found".to_owned())
    } else {
        Ok(())
    }
}

} // verus!
