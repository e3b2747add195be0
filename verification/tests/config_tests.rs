use matrix_bot::config::{Config, MatrixListenerConfig, SpellCheckKind, WebhookListenerConfig};
use matrix_bot::errors::ConfigError;
use matrix_bot::resolve::{
    load_admin_settings, load_ban_room_settings, load_github_settings, load_help_settings,
    load_linker_settings, load_spell_correct_settings, load_text_expansions,
    load_unit_conversion_settings, load_user_agent,
};
use matrix_bot::schema::{RawConfig, RawGeneral, RawGithubAuthentication, RawMatrixAuthentication};

fn base_raw() -> RawConfig {
    RawConfig {
        general: RawGeneral {
            authorized_users: Some(vec!["@admin:example.com".to_string()]),
            help_rooms: None,
            ban_rooms: None,
            enable_unit_conversions: true,
            enable_corrections: false,
            unit_conversion_exclusion: None,
            insensitive_corrections: None,
            sensitive_corrections: None,
            correction_text: None,
            correction_exclusion: None,
            link_matchers: None,
            webhook_token: "hunter2".to_string(),
        },
        matrix_authentication: RawMatrixAuthentication {
            url: "https://matrix.example.com".to_string(),
            username: "@bot:example.com".to_string(),
            password: "pw".to_string(),
        },
        github_authentication: None,
        searchable_repos: None,
        linkable_urls: None,
        text_expansion: None,
        group_pings: None,
    }
}

#[test]
fn github_repos_and_token_resolve_to_input() {
    let mut raw = base_raw();
    raw.searchable_repos = Some(vec![("bot".to_string(), "org/bot".to_string())]);
    raw.github_authentication = Some(RawGithubAuthentication { access_token: "tok".to_string() });
    let (repos, token) = load_github_settings(&raw).unwrap();
    assert_eq!(repos, vec![("bot".to_string(), "org/bot".to_string())]);
    assert_eq!(token, "tok".to_string());
    assert!(!token.is_empty());
}

#[test]
fn github_repos_without_token_is_inconsistent() {
    let mut raw = base_raw();
    raw.searchable_repos = Some(vec![("bot".to_string(), "org/bot".to_string())]);
    raw.github_authentication = None;
    let r = load_github_settings(&raw);
    assert!(matches!(r, Err(ConfigError::InconsistentFeatureConfiguration(_))));
}

#[test]
fn github_absent_repos_disables_feature() {
    let raw = base_raw();
    let (repos, token) = load_github_settings(&raw).unwrap();
    assert!(repos.is_empty());
    assert!(token.is_empty());
}

#[test]
fn linker_urls_and_matchers_resolve() {
    let mut raw = base_raw();
    raw.linkable_urls = Some(vec![("docs".to_string(), "https://docs.example.com/".to_string())]);
    raw.general.link_matchers = Some(vec!["link".to_string()]);
    let (matchers, links) = load_linker_settings(&raw).unwrap();
    assert_eq!(matchers, vec!["link".to_string()]);
    assert_eq!(links, vec![("docs".to_string(), "https://docs.example.com/".to_string())]);
}

#[test]
fn linker_empty_urls_with_matchers_is_inconsistent() {
    let mut raw = base_raw();
    raw.linkable_urls = Some(Vec::new());
    raw.general.link_matchers = Some(vec!["link".to_string()]);
    let r = load_linker_settings(&raw);
    assert!(matches!(r, Err(ConfigError::InconsistentFeatureConfiguration(_))));
}

#[test]
fn linker_without_matchers_is_disabled() {
    let mut raw = base_raw();
    raw.linkable_urls = Some(vec![("docs".to_string(), "https://docs.example.com/".to_string())]);
    raw.general.link_matchers = None;
    let (matchers, links) = load_linker_settings(&raw).unwrap();
    assert!(matchers.is_empty());
    assert!(links.is_empty());
}

#[test]
fn linker_invalid_url_is_a_recoverable_error() {
    let mut raw = base_raw();
    raw.linkable_urls = Some(vec![("bad".to_string(), "not a url".to_string())]);
    raw.general.link_matchers = Some(vec!["link".to_string()]);
    let r = load_linker_settings(&raw);
    match r {
        Err(ConfigError::SyntaxError(u)) => assert_eq!(u, "not a url".to_string()),
        _ => panic!("expected a syntax error for an unparseable URL"),
    }
}

#[test]
fn text_expansions_default_empty_and_pass_through() {
    let mut raw = base_raw();
    assert!(load_text_expansions(&raw).is_empty());
    raw.text_expansion = Some(vec![("brb".to_string(), "be right back".to_string())]);
    assert_eq!(
        load_text_expansions(&raw),
        vec![("brb".to_string(), "be right back".to_string())]
    );
}

#[test]
fn unit_conversion_exclusions_gain_a_leading_space() {
    let mut raw = base_raw();
    raw.general.unit_conversion_exclusion = Some(vec!["m".to_string(), "ft".to_string()]);
    let r = load_unit_conversion_settings(&raw);
    assert_eq!(r, vec![" m".to_string(), " ft".to_string()]);
}

#[test]
fn corrections_disabled_resolves_empty_whatever_else_is_set() {
    let mut raw = base_raw();
    raw.general.enable_corrections = false;
    raw.general.insensitive_corrections = Some(vec!["teh".to_string()]);
    raw.general.sensitive_corrections = Some(vec!["Teh".to_string()]);
    raw.general.correction_text = Some("you meant {}".to_string());
    raw.general.correction_exclusion = Some(vec!["!room:example.com".to_string()]);
    let (spellings, text, exclusions) = load_spell_correct_settings(&raw).unwrap();
    assert!(spellings.is_empty());
    assert!(text.is_empty());
    assert!(exclusions.is_empty());
}

#[test]
fn corrections_enabled_missing_insensitive_list_fails() {
    let mut raw = base_raw();
    raw.general.enable_corrections = true;
    raw.general.sensitive_corrections = Some(vec!["Teh".to_string()]);
    raw.general.correction_text = Some("you meant {}".to_string());
    match load_spell_correct_settings(&raw) {
        Err(ConfigError::MissingRequiredField(f)) => {
            assert_eq!(f, "insensitive_corrections".to_string())
        },
        _ => panic!("expected a missing required field"),
    }
}

#[test]
fn corrections_enabled_missing_sensitive_list_fails() {
    let mut raw = base_raw();
    raw.general.enable_corrections = true;
    raw.general.insensitive_corrections = Some(vec!["teh".to_string()]);
    raw.general.correction_text = Some("you meant {}".to_string());
    match load_spell_correct_settings(&raw) {
        Err(ConfigError::MissingRequiredField(f)) => {
            assert_eq!(f, "sensitive_corrections".to_string())
        },
        _ => panic!("expected a missing required field"),
    }
}

#[test]
fn corrections_enabled_missing_text_fails() {
    let mut raw = base_raw();
    raw.general.enable_corrections = true;
    raw.general.insensitive_corrections = Some(vec!["teh".to_string()]);
    raw.general.sensitive_corrections = Some(vec!["Teh".to_string()]);
    match load_spell_correct_settings(&raw) {
        Err(ConfigError::MissingRequiredField(f)) => {
            assert_eq!(f, "correction_text".to_string())
        },
        _ => panic!("expected a missing required field"),
    }
}

#[test]
fn corrections_enabled_orders_insensitive_before_sensitive() {
    let mut raw = base_raw();
    raw.general.enable_corrections = true;
    raw.general.insensitive_corrections = Some(vec!["teh".to_string(), "adn".to_string()]);
    raw.general.sensitive_corrections = Some(vec!["Jawa".to_string()]);
    raw.general.correction_text = Some("you meant {}".to_string());
    let (spellings, text, exclusions) = load_spell_correct_settings(&raw).unwrap();
    assert_eq!(spellings.len(), 3);
    assert!(matches!(&spellings[0], SpellCheckKind::SpellCheckInsensitive(v) if v.spelling == "teh"));
    assert!(matches!(&spellings[1], SpellCheckKind::SpellCheckInsensitive(v) if v.spelling == "adn"));
    assert!(matches!(&spellings[2], SpellCheckKind::SpellCheckSensitive(v) if v.spelling == "Jawa"));
    assert_eq!(text, "you meant {}".to_string());
    assert!(exclusions.is_empty());
    assert_eq!(spellings[2].to_text(), "Jawa".to_string());
}

#[test]
fn admins_are_required() {
    let mut raw = base_raw();
    raw.general.authorized_users = None;
    match load_admin_settings(&raw) {
        Err(ConfigError::MissingRequiredField(f)) => {
            assert_eq!(f, "authorized_users".to_string())
        },
        _ => panic!("expected a missing required field"),
    }
    raw.general.authorized_users = Some(vec!["@admin:example.com".to_string()]);
    assert_eq!(load_admin_settings(&raw).unwrap(), vec!["@admin:example.com".to_string()]);
}

#[test]
fn help_and_ban_rooms_default_empty() {
    let mut raw = base_raw();
    assert!(load_help_settings(&raw).is_empty());
    assert!(load_ban_room_settings(&raw).is_empty());
    raw.general.help_rooms = Some(vec!["!help:example.com".to_string()]);
    raw.general.ban_rooms = Some(vec!["!mod:example.com".to_string()]);
    assert_eq!(load_help_settings(&raw), vec!["!help:example.com".to_string()]);
    assert_eq!(load_ban_room_settings(&raw), vec!["!mod:example.com".to_string()]);
}

#[test]
fn user_agent_is_formed_from_program_identity() {
    let ua = load_user_agent().unwrap();
    assert_eq!(ua, format!("{}/{}", matrix_bot::NAME, matrix_bot::VERSION));
    assert_eq!(ua, "matrix_bot/0.1.0".to_string());
}

#[test]
fn resolve_happy_path_builds_full_config() {
    let mut raw = base_raw();
    raw.searchable_repos = Some(vec![("bot".to_string(), "org/bot".to_string())]);
    raw.github_authentication = Some(RawGithubAuthentication { access_token: "tok".to_string() });
    raw.linkable_urls = Some(vec![("docs".to_string(), "https://docs.example.com/".to_string())]);
    raw.general.link_matchers = Some(vec!["link".to_string()]);
    raw.group_pings = Some(vec![("ops".to_string(), vec!["@admin:example.com".to_string()])]);
    let config = Config::resolve(&raw).unwrap();
    assert_eq!(config.mx_url, "https://matrix.example.com".to_string());
    assert_eq!(config.mx_uname, "@bot:example.com".to_string());
    assert_eq!(config.mx_pass, "pw".to_string());
    assert_eq!(config.webhook_token, "hunter2".to_string());
    assert_eq!(config.gh_access_token, "tok".to_string());
    assert_eq!(config.repos, vec![("bot".to_string(), "org/bot".to_string())]);
    assert_eq!(config.linkers, vec!["link".to_string()]);
    assert_eq!(config.admins, vec!["@admin:example.com".to_string()]);
    assert!(config.enable_unit_conversions);
    assert!(!config.enable_corrections);
    assert_eq!(config.user_agent, "matrix_bot/0.1.0".to_string());
    assert_eq!(config.group_pings.len(), 1);
    assert_eq!(config.group_pings[0].0, "ops".to_string());
    assert_eq!(config.group_pings[0].1, vec!["@admin:example.com".to_string()]);
    assert_eq!(config.group_ping_users, vec!["@admin:example.com".to_string()]);

    let listener = MatrixListenerConfig::new(&config);
    assert_eq!(listener.mx_url, config.mx_url);
    assert_eq!(listener.admins, config.admins);
    assert_eq!(listener.repos, config.repos);
    assert_eq!(listener.user_agent, config.user_agent);
    assert_eq!(listener.group_ping_users, config.group_ping_users);

    let webhook = WebhookListenerConfig::new(&config);
    assert_eq!(webhook.token, "hunter2".to_string());
}

#[test]
fn resolve_rejects_invalid_homeserver_url() {
    let mut raw = base_raw();
    raw.matrix_authentication.url = "not a url".to_string();
    assert!(matches!(Config::resolve(&raw), Err(ConfigError::SyntaxError(_))));
}

#[test]
fn resolve_rejects_invalid_bot_username() {
    let mut raw = base_raw();
    raw.matrix_authentication.username = "bot-without-sigil".to_string();
    assert!(matches!(Config::resolve(&raw), Err(ConfigError::SyntaxError(_))));
}

#[test]
fn resolve_aborts_on_first_rule_failure() {
    let mut raw = base_raw();
    raw.searchable_repos = Some(vec![("bot".to_string(), "org/bot".to_string())]);
    raw.github_authentication = None;
    raw.general.authorized_users = None;
    assert!(matches!(
        Config::resolve(&raw),
        Err(ConfigError::InconsistentFeatureConfiguration(_))
    ));
}
