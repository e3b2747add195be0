use matrix_bot::errors::ConfigError;
use matrix_bot::group_pings::load_group_ping_settings;
use matrix_bot::schema::{RawConfig, RawGeneral, RawMatrixAuthentication};

fn raw_with_groups(groups: Option<Vec<(String, Vec<String>)>>) -> RawConfig {
    RawConfig {
        general: RawGeneral {
            authorized_users: Some(vec!["@admin:example.com".to_string()]),
            help_rooms: None,
            ban_rooms: None,
            enable_unit_conversions: false,
            enable_corrections: false,
            unit_conversion_exclusion: None,
            insensitive_corrections: None,
            sensitive_corrections: None,
            correction_text: None,
            correction_exclusion: None,
            link_matchers: None,
            webhook_token: "hunter2".to_string(),
        },
        matrix_authentication: RawMatrixAuthentication {
            url: "https://matrix.example.com".to_string(),
            username: "@bot:example.com".to_string(),
            password: "pw".to_string(),
        },
        github_authentication: None,
        searchable_repos: None,
        linkable_urls: None,
        text_expansion: None,
        group_pings: groups,
    }
}

fn members_of<'a>(
    resolved: &'a [(String, Vec<String>)],
    name: &str,
) -> &'a Vec<String> {
    &resolved
        .iter()
        .find(|(group, _)| group == name)
        .expect("group missing from resolved map")
        .1
}

#[test]
fn absent_section_disables_feature() {
    let raw = raw_with_groups(None);
    let (resolved, eligible) = load_group_ping_settings(&raw).unwrap();
    assert!(resolved.is_empty());
    assert!(eligible.is_empty());
}

#[test]
fn one_hop_alias_expands_to_literal_users() {
    let u1 = "@u1:example.com".to_string();
    let u2 = "@u2:example.com".to_string();
    let raw = raw_with_groups(Some(vec![
        ("a".to_string(), vec![u1.clone()]),
        ("b".to_string(), vec!["%a".to_string(), u2.clone()]),
    ]));
    let (resolved, eligible) = load_group_ping_settings(&raw).unwrap();
    assert_eq!(resolved.len(), 2);
    assert_eq!(members_of(&resolved, "a"), &vec![u1.clone()]);
    let b = members_of(&resolved, "b");
    assert_eq!(b.len(), 2);
    assert!(b.contains(&u1));
    assert!(b.contains(&u2));
    assert_eq!(eligible.len(), 2);
    assert!(eligible.contains(&u1));
    assert!(eligible.contains(&u2));
}

#[test]
fn alias_expansion_is_single_hop() {
    let u1 = "@u1:example.com".to_string();
    let u2 = "@u2:example.com".to_string();
    let raw = raw_with_groups(Some(vec![
        ("a".to_string(), vec![u1.clone()]),
        ("b".to_string(), vec!["%a".to_string(), u2.clone()]),
        ("c".to_string(), vec!["%b".to_string()]),
    ]));
    let (resolved, _) = load_group_ping_settings(&raw).unwrap();
    // "c" pulls only "b"'s literal user; "b"'s own alias is not chased.
    assert_eq!(members_of(&resolved, "c"), &vec![u2.clone()]);
}

#[test]
fn duplicate_members_collapse() {
    let u1 = "@u1:example.com".to_string();
    let raw = raw_with_groups(Some(vec![
        ("a".to_string(), vec![u1.clone()]),
        ("b".to_string(), vec!["%a".to_string(), u1.clone()]),
    ]));
    let (resolved, eligible) = load_group_ping_settings(&raw).unwrap();
    assert_eq!(members_of(&resolved, "b"), &vec![u1.clone()]);
    assert_eq!(eligible, vec![u1.clone()]);
}

#[test]
fn reserved_name_is_rejected() {
    let raw = raw_with_groups(Some(vec![(
        "a".to_string(),
        vec!["all".to_string()],
    )]));
    assert!(matches!(
        load_group_ping_settings(&raw),
        Err(ConfigError::ReservedNameUsed)
    ));
}

#[test]
fn reserved_name_behind_sentinel_is_rejected() {
    let raw = raw_with_groups(Some(vec![(
        "a".to_string(),
        vec!["%all".to_string()],
    )]));
    assert!(matches!(
        load_group_ping_settings(&raw),
        Err(ConfigError::ReservedNameUsed)
    ));
}

#[test]
fn unresolved_alias_is_rejected_with_its_name() {
    let raw = raw_with_groups(Some(vec![(
        "b".to_string(),
        vec!["%missing".to_string()],
    )]));
    match load_group_ping_settings(&raw) {
        Err(ConfigError::UnresolvedAliasReference(a)) => assert_eq!(a, "missing".to_string()),
        _ => panic!("expected an unresolved alias reference"),
    }
}

#[test]
fn invalid_user_token_is_a_hard_error() {
    let raw = raw_with_groups(Some(vec![(
        "a".to_string(),
        vec!["@not-a-full-id".to_string()],
    )]));
    assert!(matches!(
        load_group_ping_settings(&raw),
        Err(ConfigError::SyntaxError(_))
    ));
}

#[test]
fn tokens_of_neither_shape_are_ignored() {
    let u1 = "@u1:example.com".to_string();
    let raw = raw_with_groups(Some(vec![(
        "a".to_string(),
        vec!["plainword".to_string(), u1.clone()],
    )]));
    let (resolved, eligible) = load_group_ping_settings(&raw).unwrap();
    assert_eq!(members_of(&resolved, "a"), &vec![u1.clone()]);
    assert_eq!(eligible, vec![u1.clone()]);
}
