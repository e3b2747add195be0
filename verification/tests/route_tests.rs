use matrix_bot::config::{Config, MatrixListenerConfig};
use matrix_bot::messages::{MatrixInviteType, MatrixMessageType};
use matrix_bot::routes::{invite_event_response, route_text_event, TextEventRoute};
use matrix_bot::schema::{RawConfig, RawGeneral, RawMatrixAuthentication};

fn listener_config_with_admin(admin: &str) -> MatrixListenerConfig {
    let raw = RawConfig {
        general: RawGeneral {
            authorized_users: Some(vec![admin.to_string()]),
            help_rooms: None,
            ban_rooms: None,
            enable_unit_conversions: false,
            enable_corrections: false,
            unit_conversion_exclusion: None,
            insensitive_corrections: None,
            sensitive_corrections: None,
            correction_text: None,
            correction_exclusion: None,
            link_matchers: None,
            webhook_token: "hunter2".to_string(),
        },
        matrix_authentication: RawMatrixAuthentication {
            url: "https://matrix.example.com".to_string(),
            username: "@bot:example.com".to_string(),
            password: "pw".to_string(),
        },
        github_authentication: None,
        searchable_repos: None,
        linkable_urls: None,
        text_expansion: None,
        group_pings: None,
    };
    MatrixListenerConfig::new(&Config::resolve(&raw).unwrap())
}

#[test]
fn text_without_bang_goes_to_commandless_handler() {
    assert_eq!(route_text_event(&"hello there".to_string()), TextEventRoute::Commandless);
    assert_eq!(route_text_event(&"".to_string()), TextEventRoute::Commandless);
}

#[test]
fn known_commands_route_case_insensitively() {
    assert_eq!(route_text_event(&"!convert 5 km".to_string()), TextEventRoute::UnitConversion);
    assert_eq!(route_text_event(&"!CONVERT 5 km".to_string()), TextEventRoute::UnitConversion);
    assert_eq!(route_text_event(&"!help".to_string()), TextEventRoute::Help);
    assert_eq!(route_text_event(&"!HeLp me".to_string()), TextEventRoute::Help);
    assert_eq!(route_text_event(&"!ban @x:example.com".to_string()), TextEventRoute::Ban);
    assert_eq!(route_text_event(&"!BAN @x:example.com".to_string()), TextEventRoute::Ban);
}

#[test]
fn unknown_commands_are_ignored() {
    assert_eq!(route_text_event(&"!frobnicate".to_string()), TextEventRoute::Ignored);
    assert_eq!(route_text_event(&"!convert".to_string()), TextEventRoute::Ignored);
}

#[test]
fn invite_from_admin_is_accepted() {
    let config = listener_config_with_admin("@admin:example.com");
    let msg = invite_event_response(
        &"@admin:example.com".to_string(),
        &"!room:example.com".to_string(),
        &config,
    );
    assert_eq!(msg.room_id, Some("!room:example.com".to_string()));
    match msg.message {
        MatrixMessageType::Invite(m) => {
            assert_eq!(m.kind, MatrixInviteType::Accept);
            assert_eq!(m.sender, "@admin:example.com".to_string());
        },
        _ => panic!("expected an invite answer"),
    }
}

#[test]
fn invite_from_stranger_is_rejected() {
    let config = listener_config_with_admin("@admin:example.com");
    let msg = invite_event_response(
        &"@stranger:example.com".to_string(),
        &"!room:example.com".to_string(),
        &config,
    );
    match msg.message {
        MatrixMessageType::Invite(m) => assert_eq!(m.kind, MatrixInviteType::Reject),
        _ => panic!("expected an invite answer"),
    }
}
