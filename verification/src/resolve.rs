//! One independent resolution rule per feature area.
//!
//! Each rule consumes one section of the raw document and returns the
//! resolved value of its feature, with the enabled/disabled outcome encoded
//! as a non-empty or empty collection; a rule's hard failure aborts the whole
//! load.

use crate::config::{Config, InsensitiveSpelling, SensitiveSpelling, SpellCheckKind};
use crate::errors::ConfigError;
use crate::group_pings::{gp_ok, load_group_ping_settings};
use crate::outside::{header_value_ok, is_valid_header_value, is_valid_uri, is_valid_user_id, uri_ok, user_id_ok};
use crate::schema::RawConfig;
use crate::util::{clone_string_pairs, clone_strings, unique_keys};
use crate::{NAME, VERSION};
use vstd::prelude::*;
use vstd::string::StringExecFns;

verus! {

/// The user agent the bot presents, formed from its program identity.
pub open spec fn user_agent_text() -> Seq<char> {
    NAME@ + "/"@ + VERSION@
}

/// GitHub search: enabled iff a repo map and an access token are both
/// present; repos without a token are a hard error, no repos silently
/// disables the feature.
pub fn load_github_settings(raw: &RawConfig) -> (r: Result<
    (Vec<(String, String)>, String),
    ConfigError,
>)
    ensures
        raw.searchable_repos is None ==> (r matches Ok(p) && p.0@.len() == 0 && p.1@.len() == 0),
        raw.searchable_repos matches Some(repos) ==> {
            &&& raw.github_authentication is None ==> (r matches Err(e) && e
                is InconsistentFeatureConfiguration)
            &&& raw.github_authentication matches Some(g) ==> (r matches Ok(p) && p.0.deep_view()
                == repos.deep_view() && p.1@ == g.access_token@)
        },
{
    match &raw.searchable_repos {
        Some(repos) => match &raw.github_authentication {
            Some(g) => Ok((clone_string_pairs(repos), g.access_token.clone())),
            None => Err(
                ConfigError::InconsistentFeatureConfiguration(
                    String::from_str(
                        "searchable repos configured, but no github access token found",
                    ),
                ),
            ),
        },
        None => Ok((Vec::new(), String::new())),
    }
}

/// Link keywords: enabled iff the URL map and the matcher set are both
/// present; a present-but-empty URL map against present matchers is
/// inconsistent, and every URL value must parse.
#[verifier::loop_isolation(false)]
pub fn load_linker_settings(raw: &RawConfig) -> (r: Result<
    (Vec<String>, Vec<(String, String)>),
    ConfigError,
>)
    ensures
        raw.linkable_urls is None ==> (r matches Ok(p) && p.0@.len() == 0 && p.1@.len() == 0),
        raw.linkable_urls matches Some(urls) && raw.general.link_matchers is None ==> (r matches
        Ok(p) && p.0@.len() == 0 && p.1@.len() == 0),
        raw.linkable_urls matches Some(urls) ==> raw.general.link_matchers matches Some(m)
            ==> {
            &&& urls@.len() == 0 ==> (r matches Err(e) && e
                is InconsistentFeatureConfiguration)
            &&& urls@.len() > 0 ==> {
                &&& r is Ok <==> (forall|i: int|
                    0 <= i < urls@.len() ==> uri_ok(#[trigger] urls.deep_view()[i].1))
                &&& r matches Ok(p) ==> (p.0.deep_view() == m.deep_view() && p.1.deep_view()
                    == urls.deep_view())
                &&& r matches Err(e) ==> (e matches ConfigError::SyntaxError(u) && (exists|i: int|
                    0 <= i < urls@.len() && #[trigger] urls.deep_view()[i].1 == u@) && !uri_ok(u@))
            }
        },
{
    match &raw.linkable_urls {
        Some(urls) => match &raw.general.link_matchers {
            Some(m) => {
                if urls.len() > 0 {
                    let n = urls.len();
                    for i in 0..n
                        invariant
                            n == urls.len(),
                            forall|j: int| 0 <= j < i ==> uri_ok(#[trigger] urls.deep_view()[j].1),
                    {
                        if !is_valid_uri(&urls[i].1) {
                            proof {
                                assert(urls.deep_view()[i as int].1 == urls@[i as int].1@);
                            }
                            return Err(ConfigError::SyntaxError(urls[i].1.clone()));
                        }
                        proof {
                            assert(urls.deep_view()[i as int].1 == urls@[i as int].1@);
                        }
                    }
                    Ok((clone_strings(m), clone_string_pairs(urls)))
                } else {
                    Err(
                        ConfigError::InconsistentFeatureConfiguration(
                            String::from_str("link matchers exist, but no urls are set"),
                        ),
                    )
                }
            },
            None => Ok((Vec::new(), Vec::new())),
        },
        None => Ok((Vec::new(), Vec::new())),
    }
}

/// Text expansion: no cross-validation; the mapping is used as-is and
/// defaults to empty.
pub fn load_text_expansions(raw: &RawConfig) -> (r: Vec<(String, String)>)
    ensures
        raw.text_expansion is None ==> r@.len() == 0,
        raw.text_expansion matches Some(d) ==> r.deep_view() == d.deep_view(),
{
    match &raw.text_expansion {
        Some(d) => clone_string_pairs(d),
        None => Vec::new(),
    }
}

/// Unit-conversion exclusions: each token is prefixed with a leading space,
/// to match the "<quantity> <unit>" form downstream; absence means empty.
pub fn load_unit_conversion_settings(raw: &RawConfig) -> (r: Vec<String>)
    ensures
        raw.general.unit_conversion_exclusion is None ==> r@.len() == 0,
        raw.general.unit_conversion_exclusion matches Some(v) ==> {
            &&& r@.len() == v@.len()
            &&& forall|i: int|
                0 <= i < v@.len() ==> r.deep_view()[i] == seq![' '] + #[trigger] v.deep_view()[i]
        },
{
    match &raw.general.unit_conversion_exclusion {
        Some(v) => {
            let mut out: Vec<String> = Vec::new();
            let n = v.len();
            proof {
                reveal_strlit(" ");
            }
            for i in 0..n
                invariant
                    n == v.len(),
                    out@.len() == i,
                    " "@ == seq![' '],
                    forall|j: int|
                        0 <= j < i ==> out.deep_view()[j] == seq![' '] + #[trigger] v.deep_view()[j],
            {
                let s = String::from_str(" ").concat(v[i].as_str());
                out.push(s);
            }
            out
        },
        None => Vec::new(),
    }
}

/// Spellcheck corrections: resolved only when the feature is enabled; the
/// insensitive list, the sensitive list and the template text are then each
/// required, the exclusion set optional.  The resolved list places all
/// insensitive entries before all sensitive ones.  When disabled, everything
/// resolves to empty, whatever else is present.
pub fn load_spell_correct_settings(raw: &RawConfig) -> (r: Result<
    (Vec<SpellCheckKind>, String, Vec<String>),
    ConfigError,
>)
    ensures
        !raw.general.enable_corrections ==> (r matches Ok(t) && t.0@.len() == 0 && t.1@.len()
            == 0 && t.2@.len() == 0),
        raw.general.enable_corrections ==> {
            &&& (r is Ok <==> raw.general.insensitive_corrections is Some
                && raw.general.sensitive_corrections is Some && raw.general.correction_text
                is Some)
            &&& r matches Err(e) ==> e is MissingRequiredField
            &&& raw.general.insensitive_corrections is None ==> (r matches Err(e) && e matches
                ConfigError::MissingRequiredField(f) && f@ == "insensitive_corrections"@)
            &&& raw.general.insensitive_corrections is Some && raw.general.sensitive_corrections
                is None ==> (r matches Err(e) && e matches ConfigError::MissingRequiredField(f)
                && f@ == "sensitive_corrections"@)
            &&& raw.general.insensitive_corrections is Some && raw.general.sensitive_corrections
                is Some && raw.general.correction_text is None ==> (r matches Err(e) && e matches
                ConfigError::MissingRequiredField(f) && f@ == "correction_text"@)
            &&& r matches Ok(t) ==> {
                let ins = raw.general.insensitive_corrections->0;
                let sen = raw.general.sensitive_corrections->0;
                &&& t.0@.len() == ins@.len() + sen@.len()
                &&& forall|i: int|
                    0 <= i < ins@.len() ==> ((#[trigger] t.0@[i]) matches
                        SpellCheckKind::SpellCheckInsensitive(x) && x.spelling@
                        == ins.deep_view()[i])
                &&& forall|i: int|
                    0 <= i < sen@.len() ==> ((#[trigger] t.0@[ins@.len() + i]) matches
                        SpellCheckKind::SpellCheckSensitive(x) && x.spelling@
                        == sen.deep_view()[i])
                &&& t.1@ == raw.general.correction_text->0@
                &&& raw.general.correction_exclusion matches Some(excl) ==> t.2.deep_view()
                    == excl.deep_view()
                &&& raw.general.correction_exclusion is None ==> t.2@.len() == 0
            }
        },
{
    if raw.general.enable_corrections {
        match &raw.general.insensitive_corrections {
            Some(ins) => match &raw.general.sensitive_corrections {
                Some(sen) => match &raw.general.correction_text {
                    Some(c) => {
                        let excl: Vec<String> = match &raw.general.correction_exclusion {
                            Some(e) => clone_strings(e),
                            None => Vec::new(),
                        };
                        let mut spk: Vec<SpellCheckKind> = Vec::new();
                        let n_ins = ins.len();
                        for i in 0..n_ins
                            invariant
                                n_ins == ins.len(),
                                spk@.len() == i,
                                forall|j: int|
                                    0 <= j < i ==> ((#[trigger] spk@[j]) matches
                                        SpellCheckKind::SpellCheckInsensitive(x) && x.spelling@
                                        == ins.deep_view()[j]),
                        {
                            spk.push(
                                SpellCheckKind::SpellCheckInsensitive(
                                    InsensitiveSpelling { spelling: ins[i].clone() },
                                ),
                            );
                        }
                        let n_sen = sen.len();
                        for i in 0..n_sen
                            invariant
                                n_ins == ins.len(),
                                n_sen == sen.len(),
                                spk@.len() == n_ins + i,
                                forall|j: int|
                                    0 <= j < n_ins ==> ((#[trigger] spk@[j]) matches
                                        SpellCheckKind::SpellCheckInsensitive(x) && x.spelling@
                                        == ins.deep_view()[j]),
                                forall|j: int|
                                    0 <= j < i ==> ((#[trigger] spk@[n_ins + j]) matches
                                        SpellCheckKind::SpellCheckSensitive(x) && x.spelling@
                                        == sen.deep_view()[j]),
                        {
                            spk.push(
                                SpellCheckKind::SpellCheckSensitive(
                                    SensitiveSpelling { spelling: sen[i].clone() },
                                ),
                            );
                        }
                        Ok((spk, c.clone(), excl))
                    },
                    None => Err(
                        ConfigError::MissingRequiredField(String::from_str("correction_text")),
                    ),
                },
                None => Err(
                    ConfigError::MissingRequiredField(String::from_str("sensitive_corrections")),
                ),
            },
            None => Err(
                ConfigError::MissingRequiredField(String::from_str("insensitive_corrections")),
            ),
        }
    } else {
        Ok((Vec::new(), String::new(), Vec::new()))
    }
}

/// Admins: the authorized-user set is required; absence is a hard error.
pub fn load_admin_settings(raw: &RawConfig) -> (r: Result<Vec<String>, ConfigError>)
    ensures
        raw.general.authorized_users matches Some(v) ==> (r matches Ok(a) && a.deep_view()
            == v.deep_view()),
        raw.general.authorized_users is None ==> (r matches Err(e) && e matches
            ConfigError::MissingRequiredField(f) && f@ == "authorized_users"@),
{
    match &raw.general.authorized_users {
        Some(v) => Ok(clone_strings(v)),
        None => Err(ConfigError::MissingRequiredField(String::from_str("authorized_users"))),
    }
}

/// Help rooms: optional; absence means the help function applies everywhere,
/// which the consumer reads out of the same empty set.
pub fn load_help_settings(raw: &RawConfig) -> (r: Vec<String>)
    ensures
        raw.general.help_rooms matches Some(v) ==> r.deep_view() == v.deep_view(),
        raw.general.help_rooms is None ==> r@.len() == 0,
{
    match &raw.general.help_rooms {
        Some(v) => clone_strings(v),
        None => Vec::new(),
    }
}

/// Ban rooms: optional; absence disables the feature.
pub fn load_ban_room_settings(raw: &RawConfig) -> (r: Vec<String>)
    ensures
        raw.general.ban_rooms matches Some(v) ==> r.deep_view() == v.deep_view(),
        raw.general.ban_rooms is None ==> r@.len() == 0,
{
    match &raw.general.ban_rooms {
        Some(v) => clone_strings(v),
        None => Vec::new(),
    }
}

/// User agent: derived deterministically from the program identity; a value
/// the HTTP layer would refuse is a hard error, not expected under correct
/// constants.
pub fn load_user_agent() -> (r: Result<String, ConfigError>)
    ensures
        r matches Ok(ua) ==> ua@ == user_agent_text() && header_value_ok(user_agent_text()),
        r is Ok <==> header_value_ok(user_agent_text()),
{
    let ua = String::from_str(NAME).concat("/").concat(VERSION);
    if is_valid_header_value(&ua) {
        Ok(ua)
    } else {
        Err(ConfigError::SyntaxError(ua))
    }
}


/// Whether the raw document resolves: every feature rule accepts its
/// section, the authentication strings are valid, and the user agent can be
/// formed.
pub open spec fn resolvable(raw: RawConfig) -> bool {
    &&& raw.searchable_repos is Some ==> raw.github_authentication is Some
    &&& (raw.linkable_urls matches Some(urls) ==> raw.general.link_matchers is Some ==> (
        urls.deep_view().len() > 0 && forall|i: int|
            0 <= i < urls.deep_view().len() ==> uri_ok(#[trigger] urls.deep_view()[i].1)))
    &&& raw.general.enable_corrections ==> (raw.general.insensitive_corrections is Some
        && raw.general.sensitive_corrections is Some && raw.general.correction_text is Some)
    &&& raw.general.authorized_users is Some
    &&& uri_ok(raw.matrix_authentication.url@)
    &&& user_id_ok(raw.matrix_authentication.username@)
    &&& header_value_ok(user_agent_text())
    &&& (raw.group_pings matches Some(g) ==> gp_ok(g.deep_view()))
}

impl Config {
    /// Reduces the raw document to the immutable runtime configuration, one
    /// independent rule per feature area; the first hard failure aborts the
    /// whole load and no partial configuration is returned.
    #[verifier::rlimit(100)]
    #[verifier::spinoff_prover]
    pub fn resolve(raw: &RawConfig) -> (r: Result<Config, ConfigError>)
        requires
            raw.group_pings matches Some(g) ==> unique_keys(g.deep_view()),
        ensures
            r is Ok <==> resolvable(*raw),
            r matches Ok(c) ==> (c.wf() && c.mx_url@ == raw.matrix_authentication.url@
                && c.mx_uname@ == raw.matrix_authentication.username@ && c.mx_pass@
                == raw.matrix_authentication.password@ && c.webhook_token@
                == raw.general.webhook_token@ && c.enable_corrections
                == raw.general.enable_corrections && c.enable_unit_conversions
                == raw.general.enable_unit_conversions && c.user_agent@ == user_agent_text()),
            r matches Ok(c) ==> {
                &&& raw.searchable_repos is None ==> (c.repos@.len() == 0
                    && c.gh_access_token@.len() == 0)
                &&& raw.searchable_repos matches Some(repos) ==> (c.repos.deep_view()
                    == repos.deep_view() && (raw.github_authentication matches Some(g)
                    ==> c.gh_access_token@ == g.access_token@))
                &&& (raw.linkable_urls is None || raw.general.link_matchers is None) ==> (
                    c.linkers@.len() == 0 && c.links@.len() == 0)
                &&& raw.linkable_urls matches Some(urls) ==> raw.general.link_matchers matches Some(
                    m,
                ) ==> (c.linkers.deep_view() == m.deep_view() && c.links.deep_view()
                    == urls.deep_view())
                &&& raw.text_expansion is None ==> c.text_expansions@.len() == 0
                &&& raw.text_expansion matches Some(d) ==> c.text_expansions.deep_view()
                    == d.deep_view()
            },
            r matches Ok(c) ==> {
                &&& raw.general.unit_conversion_exclusion is None ==> c.unit_conversion_exclusion@.len()
                    == 0
                &&& raw.general.unit_conversion_exclusion matches Some(v) ==> (
                    c.unit_conversion_exclusion@.len() == v@.len() && forall|i: int|
                        0 <= i < v@.len() ==> c.unit_conversion_exclusion.deep_view()[i] == seq![' ']
                            + #[trigger] v.deep_view()[i])
            },
            r matches Ok(c) ==> {
                &&& !raw.general.enable_corrections ==> (c.incorrect_spellings@.len() == 0
                    && c.correction_text@.len() == 0 && c.correction_exclusion@.len() == 0)
                &&& raw.general.enable_corrections ==> {
                    let ins = raw.general.insensitive_corrections->0;
                    let sen = raw.general.sensitive_corrections->0;
                    &&& c.incorrect_spellings@.len() == ins@.len() + sen@.len()
                    &&& forall|i: int|
                        0 <= i < ins@.len() ==> ((#[trigger] c.incorrect_spellings@[i]) matches
                            SpellCheckKind::SpellCheckInsensitive(x) && x.spelling@
                            == ins.deep_view()[i])
                    &&& forall|i: int|
                        0 <= i < sen@.len() ==> ((#[trigger] c.incorrect_spellings@[ins@.len() + i])
                            matches SpellCheckKind::SpellCheckSensitive(x) && x.spelling@
                            == sen.deep_view()[i])
                    &&& c.correction_text@ == raw.general.correction_text->0@
                    &&& raw.general.correction_exclusion matches Some(excl)
                        ==> c.correction_exclusion.deep_view() == excl.deep_view()
                    &&& raw.general.correction_exclusion is None ==> c.correction_exclusion@.len()
                        == 0
                }
            },
            r matches Ok(c) ==> {
                &&& raw.general.authorized_users matches Some(v) ==> c.admins.deep_view()
                    == v.deep_view()
                &&& raw.general.help_rooms matches Some(v) ==> c.help_rooms.deep_view()
                    == v.deep_view()
                &&& raw.general.help_rooms is None ==> c.help_rooms@.len() == 0
                &&& raw.general.ban_rooms matches Some(v) ==> c.ban_rooms.deep_view()
                    == v.deep_view()
                &&& raw.general.ban_rooms is None ==> c.ban_rooms@.len() == 0
            },
            r matches Ok(c) ==> {
                &&& raw.group_pings is None ==> (c.group_pings@.len() == 0
                    && c.group_ping_users@.len() == 0)
                &&& raw.group_pings matches Some(g) ==> {
                    let gs = g.deep_view();
                    &&& c.group_pings@.len() == gs.len()
                    &&& forall|k: int|
                        0 <= k < gs.len() ==> (#[trigger] c.group_pings.deep_view()[k]).0 == gs[k].0
                    &&& forall|k: int|
                        0 <= k < gs.len() ==> (#[trigger] c.group_pings.deep_view()[k]).1.to_set()
                            == crate::group_pings::resolved_members(gs, gs[k].1)
                    &&& c.group_ping_users.deep_view().to_set()
                        == crate::group_pings::eligible_users(gs)
                }
            },
    {
        let (repos, gh_access_token) = match load_github_settings(raw) {
            Ok(v) => v,
            Err(e) => return Err(e),
        };
        let (linkers, links) = match load_linker_settings(raw) {
            Ok(v) => v,
            Err(e) => return Err(e),
        };
        let text_expansions = load_text_expansions(raw);
        let unit_conversion_exclusion = load_unit_conversion_settings(raw);
        let (incorrect_spellings, correction_text, correction_exclusion) =
            match load_spell_correct_settings(raw) {
            Ok(v) => v,
            Err(e) => return Err(e),
        };
        let admins = match load_admin_settings(raw) {
            Ok(v) => v,
            Err(e) => return Err(e),
        };
        let help_rooms = load_help_settings(raw);
        let ban_rooms = load_ban_room_settings(raw);
        if !is_valid_uri(&raw.matrix_authentication.url) {
            return Err(ConfigError::SyntaxError(raw.matrix_authentication.url.clone()));
        }
        if !is_valid_user_id(&raw.matrix_authentication.username) {
            return Err(ConfigError::SyntaxError(raw.matrix_authentication.username.clone()));
        }
        let mx_url = raw.matrix_authentication.url.clone();
        let mx_uname = raw.matrix_authentication.username.clone();
        let mx_pass = raw.matrix_authentication.password.clone();
        let user_agent = match load_user_agent() {
            Ok(v) => v,
            Err(e) => return Err(e),
        };
        let (group_pings, group_ping_users) = match load_group_ping_settings(raw) {
            Ok(v) => v,
            Err(e) => return Err(e),
        };
        let webhook_token = raw.general.webhook_token.clone();
        let c = (Config {
                mx_url,
                mx_uname,
                mx_pass,
                gh_access_token,
                enable_unit_conversions: raw.general.enable_unit_conversions,
                enable_corrections: raw.general.enable_corrections,
                unit_conversion_exclusion,
                incorrect_spellings,
                correction_text,
                correction_exclusion,
                linkers,
                admins,
                help_rooms,
                ban_rooms,
                repos,
                links,
                text_expansions,
                user_agent,
                group_pings,
                group_ping_users,
                webhook_token,
            });
        proof {
            assert(c.links.deep_view().len() == c.links@.len());
            assert forall|i: int| 0 <= i < c.links@.len() implies uri_ok(
                #[trigger] c.links.deep_view()[i].1,
            ) by {
                assert(raw.linkable_urls is Some && raw.general.link_matchers is Some);
            }
            assert(c.wf());
        }
        Ok(c)
    }
}

} // verus!
