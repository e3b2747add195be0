//! The fully-resolved, immutable runtime configuration and its projections.

use crate::outside::{header_value_ok, uri_ok, user_id_ok};
use crate::util::{clone_string_pairs, clone_strings};
use vstd::prelude::*;

verus! {

/// A spelling matched against messages, either case-insensitively or
/// case-sensitively.  Declaration order of the resolved list is preserved and
/// determines match-check order downstream.
#[derive(Debug, Clone)]
pub enum SpellCheckKind {
    /// Matched without regard to case.
    SpellCheckInsensitive(InsensitiveSpelling),
    /// Matched exactly.
    SpellCheckSensitive(SensitiveSpelling),
}

/// A case-insensitive spelling.
#[derive(Debug, Clone)]
pub struct InsensitiveSpelling {
    /// The spelling itself.
    pub spelling: String,
}

/// A case-sensitive spelling.
#[derive(Debug, Clone)]
pub struct SensitiveSpelling {
    /// The spelling itself.
    pub spelling: String,
}

impl InsensitiveSpelling {
    /// Wraps a spelling for case-insensitive matching.
    pub fn new(spelling: String) -> (r: Self)
        ensures
            r.spelling == spelling,
    {
        InsensitiveSpelling { spelling }
    }
}

impl SensitiveSpelling {
    /// Wraps a spelling for case-sensitive matching.
    pub fn new(spelling: String) -> (r: Self)
        ensures
            r.spelling == spelling,
    {
        SensitiveSpelling { spelling }
    }
}

impl SpellCheckKind {
    /// The spelling under either variant.
    pub open spec fn spelling_view(self) -> Seq<char> {
        match self {
            SpellCheckKind::SpellCheckInsensitive(v) => v.spelling@,
            SpellCheckKind::SpellCheckSensitive(v) => v.spelling@,
        }
    }

    /// The text of the spelling, as the correction feature prints it.
    pub fn to_text(&self) -> (r: String)
        ensures
            r@ == self.spelling_view(),
    {
        match self {
            SpellCheckKind::SpellCheckInsensitive(v) => v.spelling.clone(),
            SpellCheckKind::SpellCheckSensitive(v) => v.spelling.clone(),
        }
    }

    /// Copies the spelling, variant included.
    pub fn duplicate(&self) -> (r: Self)
        ensures
            r == *self,
    {
        match self {
            SpellCheckKind::SpellCheckInsensitive(v) => SpellCheckKind::SpellCheckInsensitive(
                InsensitiveSpelling { spelling: v.spelling.clone() },
            ),
            SpellCheckKind::SpellCheckSensitive(v) => SpellCheckKind::SpellCheckSensitive(
                SensitiveSpelling { spelling: v.spelling.clone() },
            ),
        }
    }
}

/// Configuration struct used at runtime, resolved from the raw document.
///
/// Either fully valid or never constructed: resolution aborts on the first
/// hard failure and no partial instance escapes.  Disabled features are
/// represented by empty collections.
#[derive(Debug)]
pub struct Config {
    /// Matrix bot account homeserver URL.
    pub mx_url: String,
    /// Matrix bot account username.
    pub mx_uname: String,
    /// Matrix bot account password.
    pub mx_pass: String,
    /// GitHub access token; empty when repo search is disabled.
    pub gh_access_token: String,
    /// Whether unit conversions are performed on plain text messages.
    pub enable_unit_conversions: bool,
    /// Whether the corrections feature is enabled.
    pub enable_corrections: bool,
    /// Units excluded from conversion when a space separates quantity and
    /// unit; each entry carries its leading space.
    pub unit_conversion_exclusion: Vec<String>,
    /// All spellings to match against, insensitive entries first.
    pub incorrect_spellings: Vec<SpellCheckKind>,
    /// Template text of a correction reply.
    pub correction_text: String,
    /// Rooms excluded from the corrections feature.
    pub correction_exclusion: Vec<String>,
    /// Words that trigger URL linking.
    pub linkers: Vec<String>,
    /// Users allowed to invite the bot to rooms.
    pub admins: Vec<String>,
    /// Rooms the help function may be used in; empty means everywhere.
    pub help_rooms: Vec<String>,
    /// Rooms the ban function applies to; empty disables the feature.
    pub ban_rooms: Vec<String>,
    /// Short repository name mapped to its org/repo form.
    pub repos: Vec<(String, String)>,
    /// Searched keyword mapped to the URL it links to; every URL parses.
    pub links: Vec<(String, String)>,
    /// Abbreviation mapped to its expansion.
    pub text_expansions: Vec<(String, String)>,
    /// User agent the bot presents to HTTP services.
    pub user_agent: String,
    /// Group-ping name mapped to its resolved member user ids.
    pub group_pings: Vec<(String, Vec<String>)>,
    /// Users allowed to initiate group pings.
    pub group_ping_users: Vec<String>,
    /// Shared secret of the webhook listener.
    pub webhook_token: String,
}

impl Config {
    /// Validity: every value that collaborators hand to an outside parser
    /// again has already been checked here.
    pub open spec fn wf(self) -> bool {
        &&& uri_ok(self.mx_url@)
        &&& user_id_ok(self.mx_uname@)
        &&& header_value_ok(self.user_agent@)
        &&& forall|i: int|
            0 <= i < self.links@.len() ==> uri_ok(#[trigger] self.links.deep_view()[i].1)
    }
}

/// The projection of [`Config`] that the message-dispatch layer consumes.
#[derive(Debug)]
pub struct MatrixListenerConfig {
    /// Matrix bot account homeserver URL.
    pub mx_url: String,
    /// Matrix bot account username.
    pub mx_uname: String,
    /// Matrix bot account password.
    pub mx_pass: String,
    /// GitHub access token; empty when repo search is disabled.
    pub gh_access_token: String,
    /// Whether unit conversions are performed on plain text messages.
    pub enable_unit_conversions: bool,
    /// Whether the corrections feature is enabled.
    pub enable_corrections: bool,
    /// Units excluded from conversion, each with its leading space.
    pub unit_conversion_exclusion: Vec<String>,
    /// All spellings to match against, insensitive entries first.
    pub incorrect_spellings: Vec<SpellCheckKind>,
    /// Template text of a correction reply.
    pub correction_text: String,
    /// Rooms excluded from the corrections feature.
    pub correction_exclusion: Vec<String>,
    /// Words that trigger URL linking.
    pub linkers: Vec<String>,
    /// Users allowed to invite the bot to rooms.
    pub admins: Vec<String>,
    /// Rooms the help function may be used in; empty means everywhere.
    pub help_rooms: Vec<String>,
    /// Rooms the ban function applies to; empty disables the feature.
    pub ban_rooms: Vec<String>,
    /// Short repository name mapped to its org/repo form.
    pub repos: Vec<(String, String)>,
    /// Searched keyword mapped to the URL it links to.
    pub links: Vec<(String, String)>,
    /// Abbreviation mapped to its expansion.
    pub text_expansions: Vec<(String, String)>,
    /// User agent the bot presents to HTTP services.
    pub user_agent: String,
    /// Group-ping name mapped to its resolved member user ids.
    pub group_pings: Vec<(String, Vec<String>)>,
    /// Users allowed to initiate group pings.
    pub group_ping_users: Vec<String>,
}

/// The projection of [`Config`] that the webhook listener consumes.
pub struct WebhookListenerConfig {
    /// Shared secret of the webhook listener.
    pub token: String,
}

impl WebhookListenerConfig {
    /// Projects the webhook's shared secret out of the resolved
    /// configuration.
    pub fn new(config: &Config) -> (r: Self)
        ensures
            r.token == config.webhook_token,
    {
        WebhookListenerConfig { token: config.webhook_token.clone() }
    }
}

/// Copies a list of spellings, order and variants included.
fn clone_spellings(v: &Vec<SpellCheckKind>) -> (r: Vec<SpellCheckKind>)
    ensures
        r@ == v@,
{
    let mut r: Vec<SpellCheckKind> = Vec::new();
    let n = v.len();
    for i in 0..n
        invariant
            n == v.len(),
            r@ =~= v@.take(i as int),
    {
        r.push(v[i].duplicate());
        proof {
            assert(r@ =~= v@.take(i + 1));
        }
    }
    proof {
        assert(v@.take(n as int) =~= v@);
    }
    r
}

/// Copies a group-ping mapping.
fn clone_group_map(v: &Vec<(String, Vec<String>)>) -> (r: Vec<(String, Vec<String>)>)
    ensures
        r.deep_view() == v.deep_view(),
{
    let mut r: Vec<(String, Vec<String>)> = Vec::new();
    let n = v.len();
    for i in 0..n
        invariant
            n == v.len(),
            r.deep_view() =~= v.deep_view().take(i as int),
    {
        let p = &v[i];
        let k = p.0.clone();
        let m = clone_strings(&p.1);
        let ghost pre = r.deep_view();
        proof {
            assert((k@, m.deep_view()) == v@[i as int].deep_view());
        }
        r.push((k, m));
        proof {
            assert(r.deep_view() =~= pre.push(v.deep_view()[i as int]));
            assert(r.deep_view() =~= v.deep_view().take(i + 1));
        }
    }
    proof {
        assert(v.deep_view().take(n as int) =~= v.deep_view());
    }
    r
}

impl MatrixListenerConfig {
    /// Projects the listener's part out of the resolved configuration.
    pub fn new(config: &Config) -> (r: Self)
        ensures
            r.mx_url == config.mx_url,
            r.mx_uname == config.mx_uname,
            r.mx_pass == config.mx_pass,
            r.gh_access_token == config.gh_access_token,
            r.enable_unit_conversions == config.enable_unit_conversions,
            r.enable_corrections == config.enable_corrections,
            r.unit_conversion_exclusion@ == config.unit_conversion_exclusion@,
            r.incorrect_spellings@ == config.incorrect_spellings@,
            r.correction_text == config.correction_text,
            r.correction_exclusion@ == config.correction_exclusion@,
            r.linkers@ == config.linkers@,
            r.admins@ == config.admins@,
            r.help_rooms@ == config.help_rooms@,
            r.ban_rooms@ == config.ban_rooms@,
            r.repos@ == config.repos@,
            r.links@ == config.links@,
            r.text_expansions@ == config.text_expansions@,
            r.user_agent == config.user_agent,
            r.group_pings.deep_view() == config.group_pings.deep_view(),
            r.group_ping_users@ == config.group_ping_users@,
    {
        MatrixListenerConfig {
            mx_url: config.mx_url.clone(),
            mx_uname: config.mx_uname.clone(),
            mx_pass: config.mx_pass.clone(),
            gh_access_token: config.gh_access_token.clone(),
            enable_unit_conversions: config.enable_unit_conversions,
            enable_corrections: config.enable_corrections,
            unit_conversion_exclusion: clone_strings(&config.unit_conversion_exclusion),
            incorrect_spellings: clone_spellings(&config.incorrect_spellings),
            correction_text: config.correction_text.clone(),
            correction_exclusion: clone_strings(&config.correction_exclusion),
            linkers: clone_strings(&config.linkers),
            admins: clone_strings(&config.admins),
            help_rooms: clone_strings(&config.help_rooms),
            ban_rooms: clone_strings(&config.ban_rooms),
            repos: clone_string_pairs(&config.repos),
            links: clone_string_pairs(&config.links),
            text_expansions: clone_string_pairs(&config.text_expansions),
            user_agent: config.user_agent.clone(),
            group_pings: clone_group_map(&config.group_pings),
            group_ping_users: clone_strings(&config.group_ping_users),
        }
    }
}

} // verus!
