//! The loosely-typed, mostly-optional shape of the on-disk settings document.
//!
//! Deserialization of the document enforces only the document-level required
//! fields (the webhook token, the two feature toggles and the three
//! authentication strings); everything else is optional here, and absence is
//! not an error at this stage.  Mappings arrive with unique keys and no
//! meaningful order, and are held as vectors of pairs.

use vstd::prelude::*;

verus! {

/// The whole raw document.
pub struct RawConfig {
    /// General, feature-level settings.
    pub general: RawGeneral,
    /// Credentials of the bot's account on its homeserver.
    pub matrix_authentication: RawMatrixAuthentication,
    /// Optional GitHub credentials.
    pub github_authentication: Option<RawGithubAuthentication>,
    /// Short name for a repository mapped to its org/repo form.
    pub searchable_repos: Option<Vec<(String, String)>>,
    /// Searched keyword mapped to the URL it links to.
    pub linkable_urls: Option<Vec<(String, String)>>,
    /// Abbreviation mapped to its expansion.
    pub text_expansion: Option<Vec<(String, String)>>,
    /// Group-ping name mapped to its list of member tokens.
    pub group_pings: Option<Vec<(String, Vec<String>)>>,
}

/// The raw general section.
pub struct RawGeneral {
    /// Users allowed to invite the bot to rooms.
    pub authorized_users: Option<Vec<String>>,
    /// Rooms the help function may be used in; absence means everywhere.
    pub help_rooms: Option<Vec<String>>,
    /// Rooms the ban function applies to; absence disables the feature.
    pub ban_rooms: Option<Vec<String>>,
    /// Whether unit conversions are performed on plain text messages.
    pub enable_unit_conversions: bool,
    /// Whether the spellcheck-correction feature is enabled.
    pub enable_corrections: bool,
    /// Units excluded from conversion when written with a space before them.
    pub unit_conversion_exclusion: Option<Vec<String>>,
    /// Spellings matched case-insensitively by the corrections feature.
    pub insensitive_corrections: Option<Vec<String>>,
    /// Spellings matched case-sensitively by the corrections feature.
    pub sensitive_corrections: Option<Vec<String>>,
    /// Template text of a correction reply.
    pub correction_text: Option<String>,
    /// Rooms excluded from the corrections feature.
    pub correction_exclusion: Option<Vec<String>>,
    /// Words that trigger URL linking.
    pub link_matchers: Option<Vec<String>>,
    /// Shared secret of the webhook listener; required.
    pub webhook_token: String,
}

/// The raw matrix authentication section; all three fields are required.
pub struct RawMatrixAuthentication {
    /// Homeserver URL of the bot's account.
    pub url: String,
    /// Username of the bot's account.
    pub username: String,
    /// Password of the bot's account.
    pub password: String,
}

/// The raw github authentication section.
pub struct RawGithubAuthentication {
    /// GitHub access token.
    pub access_token: String,
}

} // verus!
