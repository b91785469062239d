//! The run's configuration: where the version-control binary lives, and
//! the credentials and domain one purge run is made with. The values
//! arrive from outside the library (command line or a config file)
//! already decoded into plain strings.

use crate::classify::classify_spec;
use crate::requester::Requester;
use vstd::prelude::*;

verus! {

/// Where the version-control binary is looked for when the
/// configuration does not say.
pub const DEFAULT_GIT_BIN_PATH: &'static str = "/usr/bin/git";

/// The default binary path, as a character sequence.
pub open spec fn default_git_bin_spec() -> Seq<char> {
    "/usr/bin/git"@
}

/// The path of the version-control binary.
pub struct GitBinString(String);

impl View for GitBinString {
    type V = Seq<char>;

    closed spec fn view(&self) -> Seq<char> {
        self.0@
    }
}

impl GitBinString {
    /// Wraps an explicitly configured binary path.
    pub fn new(path: String) -> (r: Self)
        ensures
            r@ == path@,
    {
        GitBinString(path)
    }

    /// The configured binary path.
    pub fn get_path(&self) -> (p: &String)
        ensures
            p@ == self@,
    {
        &self.0
    }
}

impl Default for GitBinString {
    fn default() -> (r: Self)
        ensures
            r@ == default_git_bin_spec(),
    {
        GitBinString(String::from_str(DEFAULT_GIT_BIN_PATH))
    }
}

/// One run's configuration: binary path, API token, zone identifier and
/// site domain.
pub struct Configure {
    git_bin: GitBinString,
    token: String,
    zone: String,
    domain: String,
}

/// The mathematical configuration.
pub struct ConfigureSpec {
    pub git_bin: Seq<char>,
    pub token: Seq<char>,
    pub zone: Seq<char>,
    pub domain: Seq<char>,
}

impl View for Configure {
    type V = ConfigureSpec;

    closed spec fn view(&self) -> ConfigureSpec {
        ConfigureSpec {
            git_bin: self.git_bin@,
            token: self.token@,
            zone: self.zone@,
            domain: self.domain@,
        }
    }
}

impl Configure {
    /// Builds a configuration from already validated plain values.
    pub fn new(git_bin: GitBinString, token: String, zone: String, domain: String) -> (c:
        Configure)
        ensures
            c@.git_bin == git_bin@,
            c@.token == token@,
            c@.zone == zone@,
            c@.domain == domain@,
    {
        Configure { git_bin, token, zone, domain }
    }

    /// Classifies the change records under this configuration's domain
    /// and binds the result to its token and zone.
    pub fn to_requester(&self, files: &Vec<String>) -> (r: Requester)
        ensures
            r@.token == self@.token,
            r@.zone == self@.zone,
            r@.decision == classify_spec(files.deep_view(), self@.domain),
    {
        Requester::new(
            self.get_token().as_str(),
            self.get_zone().as_str(),
            self.get_domain().as_str(),
            files,
        )
    }

    /// The configured binary path.
    pub fn get_git_bin(&self) -> (p: &String)
        ensures
            p@ == self@.git_bin,
    {
        self.git_bin.get_path()
    }

    /// The API token.
    pub fn get_token(&self) -> (t: &String)
        ensures
            t@ == self@.token,
    {
        &self.token
    }

    /// The zone identifier.
    pub fn get_zone(&self) -> (z: &String)
        ensures
            z@ == self@.zone,
    {
        &self.zone
    }

    /// The site domain.
    pub fn get_domain(&self) -> (d: &String)
        ensures
            d@ == self@.domain,
    {
        &self.domain
    }
}

} // verus!
