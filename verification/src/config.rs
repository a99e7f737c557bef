//! Persisted configuration: the personal access credential.
//!
//! The configuration is stored as a file under the platform's
//! configuration directory.  Reading and writing that file is I/O and
//! stays outside the library; the path arithmetic and every decision
//! about the credential's presence are verified here.

use vstd::prelude::*;

verus! {

/// Name of the subdirectory the configuration lives in.
pub open spec fn app_dir_name() -> Seq<char> {
    "/github-starcleaner"@
}

/// Name of the configuration file inside that subdirectory.
pub open spec fn config_file_name() -> Seq<char> {
    "/config.toml"@
}

/// The credential section of the configuration.
#[derive(Debug, Clone)]
pub struct GitHubConfig {
    pub personal_access_token: Option<String>,
}

impl Default for GitHubConfig {
    fn default() -> (r: Self)
        ensures
            r.personal_access_token is None,
    {
        GitHubConfig { personal_access_token: None }
    }
}

/// The whole persisted configuration.
#[derive(Debug, Clone)]
pub struct AppConfig {
    pub github: GitHubConfig,
}

impl Default for AppConfig {
    fn default() -> (r: Self)
        ensures
            r.github.personal_access_token is None,
    {
        AppConfig { github: GitHubConfig { personal_access_token: None } }
    }
}

impl AppConfig {
    /// Whether a credential is stored; an empty one counts as absent.
    pub open spec fn spec_has_token(self) -> bool {
        match self.github.personal_access_token {
            Some(t) => t@.len() > 0,
            None => false,
        }
    }

    /// Directory this application's configuration lives in, under the
    /// platform's configuration directory `base` (the caller obtains
    /// `base` from the environment).
    pub fn config_dir(base: &str) -> (r: String)
        ensures
            r@ == base@ + app_dir_name(),
    {
        let mut dir = base.to_owned();
        dir.append("/github-starcleaner");
        dir
    }

    /// Path of the configuration file under the platform's
    /// configuration directory `base`.
    pub fn config_path(base: &str) -> (r: String)
        ensures
            r@ == base@ + app_dir_name() + config_file_name(),
    {
        let mut path = Self::config_dir(base);
        path.append("/config.toml");
        path
    }

    /// Check if a non-empty credential is configured.
    pub fn has_token(&self) -> (r: bool)
        ensures
            r == self.spec_has_token(),
    {
        match &self.github.personal_access_token {
            Some(t) => !t.as_str().is_empty(),
            None => false,
        }
    }

    /// Get the credential if a non-empty one is configured.
    pub fn get_token(&self) -> (r: Option<&str>)
        ensures
            self.spec_has_token() <==> r is Some,
            r matches Some(t) ==> self.github.personal_access_token matches Some(s) && s@ == t@,
    {
        match &self.github.personal_access_token {
            Some(t) => {
                if t.as_str().is_empty() {
                    None
                } else {
                    Some(t.as_str())
                }
            },
            None => None,
        }
    }
}

/// Pure transitions on the persisted configuration.  Loading and
/// saving the file itself is I/O and happens outside the library,
/// around these transitions.
pub struct ConfigService;

impl ConfigService {
    /// Store a credential in the configuration.
    pub fn save_token(config: &mut AppConfig, token: &str)
        ensures
            final(config).github.personal_access_token matches Some(t) && t@ == token@,
    {
        config.github.personal_access_token = Some(token.to_owned());
    }

    /// Remove the stored credential from the configuration.
    pub fn clear_token(config: &mut AppConfig)
        ensures
            final(config).github.personal_access_token is None,
    {
        config.github.personal_access_token = None;
    }
}

} // verus!
