use vstd::prelude::*;

verus! {

/// The four run parameters, fixed once at startup.
#[derive(Debug, Clone)]
pub struct AppConfig {
    pub domain: String,
    pub path: String,
    pub userid: String,
    pub secret: String,
}

/// Why a configuration was rejected at startup.
#[derive(Debug, Clone, Copy, PartialEq, Eq, Structural)]
pub enum ConfigError {
    EmptyDomain,
    EmptyPath,
    EmptyUserId,
    EmptySecret,
    NotADirectory,
}

impl AppConfig {
    /// All four fields hold at least one character.
    pub open spec fn wf(&self) -> bool {
        self.domain@.len() > 0 && self.path@.len() > 0 && self.userid@.len() > 0
            && self.secret@.len() > 0
    }

    /// The fields hold exactly the given texts.
    pub open spec fn holds(
        &self,
        domain: Seq<char>,
        path: Seq<char>,
        userid: Seq<char>,
        secret: Seq<char>,
    ) -> bool {
        self.domain@ == domain && self.path@ == path && self.userid@ == userid
            && self.secret@ == secret
    }

    /// Two configurations carry the same texts.
    pub open spec fn same_as(&self, other: &AppConfig) -> bool {
        self.holds(other.domain@, other.path@, other.userid@, other.secret@)
    }

    /// An independent copy of the configuration, equal field by field.
    pub fn snapshot(&self) -> (r: AppConfig)
        ensures
            r.same_as(self),
    {
        AppConfig {
            domain: self.domain.clone(),
            path: self.path.clone(),
            userid: self.userid.clone(),
            secret: self.secret.clone(),
        }
    }
}

/// The error `initialize` reports for the given inputs, if any; the first
/// failing check in the order domain, path, user id, secret, directory.
pub open spec fn config_error_of(
    domain: Seq<char>,
    path: Seq<char>,
    userid: Seq<char>,
    secret: Seq<char>,
    path_is_dir: bool,
) -> Option<ConfigError> {
    if domain.len() == 0 {
        Some(ConfigError::EmptyDomain)
    } else if path.len() == 0 {
        Some(ConfigError::EmptyPath)
    } else if userid.len() == 0 {
        Some(ConfigError::EmptyUserId)
    } else if secret.len() == 0 {
        Some(ConfigError::EmptySecret)
    } else if !path_is_dir {
        Some(ConfigError::NotADirectory)
    } else {
        None
    }
}

/// Builds the run configuration. `path_is_dir` tells whether `path` names an
/// existing directory; any empty field or a path that is not a directory is
/// rejected.
pub fn initialize(domain: &str, path: &str, userid: &str, secret: &str, path_is_dir: bool) -> (r:
    Result<AppConfig, ConfigError>)
    ensures
        initialize_outcome(domain@, path@, userid@, secret@, path_is_dir, r),
{
    if domain.is_empty() {
        return Err(ConfigError::EmptyDomain);
    }
    if path.is_empty() {
        return Err(ConfigError::EmptyPath);
    }
    if userid.is_empty() {
        return Err(ConfigError::EmptyUserId);
    }
    if secret.is_empty() {
        return Err(ConfigError::EmptySecret);
    }
    if !path_is_dir {
        return Err(ConfigError::NotADirectory);
    }
    Ok(
        AppConfig {
            domain: domain.to_string(),
            path: path.to_string(),
            userid: userid.to_string(),
            secret: secret.to_string(),
        },
    )
}

/// Initializing twice from the same arguments gives the same outcome: the
/// same error, or two configurations with equal fields.
pub proof fn lemma_initialize_idempotent(
    domain: Seq<char>,
    path: Seq<char>,
    userid: Seq<char>,
    secret: Seq<char>,
    path_is_dir: bool,
    first: Result<AppConfig, ConfigError>,
    second: Result<AppConfig, ConfigError>,
)
    requires
        initialize_outcome(domain, path, userid, secret, path_is_dir, first),
        initialize_outcome(domain, path, userid, secret, path_is_dir, second),
    ensures
        first.is_ok() == second.is_ok(),
        first.is_err() ==> first == second,
        first.is_ok() ==> first.unwrap().same_as(&second.unwrap()),
{
}

/// What `initialize` promises of its result on the given inputs.
pub open spec fn initialize_outcome(
    domain: Seq<char>,
    path: Seq<char>,
    userid: Seq<char>,
    secret: Seq<char>,
    path_is_dir: bool,
    r: Result<AppConfig, ConfigError>,
) -> bool {
    match config_error_of(domain, path, userid, secret, path_is_dir) {
        Some(e) => r == Err::<AppConfig, ConfigError>(e),
        None => r.is_ok() && r.unwrap().holds(domain, path, userid, secret) && r.unwrap().wf(),
    }
}

} // verus!
