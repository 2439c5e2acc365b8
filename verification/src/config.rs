//! Connection settings and where they live on disk.
use vstd::prelude::*;
use vstd::string::*;
use directories::ProjectDirs;
use std::path::PathBuf;

verus! {

#[verifier::external_type_specification]
#[verifier::external_body]
pub struct ExProjectDirs(ProjectDirs);

#[verifier::external_type_specification]
#[verifier::external_body]
pub struct ExPathBuf(PathBuf);

/// The settings of the bridge.
#[derive(Debug, Clone)]
pub struct Config {
    /// WebSocket endpoint of the cloud.
    pub cloud_url: String,
    /// HTTP API of the cloud, used to redeem short connection codes.
    pub cloud_api_url: String,
    pub obs_token: Option<String>,
    /// Short connection code the match was joined with, if any.
    pub obs_code: Option<String>,
    pub match_id: Option<String>,
    /// Port of the local overlay server.
    pub port: u16,
    pub log_level: String,
}

pub open spec fn default_cloud_url_text() -> Seq<char> {
    "wss://chukka.app/ws"@
}

pub open spec fn default_cloud_api_url_text() -> Seq<char> {
    "https://chukka.app/api"@
}

pub open spec fn default_log_level_text() -> Seq<char> {
    "info"@
}

pub fn default_cloud_url() -> (s: String)
    ensures
        s@ == default_cloud_url_text(),
{
    String::from_str("wss://chukka.app/ws")
}

pub fn default_cloud_api_url() -> (s: String)
    ensures
        s@ == default_cloud_api_url_text(),
{
    String::from_str("https://chukka.app/api")
}

pub fn default_port() -> (p: u16)
    ensures
        p == 4747,
{
    4747
}

pub fn default_log_level() -> (s: String)
    ensures
        s@ == default_log_level_text(),
{
    String::from_str("info")
}

/// The settings before any file or environment is read: the public cloud,
/// no credentials, port 4747, `info` logging.
pub open spec fn is_default_config(c: Config) -> bool {
    &&& c.cloud_url@ == default_cloud_url_text()
    &&& c.cloud_api_url@ == default_cloud_api_url_text()
    &&& c.obs_token is None
    &&& c.obs_code is None
    &&& c.match_id is None
    &&& c.port == 4747
    &&& c.log_level@ == default_log_level_text()
}

impl Default for Config {
    fn default() -> (c: Self)
        ensures
            is_default_config(c),
    {
        Config {
            cloud_url: default_cloud_url(),
            cloud_api_url: default_cloud_api_url(),
            obs_token: None,
            obs_code: None,
            match_id: None,
            port: default_port(),
            log_level: default_log_level(),
        }
    }
}

/// Credentials for the cloud are complete.
pub open spec fn configured(c: Config) -> bool {
    c.obs_token is Some && c.match_id is Some
}

/// The WebSocket URL of a match: `{cloud_url}/match/{match_id}?token={token}`.
pub open spec fn match_ws_url(c: Config) -> Option<Seq<char>> {
    match (c.match_id, c.obs_token) {
        (Some(match_id), Some(token)) => Some(
            c.cloud_url@ + "/match/"@ + match_id@ + "?token="@ + token@,
        ),
        _ => None,
    }
}

/// The project path fragment a `ProjectDirs` holds (`ProjectDirs::project_path`).
pub uninterp spec fn project_path_of(dirs: ProjectDirs) -> PathBuf;

/// The project path fragment `ProjectDirs::from` derives from a project's
/// names on this platform (on Linux the trimmed, lower-cased application
/// name); it depends on the names alone.
pub uninterp spec fn project_path_for(
    qualifier: Seq<char>,
    organization: Seq<char>,
    application: Seq<char>,
) -> PathBuf;

/// `ProjectDirs::from`: the standard directories of a project, or `None`
/// when the operating system reports no home directory. Whether there is a
/// result, and the home it lies under, depend on the environment; what is
/// stated is that a result belongs to the project named.
#[verifier::external_body]
fn project_dirs_from(qualifier: &str, organization: &str, application: &str) -> (r: Option<
    ProjectDirs,
>)
    ensures
        r matches Some(d) ==> project_path_of(d) == project_path_for(
            qualifier@,
            organization@,
            application@,
        ),
{
    ProjectDirs::from(qualifier, organization, application)
}

/// The configuration directory a `ProjectDirs` holds.
pub uninterp spec fn config_dir_of(dirs: ProjectDirs) -> PathBuf;

/// The data directory a `ProjectDirs` holds.
pub uninterp spec fn data_dir_of(dirs: ProjectDirs) -> PathBuf;

/// `base` extended by `part`, as `Path::join` makes it.
pub uninterp spec fn joined_path(base: PathBuf, part: Seq<char>) -> PathBuf;

/// `ProjectDirs::config_dir`: the configuration directory the value holds
/// (a plain getter), copied into a `PathBuf`.
#[verifier::external_body]
fn project_config_dir(dirs: &ProjectDirs) -> (p: PathBuf)
    ensures
        p == config_dir_of(*dirs),
{
    dirs.config_dir().to_path_buf()
}

/// `ProjectDirs::data_dir`: the data directory the value holds (a plain
/// getter), copied into a `PathBuf`.
#[verifier::external_body]
fn project_data_dir(dirs: &ProjectDirs) -> (p: PathBuf)
    ensures
        p == data_dir_of(*dirs),
{
    dirs.data_dir().to_path_buf()
}

/// `Path::join`: `base` extended by `part`; it depends on its arguments
/// alone.
#[verifier::external_body]
fn path_join(base: &PathBuf, part: &str) -> (p: PathBuf)
    ensures
        p == joined_path(*base, part@),
{
    base.join(part)
}

/// Project directories of this application: qualifier `app`, organization
/// `chukka`, application `chukka-obs`.
pub open spec fn ours(d: ProjectDirs) -> bool {
    project_path_of(d) == project_path_for("app"@, "chukka"@, "chukka-obs"@)
}

/// Where `config.toml` lies in a configuration directory.
pub open spec fn config_file_in(dir: PathBuf) -> PathBuf {
    joined_path(dir, "config.toml"@)
}

/// Where log files go for given project directories.
pub open spec fn logs_in(dirs: ProjectDirs) -> PathBuf {
    joined_path(data_dir_of(dirs), "logs"@)
}

impl Config {
    /// The standard directories of the application, when the system has a
    /// home directory.
    pub fn project_dirs() -> (r: Option<ProjectDirs>)
        ensures
            r matches Some(d) ==> ours(d),
    {
        project_dirs_from("app", "chukka", "chukka-obs")
    }

    /// The directory that holds `config.toml`: the configuration directory
    /// of the project directories, when the system provides them.
    pub fn config_dir() -> (r: Option<PathBuf>)
        ensures
            r matches Some(p) ==> exists|d: ProjectDirs| ours(d) && p == #[trigger] config_dir_of(d),
    {
        let dirs = Self::project_dirs();
        let ghost given = dirs;
        let r = Self::config_dir_in(dirs);
        proof {
            if let Some(d) = given {
                assert(r.unwrap() == config_dir_of(d));
            }
        }
        r
    }

    /// The configuration directory of the given project directories.
    pub fn config_dir_in(dirs: Option<ProjectDirs>) -> (r: Option<PathBuf>)
        ensures
            r == match dirs {
                Some(d) => Some(config_dir_of(d)),
                None => None,
            },
    {
        match dirs {
            Some(d) => Some(project_config_dir(&d)),
            None => None,
        }
    }

    /// The path of `config.toml`: inside the configuration directory, when
    /// the system provides one.
    pub fn config_path() -> (r: Option<PathBuf>)
        ensures
            r matches Some(p) ==> exists|d: ProjectDirs| ours(d) && p == config_file_in(
                #[trigger] config_dir_of(d),
            ),
    {
        let dir = Self::config_dir();
        let ghost given = dir;
        let r = Self::config_path_in(dir);
        proof {
            if let Some(p) = given {
                let d = choose|d: ProjectDirs| ours(d) && p == #[trigger] config_dir_of(d);
                assert(r.unwrap() == config_file_in(config_dir_of(d)));
            }
        }
        r
    }

    /// `config.toml` inside the given configuration directory.
    pub fn config_path_in(dir: Option<PathBuf>) -> (r: Option<PathBuf>)
        ensures
            r == match dir {
                Some(d) => Some(config_file_in(d)),
                None => None,
            },
    {
        match dir {
            Some(d) => Some(path_join(&d, "config.toml")),
            None => None,
        }
    }

    /// The directory for log files: `logs` inside the data directory, when
    /// the system provides one.
    pub fn log_dir() -> (r: Option<PathBuf>)
        ensures
            r matches Some(p) ==> exists|d: ProjectDirs| ours(d) && p == #[trigger] logs_in(d),
    {
        let dirs = Self::project_dirs();
        let ghost given = dirs;
        let r = Self::log_dir_in(dirs);
        proof {
            if let Some(d) = given {
                assert(r.unwrap() == logs_in(d));
            }
        }
        r
    }

    /// `logs` inside the data directory of the given project directories.
    pub fn log_dir_in(dirs: Option<ProjectDirs>) -> (r: Option<PathBuf>)
        ensures
            r == match dirs {
                Some(d) => Some(logs_in(d)),
                None => None,
            },
    {
        match dirs {
            Some(d) => Some(path_join(&project_data_dir(&d), "logs")),
            None => None,
        }
    }

    /// Whether both a token and a match are set.
    pub fn is_configured(&self) -> (b: bool)
        ensures
            b == configured(*self),
    {
        self.obs_token.is_some() && self.match_id.is_some()
    }

    /// The full WebSocket URL for connecting to the cloud.
    pub fn ws_url(&self) -> (u: Option<String>)
        ensures
            match u {
                Some(s) => match_ws_url(*self) == Some(s@),
                None => match_ws_url(*self) is None,
            },
    {
        match (&self.match_id, &self.obs_token) {
            (Some(match_id), Some(token)) => {
                let mut url = self.cloud_url.clone();
                url.append("/match/");
                url.append(match_id.as_str());
                url.append("?token=");
                url.append(token.as_str());
                Some(url)
            },
            _ => None,
        }
    }
}

/// A WebSocket URL exists exactly for the settings that are configured.
pub proof fn ws_url_exists_iff_configured(c: Config)
    ensures
        match_ws_url(c) is Some <==> configured(c),
{
}

} // verus!
