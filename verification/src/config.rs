//! Where the client keeps its settings, and the settings themselves.
use vstd::prelude::*;
use std::path::PathBuf;

verus! {

/// The saved settings: the last user name that logged in.
#[derive(Clone, Debug)]
pub struct Config {
    pub username: Option<String>,
}

impl Default for Config {
    fn default() -> (c: Config)
        ensures
            c.username is None,
    {
        Config { username: None }
    }
}

#[verifier::external_type_specification]
#[verifier::external_body]
pub struct ExPathBuf(PathBuf);

/// What `Path::join` gives for a directory and a relative name.
pub uninterp spec fn path_joined(base: PathBuf, name: Seq<char>) -> PathBuf;

/// What `PathBuf::from` gives for a string.
pub uninterp spec fn path_of(s: Seq<char>) -> PathBuf;

/// `std::path::Path::join`: the path of `name` inside `base`; the result
/// depends on the two arguments alone.
#[verifier::external_body]
fn join_path(base: &PathBuf, name: &str) -> (r: PathBuf)
    ensures
        r == path_joined(*base, name@),
{
    base.join(name)
}

/// `PathBuf::from(&str)`: the path written as `s`.
#[verifier::external_body]
fn path_from(s: &str) -> (r: PathBuf)
    ensures
        r == path_of(s@),
{
    PathBuf::from(s)
}

/// `directories::BaseDirs::new()` followed by `config_dir()`: the user's
/// configuration directory, which the crate derives from the environment
/// (`$XDG_CONFIG_HOME` or `~/.config` on Linux, `~/Library/Application
/// Support` on macOS, `%APPDATA%` on Windows); `None` where no home
/// directory is known. Nothing is claimed of the result, which depends on
/// the environment.
#[verifier::external_body]
fn base_config_dir() -> Option<PathBuf> {
    directories::BaseDirs::new().map(|d| d.config_dir().to_path_buf())
}

/// The directories the settings may live in: `dlsite-tui` inside a
/// configuration directory, or the current directory.
pub open spec fn is_config_dir(d: PathBuf) -> bool {
    d == path_of("."@) || exists|base: PathBuf| d == path_joined(base, "dlsite-tui"@)
}

/// The configuration directory, given the user's configuration directory
/// as the platform reports it: its subdirectory `dlsite-tui` if there is
/// one, else the current directory.
pub fn config_dir_from(found: Option<PathBuf>) -> (r: PathBuf)
    ensures
        r == match found {
            Some(base) => path_joined(base, "dlsite-tui"@),
            None => path_of("."@),
        },
{
    match found {
        Some(base) => join_path(&base, "dlsite-tui"),
        None => path_from("."),
    }
}

/// The configuration directory of the application: `dlsite-tui` inside the
/// user's configuration directory, or the current directory where the
/// platform has none.
pub fn config_dir() -> (r: PathBuf)
    ensures
        is_config_dir(r),
{
    config_dir_from(base_config_dir())
}

/// The file `cookies.json` inside the configuration directory.
pub fn cookies_path() -> (r: PathBuf)
    ensures
        exists|dir: PathBuf| is_config_dir(dir) && r == path_joined(dir, "cookies.json"@),
{
    let dir = config_dir();
    join_path(&dir, "cookies.json")
}

/// The file `config.json` inside the configuration directory.
pub fn config_path() -> (r: PathBuf)
    ensures
        exists|dir: PathBuf| is_config_dir(dir) && r == path_joined(dir, "config.json"@),
{
    let dir = config_dir();
    join_path(&dir, "config.json")
}

} // verus!
