//! The settings of the GitHub CLI, and where its files are found.

use std::collections::HashMap;
use vstd::prelude::*;
use vstd::std_specs::convert::FromSpecImpl;
use vstd::string::StringExecFns;

verus! {

/// The variable that names the configuration directory outright.
pub const GH_CONFIG_DIR: &'static str = "GH_CONFIG_DIR";

/// The variable that names the directory below which configurations live.
pub const XDG_CONFIG_HOME: &'static str = "XDG_CONFIG_HOME";

/// The variable that names the directory of application data on Windows.
pub const APP_DATA: &'static str = "AppData";

/// The name of the file that holds the settings.
pub const CONFIG_FILE_NAME: &'static str = "config.yml";

/// The name of the file that holds the hosts.
pub const HOSTS_FILE_NAME: &'static str = "hosts.yml";

/// What protocol to use when performing git operations.
#[derive(Debug, Clone, Copy, PartialEq, Eq, Structural)]
pub enum GitProtocol {
    Https,
    Ssh,
}

/// When to interactively prompt.
#[derive(Debug, Clone, Copy, PartialEq, Eq, Structural)]
pub enum Prompt {
    Enabled,
    Disabled,
}

impl From<Prompt> for bool {
    fn from(p: Prompt) -> (r: bool) {
        match p {
            Prompt::Enabled => true,
            Prompt::Disabled => false,
        }
    }
}

impl FromSpecImpl<Prompt> for bool {
    open spec fn obeys_from_spec() -> bool {
        true
    }

    open spec fn from_spec(p: Prompt) -> bool {
        p is Enabled
    }
}

/// The settings of the GitHub CLI.
#[derive(Debug, Clone)]
pub struct Config {
    /// What protocol to use when performing git operations.
    pub git_protocol: GitProtocol,
    /// What editor to run when creating issues, pull requests, etc.
    /// If blank, the environment decides.
    pub editor: Option<String>,
    /// When to interactively prompt. No host can override this.
    pub prompt: Prompt,
    /// A pager program to send command output to, e.g. "less".
    /// "cat" disables the pager.
    pub pager: Option<String>,
    /// Nicknames for commands.
    pub aliases: HashMap<String, String>,
    /// The path to a unix socket through which to send HTTP connections.
    /// If blank, the default transport is used.
    pub http_unix_socket: Option<String>,
    /// What web browser to use when opening URLs.
    /// If blank, the environment decides.
    pub browser: Option<String>,
}

/// What the environment says of where the configuration lives. A variable
/// that is not set, or whose value is no Unicode, is `None`.
pub struct DirectoryEnv {
    /// The value of `GH_CONFIG_DIR`.
    pub gh_config_dir: Option<String>,
    /// The value of `XDG_CONFIG_HOME`.
    pub xdg_config_home: Option<String>,
    /// The value of `AppData`. It is read on Windows only, and `None` elsewhere.
    pub app_data: Option<String>,
}

/// The directory from which a configuration directory is reached.
#[derive(Debug, PartialEq, Eq)]
pub enum Base {
    /// The directory of this path.
    Path(String),
    /// The home directory of the user.
    Home,
}

/// A configuration directory: the directories `below`, entered one after
/// the other from `base`.
#[derive(Debug, PartialEq, Eq)]
pub struct ConfigDirectory {
    pub base: Base,
    pub below: Vec<String>,
}

/// The model of a `ConfigDirectory`: the path of its base, `None` for the
/// home directory, and the names of the directories below it.
pub struct ConfigDirectoryView {
    pub base: Option<Seq<char>>,
    pub below: Seq<Seq<char>>,
}

impl View for ConfigDirectory {
    type V = ConfigDirectoryView;

    open spec fn view(&self) -> ConfigDirectoryView {
        ConfigDirectoryView {
            base: match self.base {
                Base::Path(path) => Some(path@),
                Base::Home => None,
            },
            below: self.below.deep_view(),
        }
    }
}

/// Whether the variable has a value that is not empty.
pub open spec fn is_given(value: Option<String>) -> bool {
    value matches Some(s) && s@.len() > 0
}

/// The configuration directory that the environment asks for: the first of
/// `GH_CONFIG_DIR` itself, `gh` below `XDG_CONFIG_HOME`, `GitHub CLI` below
/// `AppData`, whose variable has a value that is not empty; with none of
/// them, `.config/gh` below the home directory.
pub open spec fn config_directory(env: DirectoryEnv) -> ConfigDirectoryView {
    if is_given(env.gh_config_dir) {
        ConfigDirectoryView { base: Some(env.gh_config_dir->Some_0@), below: seq![] }
    } else if is_given(env.xdg_config_home) {
        ConfigDirectoryView { base: Some(env.xdg_config_home->Some_0@), below: seq!["gh"@] }
    } else if is_given(env.app_data) {
        ConfigDirectoryView { base: Some(env.app_data->Some_0@), below: seq!["GitHub CLI"@] }
    } else {
        ConfigDirectoryView { base: None, below: seq![".config"@, "gh"@] }
    }
}

/// The value of the variable, where it has one that is not empty.
fn given(value: &Option<String>) -> (r: Option<String>)
    ensures
        r is Some == is_given(*value),
        r matches Some(s) ==> s@ == value->Some_0@,
{
    match value {
        Some(s) => {
            if s.as_str().is_empty() {
                None
            } else {
                Some(s.clone())
            }
        },
        None => None,
    }
}

/// Finds the configuration directory that the environment asks for.
///
/// The result names the directory; it is not checked to exist. Where it is
/// reached from the home directory and the user has none, there is no
/// configuration directory.
pub fn find_config_directory(env: &DirectoryEnv) -> (r: ConfigDirectory)
    ensures
        r@ == config_directory(*env),
{
    let mut below: Vec<String> = Vec::new();
    if let Some(dir) = given(&env.gh_config_dir) {
        assert(below.deep_view() =~= Seq::<Seq<char>>::empty());
        return ConfigDirectory { base: Base::Path(dir), below };
    }
    if let Some(dir) = given(&env.xdg_config_home) {
        below.push(String::from_str("gh"));
        assert(below.deep_view() =~= seq!["gh"@]);
        return ConfigDirectory { base: Base::Path(dir), below };
    }
    if let Some(dir) = given(&env.app_data) {
        below.push(String::from_str("GitHub CLI"));
        assert(below.deep_view() =~= seq!["GitHub CLI"@]);
        return ConfigDirectory { base: Base::Path(dir), below };
    }
    below.push(String::from_str(".config"));
    below.push(String::from_str("gh"));
    assert(below.deep_view() =~= seq![".config"@, "gh"@]);
    ConfigDirectory { base: Base::Home, below }
}

} // verus!
