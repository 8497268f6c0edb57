//! Where this tool keeps its files, below the home directory of the user.

use vstd::prelude::*;
use crate::text::owned;

verus! {

/// The name of the configuration file.
pub const CONFIG_FILE_NAME: &'static str = "ash.config.json";

/// The name of the script that sets a container up for remote debugging.
pub const VSDBGSH_FILE_NAME: &'static str = "vsdbg.sh";

/// The name of the file that caches delegated credentials.
pub const CACHE_FILE_NAME: &'static str = "cache.json";

/// The arguments that every call of the teleport client starts with.
pub open spec fn common_tsh() -> Seq<Seq<char>> {
    seq!["--proxy"@, "teleport.mago.cloud"@, "--auth"@, "github"@]
}

/// Texts as character sequences.
pub open spec fn texts_view(texts: Seq<String>) -> Seq<Seq<char>> {
    texts.map_values(|t: String| t@)
}

/// The arguments that every call of the teleport client starts with.
pub fn common_tsh_args() -> (r: Vec<String>)
    ensures
        texts_view(r@) == common_tsh(),
{
    let mut args: Vec<String> = Vec::new();
    args.push(owned("--proxy"));
    args.push(owned("teleport.mago.cloud"));
    args.push(owned("--auth"));
    args.push(owned("github"));
    assert(texts_view(args@) == common_tsh());
    args
}

/// A path: a directory to start from, and the names to go down by, one
/// after the other.
#[derive(Debug)]
pub struct FilePath {
    pub base: String,
    pub parts: Vec<String>,
}

pub struct FilePathView {
    pub base: Seq<char>,
    pub parts: Seq<Seq<char>>,
}

impl View for FilePath {
    type V = FilePathView;

    open spec fn view(&self) -> FilePathView {
        FilePathView { base: self.base@, parts: texts_view(self.parts@) }
    }
}

impl FilePath {
    /// The path `name` below this one.
    pub fn join(self, name: &str) -> (r: FilePath)
        ensures
            r@.base == self@.base,
            r@.parts == self@.parts.push(name@),
    {
        let mut parts = self.parts;
        let ghost before = parts@;
        let n = owned(name);
        parts.push(n);
        assert(texts_view(parts@) == texts_view(before).push(n@));
        FilePath { base: self.base, parts }
    }
}

/// `directories::UserDirs::new`, and of what it gives `home_dir`, as text.
/// It reads the environment of the process: nothing is claimed of it.
#[verifier::external_body]
fn home_directory() -> Option<String> {
    directories::UserDirs::new().and_then(|dirs| dirs.home_dir().to_str().map(String::from))
}

/// The services that a tunnel can be opened for by name.
#[derive(Clone, Copy, Debug, PartialEq, Eq, Structural)]
pub enum Service {
    Rdp,
    Redis,
    Rds,
    RabbitMq,
}

/// The port of `service`, which a tunnel to it joins on both ends.
pub open spec fn service_port(service: Service) -> u16 {
    match service {
        Service::Rdp => 3389,
        Service::Redis => 6379,
        Service::Rds => 5432,
        Service::RabbitMq => 5672,
    }
}

impl Service {
    /// The port of this service.
    pub fn port(&self) -> (r: u16)
        ensures
            r == service_port(*self),
    {
        match self {
            Service::Rdp => 3389,
            Service::Redis => 6379,
            Service::Rds => 5432,
            Service::RabbitMq => 5672,
        }
    }
}

/// What the paths and command lines of this tool depend on: the home
/// directory of the user, whether the machine runs Windows, and the
/// arguments that every call of `ssh` and `scp` starts with.
#[derive(Debug)]
pub struct Config {
    pub home: String,
    pub windows: bool,
    pub ssh_args: Vec<String>,
}

/// The directory of this tool's files, below `home`.
pub open spec fn config_directory(home: Seq<char>) -> FilePathView {
    FilePathView { base: home, parts: seq![".config"@, "ash"@] }
}

/// The file `name` in the directory of this tool's files, below `home`.
pub open spec fn config_file(home: Seq<char>, name: Seq<char>) -> FilePathView {
    FilePathView { base: home, parts: seq![".config"@, "ash"@, name] }
}

impl Config {
    /// The configuration for a given home directory.
    pub fn new(home: String, windows: bool, ssh_args: Vec<String>) -> (r: Config)
        ensures
            r.home@ == home@,
            r.windows == windows,
            r.ssh_args@ == ssh_args@,
    {
        Config { home, windows, ssh_args }
    }

    /// The configuration for the home directory of the user who runs the
    /// process, if that directory can be had.
    pub fn user_dirs(windows: bool, ssh_args: Vec<String>) -> (r: Option<Config>)
        ensures
            r matches Some(c) ==> c.windows == windows && c.ssh_args@ == ssh_args@,
    {
        match home_directory() {
            Some(home) => Some(Config { home, windows, ssh_args }),
            None => None,
        }
    }

    /// The home directory.
    pub fn home_dir(&self) -> (r: FilePath)
        ensures
            r@ == (FilePathView { base: self.home@, parts: Seq::empty() }),
    {
        let r = FilePath { base: self.home.clone(), parts: Vec::new() };
        assert(r@.parts == Seq::<Seq<char>>::empty());
        r
    }

    /// The directory of this tool's files: `.config/ash` below the home
    /// directory.
    pub fn config_dir(&self) -> (r: FilePath)
        ensures
            r@ == config_directory(self.home@),
    {
        let r = self.home_dir().join(".config").join("ash");
        assert(r@.parts == seq![".config"@, "ash"@]);
        r
    }

    /// The configuration file.
    pub fn config_path(&self) -> (r: FilePath)
        ensures
            r@ == config_file(self.home@, CONFIG_FILE_NAME@),
    {
        let r = self.config_dir().join(CONFIG_FILE_NAME);
        assert(r@.parts == seq![".config"@, "ash"@, CONFIG_FILE_NAME@]);
        r
    }

    /// The file that remembers the hosts chosen before.
    pub fn history_path(&self) -> (r: FilePath)
        ensures
            r@ == config_file(self.home@, "history"@),
    {
        let r = self.config_dir().join("history");
        assert(r@.parts == seq![".config"@, "ash"@, "history"@]);
        r
    }

    /// The file that caches delegated credentials.
    pub fn cache_path(&self) -> (r: FilePath)
        ensures
            r@ == config_file(self.home@, CACHE_FILE_NAME@),
    {
        let r = self.config_dir().join(CACHE_FILE_NAME);
        assert(r@.parts == seq![".config"@, "ash"@, CACHE_FILE_NAME@]);
        r
    }

    /// The script that sets a container up for remote debugging.
    pub fn vsdbgsh_path(&self) -> (r: FilePath)
        ensures
            r@ == config_file(self.home@, VSDBGSH_FILE_NAME@),
    {
        let r = self.config_dir().join(VSDBGSH_FILE_NAME);
        assert(r@.parts == seq![".config"@, "ash"@, VSDBGSH_FILE_NAME@]);
        r
    }

    /// The command that starts the editor: `code.cmd` on Windows, `code`
    /// elsewhere.
    pub fn code_cmd(&self) -> (r: String)
        ensures
            r@ == if self.windows {
                "code.cmd"@
            } else {
                "code"@
            },
    {
        if self.windows {
            owned("code.cmd")
        } else {
            owned("code")
        }
    }
}

} // verus!
