//! The command line as the library sees it: an optional config file and
//! one command.
use vstd::prelude::*;

verus! {

/// The parsed command line.
pub struct Cli {
    cfg: Option<String>,
    cmd: Cmd,
}

/// One FTP operation asked for on the command line.
#[derive(Clone, Debug, PartialEq, Eq)]
pub enum Cmd {
    /// List a remote directory.
    Ls { path: Option<String> },
    /// Download a remote file.
    Get { remote: String, local: Option<String> },
    /// Upload a local file.
    Put { local: String, remote: Option<String> },
    /// Remove a remote file.
    Rm { remote: String },
    /// Create a remote directory.
    Mkdir { remote: String },
    /// Remove an empty remote directory.
    Rmdir { remote: String },
    /// Print the remote working directory.
    Pwd,
    /// Change remote directory for this command and print it.
    Cd { remote: String },
}

impl Cli {
    /// The config file given with `-c`, if any.
    pub closed spec fn config(&self) -> Option<String> {
        self.cfg
    }

    /// The command given.
    pub closed spec fn command(&self) -> Cmd {
        self.cmd
    }

    pub fn new(cfg: Option<String>, cmd: Cmd) -> (c: Cli)
        ensures
            c.config() == cfg,
            c.command() == cmd,
    {
        Cli { cfg, cmd }
    }

    pub fn cfg(&self) -> (p: Option<&str>)
        ensures
            p.deep_view() == self.config().deep_view(),
    {
        match &self.cfg {
            Some(p) => Some(p.as_str()),
            None => None,
        }
    }

    pub fn cmd(&self) -> (c: &Cmd)
        ensures
            *c == self.command(),
    {
        &self.cmd
    }
}

} // verus!
