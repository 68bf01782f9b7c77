//! Commands resolved against the configuration into actions, and the lines
//! reported once an action is done.
use vstd::prelude::*;

use crate::cfg::{get_target, local_of, put_target, Cfg, Error};
use crate::cli::Cmd;
use crate::text::{decimal, decimal_string};

verus! {

/// A command with its local and remote paths resolved.
#[derive(Clone, Debug, PartialEq, Eq)]
pub enum Act {
    Ls { path: Option<String> },
    Get { remote: String, local: String },
    Put { local: String, remote: String },
    Rm { remote: String },
    Mkdir { remote: String },
    Rmdir { remote: String },
    Pwd,
    Cd { remote: String },
}

fn copy(s: &String) -> (c: String)
    ensures
        c == *s,
{
    s.clone()
}

fn copy_opt(s: &Option<String>) -> (c: Option<String>)
    ensures
        c == *s,
{
    match s {
        Some(v) => Some(v.clone()),
        None => None,
    }
}

fn as_deref(s: &Option<String>) -> (r: Option<&str>)
    ensures
        r.deep_view() == s.deep_view(),
{
    match s {
        Some(v) => Some(v.as_str()),
        None => None,
    }
}

impl Cmd {
    /// Resolves the command's paths against `cfg`, with `home` the home
    /// directory that a `~` in the local directory stands for.
    pub fn plan(&self, cfg: &Cfg, home: Option<&str>) -> (r: Result<Act, Error>)
        ensures
            *self matches Cmd::Put { remote: Some(rm), .. } ==> r matches Ok(
                Act::Put { remote: m, .. },
            ) && m@ == rm@,
            match *self {
                Cmd::Ls { path } => r == Ok::<Act, Error>(Act::Ls { path }),
                Cmd::Get { remote, local } => match get_target(
                    cfg.local_dir.deep_view(),
                    remote@,
                    local.deep_view(),
                    home.deep_view(),
                ) {
                    Some(p) => r matches Ok(Act::Get { remote: rm, local: l }) && rm == remote
                        && l@ == p,
                    None => r matches Err(Error::Remote(s)) && s@ == remote@,
                },
                Cmd::Put { local, remote } => match put_target(local@, remote.deep_view()) {
                    Some(n) => r matches Ok(Act::Put { local: l, remote: rm }) && l@ == local_of(
                        cfg.local_dir.deep_view(),
                        local@,
                        home.deep_view(),
                    ) && rm@ == n,
                    None => r matches Err(Error::Name(s)) && s@ == local@,
                },
                Cmd::Rm { remote } => r == Ok::<Act, Error>(Act::Rm { remote }),
                Cmd::Mkdir { remote } => r == Ok::<Act, Error>(Act::Mkdir { remote }),
                Cmd::Rmdir { remote } => r == Ok::<Act, Error>(Act::Rmdir { remote }),
                Cmd::Pwd => r == Ok::<Act, Error>(Act::Pwd),
                Cmd::Cd { remote } => r == Ok::<Act, Error>(Act::Cd { remote }),
            },
    {
        match self {
            Cmd::Ls { path } => Ok(Act::Ls { path: copy_opt(path) }),
            Cmd::Get { remote, local } => {
                let local = cfg.get_path(remote.as_str(), as_deref(local), home)?;
                Ok(Act::Get { remote: copy(remote), local })
            },
            Cmd::Put { local, remote } => {
                let (local, remote) = cfg.put_path(local.as_str(), as_deref(remote), home)?;
                Ok(Act::Put { local, remote })
            },
            Cmd::Rm { remote } => Ok(Act::Rm { remote: copy(remote) }),
            Cmd::Mkdir { remote } => Ok(Act::Mkdir { remote: copy(remote) }),
            Cmd::Rmdir { remote } => Ok(Act::Rmdir { remote: copy(remote) }),
            Cmd::Pwd => Ok(Act::Pwd),
            Cmd::Cd { remote } => Ok(Act::Cd { remote: copy(remote) }),
        }
    }
}

/// What a finished action reports.
pub enum Outcome {
    /// The lines of a directory listing.
    Listed(Vec<String>),
    /// `remote` was downloaded to `local`.
    Got { remote: String, local: String, bytes: u64 },
    /// `local` was uploaded to `remote`.
    Put { local: String, remote: String, bytes: u64 },
    /// A remote file or directory was removed.
    Removed(String),
    /// A remote directory was created.
    Created(String),
    /// The remote working directory.
    Dir(String),
}

/// ` (n bytes)`
pub open spec fn byte_count(n: u64) -> Seq<char> {
    " ("@ + decimal(n as nat) + " bytes)"@
}

/// The lines printed for an outcome.
pub open spec fn report(o: Outcome) -> Seq<Seq<char>> {
    match o {
        Outcome::Listed(lines) => lines.deep_view(),
        Outcome::Got { remote, local, bytes } => seq![
            "got "@ + remote@ + " -> "@ + local@ + byte_count(bytes),
        ],
        Outcome::Put { local, remote, bytes } => seq![
            "put "@ + local@ + " -> "@ + remote@ + byte_count(bytes),
        ],
        Outcome::Removed(r) => seq!["removed "@ + r@],
        Outcome::Created(r) => seq!["created "@ + r@],
        Outcome::Dir(d) => seq![d@],
    }
}

fn transfer_line(verb: &str, from: &str, to: &str, bytes: u64) -> (s: String)
    ensures
        s@ == verb@ + from@ + " -> "@ + to@ + byte_count(bytes),
{
    let n = decimal_string(bytes);
    String::from_str(verb).concat(from).concat(" -> ").concat(to).concat(" (").concat(
        n.as_str(),
    ).concat(" bytes)")
}

impl Outcome {
    /// The lines to print for this outcome, in order.
    pub fn lines(self) -> (v: Vec<String>)
        ensures
            v.deep_view() == report(self),
    {
        let ghost o = self;
        let mut v: Vec<String> = Vec::new();
        match self {
            Outcome::Listed(lines) => {
                return lines;
            },
            Outcome::Got { remote, local, bytes } => {
                v.push(transfer_line("got ", remote.as_str(), local.as_str(), bytes));
            },
            Outcome::Put { local, remote, bytes } => {
                v.push(transfer_line("put ", local.as_str(), remote.as_str(), bytes));
            },
            Outcome::Removed(r) => {
                v.push(String::from_str("removed ").concat(r.as_str()));
            },
            Outcome::Created(r) => {
                v.push(String::from_str("created ").concat(r.as_str()));
            },
            Outcome::Dir(d) => {
                v.push(d);
            },
        }
        assert(v.deep_view() =~= report(o));
        v
    }
}

} // verus!
