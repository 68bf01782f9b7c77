//! The client configuration: defaults filled in from what a config file
//! holds, and the local and remote paths that a command works on.
use vstd::prelude::*;

use crate::path::{
    expand_home, file_name, file_name_of, is_absolute, is_absolute_path, join, join_path,
    remote_name, remote_name_of,
};
use crate::text::{decimal, decimal_string, is_white, law_trim_keeps_inner_text, trim, trimmed};

verus! {

/// How the control connection is secured.
#[derive(Clone, Copy, Debug, PartialEq, Eq, Structural)]
pub enum Tls {
    /// Plain FTP.
    Plain,
    /// FTPS upgraded with `AUTH TLS` after connecting.
    Explicit,
    /// FTPS with TLS from the first byte.
    Implicit,
}

/// The TLS protocol version to insist on.
#[derive(Clone, Copy, Debug, PartialEq, Eq, Structural)]
pub enum TlsVer {
    V12,
    V13,
}

impl Default for Tls {
    fn default() -> (t: Tls)
        ensures
            t == Tls::Plain,
    {
        Tls::Plain
    }
}

impl Tls {
    /// The port a server listens on by default for this kind of connection.
    pub open spec fn default_port(self) -> u16 {
        match self {
            Tls::Plain | Tls::Explicit => 21,
            Tls::Implicit => 990,
        }
    }

    pub fn port(self) -> (p: u16)
        ensures
            p == self.default_port(),
    {
        match self {
            Tls::Plain | Tls::Explicit => 21,
            Tls::Implicit => 990,
        }
    }
}

/// The settings as a config file states them, before defaults are applied.
pub struct Raw {
    pub host: String,
    pub port: Option<u16>,
    pub user: String,
    pub pass: String,
    pub tls: Tls,
    pub tls_version: Option<TlsVer>,
    pub passive: bool,
    pub remote_dir: Option<String>,
    pub local_dir: Option<String>,
}

/// The client configuration.
#[derive(Clone, Debug, PartialEq, Eq)]
pub struct Cfg {
    pub host: String,
    pub port: u16,
    pub user: String,
    pub pass: String,
    pub tls: Tls,
    pub tls_version: Option<TlsVer>,
    pub passive: bool,
    pub remote_dir: Option<String>,
    pub local_dir: Option<String>,
}

/// What can go wrong in choosing a config file or a path.
#[derive(Clone, Debug, PartialEq, Eq)]
pub enum Error {
    /// None of these config files exists.
    NoCfg(Vec<String>),
    /// This local path has no final name to upload it under.
    Name(String),
    /// This remote path has no name to download it to.
    Remote(String),
}

/// A remote directory as configured: surrounding whitespace removed, and
/// none at all where nothing is left.
pub open spec fn clean_dir(dir: Option<Seq<char>>) -> Option<Seq<char>> {
    match dir {
        Some(d) => if trim(d).len() == 0 {
            None
        } else {
            Some(trim(d))
        },
        None => None,
    }
}

/// A configured remote directory is kept, with only its surrounding
/// whitespace removed, whenever it holds anything but whitespace (a trailing
/// `/` included); it is dropped only when it is all whitespace.
pub proof fn law_remote_dir_kept(d: Seq<char>)
    ensures
        (forall|i: int| 0 <= i < d.len() ==> is_white(d[i])) ==> clean_dir(Some(d)) is None,
        (exists|i: int| 0 <= i < d.len() && !is_white(d[i])) ==> (clean_dir(Some(d)) matches Some(
            t,
        ) && exists|a: int, b: int|
            #![trigger d.subrange(a, b)]
            0 <= a < b <= d.len() && t == d.subrange(a, b) && !is_white(d[a]) && !is_white(
                d[b - 1],
            ) && (forall|i: int| 0 <= i < a ==> is_white(d[i])) && (forall|i: int|
                b <= i < d.len() ==> is_white(d[i]))),
{
    law_trim_keeps_inner_text(d);
}

/// Where a local path leads: an absolute path stays; a relative one is
/// taken under the local directory (with `~` expanded) where one is set.
pub open spec fn local_of(
    local_dir: Option<Seq<char>>,
    path: Seq<char>,
    home: Option<Seq<char>>,
) -> Seq<char> {
    if is_absolute_path(path) {
        path
    } else {
        match local_dir {
            Some(d) => join_path(expand_home(d, home), path),
            None => path,
        }
    }
}

/// An absolute local path is used as it is, whatever the local directory.
pub proof fn law_absolute_path_kept(
    local_dir: Option<Seq<char>>,
    path: Seq<char>,
    home: Option<Seq<char>>,
)
    requires
        is_absolute_path(path),
    ensures
        local_of(local_dir, path, home) == path,
{
}

/// A relative local path is placed inside the local directory, where one is
/// set: the directory (with `~` expanded) is a prefix of where it leads.
pub proof fn law_relative_path_under_local_dir(
    dir: Seq<char>,
    path: Seq<char>,
    home: Option<Seq<char>>,
)
    requires
        !is_absolute_path(path),
    ensures
        local_of(Some(dir), path, home).len() >= expand_home(dir, home).len(),
        local_of(Some(dir), path, home).subrange(0, expand_home(dir, home).len() as int)
            == expand_home(dir, home),
{
    let base = expand_home(dir, home);
    assert(local_of(Some(dir), path, home).subrange(0, base.len() as int) =~= base);
}

/// The local file a download of `remote` goes to: `local` where given,
/// else the remote file's name, in either case under the local directory;
/// none where `remote` has no name.
pub open spec fn get_target(
    local_dir: Option<Seq<char>>,
    remote: Seq<char>,
    local: Option<Seq<char>>,
    home: Option<Seq<char>>,
) -> Option<Seq<char>> {
    match local {
        Some(l) => Some(local_of(local_dir, l, home)),
        None => match remote_name_of(remote) {
            Some(n) => Some(local_of(local_dir, n, home)),
            None => None,
        },
    }
}

/// The remote name an upload of `local` is stored under: `remote` where
/// given, else the final name of `local`; none where it has no such name.
pub open spec fn put_target(local: Seq<char>, remote: Option<Seq<char>>) -> Option<Seq<char>> {
    match remote {
        Some(r) => Some(r),
        None => file_name_of(local),
    }
}

/// A remote name given for an upload is used as it is, whatever the local
/// path; only without one is a name taken from the local path.
pub proof fn law_given_remote_used_verbatim(local: Seq<char>, remote: Seq<char>)
    ensures
        put_target(local, Some(remote)) == Some(remote),
        put_target(local, None) == file_name_of(local),
{
}

/// The config files looked for, in order.
pub open spec fn paths_of(home: Option<Seq<char>>) -> Seq<Seq<char>> {
    match home {
        Some(h) => seq!["ftp.toml"@, join_path(h, ".config/rftp/config.toml"@)],
        None => seq!["ftp.toml"@],
    }
}

/// `std::path::Path::is_file`: whether a regular file exists at `path`,
/// following symbolic links. What is on disk is not modelled, so nothing is
/// promised of the answer.
#[verifier::external_body]
fn is_file(path: &str) -> bool {
    std::path::Path::new(path).is_file()
}

/// Asks, for each of `paths` in order, whether a regular file is there.
fn probe(paths: &[String]) -> (found: Vec<bool>)
    ensures
        found@.len() == paths@.len(),
{
    let mut found: Vec<bool> = Vec::new();
    let mut i: usize = 0;
    while i < paths.len()
        invariant
            i <= paths@.len(),
            found@.len() == i,
        decreases paths@.len() - i,
    {
        found.push(is_file(paths[i].as_str()));
        i = i + 1;
    }
    found
}

impl Cfg {
    /// `host:port` as text.
    pub open spec fn address(self) -> Seq<char> {
        self.host@ + seq![':'] + decimal(self.port as nat)
    }

    /// Applies the defaults: the port of the TLS mode where none is given,
    /// and a remote directory only where it is more than whitespace.
    pub fn from_raw(raw: Raw) -> (c: Cfg)
        ensures
            c.host == raw.host,
            c.port == match raw.port {
                Some(p) => p,
                None => raw.tls.default_port(),
            },
            c.user == raw.user,
            c.pass == raw.pass,
            c.tls == raw.tls,
            c.tls_version == raw.tls_version,
            c.passive == raw.passive,
            c.remote_dir.deep_view() == clean_dir(raw.remote_dir.deep_view()),
            c.local_dir == raw.local_dir,
    {
        let Raw { host, port, user, pass, tls, tls_version, passive, remote_dir, local_dir } =
            raw;
        let port: u16 = match port {
            Some(p) => p,
            None => tls.port(),
        };
        let remote_dir = match remote_dir {
            Some(d) => {
                let t = trimmed(d.as_str());
                if t.as_str().is_empty() {
                    None
                } else {
                    Some(t)
                }
            },
            None => None,
        };
        Cfg { host, port, user, pass, tls, tls_version, passive, remote_dir, local_dir }
    }

    /// Passive mode is on unless a config file turns it off.
    pub fn yes() -> (b: bool)
        ensures
            b,
    {
        true
    }

    /// `host:port`, the address to connect to.
    pub fn addr(&self) -> (a: String)
        ensures
            a@ == self.address(),
    {
        proof {
            reveal_strlit(":");
        }
        let port = decimal_string(self.port as u64);
        String::from_str(self.host.as_str()).concat(":").concat(port.as_str())
    }

    /// `path` with a leading `~` replaced by the home directory `home`.
    pub fn home(path: &str, home: Option<&str>) -> (r: String)
        ensures
            r@ == expand_home(path@, home.deep_view()),
    {
        let n: usize = path.unicode_len();
        if n == 1 && path.get_char(0) == '~' {
            assert(path@ =~= seq!['~']);
            match home {
                Some(h) => String::from_str(h),
                None => String::from_str(path),
            }
        } else if n >= 2 && path.get_char(0) == '~' && path.get_char(1) == '/' {
            assert(path@ != seq!['~']);
            match home {
                Some(h) => join(h, path.substring_char(2, n)),
                None => String::from_str(path),
            }
        } else {
            String::from_str(path)
        }
    }

    /// Where the local path `path` leads under this configuration.
    pub fn local(&self, path: &str, home: Option<&str>) -> (r: String)
        ensures
            r@ == local_of(self.local_dir.deep_view(), path@, home.deep_view()),
    {
        if is_absolute(path) {
            return String::from_str(path);
        }
        match &self.local_dir {
            Some(dir) => {
                let base = Cfg::home(dir.as_str(), home);
                join(base.as_str(), path)
            },
            None => String::from_str(path),
        }
    }

    /// The local file that a download of `remote` is written to: `local`
    /// where given, else the remote file's name, in either case under the
    /// local directory.
    pub fn get_path(&self, remote: &str, local: Option<&str>, home: Option<&str>) -> (r: Result<
        String,
        Error,
    >)
        ensures
            match get_target(
                self.local_dir.deep_view(),
                remote@,
                local.deep_view(),
                home.deep_view(),
            ) {
                Some(p) => r matches Ok(s) && s@ == p,
                None => r matches Err(Error::Remote(s)) && s@ == remote@,
            },
    {
        match local {
            Some(l) => Ok(self.local(l, home)),
            None => {
                let name = Cfg::remote_name(remote)?;
                Ok(self.local(name.as_str(), home))
            },
        }
    }

    /// The local file read by an upload of `local`, and the remote name it
    /// is stored under: `remote` where given, else the local file's name.
    pub fn put_path(&self, local: &str, remote: Option<&str>, home: Option<&str>) -> (r: Result<
        (String, String),
        Error,
    >)
        ensures
            remote matches Some(rm) ==> r matches Ok((l, m)) && m@ == rm@,
            match put_target(local@, remote.deep_view()) {
                Some(n) => r matches Ok((l, m)) && l@ == local_of(
                    self.local_dir.deep_view(),
                    local@,
                    home.deep_view(),
                ) && m@ == n,
                None => r matches Err(Error::Name(s)) && s@ == local@,
            },
    {
        let local_path = self.local(local, home);
        let remote_path = match remote {
            Some(rm) => String::from_str(rm),
            None => Cfg::file_name(local)?,
        };
        Ok((local_path, remote_path))
    }

    /// The final name of the local path `path`.
    pub fn file_name(path: &str) -> (r: Result<String, Error>)
        ensures
            match file_name_of(path@) {
                Some(f) => r matches Ok(n) && n@ == f,
                None => r matches Err(Error::Name(s)) && s@ == path@,
            },
    {
        match file_name(path) {
            Some(n) => Ok(n),
            None => Err(Error::Name(String::from_str(path))),
        }
    }

    /// The last non-empty part of the remote path `path`.
    pub fn remote_name(path: &str) -> (r: Result<String, Error>)
        ensures
            match remote_name_of(path@) {
                Some(n) => r matches Ok(s) && s@ == n,
                None => r matches Err(Error::Remote(s)) && s@ == path@,
            },
    {
        match remote_name(path) {
            Some(n) => Ok(n),
            None => Err(Error::Remote(String::from_str(path))),
        }
    }

    /// The config files looked for, in order: `ftp.toml`, then
    /// `.config/rftp/config.toml` under the home directory where there is one.
    pub fn paths(home: Option<&str>) -> (ps: Vec<String>)
        ensures
            ps.deep_view() == paths_of(home.deep_view()),
    {
        let mut ps: Vec<String> = Vec::new();
        ps.push(String::from_str("ftp.toml"));
        match home {
            Some(h) => {
                ps.push(join(h, ".config/rftp/config.toml"));
            },
            None => {},
        }
        assert(ps.deep_view() =~= paths_of(home.deep_view()));
        ps
    }

    /// The index of the first `true` in `found`.
    pub fn first_existing(found: &[bool]) -> (r: Option<usize>)
        ensures
            match r {
                Some(i) => i < found@.len() && found@[i as int] && forall|j: int|
                    0 <= j < i ==> !found@[j],
                None => forall|j: int| 0 <= j < found@.len() ==> !found@[j],
            },
    {
        let mut i: usize = 0;
        while i < found.len()
            invariant
                i <= found@.len(),
                forall|j: int| 0 <= j < i ==> !found@[j],
            decreases found@.len() - i,
        {
            if found[i] {
                return Some(i);
            }
            i = i + 1;
        }
        None
    }

    /// The first of `paths` at which a regular file exists.
    pub fn pick(paths: &[String]) -> (r: Option<&String>)
        ensures
            r matches Some(p) ==> exists|i: int| 0 <= i < paths@.len() && paths@[i] == *p,
            paths@.len() == 0 ==> r is None,
    {
        let mut found: Vec<bool> = Vec::new();
        let mut i: usize = 0;
        while i < paths.len()
            invariant
                i <= paths@.len(),
                found@.len() == i,
            decreases paths@.len() - i,
        {
            found.push(is_file(paths[i].as_str()));
            i = i + 1;
        }
        match Cfg::first_existing(found.as_slice()) {
            Some(k) => Some(&paths[k]),
            None => None,
        }
    }

    /// Given whether a file was found at each of `paths`, the one to load:
    /// the first at which one was found, or [`Error::NoCfg`] with all of
    /// `paths` where none was.
    pub fn select(paths: Vec<String>, found: &[bool]) -> (r: Result<String, Error>)
        requires
            found@.len() == paths@.len(),
        ensures
            r matches Ok(s) ==> exists|i: int|
                0 <= i < paths@.len() && paths@[i] == s && found@[i] && forall|j: int|
                    0 <= j < i ==> !found@[j],
            r matches Err(e) ==> e == Error::NoCfg(paths) && forall|j: int|
                0 <= j < found@.len() ==> !found@[j],
            (exists|j: int| 0 <= j < found@.len() && found@[j]) ==> r is Ok,
    {
        match Cfg::first_existing(found) {
            Some(k) => Ok(paths[k].clone()),
            None => Err(Error::NoCfg(paths)),
        }
    }

    /// The config file to load: `path` where given, else the first of
    /// [`Cfg::paths`] that exists.
    pub fn find(path: Option<&str>, home: Option<&str>) -> (r: Result<String, Error>)
        ensures
            match path {
                Some(p) => r matches Ok(s) && s@ == p@,
                None => match r {
                    Ok(s) => paths_of(home.deep_view()).contains(s@),
                    Err(e) => e matches Error::NoCfg(ps) && ps.deep_view() == paths_of(
                        home.deep_view(),
                    ),
                },
            },
    {
        match path {
            Some(p) => Ok(String::from_str(p)),
            None => {
                let paths = Cfg::paths(home);
                let found = probe(paths.as_slice());
                let ghost ps = paths@;
                let ghost dv = paths.deep_view();
                let r = Cfg::select(paths, found.as_slice());
                proof {
                    if r is Ok {
                        let s = r->Ok_0;
                        let i: int = choose|i: int|
                            0 <= i < ps.len() && ps[i] == s && found@[i] && forall|j: int|
                                0 <= j < i ==> !found@[j];
                        assert(dv[i] == s@);
                    }
                }
                r
            },
        }
    }
}

} // verus!
