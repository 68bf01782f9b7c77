//! Configuration, path resolution and session planning for a command-line
//! FTP client.
use vstd::prelude::*;

pub mod cfg;
pub mod cli;
pub mod cmd;
pub mod path;
pub mod session;
pub mod text;

pub use cfg::{Cfg, Error, Raw, Tls, TlsVer};
pub use cli::{Cli, Cmd};
pub use cmd::{Act, Outcome};
pub use session::{Dial, Step};

verus! {

} // verus!
