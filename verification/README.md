# rftp

A command-line FTP client (`ls`, `get`, `put`, `rm`, `mkdir`, `rmdir`,
`pwd`, `cd`) configured by a TOML file, with its decisions verified by Verus.

- `src/` is the verified library:
  - `cfg.rs`: the configuration (defaults per TLS mode, remote directory
    cleaning, `host:port`), `~` expansion, where local and remote files are
    found, and which config file is used.
  - `cli.rs`, `cmd.rs`: commands resolved into actions, and the lines printed
    once an action is done.
  - `session.rs`: the connection to open and the commands that prepare a
    session (active mode, login, `PBSZ 0`/`PROT P` for implicit FTPS, binary
    mode, the remote directory).
  - `path.rs`, `text.rs`: Unix path text and string helpers with their
    meaning stated over characters.
- `app/` is the program around it: argument parsing (clap), reading and
  parsing the config file (serde, toml), and the FTP connection (suppaftp with
  rustls and the webpki roots).
- `tests/` exercises the library on concrete values.
