use rftp::cfg::{Cfg, Error, Tls};
use rftp::cli::{Cli, Cmd};
use rftp::cmd::{Act, Outcome};

fn cfg() -> Cfg {
    Cfg {
        host: "ftp.example.com".into(),
        port: 21,
        user: "me".into(),
        pass: "secret".into(),
        tls: Tls::Plain,
        tls_version: None,
        passive: true,
        remote_dir: Some("/public_html".into()),
        local_dir: Some(String::from("site")),
    }
}

#[test]
fn resolves_get_default_local() {
    let act = Cmd::Get { remote: "/assets/app.css".into(), local: None }.plan(&cfg(), None).unwrap();

    assert_eq!(act, Act::Get { remote: "/assets/app.css".into(), local: String::from("site/app.css") });
}

#[test]
fn resolves_put_default_remote() {
    let act = Cmd::Put { local: String::from("app.css"), remote: None }.plan(&cfg(), None).unwrap();

    assert_eq!(act, Act::Put { local: String::from("site/app.css"), remote: "app.css".into() });
}

#[test]
fn keeps_absolute_local_path() {
    let act = Cmd::Get { remote: "app.css".into(), local: Some(String::from("/tmp/app.css")) }
        .plan(&cfg(), None)
        .unwrap();

    assert_eq!(act, Act::Get { remote: "app.css".into(), local: String::from("/tmp/app.css") });
}

#[test]
fn plan_passes_plain_commands_through() {
    let c = cfg();
    assert_eq!(Cmd::Ls { path: None }.plan(&c, None).unwrap(), Act::Ls { path: None });
    assert_eq!(
        Cmd::Ls { path: Some("uploads".into()) }.plan(&c, None).unwrap(),
        Act::Ls { path: Some("uploads".into()) }
    );
    assert_eq!(Cmd::Rm { remote: "old.html".into() }.plan(&c, None).unwrap(), Act::Rm { remote: "old.html".into() });
    assert_eq!(Cmd::Mkdir { remote: "assets".into() }.plan(&c, None).unwrap(), Act::Mkdir { remote: "assets".into() });
    assert_eq!(
        Cmd::Rmdir { remote: "empty-dir".into() }.plan(&c, None).unwrap(),
        Act::Rmdir { remote: "empty-dir".into() }
    );
    assert_eq!(Cmd::Pwd.plan(&c, None).unwrap(), Act::Pwd);
    assert_eq!(
        Cmd::Cd { remote: "/public_html".into() }.plan(&c, None).unwrap(),
        Act::Cd { remote: "/public_html".into() }
    );
}

#[test]
fn plan_get_with_local_name_goes_under_local_dir() {
    let act = Cmd::Get { remote: "/public_html/index.html".into(), local: Some("./index.html".into()) }
        .plan(&cfg(), None)
        .unwrap();
    assert_eq!(act, Act::Get { remote: "/public_html/index.html".into(), local: "site/./index.html".into() });
}

#[test]
fn plan_get_of_nameless_remote_fails() {
    let err = Cmd::Get { remote: "//".into(), local: None }.plan(&cfg(), None).unwrap_err();
    assert_eq!(err, Error::Remote("//".into()));
}

#[test]
fn plan_put_of_nameless_local_fails() {
    let err = Cmd::Put { local: "..".into(), remote: None }.plan(&cfg(), None).unwrap_err();
    assert_eq!(err, Error::Name("..".into()));
}

#[test]
fn plan_put_with_remote_name_keeps_it() {
    let act = Cmd::Put { local: "./index.html".into(), remote: Some("index.html".into()) }
        .plan(&cfg(), None)
        .unwrap();
    assert_eq!(act, Act::Put { local: "site/./index.html".into(), remote: "index.html".into() });
}

#[test]
fn plan_expands_home_in_local_dir() {
    let mut c = cfg();
    c.local_dir = Some("~/site".into());
    let act = Cmd::Get { remote: "a/b.txt".into(), local: None }.plan(&c, Some("/home/me")).unwrap();
    assert_eq!(act, Act::Get { remote: "a/b.txt".into(), local: "/home/me/site/b.txt".into() });
}

#[test]
fn plan_without_local_dir_keeps_relative_path() {
    let mut c = cfg();
    c.local_dir = None;
    let act = Cmd::Get { remote: "a/b.txt".into(), local: None }.plan(&c, None).unwrap();
    assert_eq!(act, Act::Get { remote: "a/b.txt".into(), local: "b.txt".into() });
}

#[test]
fn outcome_lines() {
    assert_eq!(
        Outcome::Got { remote: "/a.css".into(), local: "site/a.css".into(), bytes: 1234 }.lines(),
        vec![String::from("got /a.css -> site/a.css (1234 bytes)")]
    );
    assert_eq!(
        Outcome::Put { local: "site/a.css".into(), remote: "a.css".into(), bytes: 0 }.lines(),
        vec![String::from("put site/a.css -> a.css (0 bytes)")]
    );
    assert_eq!(Outcome::Removed("old.html".into()).lines(), vec![String::from("removed old.html")]);
    assert_eq!(Outcome::Created("assets".into()).lines(), vec![String::from("created assets")]);
    assert_eq!(Outcome::Dir("/public_html".into()).lines(), vec![String::from("/public_html")]);
    let listing = vec![String::from("a"), String::from("b")];
    assert_eq!(Outcome::Listed(listing.clone()).lines(), listing);
}

#[test]
fn cli_getters() {
    let cli = Cli::new(Some("./ftp.toml".into()), Cmd::Pwd);
    assert_eq!(cli.cfg(), Some("./ftp.toml"));
    assert_eq!(cli.cmd(), &Cmd::Pwd);
    let cli = Cli::new(None, Cmd::Ls { path: None });
    assert_eq!(cli.cfg(), None);
    assert_eq!(cli.cmd(), &Cmd::Ls { path: None });
}

fn bare_cfg() -> Cfg {
    let mut c = cfg();
    c.local_dir = None;
    c
}

#[test]
fn readme_get_keeps_remote_file_name() {
    let act = Cmd::Get { remote: "/public_html/index.html".into(), local: None }.plan(&bare_cfg(), None).unwrap();
    assert_eq!(act, Act::Get { remote: "/public_html/index.html".into(), local: "index.html".into() });
    let act = Cmd::Get { remote: "/public_html/index.html".into(), local: Some("./index.html".into()) }
        .plan(&bare_cfg(), None)
        .unwrap();
    assert_eq!(act, Act::Get { remote: "/public_html/index.html".into(), local: "./index.html".into() });
}

#[test]
fn readme_put_keeps_local_file_name() {
    let act = Cmd::Put { local: "./index.html".into(), remote: None }.plan(&bare_cfg(), None).unwrap();
    assert_eq!(act, Act::Put { local: "./index.html".into(), remote: "index.html".into() });
    let act = Cmd::Put { local: "./index.html".into(), remote: Some("index.html".into()) }
        .plan(&bare_cfg(), None)
        .unwrap();
    assert_eq!(act, Act::Put { local: "./index.html".into(), remote: "index.html".into() });
}
