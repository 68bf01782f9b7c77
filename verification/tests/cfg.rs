use rftp::cfg::{Cfg, Error, Raw, Tls, TlsVer};

fn raw(tls: Tls, port: Option<u16>, remote_dir: Option<&str>) -> Raw {
    Raw {
        host: "ftp.example.com".into(),
        port,
        user: "me".into(),
        pass: "secret".into(),
        tls,
        tls_version: None,
        passive: Cfg::yes(),
        remote_dir: remote_dir.map(String::from),
        local_dir: None,
    }
}

#[test]
fn default_ports_follow_tls_mode() {
    assert_eq!(Tls::Plain.port(), 21);
    assert_eq!(Tls::Explicit.port(), 21);
    assert_eq!(Tls::Implicit.port(), 990);
    assert_eq!(Tls::default(), Tls::Plain);
}

#[test]
fn from_raw_fills_defaults() {
    let cfg = Cfg::from_raw(raw(Tls::Plain, None, None));
    assert_eq!(cfg.host, "ftp.example.com");
    assert_eq!(cfg.port, 21);
    assert!(cfg.passive);
    assert_eq!(cfg.tls, Tls::Plain);
    assert_eq!(cfg.tls_version, None);
    assert_eq!(cfg.remote_dir, None);

    assert_eq!(Cfg::from_raw(raw(Tls::Explicit, None, None)).port, 21);
    assert_eq!(Cfg::from_raw(raw(Tls::Implicit, None, None)).port, 990);
    assert_eq!(Cfg::from_raw(raw(Tls::Implicit, Some(2121), None)).port, 2121);
}

#[test]
fn from_raw_keeps_tls_version() {
    let mut r = raw(Tls::Implicit, None, None);
    r.tls_version = Some(TlsVer::V12);
    assert_eq!(Cfg::from_raw(r).tls_version, Some(TlsVer::V12));
}

#[test]
fn from_raw_trims_remote_dir() {
    let cfg = Cfg::from_raw(raw(Tls::Plain, None, Some("  /public_html\t\n")));
    assert_eq!(cfg.remote_dir, Some("/public_html".to_string()));
    let cfg = Cfg::from_raw(raw(Tls::Plain, None, Some(" \u{3000}\t ")));
    assert_eq!(cfg.remote_dir, None);
    let cfg = Cfg::from_raw(raw(Tls::Plain, None, Some("")));
    assert_eq!(cfg.remote_dir, None);
}

#[test]
fn addr_is_host_and_port() {
    let cfg = Cfg::from_raw(raw(Tls::Plain, None, None));
    assert_eq!(cfg.addr(), "ftp.example.com:21");
    let cfg = Cfg::from_raw(raw(Tls::Implicit, None, None));
    assert_eq!(cfg.addr(), "ftp.example.com:990");
    let cfg = Cfg::from_raw(raw(Tls::Plain, Some(0), None));
    assert_eq!(cfg.addr(), "ftp.example.com:0");
    let cfg = Cfg::from_raw(raw(Tls::Plain, Some(65535), None));
    assert_eq!(cfg.addr(), "ftp.example.com:65535");
}

#[test]
fn home_expansion() {
    assert_eq!(Cfg::home("~", Some("/home/me")), "/home/me");
    assert_eq!(Cfg::home("~/site", Some("/home/me")), "/home/me/site");
    assert_eq!(Cfg::home("~/site", Some("/home/me/")), "/home/me/site");
    assert_eq!(Cfg::home("~site", Some("/home/me")), "~site");
    assert_eq!(Cfg::home("~/site", None), "~/site");
    assert_eq!(Cfg::home("~", None), "~");
    assert_eq!(Cfg::home("site/~", Some("/home/me")), "site/~");
}

#[test]
fn local_paths() {
    let mut cfg = Cfg::from_raw(raw(Tls::Plain, None, None));
    assert_eq!(cfg.local("a.txt", None), "a.txt");
    cfg.local_dir = Some("site".into());
    assert_eq!(cfg.local("a.txt", None), "site/a.txt");
    assert_eq!(cfg.local("/tmp/a.txt", None), "/tmp/a.txt");
    cfg.local_dir = Some("~".into());
    assert_eq!(cfg.local("a.txt", Some("/home/me")), "/home/me/a.txt");
    cfg.local_dir = Some("site/".into());
    assert_eq!(cfg.local("a.txt", None), "site/a.txt");
}

#[test]
fn file_names() {
    assert_eq!(Cfg::file_name("a/b.txt"), Ok("b.txt".to_string()));
    assert_eq!(Cfg::file_name("./index.html"), Ok("index.html".to_string()));
    assert_eq!(Cfg::file_name("a/b/"), Ok("b".to_string()));
    assert_eq!(Cfg::file_name("a/."), Ok("a".to_string()));
    assert_eq!(Cfg::file_name("a/./"), Ok("a".to_string()));
    assert_eq!(Cfg::file_name(".."), Err(Error::Name("..".into())));
    assert_eq!(Cfg::file_name("a/.."), Err(Error::Name("a/..".into())));
    assert_eq!(Cfg::file_name("/"), Err(Error::Name("/".into())));
    assert_eq!(Cfg::file_name("."), Err(Error::Name(".".into())));
    assert_eq!(Cfg::file_name(""), Err(Error::Name("".into())));
}

#[test]
fn remote_names() {
    assert_eq!(Cfg::remote_name("/assets/app.css"), Ok("app.css".to_string()));
    assert_eq!(Cfg::remote_name("uploads/"), Ok("uploads".to_string()));
    assert_eq!(Cfg::remote_name("a.txt"), Ok("a.txt".to_string()));
    assert_eq!(Cfg::remote_name("a/."), Ok(".".to_string()));
    assert_eq!(Cfg::remote_name("//"), Err(Error::Remote("//".into())));
    assert_eq!(Cfg::remote_name(""), Err(Error::Remote("".into())));
}

#[test]
fn put_and_get_paths() {
    let mut cfg = Cfg::from_raw(raw(Tls::Plain, None, None));
    cfg.local_dir = Some("site".into());
    assert_eq!(cfg.put_path("./index.html", None, None), Ok(("site/./index.html".to_string(), "index.html".to_string())));
    assert_eq!(cfg.put_path("a/", Some("b"), None), Ok(("site/a/".to_string(), "b".to_string())));
    assert_eq!(cfg.put_path("/", None, None), Err(Error::Name("/".into())));
    assert_eq!(cfg.get_path("/public_html/index.html", None, None), Ok("site/index.html".to_string()));
    assert_eq!(cfg.get_path("x", Some("/abs/y"), None), Ok("/abs/y".to_string()));
    assert_eq!(cfg.get_path("/", None, None), Err(Error::Remote("/".into())));
}

#[test]
fn uploaded_name_downloads_to_same_name() {
    let name = Cfg::file_name("docs/./report.pdf/").unwrap();
    assert_eq!(Cfg::remote_name(&name), Ok(name.clone()));
}

#[test]
fn config_search_paths() {
    assert_eq!(Cfg::paths(None), vec!["ftp.toml".to_string()]);
    assert_eq!(
        Cfg::paths(Some("/home/me")),
        vec!["ftp.toml".to_string(), "/home/me/.config/rftp/config.toml".to_string()]
    );
}

#[test]
fn first_existing_is_first_true() {
    assert_eq!(Cfg::first_existing(&[false, true, true]), Some(1));
    assert_eq!(Cfg::first_existing(&[true]), Some(0));
    assert_eq!(Cfg::first_existing(&[false, false]), None);
    assert_eq!(Cfg::first_existing(&[]), None);
}

#[test]
fn pick_skips_missing_files() {
    let paths = vec!["/nonexistent/rftp/a.toml".to_string(), "/".to_string()];
    assert_eq!(Cfg::pick(&paths), None);
}

#[test]
fn find_prefers_given_path() {
    assert_eq!(Cfg::find(Some("./ftp.toml"), None), Ok("./ftp.toml".to_string()));
}

#[test]
fn find_reports_searched_paths() {
    let home = "/nonexistent/rftp-home";
    match Cfg::find(None, Some(home)) {
        Ok(p) => assert!(Cfg::paths(Some(home)).contains(&p)),
        Err(e) => assert_eq!(e, Error::NoCfg(Cfg::paths(Some(home)))),
    }
}

#[test]
fn pick_takes_first_regular_file() {
    let paths = vec!["missing.toml".to_string(), "src".to_string(), "src/lib.rs".to_string(), "src/cfg.rs".to_string()];
    assert_eq!(Cfg::pick(&paths), Some(&paths[2]));
}
