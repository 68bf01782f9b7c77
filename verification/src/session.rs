//! How a session with the server is opened and prepared: the connection to
//! make, then the commands sent before the user's own.
use vstd::prelude::*;

use crate::cfg::{Cfg, Tls};

verus! {

/// The connection to open.
#[derive(Clone, Debug, PartialEq, Eq)]
pub enum Dial {
    /// Plain FTP to `addr`.
    Plain { addr: String },
    /// Plain FTP to `addr`, then secured with TLS for `domain`.
    Explicit { addr: String, domain: String },
    /// TLS for `domain` from the start, to `addr`.
    Implicit { addr: String, domain: String },
}

/// One step of preparing a session, in the order they are taken.
#[derive(Clone, Debug, PartialEq, Eq)]
pub enum Step {
    /// Switch data connections to active mode.
    Active,
    /// Log in.
    Login { user: String, pass: String },
    /// Send this command and expect `200 Command okay`.
    Command(String),
    /// Switch the transfer type to binary.
    Binary,
    /// Change to this remote directory.
    Cd(String),
}

/// A step as text.
pub enum StepView {
    Active,
    Login(Seq<char>, Seq<char>),
    Command(Seq<char>),
    Binary,
    Cd(Seq<char>),
}

impl View for Step {
    type V = StepView;

    open spec fn view(&self) -> StepView {
        match self {
            Step::Active => StepView::Active,
            Step::Login { user, pass } => StepView::Login(user@, pass@),
            Step::Command(c) => StepView::Command(c@),
            Step::Binary => StepView::Binary,
            Step::Cd(d) => StepView::Cd(d@),
        }
    }
}

/// The steps that prepare a session: active mode unless passive is asked
/// for; the login; for implicit FTPS, `PBSZ 0` and `PROT P` so that data
/// connections are protected too (explicit FTPS has them from the TLS
/// upgrade); binary transfers; and the configured remote directory.
pub open spec fn session_steps(cfg: Cfg) -> Seq<StepView> {
    (if cfg.passive {
        seq![]
    } else {
        seq![StepView::Active]
    }) + seq![StepView::Login(cfg.user@, cfg.pass@)] + (if cfg.tls == Tls::Implicit {
        seq![StepView::Command("PBSZ 0"@), StepView::Command("PROT P"@)]
    } else {
        seq![]
    }) + seq![StepView::Binary] + match cfg.remote_dir {
        Some(d) => seq![StepView::Cd(d@)],
        None => seq![],
    }
}

/// The shape of every session preparation: the configured remote directory,
/// whatever the TLS mode, is entered as the very last step (and no directory
/// change happens without one); active mode, when asked for, is switched on
/// first; the login comes before any other command; protection commands are
/// sent exactly for implicit FTPS; the transfer type is set to binary.
pub proof fn law_session_shape(cfg: Cfg)
    ensures
        session_steps(cfg).len() >= 2,
        cfg.remote_dir matches Some(d) ==> session_steps(cfg).last() == StepView::Cd(d@),
        cfg.remote_dir is None ==> forall|i: int|
            0 <= i < session_steps(cfg).len() ==> !(session_steps(cfg)[i] is Cd),
        !cfg.passive ==> session_steps(cfg)[0] == StepView::Active,
        cfg.passive ==> forall|i: int|
            0 <= i < session_steps(cfg).len() ==> !(session_steps(cfg)[i] is Active),
        session_steps(cfg)[if cfg.passive {
            0int
        } else {
            1int
        }] == StepView::Login(cfg.user@, cfg.pass@),
        (exists|i: int|
            0 <= i < session_steps(cfg).len() && session_steps(cfg)[i] is Command) <==> cfg.tls
            == Tls::Implicit,
        exists|i: int| 0 <= i < session_steps(cfg).len() && session_steps(cfg)[i] == StepView::Binary,
{
    let s = session_steps(cfg);
    let a: Seq<StepView> = if cfg.passive {
        seq![]
    } else {
        seq![StepView::Active]
    };
    let l: Seq<StepView> = seq![StepView::Login(cfg.user@, cfg.pass@)];
    let c: Seq<StepView> = if cfg.tls == Tls::Implicit {
        seq![StepView::Command("PBSZ 0"@), StepView::Command("PROT P"@)]
    } else {
        seq![]
    };
    let b: Seq<StepView> = seq![StepView::Binary];
    let d: Seq<StepView> = match cfg.remote_dir {
        Some(d) => seq![StepView::Cd(d@)],
        None => seq![],
    };
    assert(s == a + l + c + b + d);
    let k: int = (a.len() + l.len() + c.len()) as int;
    assert(s[k] == StepView::Binary);
    if cfg.tls == Tls::Implicit {
        assert(s[a.len() + 1int] == StepView::Command("PBSZ 0"@));
    } else {
        assert forall|i: int| 0 <= i < s.len() implies !(s[i] is Command) by {
            if i < a.len() {
                assert(s[i] == a[i]);
            } else if i < a.len() + 1 {
                assert(s[i] == l[i - a.len()]);
            } else if i < a.len() + 1 + 1 {
                assert(s[i] == b[i - a.len() - 1]);
            } else {
                assert(s[i] == d[i - a.len() - 2]);
            }
        }
    }
    if cfg.passive {
        assert forall|i: int| 0 <= i < s.len() implies !(s[i] is Active) by {
            if i < 1 {
                assert(s[i] == l[i]);
            } else if i < 1 + c.len() {
                assert(s[i] == c[i - 1]);
            } else if i < 2 + c.len() {
                assert(s[i] == b[i - 1 - c.len()]);
            } else {
                assert(s[i] == d[i - 2 - c.len()]);
            }
        }
    }
    if cfg.remote_dir is None {
        assert forall|i: int| 0 <= i < s.len() implies !(s[i] is Cd) by {
            if i < a.len() {
                assert(s[i] == a[i]);
            } else if i < a.len() + 1 {
                assert(s[i] == l[i - a.len()]);
            } else if i < a.len() + 1 + c.len() {
                assert(s[i] == c[i - a.len() - 1]);
            } else {
                assert(s[i] == b[i - a.len() - 1 - c.len()]);
            }
        }
    }
}

impl Cfg {
    /// The connection that this configuration asks for.
    pub fn dial(&self) -> (d: Dial)
        ensures
            match self.tls {
                Tls::Plain => d matches Dial::Plain { addr } && addr@ == self.address(),
                Tls::Explicit => d matches Dial::Explicit { addr, domain } && addr@ == self.address() && domain == self.host,
                Tls::Implicit => d matches Dial::Implicit { addr, domain } && addr@ == self.address() && domain == self.host,
            },
    {
        let addr = self.addr();
        match self.tls {
            Tls::Plain => Dial::Plain { addr },
            Tls::Explicit => Dial::Explicit { addr, domain: self.host.clone() },
            Tls::Implicit => Dial::Implicit { addr, domain: self.host.clone() },
        }
    }

    /// The steps that prepare a freshly opened session.
    pub fn init_steps(&self) -> (steps: Vec<Step>)
        ensures
            steps@.map_values(|s: Step| s@) == session_steps(*self),
    {
        let mut steps: Vec<Step> = Vec::new();
        if !self.passive {
            steps.push(Step::Active);
        }
        steps.push(Step::Login { user: self.user.clone(), pass: self.pass.clone() });
        if self.tls == Tls::Implicit {
            steps.push(Step::Command(String::from_str("PBSZ 0")));
            steps.push(Step::Command(String::from_str("PROT P")));
        }
        steps.push(Step::Binary);
        match &self.remote_dir {
            Some(dir) => {
                steps.push(Step::Cd(dir.clone()));
            },
            None => {},
        }
        assert(steps@.map_values(|s: Step| s@) =~= session_steps(*self));
        steps
    }
}

} // verus!
