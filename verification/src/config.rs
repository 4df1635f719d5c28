//! Settings that commands read and hand on: the defaults for a new
//! connection, the settings of one server, and the configuration of a tab.
use vstd::prelude::*;

verus! {

/// A copy of `v`, string by string.
pub fn clone_strings(v: &Vec<String>) -> (r: Vec<String>)
    ensures
        r.deep_view() == v.deep_view(),
{
    let mut r: Vec<String> = Vec::new();
    let mut i: usize = 0;
    while i < v.len()
        invariant
            i <= v.len(),
            r.len() == i,
            forall|k: int| 0 <= k < i ==> r[k]@ == v[k]@,
        decreases v.len() - i,
    {
        r.push(v[i].clone());
        i = i + 1;
    }
    assert(r.deep_view() =~= v.deep_view());
    r
}

/// When a tab notifies the user.
#[derive(Clone, Copy, Debug, PartialEq, Eq)]
pub enum Notifier {
    Off,
    Mentions,
    Messages,
}

/// The configuration stored with a tab. A field that is `None` was not set.
#[derive(Clone, Copy, Debug, PartialEq, Eq)]
pub struct TabConfig {
    /// `Some(true)` if the tab ignores join and part messages.
    pub ignore: Option<bool>,
    /// The notification setting of the tab.
    pub notify: Option<Notifier>,
}

/// A channel to join, as given on the command line: a bare name, or a name
/// with the configuration for its tab.
#[derive(Clone, Debug, PartialEq, Eq)]
pub enum Chan {
    Name(String),
    WithConfig { name: String, config: TabConfig },
}

/// Mathematical model of a [`Chan`].
pub enum ChanView {
    Name(Seq<char>),
    WithConfig { name: Seq<char>, config: TabConfig },
}

impl ChanView {
    /// The channel's name.
    pub open spec fn name(self) -> Seq<char> {
        match self {
            ChanView::Name(name) => name,
            ChanView::WithConfig { name, .. } => name,
        }
    }

    /// The configuration given with the channel, if any.
    pub open spec fn config(self) -> Option<TabConfig> {
        match self {
            ChanView::Name(_) => None,
            ChanView::WithConfig { config, .. } => Some(config),
        }
    }
}

impl View for Chan {
    type V = ChanView;

    open spec fn view(&self) -> ChanView {
        match self {
            Chan::Name(name) => ChanView::Name(name@),
            Chan::WithConfig { name, config } => ChanView::WithConfig {
                name: name@,
                config: *config,
            },
        }
    }
}

impl DeepView for Chan {
    type V = ChanView;

    open spec fn deep_view(&self) -> ChanView {
        self@
    }
}

impl Chan {
    /// The channel's name.
    pub fn name(&self) -> (r: &str)
        ensures
            r@ == self@.name(),
    {
        match self {
            Chan::Name(name) => name.as_str(),
            Chan::WithConfig { name, .. } => name.as_str(),
        }
    }
}

/// The settings that a new connection takes when the command gives none.
#[derive(Clone, Debug, PartialEq, Eq)]
pub struct Defaults {
    pub nicks: Vec<String>,
    pub realname: String,
    /// Channels to join once connected.
    pub join: Vec<String>,
    pub tls: bool,
}

/// Mathematical model of [`Defaults`].
pub struct DefaultsView {
    pub nicks: Seq<Seq<char>>,
    pub realname: Seq<char>,
    pub join: Seq<Seq<char>>,
    pub tls: bool,
}

impl View for Defaults {
    type V = DefaultsView;

    open spec fn view(&self) -> DefaultsView {
        DefaultsView {
            nicks: self.nicks.deep_view(),
            realname: self.realname@,
            join: self.join.deep_view(),
            tls: self.tls,
        }
    }
}

/// The settings of one server, from which a connection is made.
#[derive(Clone, Debug, PartialEq, Eq)]
pub struct ServerInfo {
    pub addr: String,
    pub port: u16,
    pub tls: bool,
    pub realname: String,
    pub pass: Option<String>,
    pub nicks: Vec<String>,
    pub auto_join: Vec<String>,
}

/// Mathematical model of a [`ServerInfo`].
pub struct ServerInfoView {
    pub addr: Seq<char>,
    pub port: u16,
    pub tls: bool,
    pub realname: Seq<char>,
    pub pass: Option<Seq<char>>,
    pub nicks: Seq<Seq<char>>,
    pub auto_join: Seq<Seq<char>>,
}

impl View for ServerInfo {
    type V = ServerInfoView;

    open spec fn view(&self) -> ServerInfoView {
        ServerInfoView {
            addr: self.addr@,
            port: self.port,
            tls: self.tls,
            realname: self.realname@,
            pass: self.pass.deep_view(),
            nicks: self.nicks.deep_view(),
            auto_join: self.auto_join.deep_view(),
        }
    }
}

impl DeepView for ServerInfo {
    type V = ServerInfoView;

    open spec fn deep_view(&self) -> ServerInfoView {
        self@
    }
}

/// The settings of a connection to `addr` at `port` that takes the rest
/// from `defaults`.
pub open spec fn server_info(
    addr: Seq<char>,
    port: u16,
    pass: Option<Seq<char>>,
    defaults: DefaultsView,
) -> ServerInfoView {
    ServerInfoView {
        addr,
        port,
        tls: defaults.tls,
        realname: defaults.realname,
        pass,
        nicks: defaults.nicks,
        auto_join: defaults.join,
    }
}

impl ServerInfo {
    /// The settings of a connection to `addr` at `port`, with the password
    /// `pass` if one is given and everything else from `defaults`.
    pub fn from_defaults(addr: &str, port: u16, pass: Option<&str>, defaults: &Defaults) -> (r:
        ServerInfo)
        ensures
            r@ == server_info(addr@, port, pass.deep_view(), defaults@),
    {
        let pass = match pass {
            Some(p) => Some(p.to_owned()),
            None => None,
        };
        ServerInfo {
            addr: addr.to_owned(),
            port,
            tls: defaults.tls,
            realname: defaults.realname.clone(),
            pass,
            nicks: clone_strings(&defaults.nicks),
            auto_join: clone_strings(&defaults.join),
        }
    }
}

} // verus!
