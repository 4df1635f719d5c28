//! Where a command or message comes from, and where a message goes.
use vstd::prelude::*;

verus! {

/// The name of the pseudo-server whose tab collects mentions.
pub open spec fn mentions_name() -> Seq<char> {
    seq!['m', 'e', 'n', 't', 'i', 'o', 'n', 's']
}

/// The origin of a command or message: a server, a channel on a server, or
/// a user on a server.
#[derive(Clone, Debug, PartialEq, Eq)]
pub enum MsgSource {
    Serv { serv: String },
    Chan { serv: String, chan: String },
    User { serv: String, nick: String },
}

/// Mathematical model of a [`MsgSource`].
pub enum SourceView {
    Serv { serv: Seq<char> },
    Chan { serv: Seq<char>, chan: Seq<char> },
    User { serv: Seq<char>, nick: Seq<char> },
}

impl SourceView {
    /// The server that the source belongs to.
    pub open spec fn serv_name(self) -> Seq<char> {
        match self {
            SourceView::Serv { serv } => serv,
            SourceView::Chan { serv, .. } => serv,
            SourceView::User { serv, .. } => serv,
        }
    }

    /// Whether this is the tab of the mentions pseudo-server.
    pub open spec fn is_mentions(self) -> bool {
        self matches SourceView::Serv { serv } && serv == mentions_name()
    }
}

impl View for MsgSource {
    type V = SourceView;

    open spec fn view(&self) -> SourceView {
        match self {
            MsgSource::Serv { serv } => SourceView::Serv { serv: serv@ },
            MsgSource::Chan { serv, chan } => SourceView::Chan { serv: serv@, chan: chan@ },
            MsgSource::User { serv, nick } => SourceView::User { serv: serv@, nick: nick@ },
        }
    }
}

impl DeepView for MsgSource {
    type V = SourceView;

    open spec fn deep_view(&self) -> SourceView {
        self@
    }
}

impl MsgSource {
    /// The server that the source belongs to.
    pub fn serv_name(&self) -> (r: &str)
        ensures
            r@ == self@.serv_name(),
    {
        match self {
            MsgSource::Serv { serv } => serv.as_str(),
            MsgSource::Chan { serv, .. } => serv.as_str(),
            MsgSource::User { serv, .. } => serv.as_str(),
        }
    }

    /// A copy of the source.
    pub fn duplicate(&self) -> (r: MsgSource)
        ensures
            r@ == self@,
    {
        match self {
            MsgSource::Serv { serv } => MsgSource::Serv { serv: serv.clone() },
            MsgSource::Chan { serv, chan } => MsgSource::Chan {
                serv: serv.clone(),
                chan: chan.clone(),
            },
            MsgSource::User { serv, nick } => MsgSource::User {
                serv: serv.clone(),
                nick: nick.clone(),
            },
        }
    }
}

/// The tab or tabs that a message of the client itself is shown in.
#[derive(Clone, Debug, PartialEq, Eq)]
pub enum MsgTarget {
    Server { serv: String },
    Chan { serv: String, chan: String },
    User { serv: String, nick: String },
    /// Every tab of the server.
    AllServTabs { serv: String },
    /// The tab that is shown.
    CurrentTab,
}

/// Mathematical model of a [`MsgTarget`].
pub enum TargetView {
    Server { serv: Seq<char> },
    Chan { serv: Seq<char>, chan: Seq<char> },
    User { serv: Seq<char>, nick: Seq<char> },
    AllServTabs { serv: Seq<char> },
    CurrentTab,
}

impl View for MsgTarget {
    type V = TargetView;

    open spec fn view(&self) -> TargetView {
        match self {
            MsgTarget::Server { serv } => TargetView::Server { serv: serv@ },
            MsgTarget::Chan { serv, chan } => TargetView::Chan { serv: serv@, chan: chan@ },
            MsgTarget::User { serv, nick } => TargetView::User { serv: serv@, nick: nick@ },
            MsgTarget::AllServTabs { serv } => TargetView::AllServTabs { serv: serv@ },
            MsgTarget::CurrentTab => TargetView::CurrentTab,
        }
    }
}

impl DeepView for MsgTarget {
    type V = TargetView;

    open spec fn deep_view(&self) -> TargetView {
        self@
    }
}

} // verus!
