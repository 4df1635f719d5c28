//! What a command asks of the interface and of the connections.
//!
//! A command handler decides; it performs nothing itself. Its result is a
//! list of actions that the caller carries out in order. An action names a
//! connection by its position in the connection set as it stood when the
//! command was issued.
use crate::config::{ServerInfo, ServerInfoView, TabConfig};
use crate::source::{MsgSource, MsgTarget, SourceView, TargetView};
use vstd::prelude::*;

verus! {

/// One step for the caller to carry out.
#[allow(inconsistent_fields)]
#[derive(Clone, Debug, PartialEq, Eq)]
pub enum Action {
    /// Show an error message of the client.
    ClientErrMsg { msg: String, target: MsgTarget },
    /// Show an informational message of the client.
    ClientMsg { msg: String, target: MsgTarget },
    /// Close the tab of a server, and with it the tabs of its channels and users.
    CloseServerTab { serv: String },
    /// Close the tab of a channel.
    CloseChanTab { serv: String, chan: String },
    /// Close the tab of a user.
    CloseUserTab { serv: String, nick: String },
    /// Open a tab for a server.
    NewServerTab { serv: String },
    /// Store the configuration of a channel's tab, opening the tab if there
    /// is none. With `None` the configuration that is stored for the
    /// channel is read and stored again.
    SetTabConfig { serv: String, chan: String, config: Option<TabConfig> },
    /// Send `msg` to `src` and show it there; `is_action` marks an emote.
    SendMsg { src: MsgSource, msg: String, is_action: bool },
    /// Set the away message of a connection, or clear it with `None`.
    Away { client: usize, msg: Option<String> },
    /// Disconnect a connection that the command has removed from the set.
    Quit { client: usize, reason: Option<String> },
    /// Leave a channel.
    Part { client: usize, chan: String, reason: Option<String> },
    /// Connect again, to the port given or to the one in use.
    Reconnect { client: usize, port: Option<u16> },
    /// Join channels.
    Join { client: usize, chans: Vec<String> },
    /// Change the nick.
    Nick { client: usize, nick: String },
    /// Make a connection from `info`, start the task that passes its events
    /// on to the interface, and keep it as the last of the connection set.
    Connect { info: ServerInfo },
    /// Read each entry as a channel with its optional configuration and hand
    /// the results to [`crate::cmd::join::join_chans`].
    ParseChans { entries: Vec<String> },
    /// Ask the connection for the nicks in the channel and hand them to
    /// [`crate::cmd::names::names_reply`].
    ListNicks { client: usize, serv: String, chan: String, nick: Option<String> },
}

/// Mathematical model of an [`Action`].
#[allow(inconsistent_fields)]
pub enum ActionView {
    ClientErrMsg { msg: Seq<char>, target: TargetView },
    ClientMsg { msg: Seq<char>, target: TargetView },
    CloseServerTab { serv: Seq<char> },
    CloseChanTab { serv: Seq<char>, chan: Seq<char> },
    CloseUserTab { serv: Seq<char>, nick: Seq<char> },
    NewServerTab { serv: Seq<char> },
    SetTabConfig { serv: Seq<char>, chan: Seq<char>, config: Option<TabConfig> },
    SendMsg { src: SourceView, msg: Seq<char>, is_action: bool },
    Away { client: int, msg: Option<Seq<char>> },
    Quit { client: int, reason: Option<Seq<char>> },
    Part { client: int, chan: Seq<char>, reason: Option<Seq<char>> },
    Reconnect { client: int, port: Option<u16> },
    Join { client: int, chans: Seq<Seq<char>> },
    Nick { client: int, nick: Seq<char> },
    Connect { info: ServerInfoView },
    ParseChans { entries: Seq<Seq<char>> },
    ListNicks { client: int, serv: Seq<char>, chan: Seq<char>, nick: Option<Seq<char>> },
}

impl ActionView {
    /// Whether the action only shows a message: it changes no tab and
    /// reaches no connection.
    pub open spec fn is_message(self) -> bool {
        self is ClientErrMsg || self is ClientMsg
    }
}

impl View for Action {
    type V = ActionView;

    open spec fn view(&self) -> ActionView {
        match self {
            Action::ClientErrMsg { msg, target } => ActionView::ClientErrMsg {
                msg: msg@,
                target: target@,
            },
            Action::ClientMsg { msg, target } => ActionView::ClientMsg {
                msg: msg@,
                target: target@,
            },
            Action::CloseServerTab { serv } => ActionView::CloseServerTab { serv: serv@ },
            Action::CloseChanTab { serv, chan } => ActionView::CloseChanTab {
                serv: serv@,
                chan: chan@,
            },
            Action::CloseUserTab { serv, nick } => ActionView::CloseUserTab {
                serv: serv@,
                nick: nick@,
            },
            Action::NewServerTab { serv } => ActionView::NewServerTab { serv: serv@ },
            Action::SetTabConfig { serv, chan, config } => ActionView::SetTabConfig {
                serv: serv@,
                chan: chan@,
                config: *config,
            },
            Action::SendMsg { src, msg, is_action } => ActionView::SendMsg {
                src: src@,
                msg: msg@,
                is_action: *is_action,
            },
            Action::Away { client, msg } => ActionView::Away {
                client: *client as int,
                msg: msg.deep_view(),
            },
            Action::Quit { client, reason } => ActionView::Quit {
                client: *client as int,
                reason: reason.deep_view(),
            },
            Action::Part { client, chan, reason } => ActionView::Part {
                client: *client as int,
                chan: chan@,
                reason: reason.deep_view(),
            },
            Action::Reconnect { client, port } => ActionView::Reconnect {
                client: *client as int,
                port: *port,
            },
            Action::Join { client, chans } => ActionView::Join {
                client: *client as int,
                chans: chans.deep_view(),
            },
            Action::Nick { client, nick } => ActionView::Nick {
                client: *client as int,
                nick: nick@,
            },
            Action::Connect { info } => ActionView::Connect { info: info@ },
            Action::ParseChans { entries } => ActionView::ParseChans {
                entries: entries.deep_view(),
            },
            Action::ListNicks { client, serv, chan, nick } => ActionView::ListNicks {
                client: *client as int,
                serv: serv@,
                chan: chan@,
                nick: nick.deep_view(),
            },
        }
    }
}

impl DeepView for Action {
    type V = ActionView;

    open spec fn deep_view(&self) -> ActionView {
        self@
    }
}

/// An error message for the tab that is shown.
pub open spec fn err_here(msg: Seq<char>) -> ActionView {
    ActionView::ClientErrMsg { msg, target: TargetView::CurrentTab }
}

/// An informational message for the tab that is shown.
pub open spec fn msg_here(msg: Seq<char>) -> ActionView {
    ActionView::ClientMsg { msg, target: TargetView::CurrentTab }
}

/// Executable `err_here`.
pub fn error_here(msg: String) -> (r: Action)
    ensures
        r@ == err_here(msg@),
{
    Action::ClientErrMsg { msg, target: MsgTarget::CurrentTab }
}

/// Executable `msg_here`.
pub fn message_here(msg: String) -> (r: Action)
    ensures
        r@ == msg_here(msg@),
{
    Action::ClientMsg { msg, target: MsgTarget::CurrentTab }
}

} // verus!
