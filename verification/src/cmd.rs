//! The command handlers: what each command does to the connection set and
//! which actions it asks for.
//!
//! The connection set is modelled by the server names of its connections,
//! in order. A handler reads it, may remove or append a name, and returns
//! the actions for the caller to carry out.
pub mod connect;
pub mod join;
pub mod msg;
pub mod names;

use crate::action::{err_here, error_here, message_here, msg_here, Action, ActionView};
use crate::cmd::connect::{connect, connect_outcome};
use crate::cmd::join::{join, join_actions};
use crate::cmd::msg::{msg, msg_actions};
use crate::cmd::names::{names, names_actions};
use crate::config::{Defaults, DefaultsView};
use crate::registry::{
    cmd_of, cmds, description_of, descriptor, name_of, parse, parse_cmd, registry, usage_of,
    CmdKind, ParseError, ParsedView,
};
use crate::source::{mentions_name, MsgSource, SourceView};
use crate::text::{pad_right, pad_to, split_words, str_eq, strs_view, words};
use vstd::prelude::*;

verus! {

/// The state of the connection set after a command, and the actions that
/// the command asks for.
pub struct Outcome {
    pub clients: Seq<Seq<char>>,
    pub actions: Seq<ActionView>,
}

/// The outcome of a command that leaves the connection set as it is.
pub open spec fn unchanged(clients: Seq<Seq<char>>, actions: Seq<ActionView>) -> Outcome {
    Outcome { clients, actions }
}

/// The first position at or after `i` whose connection is bound to `serv`.
pub open spec fn find_client_from(clients: Seq<Seq<char>>, serv: Seq<char>, i: int) -> Option<int>
    decreases clients.len() - i,
{
    if i < 0 || i >= clients.len() {
        None
    } else if clients[i] == serv {
        Some(i)
    } else {
        find_client_from(clients, serv, i + 1)
    }
}

/// The position of the first connection that is bound to `serv`.
pub open spec fn find_client(clients: Seq<Seq<char>>, serv: Seq<char>) -> Option<int> {
    find_client_from(clients, serv, 0)
}

/// `find_client_from` gives the first match, and `None` only if there is no match.
pub proof fn lemma_find_client_from(clients: Seq<Seq<char>>, serv: Seq<char>, i: int)
    requires
        0 <= i <= clients.len(),
    ensures
        match find_client_from(clients, serv, i) {
            Some(k) => i <= k < clients.len() && clients[k] == serv && forall|j: int|
                i <= j < k ==> #[trigger] clients[j] != serv,
            None => forall|j: int| i <= j < clients.len() ==> #[trigger] clients[j] != serv,
        },
    decreases clients.len() - i,
{
    if i < clients.len() && clients[i] != serv {
        lemma_find_client_from(clients, serv, i + 1);
    }
}

/// The usage error of a command.
pub open spec fn usage_error(kind: CmdKind) -> ActionView {
    err_here("Usage: "@ + usage_of(kind))
}

/// An optional text: `None` if `s` is empty.
pub open spec fn non_empty(s: Seq<char>) -> Option<Seq<char>> {
    if s.len() == 0 {
        None
    } else {
        Some(s)
    }
}

/// Executable `non_empty`.
pub fn optional_text(s: &str) -> (r: Option<String>)
    ensures
        r.deep_view() == non_empty(s@),
{
    if s.is_empty() {
        None
    } else {
        Some(s.to_owned())
    }
}

/// Executable `usage_error`.
pub fn usage_error_of(kind: CmdKind) -> (r: Action)
    ensures
        r@ == usage_error(kind),
{
    let usage = cmd_of(kind).usage;
    error_here(String::from_str("Usage: ").concat(usage))
}

/// The position of the first connection that is bound to `serv_name`.
pub fn find_client_idx(clients: &Vec<String>, serv_name: &str) -> (r: Option<usize>)
    ensures
        r.deep_view() == match find_client(clients.deep_view(), serv_name@) {
            Some(i) => Some(i as usize),
            None => None,
        },
        r matches Some(i) ==> i < clients.len() && find_client(clients.deep_view(), serv_name@)
            == Some(i as int),
{
    let mut i: usize = 0;
    while i < clients.len()
        invariant
            i <= clients.len(),
            find_client(clients.deep_view(), serv_name@) == find_client_from(
                clients.deep_view(),
                serv_name@,
                i as int,
            ),
        decreases clients.len() - i,
    {
        if str_eq(clients[i].as_str(), serv_name) {
            return Some(i);
        }
        i = i + 1;
    }
    None
}

/// `/away [message]`: sets the away message of the source's connection, or
/// clears it if no message is given. Does nothing without such a connection.
pub open spec fn away_actions(args: Seq<char>, clients: Seq<Seq<char>>, src: SourceView) -> Seq<
    ActionView,
> {
    match find_client(clients, src.serv_name()) {
        Some(i) => seq![ActionView::Away { client: i, msg: non_empty(args) }],
        None => seq![],
    }
}

/// Handler of `/away`.
pub fn away(args: &str, clients: &Vec<String>, src: &MsgSource) -> (r: Vec<Action>)
    ensures
        r.deep_view() == away_actions(args@, clients.deep_view(), src@),
{
    let mut r: Vec<Action> = Vec::new();
    if let Some(i) = find_client_idx(clients, src.serv_name()) {
        r.push(Action::Away { client: i, msg: optional_text(args) });
    }
    assert(r.deep_view() =~= away_actions(args@, clients.deep_view(), src@));
    r
}

/// Whether `/close` can run from `src`: the tab of a server other than the
/// mentions tab, and the tab of a channel, need a connection to their server.
pub open spec fn close_ready(clients: Seq<Seq<char>>, src: SourceView) -> bool {
    (src is Chan || (src is Serv && !src.is_mentions())) ==> find_client(
        clients,
        src.serv_name(),
    ) is Some
}

/// `/close [reason]`: closes the tab of the source. For a server the
/// connection leaves the set and is disconnected; for a channel the
/// channel is left and the connection stays; for a user only the tab goes.
/// The mentions tab cannot be closed.
pub open spec fn close_outcome(args: Seq<char>, clients: Seq<Seq<char>>, src: SourceView) -> Outcome
    recommends
        close_ready(clients, src),
{
    let i = find_client(clients, src.serv_name()).unwrap();
    match src {
        SourceView::Serv { serv } => if src.is_mentions() {
            unchanged(clients, seq![])
        } else {
            Outcome {
                clients: clients.remove(i),
                actions: seq![
                    ActionView::CloseServerTab { serv },
                    ActionView::Quit { client: i, reason: non_empty(args) },
                ],
            }
        },
        SourceView::Chan { serv, chan } => unchanged(
            clients,
            seq![
                ActionView::CloseChanTab { serv, chan },
                ActionView::Part { client: i, chan, reason: non_empty(args) },
            ],
        ),
        SourceView::User { serv, nick } => unchanged(
            clients,
            seq![ActionView::CloseUserTab { serv, nick }],
        ),
    }
}

/// Executable `close_ready`.
pub fn is_close_ready(clients: &Vec<String>, src: &MsgSource) -> (r: bool)
    ensures
        r == close_ready(clients.deep_view(), src@),
{
    proof {
        reveal_strlit("mentions");
        assert("mentions"@ =~= mentions_name());
    }
    match src {
        MsgSource::Serv { serv } => str_eq(serv.as_str(), "mentions") || find_client_idx(
            clients,
            serv.as_str(),
        ).is_some(),
        MsgSource::Chan { serv, .. } => find_client_idx(clients, serv.as_str()).is_some(),
        MsgSource::User { .. } => true,
    }
}

/// Handler of `/close`.
pub fn close(args: &str, clients: &mut Vec<String>, src: &MsgSource) -> (r: Vec<Action>)
    requires
        close_ready(old(clients).deep_view(), src@),
    ensures
        r.deep_view() == close_outcome(args@, old(clients).deep_view(), src@).actions,
        final(clients).deep_view() == close_outcome(args@, old(clients).deep_view(), src@).clients,
{
    let mut r: Vec<Action> = Vec::new();
    let ghost spec_out = close_outcome(args@, clients.deep_view(), src@);
    match src {
        MsgSource::Serv { serv } => {
            proof {
                reveal_strlit("mentions");
                assert("mentions"@ =~= mentions_name());
            }
            if !str_eq(serv.as_str(), "mentions") {
                r.push(Action::CloseServerTab { serv: serv.clone() });
                if let Some(i) = find_client_idx(clients, serv.as_str()) {
                    clients.remove(i);
                    r.push(Action::Quit { client: i, reason: optional_text(args) });
                    assert(clients.deep_view() =~= spec_out.clients);
                }
            }
        },
        MsgSource::Chan { serv, chan } => {
            r.push(Action::CloseChanTab { serv: serv.clone(), chan: chan.clone() });
            if let Some(i) = find_client_idx(clients, serv.as_str()) {
                r.push(Action::Part { client: i, chan: chan.clone(), reason: optional_text(args) });
            }
        },
        MsgSource::User { serv, nick } => {
            r.push(Action::CloseUserTab { serv: serv.clone(), nick: nick.clone() });
        },
    }
    assert(r.deep_view() =~= spec_out.actions);
    r
}

/// `/me <message>`: sends the text to the source as an emote. The text is
/// sent as it was typed.
pub open spec fn me_actions(args: Seq<char>, src: SourceView) -> Seq<ActionView> {
    if args.len() == 0 {
        seq![usage_error(CmdKind::Me)]
    } else {
        seq![ActionView::SendMsg { src, msg: args, is_action: true }]
    }
}

/// Handler of `/me`.
pub fn me(args: &str, src: &MsgSource) -> (r: Vec<Action>)
    ensures
        r.deep_view() == me_actions(args@, src@),
{
    let mut r: Vec<Action> = Vec::new();
    if args.is_empty() {
        r.push(usage_error_of(CmdKind::Me));
    } else {
        r.push(Action::SendMsg { src: src.duplicate(), msg: args.to_owned(), is_action: true });
    }
    assert(r.deep_view() =~= me_actions(args@, src@));
    r
}

/// `/nick <nick>`: with exactly one word, sets that nick on the source's
/// connection, and does nothing without such a connection.
pub open spec fn nick_actions(args: Seq<char>, clients: Seq<Seq<char>>, src: SourceView) -> Seq<
    ActionView,
> {
    if words(args).len() == 1 {
        match find_client(clients, src.serv_name()) {
            Some(i) => seq![ActionView::Nick { client: i, nick: words(args)[0] }],
            None => seq![],
        }
    } else {
        seq![usage_error(CmdKind::Nick)]
    }
}

/// Handler of `/nick`.
pub fn nick(args: &str, clients: &Vec<String>, src: &MsgSource) -> (r: Vec<Action>)
    ensures
        r.deep_view() == nick_actions(args@, clients.deep_view(), src@),
{
    let mut r: Vec<Action> = Vec::new();
    let ws = split_words(args);
    assert(strs_view(ws@).len() == ws.len());
    if ws.len() == 1 {
        if let Some(i) = find_client_idx(clients, src.serv_name()) {
            assert(strs_view(ws@)[0] == ws[0]@);
            r.push(Action::Nick { client: i, nick: ws[0].to_owned() });
        }
    } else {
        r.push(usage_error_of(CmdKind::Nick));
    }
    assert(r.deep_view() =~= nick_actions(args@, clients.deep_view(), src@));
    r
}

/// The view of an optional pair of strings.
pub open spec fn pair_view(r: Option<(&str, &str)>) -> Option<(Seq<char>, Seq<char>)> {
    match r {
        Some((a, b)) => Some((a@, b@)),
        None => None,
    }
}

/// One line of `/help`: the name filled up to 10 characters, the
/// description filled up to 25, and the usage.
pub open spec fn help_line(kind: CmdKind) -> Seq<char> {
    "/"@ + pad_right(name_of(kind), 10) + " - "@ + pad_right(description_of(kind), 25)
        + " - Usage: "@ + usage_of(kind)
}

/// `/help`: a heading, then one line for each command, in registry order,
/// all in the tab that is shown.
pub open spec fn help_actions() -> Seq<ActionView> {
    seq![msg_here("Client Commands:"@)] + registry().map_values(
        |kind: CmdKind| msg_here(help_line(kind)),
    )
}

/// Handler of `/help`.
pub fn help() -> (r: Vec<Action>)
    ensures
        r.deep_view() == help_actions(),
{
    let mut r: Vec<Action> = Vec::new();
    r.push(message_here(String::from_str("Client Commands:")));
    let all = cmds();
    assert(all.deep_view().len() == all.len());
    let mut i: usize = 0;
    while i < all.len()
        invariant
            i <= all.len(),
            all.len() == registry().len(),
            all.deep_view() == registry().map_values(|k: CmdKind| descriptor(k)),
            r.len() == i + 1,
            r.deep_view() == help_actions().take(i + 1),
        decreases all.len() - i,
    {
        assert(all.deep_view()[i as int] == descriptor(registry()[i as int]));
        let line = String::from_str("/").concat(pad_to(all[i].name, 10).as_str()).concat(
            " - ",
        ).concat(pad_to(all[i].description, 25).as_str()).concat(" - Usage: ").concat(
            all[i].usage,
        );
        r.push(message_here(line));
        i = i + 1;
        assert(r.deep_view() =~= help_actions().take(i + 1));
    }
    assert(help_actions().take(i + 1) == help_actions());
    r
}

/// The error for a name that calls no command.
pub open spec fn unsupported(name: Seq<char>) -> ActionView {
    err_here("Unsupported command: \"/"@ + name + "\""@)
}

/// Executable `unsupported`.
pub fn unsupported_error(name: &str) -> (r: Action)
    ensures
        r@ == unsupported(name@),
{
    error_here(String::from_str("Unsupported command: \"/").concat(name).concat("\""))
}

/// What an input line does: an unknown name gives an error that quotes
/// the name, a line without a name an error that quotes the line, and a
/// command what its handler says of the arguments.
pub open spec fn run(
    cmd: Seq<char>,
    src: SourceView,
    defaults: DefaultsView,
    clients: Seq<Seq<char>>,
) -> Outcome {
    match parse(cmd) {
        ParsedView::Empty => unchanged(clients, seq![unsupported(cmd)]),
        ParsedView::NotFound { name } => unchanged(clients, seq![unsupported(name)]),
        ParsedView::Found { kind, args } => match kind {
            CmdKind::Away => unchanged(clients, away_actions(args, clients, src)),
            CmdKind::Close => close_outcome(args, clients, src),
            CmdKind::Connect => connect_outcome(args, defaults, clients, src),
            CmdKind::Join => unchanged(clients, join_actions(args, src)),
            CmdKind::Me => unchanged(clients, me_actions(args, src)),
            CmdKind::Msg => unchanged(clients, msg_actions(args, clients, src)),
            CmdKind::Names => unchanged(clients, names_actions(args, clients, src)),
            CmdKind::Nick => unchanged(clients, nick_actions(args, clients, src)),
            CmdKind::Help => unchanged(clients, help_actions()),
        },
    }
}

/// Whether `/close` is the command of the line.
pub open spec fn is_close(cmd: Seq<char>) -> bool {
    parse(cmd) matches ParsedView::Found { kind, .. } && kind == CmdKind::Close
}

/// Runs the command of an input line (without the leading `/`) that was
/// typed in the tab of `src`.
pub fn run_cmd(cmd: &str, src: MsgSource, defaults: &Defaults, clients: &mut Vec<String>) -> (r:
    Vec<Action>)
    requires
        is_close(cmd@) ==> close_ready(old(clients).deep_view(), src@),
    ensures
        r.deep_view() == run(cmd@, src@, defaults@, old(clients).deep_view()).actions,
        final(clients).deep_view() == run(cmd@, src@, defaults@, old(clients).deep_view()).clients,
{
    match parse_cmd(cmd) {
        Ok(parsed) => {
            let args = parsed.args;
            match parsed.cmd.kind {
                CmdKind::Away => away(args, clients, &src),
                CmdKind::Close => close(args, clients, &src),
                CmdKind::Connect => connect(args, defaults, clients, &src),
                CmdKind::Join => join(args, &src),
                CmdKind::Me => me(args, &src),
                CmdKind::Msg => msg(args, clients, &src),
                CmdKind::Names => names(args, clients, &src),
                CmdKind::Nick => nick(args, clients, &src),
                CmdKind::Help => help(),
            }
        },
        Err(ParseError::NotFound { name }) => {
            let mut r: Vec<Action> = Vec::new();
            r.push(unsupported_error(name));
            assert(r.deep_view() =~= seq![unsupported(name@)]);
            r
        },
        Err(ParseError::Empty) => {
            let mut r: Vec<Action> = Vec::new();
            r.push(unsupported_error(cmd));
            assert(r.deep_view() =~= seq![unsupported(cmd@)]);
            r
        },
    }
}

/// Runs the command of an input line as `run_cmd` does, after testing what
/// `/close` needs. `None`, with nothing changed, if the line calls `/close`
/// from the tab of a server or channel that there is no connection to.
pub fn try_run_cmd(cmd: &str, src: MsgSource, defaults: &Defaults, clients: &mut Vec<String>) -> (r:
    Option<Vec<Action>>)
    ensures
        match r {
            Some(actions) => {
                &&& is_close(cmd@) ==> close_ready(old(clients).deep_view(), src@)
                &&& actions.deep_view() == run(
                    cmd@,
                    src@,
                    defaults@,
                    old(clients).deep_view(),
                ).actions
                &&& final(clients).deep_view() == run(
                    cmd@,
                    src@,
                    defaults@,
                    old(clients).deep_view(),
                ).clients
            },
            None => {
                &&& is_close(cmd@)
                &&& !close_ready(old(clients).deep_view(), src@)
                &&& final(clients).deep_view() == old(clients).deep_view()
            },
        },
{
    let closes = match parse_cmd(cmd) {
        Ok(parsed) => match parsed.cmd.kind {
            CmdKind::Close => true,
            _ => false,
        },
        Err(_) => false,
    };
    if closes && !is_close_ready(clients, &src) {
        None
    } else {
        Some(run_cmd(cmd, src, defaults, clients))
    }
}

} // verus!
