//! `/connect`: a new connection, or an existing one connected again.
use crate::action::{err_here, error_here, Action, ActionView};
use crate::cmd::{
    find_client, find_client_idx, pair_view, unchanged, usage_error, usage_error_of, Outcome,
};
use crate::config::{server_info, Defaults, DefaultsView, ServerInfo};
use crate::outside::{parse_port, parsed_port};
use crate::registry::CmdKind;
use crate::source::{MsgSource, MsgTarget, SourceView, TargetView};
use crate::text::{index_of, index_of_at, split_words, strs_view, to_chars, words};
use vstd::prelude::*;

verus! {

/// `/connect` without arguments: connects again to the source's server and
/// says so in all tabs of that server. Does nothing without a connection.
pub open spec fn reconnect_actions(clients: Seq<Seq<char>>, src: SourceView) -> Seq<ActionView> {
    match find_client(clients, src.serv_name()) {
        Some(i) => seq![
            ActionView::ClientMsg {
                msg: "Reconnecting..."@,
                target: TargetView::AllServTabs { serv: src.serv_name() },
            },
            ActionView::Reconnect { client: i, port: None },
        ],
        None => seq![],
    }
}

/// Handler of `/connect` without arguments.
pub fn reconnect(clients: &Vec<String>, src: &MsgSource) -> (r: Vec<Action>)
    ensures
        r.deep_view() == reconnect_actions(clients.deep_view(), src@),
{
    let mut r: Vec<Action> = Vec::new();
    if let Some(i) = find_client_idx(clients, src.serv_name()) {
        r.push(
            Action::ClientMsg {
                msg: String::from_str("Reconnecting..."),
                target: MsgTarget::AllServTabs { serv: src.serv_name().to_owned() },
            },
        );
        r.push(Action::Reconnect { client: i, port: None });
    }
    assert(r.deep_view() =~= reconnect_actions(clients.deep_view(), src@));
    r
}

/// The host and the port of `<host>:<port>`: what stands before and behind
/// the first colon. `None` without a colon.
pub open spec fn host_and_port(s: Seq<char>) -> Option<(Seq<char>, Seq<char>)> {
    let i = index_of(s, ':', 0);
    if i < s.len() {
        Some((s.subrange(0, i), s.subrange(i + 1, s.len() as int)))
    } else {
        None
    }
}

/// Executable `host_and_port`.
pub fn split_port(s: &str) -> (r: Option<(&str, &str)>)
    ensures
        pair_view(r) == host_and_port(s@),
{
    let v = to_chars(s);
    let i = index_of_at(&v, ':', 0);
    if i < v.len() {
        Some((s.substring_char(0, i), s.substring_char(i + 1, v.len())))
    } else {
        None
    }
}

/// What `/connect` does once the address is split and the port is read:
/// with a port that is no number, an error that quotes the port and the
/// reason; with a connection to the host, a reconnect to the new port;
/// else a new server tab and a new connection, which joins the set.
pub open spec fn connect_to_outcome(
    serv_name: Seq<char>,
    port_text: Seq<char>,
    port: Result<u16, Seq<char>>,
    pass: Option<Seq<char>>,
    defaults: DefaultsView,
    clients: Seq<Seq<char>>,
) -> Outcome {
    match port {
        Err(err) => unchanged(
            clients,
            seq![err_here("connect: Can't parse port "@ + port_text + ": "@ + err)],
        ),
        Ok(port) => match find_client(clients, serv_name) {
            Some(i) => unchanged(
                clients,
                seq![
                    ActionView::ClientMsg {
                        msg: "Connecting..."@,
                        target: TargetView::AllServTabs { serv: serv_name },
                    },
                    ActionView::Reconnect { client: i, port: Some(port) },
                ],
            ),
            None => Outcome {
                clients: clients.push(serv_name),
                actions: seq![
                    ActionView::NewServerTab { serv: serv_name },
                    ActionView::ClientMsg {
                        msg: "Connecting..."@,
                        target: TargetView::Server { serv: serv_name },
                    },
                    ActionView::Connect { info: server_info(serv_name, port, pass, defaults) },
                ],
            },
        },
    }
}

/// The view of a port that was read, or of the reason why it was not.
pub open spec fn port_view(port: Result<u16, String>) -> Result<u16, Seq<char>> {
    match port {
        Ok(p) => Ok(p),
        Err(e) => Err(e@),
    }
}

/// Connects to `serv_name`, given what reading `port_text` as a port gave.
pub fn connect_to(
    serv_name: &str,
    port_text: &str,
    port: Result<u16, String>,
    pass: Option<&str>,
    defaults: &Defaults,
    clients: &mut Vec<String>,
) -> (r: Vec<Action>)
    ensures
        r.deep_view() == connect_to_outcome(
            serv_name@,
            port_text@,
            port_view(port),
            pass.deep_view(),
            defaults@,
            old(clients).deep_view(),
        ).actions,
        final(clients).deep_view() == connect_to_outcome(
            serv_name@,
            port_text@,
            port_view(port),
            pass.deep_view(),
            defaults@,
            old(clients).deep_view(),
        ).clients,
{
    let ghost spec_out = connect_to_outcome(
        serv_name@,
        port_text@,
        port_view(port),
        pass.deep_view(),
        defaults@,
        clients.deep_view(),
    );
    let mut r: Vec<Action> = Vec::new();
    match port {
        Err(err) => {
            let msg = String::from_str("connect: Can't parse port ").concat(port_text).concat(
                ": ",
            ).concat(err.as_str());
            r.push(error_here(msg));
        },
        Ok(port) => {
            match find_client_idx(clients, serv_name) {
                Some(i) => {
                    r.push(
                        Action::ClientMsg {
                            msg: String::from_str("Connecting..."),
                            target: MsgTarget::AllServTabs { serv: serv_name.to_owned() },
                        },
                    );
                    r.push(Action::Reconnect { client: i, port: Some(port) });
                },
                None => {
                    r.push(Action::NewServerTab { serv: serv_name.to_owned() });
                    r.push(
                        Action::ClientMsg {
                            msg: String::from_str("Connecting..."),
                            target: MsgTarget::Server { serv: serv_name.to_owned() },
                        },
                    );
                    r.push(
                        Action::Connect {
                            info: ServerInfo::from_defaults(serv_name, port, pass, defaults),
                        },
                    );
                    clients.push(serv_name.to_owned());
                },
            }
        },
    }
    assert(clients.deep_view() =~= spec_out.clients);
    assert(r.deep_view() =~= spec_out.actions);
    r
}

/// `/connect <host>:<port> [password]`: an address without a colon is an
/// error; else the port is read as a 16-bit number and `connect_to_outcome`
/// says the rest.
pub open spec fn connect_addr_outcome(
    serv_addr: Seq<char>,
    pass: Option<Seq<char>>,
    defaults: DefaultsView,
    clients: Seq<Seq<char>>,
) -> Outcome {
    match host_and_port(serv_addr) {
        None => unchanged(clients, seq![err_here("connect: Need a <host>:<port>"@)]),
        Some((host, port)) => connect_to_outcome(
            host,
            port,
            parsed_port(port),
            pass,
            defaults,
            clients,
        ),
    }
}

/// Handler of `/connect` with an address.
pub fn connect_(
    serv_addr: &str,
    pass: Option<&str>,
    defaults: &Defaults,
    clients: &mut Vec<String>,
) -> (r: Vec<Action>)
    ensures
        r.deep_view() == connect_addr_outcome(
            serv_addr@,
            pass.deep_view(),
            defaults@,
            old(clients).deep_view(),
        ).actions,
        final(clients).deep_view() == connect_addr_outcome(
            serv_addr@,
            pass.deep_view(),
            defaults@,
            old(clients).deep_view(),
        ).clients,
{
    match split_port(serv_addr) {
        None => {
            let mut r: Vec<Action> = Vec::new();
            r.push(error_here(String::from_str("connect: Need a <host>:<port>")));
            assert(r.deep_view() =~= seq![err_here("connect: Need a <host>:<port>"@)]);
            r
        },
        Some((host, port)) => {
            let parsed = parse_port(port);
            connect_to(host, port, parsed, pass, defaults, clients)
        },
    }
}

/// `/connect`: without arguments a reconnect; with one word an address;
/// with two an address and a password; with more a usage error.
pub open spec fn connect_outcome(
    args: Seq<char>,
    defaults: DefaultsView,
    clients: Seq<Seq<char>>,
    src: SourceView,
) -> Outcome {
    let w = words(args);
    if w.len() == 0 {
        unchanged(clients, reconnect_actions(clients, src))
    } else if w.len() == 1 {
        connect_addr_outcome(w[0], None, defaults, clients)
    } else if w.len() == 2 {
        connect_addr_outcome(w[0], Some(w[1]), defaults, clients)
    } else {
        unchanged(clients, seq![usage_error(CmdKind::Connect)])
    }
}

/// Handler of `/connect`.
pub fn connect(args: &str, defaults: &Defaults, clients: &mut Vec<String>, src: &MsgSource) -> (r:
    Vec<Action>)
    ensures
        r.deep_view() == connect_outcome(args@, defaults@, old(clients).deep_view(), src@).actions,
        final(clients).deep_view() == connect_outcome(
            args@,
            defaults@,
            old(clients).deep_view(),
            src@,
        ).clients,
{
    let ws = split_words(args);
    assert(strs_view(ws@).len() == ws.len());
    if ws.len() == 0 {
        reconnect(clients, src)
    } else if ws.len() == 1 {
        assert(strs_view(ws@)[0] == ws[0]@);
        connect_(ws[0], None, defaults, clients)
    } else if ws.len() == 2 {
        assert(strs_view(ws@)[0] == ws[0]@);
        assert(strs_view(ws@)[1] == ws[1]@);
        connect_(ws[0], Some(ws[1]), defaults, clients)
    } else {
        let mut r: Vec<Action> = Vec::new();
        r.push(usage_error_of(CmdKind::Connect));
        assert(r.deep_view() =~= seq![usage_error(CmdKind::Connect)]);
        r
    }
}

} // verus!
