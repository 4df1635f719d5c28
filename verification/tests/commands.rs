use tiny_cmd::action::Action;
use tiny_cmd::cmd::connect::{connect, connect_, connect_to, reconnect};
use tiny_cmd::cmd::join::{join, join_chans};
use tiny_cmd::cmd::msg::{msg, msg_to};
use tiny_cmd::cmd::names::{names, names_reply};
use tiny_cmd::cmd::{
    away, close, find_client_idx, help, is_close_ready, me, nick, run_cmd, try_run_cmd,
};
use tiny_cmd::config::{Chan, Defaults, Notifier, ServerInfo, TabConfig};
use tiny_cmd::source::{MsgSource, MsgTarget};

fn defaults() -> Defaults {
    Defaults {
        nicks: vec!["osa1".to_string(), "osa1_".to_string()],
        realname: "Omer".to_string(),
        join: vec!["#tiny".to_string()],
        tls: true,
    }
}

fn serv(name: &str) -> MsgSource {
    MsgSource::Serv { serv: name.to_string() }
}

fn chan(serv: &str, chan: &str) -> MsgSource {
    MsgSource::Chan { serv: serv.to_string(), chan: chan.to_string() }
}

fn user(serv: &str, nick: &str) -> MsgSource {
    MsgSource::User { serv: serv.to_string(), nick: nick.to_string() }
}

fn err_here(msg: &str) -> Action {
    Action::ClientErrMsg { msg: msg.to_string(), target: MsgTarget::CurrentTab }
}

fn set(names: &[&str]) -> Vec<String> {
    names.iter().map(|s| s.to_string()).collect()
}

#[test]
fn connect_to_a_new_server() {
    let mut clients: Vec<String> = Vec::new();
    let actions =
        run_cmd("connect irc.example.org:6697", serv("mentions"), &defaults(), &mut clients);
    assert_eq!(
        actions,
        vec![
            Action::NewServerTab { serv: "irc.example.org".to_string() },
            Action::ClientMsg {
                msg: "Connecting...".to_string(),
                target: MsgTarget::Server { serv: "irc.example.org".to_string() },
            },
            Action::Connect {
                info: ServerInfo {
                    addr: "irc.example.org".to_string(),
                    port: 6697,
                    tls: true,
                    realname: "Omer".to_string(),
                    pass: None,
                    nicks: vec!["osa1".to_string(), "osa1_".to_string()],
                    auto_join: vec!["#tiny".to_string()],
                },
            },
        ]
    );
    assert_eq!(clients, set(&["irc.example.org"]));
}

#[test]
fn connect_to_a_known_server_reconnects_on_the_new_port() {
    let mut clients = set(&["irc.example.org"]);
    let actions =
        run_cmd("connect irc.example.org:6667", serv("irc.example.org"), &defaults(), &mut clients);
    assert_eq!(
        actions,
        vec![
            Action::ClientMsg {
                msg: "Connecting...".to_string(),
                target: MsgTarget::AllServTabs { serv: "irc.example.org".to_string() },
            },
            Action::Reconnect { client: 0, port: Some(6667) },
        ]
    );
    assert_eq!(clients, set(&["irc.example.org"]));
}

#[test]
fn connect_with_a_password() {
    let mut clients = set(&["a"]);
    let actions = connect("b:1 hunter2", &defaults(), &mut clients, &serv("a"));
    assert_eq!(actions.len(), 3);
    match &actions[2] {
        Action::Connect { info } => {
            assert_eq!(info.addr, "b");
            assert_eq!(info.port, 1);
            assert_eq!(info.pass, Some("hunter2".to_string()));
        }
        other => panic!("{:?}", other),
    }
    assert_eq!(clients, set(&["a", "b"]));
    assert_eq!(
        ServerInfo::from_defaults("b", 1, Some("hunter2"), &defaults()),
        match &actions[2] {
            Action::Connect { info } => info.clone(),
            _ => unreachable!(),
        }
    );
}

#[test]
fn connect_without_arguments_reconnects() {
    let mut clients = set(&["a", "b"]);
    let actions = connect("", &defaults(), &mut clients, &chan("b", "#c"));
    assert_eq!(
        actions,
        vec![
            Action::ClientMsg {
                msg: "Reconnecting...".to_string(),
                target: MsgTarget::AllServTabs { serv: "b".to_string() },
            },
            Action::Reconnect { client: 1, port: None },
        ]
    );
    assert_eq!(reconnect(&clients, &serv("zzz")), vec![]);
    assert_eq!(clients, set(&["a", "b"]));
}

#[test]
fn connect_errors() {
    let mut clients = set(&["a"]);
    assert_eq!(
        connect("irc.example.org", &defaults(), &mut clients, &serv("a")),
        vec![err_here("connect: Need a <host>:<port>")]
    );
    assert_eq!(
        connect_("irc.example.org:abc", None, &defaults(), &mut clients),
        vec![err_here("connect: Can't parse port abc: invalid digit found in string")]
    );
    assert_eq!(
        connect_("irc.example.org:", None, &defaults(), &mut clients),
        vec![err_here("connect: Can't parse port : cannot parse integer from empty string")]
    );
    assert_eq!(
        connect_("irc.example.org:65536", None, &defaults(), &mut clients),
        vec![err_here(
            "connect: Can't parse port 65536: number too large to fit in target type"
        )]
    );
    assert_eq!(
        connect_("a:b:1", None, &defaults(), &mut clients),
        vec![err_here(&format!(
            "connect: Can't parse port b:1: {}",
            "b:1".parse::<u16>().unwrap_err()
        ))]
    );
    assert_eq!(
        connect("a:1 b c", &defaults(), &mut clients, &serv("a")),
        vec![err_here("Usage: /connect <host>:<port> | /connect")]
    );
    assert_eq!(
        connect_to("h", "x", Err("no".to_string()), None, &defaults(), &mut clients),
        vec![err_here("connect: Can't parse port x: no")]
    );
    assert_eq!(clients, set(&["a"]));
}

#[test]
fn connect_to_takes_the_port_it_is_given() {
    let mut clients = set(&["a", "h"]);
    assert_eq!(
        connect_to("h", "ignored", Ok(7000), None, &defaults(), &mut clients),
        vec![
            Action::ClientMsg {
                msg: "Connecting...".to_string(),
                target: MsgTarget::AllServTabs { serv: "h".to_string() },
            },
            Action::Reconnect { client: 1, port: Some(7000) },
        ]
    );
}

#[test]
fn close_a_channel_tab() {
    let mut clients = set(&["irc.example.org"]);
    let actions = run_cmd("close", chan("irc.example.org", "#rust"), &defaults(), &mut clients);
    assert_eq!(
        actions,
        vec![
            Action::CloseChanTab { serv: "irc.example.org".to_string(), chan: "#rust".to_string() },
            Action::Part { client: 0, chan: "#rust".to_string(), reason: None },
        ]
    );
    assert_eq!(clients, set(&["irc.example.org"]));
}

#[test]
fn close_a_server_tab_with_a_reason() {
    let mut clients = set(&["other", "irc.example.org", "last"]);
    let actions = run_cmd("close bye", serv("irc.example.org"), &defaults(), &mut clients);
    assert_eq!(
        actions,
        vec![
            Action::CloseServerTab { serv: "irc.example.org".to_string() },
            Action::Quit { client: 1, reason: Some("bye".to_string()) },
        ]
    );
    assert_eq!(clients, set(&["other", "last"]));
}

#[test]
fn close_other_tabs() {
    let mut clients = set(&["a"]);
    assert_eq!(close("now", &mut clients, &serv("mentions")), vec![]);
    assert_eq!(
        close("now", &mut clients, &user("nowhere", "bob")),
        vec![Action::CloseUserTab { serv: "nowhere".to_string(), nick: "bob".to_string() }]
    );
    assert_eq!(
        close("see  you ", &mut clients, &chan("a", "#c")),
        vec![
            Action::CloseChanTab { serv: "a".to_string(), chan: "#c".to_string() },
            Action::Part {
                client: 0,
                chan: "#c".to_string(),
                reason: Some("see  you ".to_string()),
            },
        ]
    );
    assert_eq!(clients, set(&["a"]));
    assert_eq!(close("", &mut clients, &serv("a")).len(), 2);
    assert_eq!(clients, set(&[]));
}

#[test]
fn close_needs_its_connection() {
    let mut clients = set(&["a"]);
    assert!(is_close_ready(&clients, &serv("a")));
    assert!(is_close_ready(&clients, &chan("a", "#c")));
    assert!(is_close_ready(&clients, &serv("mentions")));
    assert!(is_close_ready(&clients, &user("b", "bob")));
    assert!(!is_close_ready(&clients, &serv("b")));
    assert!(!is_close_ready(&clients, &chan("b", "#c")));
    assert_eq!(try_run_cmd("close", serv("b"), &defaults(), &mut clients), None);
    assert_eq!(clients, set(&["a"]));
    assert_eq!(
        try_run_cmd("close", serv("a"), &defaults(), &mut clients),
        Some(vec![
            Action::CloseServerTab { serv: "a".to_string() },
            Action::Quit { client: 0, reason: None },
        ])
    );
    assert_eq!(clients, set(&[]));
    assert_eq!(
        try_run_cmd("nick n", serv("b"), &defaults(), &mut clients),
        Some(vec![])
    );
}

#[test]
fn names_asks_for_the_nicks_of_a_channel() {
    let mut clients = set(&["s"]);
    assert_eq!(
        run_cmd("names alice", chan("s", "#c"), &defaults(), &mut clients),
        vec![Action::ListNicks {
            client: 0,
            serv: "s".to_string(),
            chan: "#c".to_string(),
            nick: Some("alice".to_string()),
        }]
    );
    assert_eq!(
        names("", &clients, &chan("s", "#c")),
        vec![Action::ListNicks {
            client: 0,
            serv: "s".to_string(),
            chan: "#c".to_string(),
            nick: None,
        }]
    );
    assert_eq!(
        names(" bob  alice ", &clients, &chan("s", "#c")),
        vec![Action::ListNicks {
            client: 0,
            serv: "s".to_string(),
            chan: "#c".to_string(),
            nick: Some("bob".to_string()),
        }]
    );
    assert_eq!(
        names("", &clients, &serv("s")),
        vec![err_here("/names only supported in chan tabs")]
    );
    assert_eq!(
        names("", &clients, &user("s", "bob")),
        vec![err_here("/names only supported in chan tabs")]
    );
    assert_eq!(names("", &clients, &chan("t", "#c")), vec![]);
    assert_eq!(names("", &clients, &serv("t")), vec![]);
}

#[test]
fn names_reports_on_the_nicks() {
    let nicks = set(&["bob", "alice", "carol"]);
    let target = MsgTarget::Chan { serv: "s".to_string(), chan: "#c".to_string() };
    assert_eq!(
        names_reply("s", "#c", Some("alice"), &nicks),
        Action::ClientMsg { msg: "alice is online".to_string(), target: target.clone() }
    );
    assert_eq!(
        names_reply("s", "#c", Some("Alice"), &nicks),
        Action::ClientMsg { msg: "Alice is not in the channel".to_string(), target: target.clone() }
    );
    assert_eq!(
        names_reply("s", "#c", None, &nicks),
        Action::ClientMsg { msg: "3 users: bob, alice, carol".to_string(), target: target.clone() }
    );
    assert_eq!(
        names_reply("s", "#c", None, &Vec::new()),
        Action::ClientMsg { msg: "0 users: ".to_string(), target }
    );
}

#[test]
fn unsupported_command() {
    let mut clients = set(&["s"]);
    assert_eq!(
        run_cmd("xyz", chan("s", "#c"), &defaults(), &mut clients),
        vec![err_here("Unsupported command: \"/xyz\"")]
    );
    assert_eq!(
        run_cmd("xyz and more", chan("s", "#c"), &defaults(), &mut clients),
        vec![err_here("Unsupported command: \"/xyz\"")]
    );
    assert_eq!(
        run_cmd("", chan("s", "#c"), &defaults(), &mut clients),
        vec![err_here("Unsupported command: \"/\"")]
    );
    assert_eq!(
        run_cmd("  ", chan("s", "#c"), &defaults(), &mut clients),
        vec![err_here("Unsupported command: \"/  \"")]
    );
    assert_eq!(clients, set(&["s"]));
}

#[test]
fn help_lists_every_command_and_changes_nothing() {
    let mut clients = set(&["s", "t"]);
    let actions = run_cmd("help", serv("s"), &defaults(), &mut clients);
    assert_eq!(clients, set(&["s", "t"]));
    assert_eq!(actions, help());
    assert_eq!(actions.len(), 10);
    let lines: Vec<&str> = actions
        .iter()
        .map(|a| match a {
            Action::ClientMsg { msg, target: MsgTarget::CurrentTab } => msg.as_str(),
            other => panic!("{:?}", other),
        })
        .collect();
    assert_eq!(lines[0], "Client Commands:");
    assert_eq!(
        lines[1],
        "/away       - Sets/removes away message - Usage: /away [message]"
    );
    assert_eq!(
        lines[5],
        format!("/{:<10} - {:<25} - Usage: {}", "me", "Sends emote message", "/me <message>")
    );
    assert_eq!(
        lines[9],
        "/help       - Displays this message     - Usage: /help"
    );
    assert_eq!(run_cmd("help", serv("s"), &defaults(), &mut clients), actions);
}

#[test]
fn away_sets_and_clears() {
    let clients = set(&["s", "t"]);
    assert_eq!(
        away("back  soon", &clients, &chan("t", "#c")),
        vec![Action::Away { client: 1, msg: Some("back  soon".to_string()) }]
    );
    assert_eq!(away("", &clients, &serv("s")), vec![Action::Away { client: 0, msg: None }]);
    assert_eq!(away("gone", &clients, &serv("u")), vec![]);
}

#[test]
fn nick_takes_exactly_one_word() {
    let clients = set(&["s"]);
    assert_eq!(
        nick(" osa2 ", &clients, &serv("s")),
        vec![Action::Nick { client: 0, nick: "osa2".to_string() }]
    );
    assert_eq!(nick("osa2", &clients, &serv("t")), vec![]);
    assert_eq!(nick("", &clients, &serv("s")), vec![err_here("Usage: /nick <nick>")]);
    assert_eq!(nick("a b", &clients, &serv("s")), vec![err_here("Usage: /nick <nick>")]);
}

#[test]
fn me_sends_an_emote() {
    assert_eq!(
        me("waves  hello ", &chan("s", "#c")),
        vec![Action::SendMsg {
            src: chan("s", "#c"),
            msg: "waves  hello ".to_string(),
            is_action: true,
        }]
    );
    assert_eq!(me("", &chan("s", "#c")), vec![err_here("Usage: /me <message>")]);
}

#[test]
fn msg_to_a_server_name_goes_to_the_server() {
    let clients = set(&["irc.example.org", "irc.other.net"]);
    assert_eq!(
        msg("irc.other.net hello  there", &clients, &chan("irc.example.org", "#c")),
        vec![Action::SendMsg {
            src: serv("irc.other.net"),
            msg: "hello  there".to_string(),
            is_action: false,
        }]
    );
    assert_eq!(
        msg("NickServ identify notMyPassword", &clients, &chan("irc.example.org", "#c")),
        vec![Action::SendMsg {
            src: user("irc.example.org", "NickServ"),
            msg: "identify notMyPassword".to_string(),
            is_action: false,
        }]
    );
    assert_eq!(
        msg("Irc.other.net hi", &clients, &serv("irc.other.net")),
        vec![Action::SendMsg {
            src: user("irc.other.net", "Irc.other.net"),
            msg: "hi".to_string(),
            is_action: false,
        }]
    );
}

#[test]
fn msg_usage_errors() {
    let clients = set(&["s"]);
    let usage = vec![err_here("Usage: /msg <nick> <message>")];
    assert_eq!(msg("", &clients, &serv("s")), usage);
    assert_eq!(msg("bob", &clients, &serv("s")), usage);
    assert_eq!(msg("bob ", &clients, &serv("s")), usage);
    assert_eq!(msg("#chan hello", &clients, &serv("s")), usage);
    assert_eq!(msg_to(None, &clients, &serv("s")), usage);
    assert_eq!(msg_to(Some(("bob", "")), &clients, &serv("s")), usage);
    assert_eq!(
        msg_to(Some(("#chan", "hi")), &clients, &serv("s")),
        vec![Action::SendMsg { src: user("s", "#chan"), msg: "hi".to_string(), is_action: false }]
    );
}

#[test]
fn join_splits_the_entries() {
    assert_eq!(
        join("#a -ignore , #b,#c -notify off", &serv("s")),
        vec![Action::ParseChans {
            entries: vec![
                "#a -ignore".to_string(),
                "#b".to_string(),
                "#c -notify off".to_string(),
            ],
        }]
    );
    assert_eq!(
        join("", &chan("s", "#c")),
        vec![Action::ParseChans { entries: vec!["".to_string()] }]
    );
    assert_eq!(
        join("#a", &serv("mentions")),
        vec![err_here("Switch to a server tab to join a channel")]
    );
    assert_eq!(
        join("#a", &chan("mentions", "#c")),
        vec![Action::ParseChans { entries: vec!["#a".to_string()] }]
    );
    let mut clients = set(&["s"]);
    assert_eq!(
        run_cmd("join  #a,#b ", user("s", "bob"), &defaults(), &mut clients),
        vec![Action::ParseChans { entries: vec!["#a".to_string(), "#b".to_string()] }]
    );
}

#[test]
fn join_sets_tab_configs_then_joins() {
    let clients = set(&["t", "s"]);
    let config = TabConfig { ignore: Some(true), notify: Some(Notifier::Mentions) };
    let stored = TabConfig { ignore: None, notify: Some(Notifier::Off) };
    let parsed = vec![
        Ok(Chan::Name("#a".to_string())),
        Err("bad entry".to_string()),
        Ok(Chan::WithConfig { name: "#b".to_string(), config }),
        Err("worse entry".to_string()),
    ];
    assert_eq!(
        join_chans(&parsed, Some(&chan("x", "#cur")), stored, &clients, &serv("s")),
        vec![
            err_here("bad entry"),
            err_here("worse entry"),
            Action::SetTabConfig { serv: "s".to_string(), chan: "#a".to_string(), config: None },
            Action::SetTabConfig {
                serv: "s".to_string(),
                chan: "#b".to_string(),
                config: Some(config),
            },
            Action::Join { client: 1, chans: vec!["#a".to_string(), "#b".to_string()] },
        ]
    );
    assert_eq!(
        join_chans(&parsed, None, stored, &clients, &serv("u")),
        vec![
            err_here("bad entry"),
            err_here("worse entry"),
            err_here("Can't join: Not connected to server u"),
        ]
    );
}

#[test]
fn join_without_channels_rejoins_with_the_stored_config() {
    let clients = set(&["s"]);
    let stored = TabConfig { ignore: Some(true), notify: Some(Notifier::Messages) };
    let parsed = vec![Err("no channel".to_string())];
    assert_eq!(
        join_chans(&parsed, Some(&chan("s", "#rust")), stored, &clients, &chan("s", "#rust")),
        vec![
            err_here("no channel"),
            Action::SetTabConfig {
                serv: "s".to_string(),
                chan: "#rust".to_string(),
                config: Some(stored),
            },
            Action::Join { client: 0, chans: vec!["#rust".to_string()] },
        ]
    );
    assert_eq!(
        join_chans(&Vec::new(), Some(&serv("s")), stored, &clients, &serv("s")),
        vec![err_here(
            "Usage: /join <chan1> [-ignore] [-notify [off|mentions|messages]],<chan2>... | /join"
        )]
    );
    assert_eq!(
        join_chans(&parsed, Some(&user("s", "bob")), stored, &clients, &user("s", "bob")).len(),
        2
    );
    assert_eq!(
        join_chans(&parsed, None, stored, &clients, &serv("s")),
        vec![err_here("no channel")]
    );
}

#[test]
fn first_connection_of_a_name_wins() {
    let clients = set(&["a", "b", "a"]);
    assert_eq!(find_client_idx(&clients, "a"), Some(0));
    assert_eq!(find_client_idx(&clients, "b"), Some(1));
    assert_eq!(find_client_idx(&clients, "c"), None);
    assert_eq!(find_client_idx(&clients, "A"), None);
    assert_eq!(find_client_idx(&Vec::new(), "a"), None);
}
