//! What holds of the parser and of the commands for every input.
use crate::action::ActionView;
use crate::cmd::connect::host_and_port;
use crate::cmd::join::{
    join_chans_actions, join_errors, join_given, join_targets, tab_config_of,
};
use crate::cmd::msg::{msg_actions, msg_args};
use crate::cmd::{
    find_client, help_actions, lemma_find_client_from, run, unchanged, unsupported,
};
use crate::config::{ChanView, DefaultsView, TabConfig};
use crate::registry::{
    cmd_name, cmd_tail, find_from, find_kind, name_of, parse, registry, CmdKind, ParsedView,
};
use crate::source::{SourceView, TargetView};
use crate::text::{
    index_of, is_space, lemma_index_of, lemma_skip_spaces, lemma_skip_word, lemma_trim_end_len,
    no_space, skip_spaces, skip_word, trim, trim_end_len,
};
use vstd::prelude::*;

verus! {

/// A command that the registry finds for a name has that name.
pub proof fn lemma_find_from(name: Seq<char>, i: int)
    requires
        0 <= i,
    ensures
        find_from(name, i) matches Some(kind) ==> name_of(kind) == name,
    decreases registry().len() - i,
{
    if i < registry().len() && name_of(registry()[i]) != name {
        lemma_find_from(name, i + 1);
    }
}

/// A text without whitespace is its own trimmed form.
pub proof fn law_trim_without_space(s: Seq<char>)
    requires
        no_space(s),
    ensures
        trim(s) == s,
{
    lemma_trim_end_len(s);
    assert(s.take(s.len() as int) == s);
    lemma_skip_spaces(s, 0);
    assert(s.subrange(0, s.len() as int) == s);
}

/// A line whose trimmed form holds no whitespace is one word: the command
/// name is the whole trimmed line, and the arguments are empty.
pub proof fn law_single_word(s: Seq<char>)
    requires
        no_space(trim(s)),
    ensures
        cmd_name(s) == trim(s),
        cmd_tail(s) == Seq::<char>::empty(),
        match parse(s) {
            ParsedView::Empty => trim(s).len() == 0,
            ParsedView::NotFound { name } => name == trim(s),
            ParsedView::Found { kind, args } => name_of(kind) == trim(s) && args.len() == 0,
        },
{
    let e = trim_end_len(s);
    let head = s.take(e);
    let a = skip_spaces(head, 0);
    let t = trim(s);
    lemma_trim_end_len(s);
    lemma_skip_spaces(head, 0);
    lemma_skip_spaces(s, 0);
    let a0 = skip_spaces(s, 0);
    assert forall|k: int| 0 <= k < e implies head[k] == s[k] by {}
    if a < e {
        assert(head[a] == s[a]);
        if a0 < a {
            assert(is_space(head[a0]));
        }
        assert(a0 == a);
        lemma_skip_word(s, a);
        let b = skip_word(s, a);
        if b < e {
            assert(t[b - a] == s[b]);
        }
        if b > e {
            assert(is_space(s[e]));
        }
        assert(b == e);
        lemma_skip_spaces(s, e);
        let c = skip_spaces(s, e);
        if c < s.len() {
            assert(is_space(s[c]));
        }
        assert(c == s.len());
    } else {
        if e > 0 {
            assert(is_space(head[e - 1]));
        }
        assert(e == 0);
        if a0 < s.len() {
            assert(is_space(s[a0]));
        }
        assert(a0 == s.len());
        lemma_skip_word(s, a0);
        lemma_skip_spaces(s, a0);
    }
    assert(cmd_name(s) =~= t);
    assert(cmd_tail(s) =~= Seq::<char>::empty());
    lemma_find_from(cmd_name(s), 0);
}

/// A line without any whitespace is one word: the command name is the
/// whole line, and the arguments are empty.
pub proof fn law_word_alone(s: Seq<char>)
    requires
        no_space(s),
    ensures
        cmd_name(s) == s,
        trim(s) == s,
        cmd_tail(s) == Seq::<char>::empty(),
        match parse(s) {
            ParsedView::Empty => s.len() == 0,
            ParsedView::NotFound { name } => name == s,
            ParsedView::Found { kind, args } => name_of(kind) == s && args.len() == 0,
        },
{
    law_trim_without_space(s);
    law_single_word(s);
}

/// A line put together from a name, whitespace and arguments comes apart
/// into the same name and arguments: the arguments are kept character for
/// character, whatever whitespace they hold after their first character.
pub proof fn law_parse_composed(name: Seq<char>, gap: Seq<char>, args: Seq<char>)
    requires
        name.len() > 0,
        no_space(name),
        gap.len() > 0,
        forall|i: int| 0 <= i < gap.len() ==> is_space(#[trigger] gap[i]),
        args.len() > 0 ==> !is_space(args[0]),
    ensures
        cmd_name(name + gap + args) == name,
        cmd_tail(name + gap + args) == args,
        match parse(name + gap + args) {
            ParsedView::Empty => false,
            ParsedView::NotFound { name: n } => n == name && find_kind(name) is None,
            ParsedView::Found { kind, args: a } => find_kind(name) == Some(kind) && a == args,
        },
{
    let s = name + gap + args;
    let n = name.len() as int;
    let g = n + gap.len();
    assert forall|k: int| 0 <= k < n implies s[k] == name[k] by {}
    assert forall|k: int| n <= k < g implies s[k] == gap[k - n] by {}
    assert forall|k: int| g <= k < s.len() implies s[k] == args[k - g] by {}
    lemma_skip_spaces(s, 0);
    assert(!is_space(s[0]));
    assert(skip_spaces(s, 0) == 0);
    lemma_skip_word(s, 0);
    let b = skip_word(s, 0);
    if b < n {
        assert(is_space(s[b]));
        assert(!is_space(name[b]));
    }
    if b > n {
        assert(is_space(gap[0]));
        assert(s[n] == gap[0]);
    }
    assert(b == n);
    lemma_skip_spaces(s, n);
    let c = skip_spaces(s, n);
    if c < g {
        assert(is_space(gap[c - n]));
    }
    if c > g {
        assert(s[g] == args[0]);
    }
    assert(c == g);
    assert(cmd_name(s) =~= name);
    assert(cmd_tail(s) =~= args);
}

/// A command that was found has a name: a line without a word is never a
/// command.
pub proof fn law_found_has_name(s: Seq<char>)
    ensures
        parse(s) is Empty <==> forall|i: int| 0 <= i < s.len() ==> is_space(#[trigger] s[i]),
        !(parse(s) is Empty) ==> cmd_name(s).len() > 0 && no_space(cmd_name(s)),
        parse(s) matches ParsedView::Found { kind, args } ==> name_of(kind) == cmd_name(s) && args
            == cmd_tail(s),
{
    lemma_skip_spaces(s, 0);
    let a = skip_spaces(s, 0);
    if a < s.len() {
        lemma_skip_word(s, a);
        let b = skip_word(s, a);
        assert forall|i: int| 0 <= i < cmd_name(s).len() implies !is_space(
            #[trigger] cmd_name(s)[i],
        ) by {
            assert(cmd_name(s)[i] == s[a + i]);
        }
        lemma_find_from(cmd_name(s), 0);
    }
}

/// There is a connection to a server exactly if the connection set holds
/// its name, and the connection found is the first with that name.
pub proof fn law_find_client(clients: Seq<Seq<char>>, serv: Seq<char>)
    ensures
        find_client(clients, serv) is Some <==> clients.contains(serv),
        find_client(clients, serv) matches Some(i) ==> 0 <= i < clients.len() && clients[i] == serv
            && forall|j: int| 0 <= j < i ==> #[trigger] clients[j] != serv,
{
    lemma_find_client_from(clients, serv, 0);
}

/// `/help` changes nothing: the connection set stays as it is, and every
/// action only shows a message in the tab that is shown.
pub proof fn law_help_changes_nothing(
    cmd: Seq<char>,
    src: SourceView,
    defaults: DefaultsView,
    clients: Seq<Seq<char>>,
)
    requires
        parse(cmd) matches ParsedView::Found { kind, .. } && kind == CmdKind::Help,
    ensures
        run(cmd, src, defaults, clients).clients == clients,
        run(cmd, src, defaults, clients).actions == help_actions(),
        forall|i: int|
            0 <= i < help_actions().len() ==> (#[trigger] help_actions()[i]
                matches ActionView::ClientMsg { target, .. } && target == TargetView::CurrentTab),
{
}

/// Only `/close` and `/connect` change the connection set.
pub proof fn law_set_changes(
    cmd: Seq<char>,
    src: SourceView,
    defaults: DefaultsView,
    clients: Seq<Seq<char>>,
)
    requires
        run(cmd, src, defaults, clients).clients != clients,
    ensures
        parse(cmd) matches ParsedView::Found { kind, .. } && (kind == CmdKind::Close || kind
            == CmdKind::Connect),
{
}

/// `/join` without a channel, typed in a channel tab, joins the channel of
/// that tab with the configuration that is stored for it.
pub proof fn law_rejoin_keeps_config(
    parsed: Seq<Result<ChanView, Seq<char>>>,
    serv: Seq<char>,
    chan: Seq<char>,
    stored: TabConfig,
    clients: Seq<Seq<char>>,
    src: SourceView,
)
    requires
        join_given(parsed).len() == 0,
    ensures
        join_targets(parsed, Some(SourceView::Chan { serv, chan }), stored) == Some(
            seq![ChanView::WithConfig { name: chan, config: stored }],
        ),
        find_client(clients, src.serv_name()) matches Some(i) ==> join_chans_actions(
            parsed,
            Some(SourceView::Chan { serv, chan }),
            stored,
            clients,
            src,
        ) == join_errors(parsed) + seq![
            ActionView::SetTabConfig { serv: src.serv_name(), chan, config: Some(stored) },
            ActionView::Join { client: i, chans: seq![chan] },
        ],
{
    let target = ChanView::WithConfig { name: chan, config: stored };
    let chans = seq![target];
    assert(chans.map_values(|c: ChanView| c.name()) =~= seq![chan]);
    assert(chans.map_values(|c: ChanView| tab_config_of(src.serv_name(), c)) =~= seq![
        ActionView::SetTabConfig { serv: src.serv_name(), chan, config: Some(stored) },
    ]);
    if let Some(i) = find_client(clients, src.serv_name()) {
        assert(join_chans_actions(
            parsed,
            Some(SourceView::Chan { serv, chan }),
            stored,
            clients,
            src,
        ) =~= join_errors(parsed) + seq![
            ActionView::SetTabConfig { serv: src.serv_name(), chan, config: Some(stored) },
            ActionView::Join { client: i, chans: seq![chan] },
        ]);
    }
}

/// `/msg` to the name of a server that there is a connection to goes to
/// that server, whatever tab it is typed in.
pub proof fn law_msg_to_server(
    args: Seq<char>,
    target: Seq<char>,
    text: Seq<char>,
    clients: Seq<Seq<char>>,
    src: SourceView,
)
    requires
        msg_args(args) == Some((target, text)),
        text.len() > 0,
        clients.contains(target),
    ensures
        msg_actions(args, clients, src) == seq![
            ActionView::SendMsg {
                src: SourceView::Serv { serv: target },
                msg: text,
                is_action: false,
            },
        ],
{
    law_find_client(clients, target);
}

/// `/msg` to any other name goes to the user of that name on the server of
/// the tab it is typed in.
pub proof fn law_msg_to_user(
    args: Seq<char>,
    target: Seq<char>,
    text: Seq<char>,
    clients: Seq<Seq<char>>,
    src: SourceView,
)
    requires
        msg_args(args) == Some((target, text)),
        text.len() > 0,
        !clients.contains(target),
    ensures
        msg_actions(args, clients, src) == seq![
            ActionView::SendMsg {
                src: SourceView::User { serv: src.serv_name(), nick: target },
                msg: text,
                is_action: false,
            },
        ],
{
    law_find_client(clients, target);
}

/// No two commands share a name.
pub proof fn law_names_differ(a: CmdKind, b: CmdKind)
    requires
        a != b,
    ensures
        name_of(a) != name_of(b),
{
    reveal_strlit("away");
    reveal_strlit("close");
    reveal_strlit("connect");
    reveal_strlit("join");
    reveal_strlit("me");
    reveal_strlit("msg");
    reveal_strlit("names");
    reveal_strlit("nick");
    reveal_strlit("help");
    let x = name_of(a);
    let y = name_of(b);
    if x.len() == y.len() {
        assert(x[0] != y[0]);
    }
}

/// Every command is found by its own name: none hides another.
pub proof fn law_registry_reachable(kind: CmdKind)
    ensures
        find_kind(name_of(kind)) == Some(kind),
{
    let name = name_of(kind);
    assert forall|i: int| 0 <= i < registry().len() implies (name_of(#[trigger] registry()[i])
        == name <==> registry()[i] == kind) by {
        if registry()[i] != kind {
            law_names_differ(registry()[i], kind);
        }
    }
    reveal_with_fuel(find_from, 10);
}

/// `/me` sends its arguments as they were typed: whatever whitespace
/// stands in or behind them is kept.
pub proof fn law_me_as_typed(
    gap: Seq<char>,
    text: Seq<char>,
    src: SourceView,
    defaults: DefaultsView,
    clients: Seq<Seq<char>>,
)
    requires
        gap.len() > 0,
        forall|i: int| 0 <= i < gap.len() ==> is_space(#[trigger] gap[i]),
        text.len() > 0,
        !is_space(text[0]),
    ensures
        run("me"@ + gap + text, src, defaults, clients) == unchanged(
            clients,
            seq![ActionView::SendMsg { src, msg: text, is_action: true }],
        ),
{
    reveal_strlit("me");
    law_registry_reachable(CmdKind::Me);
    law_parse_composed("me"@, gap, text);
}

/// A line whose first word calls no command does nothing but report that
/// word: the connection set stays as it is.
pub proof fn law_unknown_command(
    cmd: Seq<char>,
    src: SourceView,
    defaults: DefaultsView,
    clients: Seq<Seq<char>>,
)
    requires
        !(parse(cmd) is Empty),
        find_kind(cmd_name(cmd)) is None,
    ensures
        run(cmd, src, defaults, clients) == unchanged(clients, seq![unsupported(cmd_name(cmd))]),
{
}

/// An address comes apart at its first colon: the host holds no colon, and
/// host, colon and port together are the address again.
pub proof fn law_host_and_port(addr: Seq<char>)
    ensures
        host_and_port(addr) is Some <==> addr.contains(':'),
        host_and_port(addr) matches Some((host, port)) ==> !host.contains(':') && addr == host
            + seq![':'] + port,
{
    lemma_index_of(addr, ':', 0);
    let i = index_of(addr, ':', 0);
    if i < addr.len() {
        let host = addr.subrange(0, i);
        let port = addr.subrange(i + 1, addr.len() as int);
        assert(addr[i] == ':');
        assert(addr =~= host + seq![':'] + port);
        assert forall|k: int| 0 <= k < host.len() implies host[k] != ':' by {
            assert(host[k] == addr[k]);
        }
    }
}

} // verus!
