//! The commands that the client knows, in a fixed order, and the parser
//! that finds one in an input line.
use crate::text::{skip_spaces, skip_spaces_at, skip_word, skip_word_at, str_eq, to_chars};
use vstd::prelude::*;

verus! {

/// Which command a descriptor stands for.
#[derive(Clone, Copy, Debug, PartialEq, Eq)]
pub enum CmdKind {
    Away,
    Close,
    Connect,
    Join,
    Me,
    Msg,
    Names,
    Nick,
    Help,
}

/// A command: the name that calls it, what it does, and how it is used.
#[derive(Clone, Copy, Debug, PartialEq, Eq)]
pub struct Cmd {
    /// Command name. If this is `"cmd"`, `/cmd ...` calls this command.
    pub name: &'static str,
    /// The command that the name calls.
    pub kind: CmdKind,
    /// Command description, shown by `/help`.
    pub description: &'static str,
    /// Command usage, shown by `/help` and in error messages.
    pub usage: &'static str,
}

/// Mathematical model of a [`Cmd`].
pub struct CmdView {
    pub name: Seq<char>,
    pub kind: CmdKind,
    pub description: Seq<char>,
    pub usage: Seq<char>,
}

impl View for Cmd {
    type V = CmdView;

    open spec fn view(&self) -> CmdView {
        CmdView {
            name: self.name@,
            kind: self.kind,
            description: self.description@,
            usage: self.usage@,
        }
    }
}

impl DeepView for Cmd {
    type V = CmdView;

    open spec fn deep_view(&self) -> CmdView {
        self@
    }
}

/// The name that calls a command.
pub open spec fn name_of(kind: CmdKind) -> Seq<char> {
    match kind {
        CmdKind::Away => "away"@,
        CmdKind::Close => "close"@,
        CmdKind::Connect => "connect"@,
        CmdKind::Join => "join"@,
        CmdKind::Me => "me"@,
        CmdKind::Msg => "msg"@,
        CmdKind::Names => "names"@,
        CmdKind::Nick => "nick"@,
        CmdKind::Help => "help"@,
    }
}

/// What a command does, in a few words.
pub open spec fn description_of(kind: CmdKind) -> Seq<char> {
    match kind {
        CmdKind::Away => "Sets/removes away message"@,
        CmdKind::Close => "Closes current tab"@,
        CmdKind::Connect => "Connects to a server"@,
        CmdKind::Join => "Joins a channel"@,
        CmdKind::Me => "Sends emote message"@,
        CmdKind::Msg => "Sends a message to a user"@,
        CmdKind::Names => "Shows users in channel"@,
        CmdKind::Nick => "Sets your nick"@,
        CmdKind::Help => "Displays this message"@,
    }
}

/// How a command is used.
pub open spec fn usage_of(kind: CmdKind) -> Seq<char> {
    match kind {
        CmdKind::Away => "/away [message]"@,
        CmdKind::Close => "/close [reason]"@,
        CmdKind::Connect => "/connect <host>:<port> | /connect"@,
        CmdKind::Join =>
            "/join <chan1> [-ignore] [-notify [off|mentions|messages]],<chan2>... | /join"@,
        CmdKind::Me => "/me <message>"@,
        CmdKind::Msg => "/msg <nick> <message>"@,
        CmdKind::Names => "/names [nick]"@,
        CmdKind::Nick => "/nick <nick>"@,
        CmdKind::Help => "/help"@,
    }
}

/// The descriptor of a command.
pub open spec fn descriptor(kind: CmdKind) -> CmdView {
    CmdView {
        name: name_of(kind),
        kind,
        description: description_of(kind),
        usage: usage_of(kind),
    }
}

/// The commands in the order in which they are listed and looked up.
pub open spec fn registry() -> Seq<CmdKind> {
    seq![
        CmdKind::Away,
        CmdKind::Close,
        CmdKind::Connect,
        CmdKind::Join,
        CmdKind::Me,
        CmdKind::Msg,
        CmdKind::Names,
        CmdKind::Nick,
        CmdKind::Help,
    ]
}

/// The first command at or after position `i` of the registry that `name`
/// calls.
pub open spec fn find_from(name: Seq<char>, i: int) -> Option<CmdKind>
    decreases registry().len() - i,
{
    if i < 0 || i >= registry().len() {
        None
    } else if name_of(registry()[i]) == name {
        Some(registry()[i])
    } else {
        find_from(name, i + 1)
    }
}

/// The command that `name` calls: the first of the registry with that
/// name, compared exactly.
pub open spec fn find_kind(name: Seq<char>) -> Option<CmdKind> {
    find_from(name, 0)
}

/// The first word of an input line.
pub open spec fn cmd_name(s: Seq<char>) -> Seq<char> {
    let a = skip_spaces(s, 0);
    s.subrange(a, skip_word(s, a))
}

/// What follows the first word of an input line and the whitespace behind
/// it, up to the end of the line.
pub open spec fn cmd_tail(s: Seq<char>) -> Seq<char> {
    let b = skip_word(s, skip_spaces(s, 0));
    s.subrange(skip_spaces(s, b), s.len() as int)
}

/// What an input line holds.
pub enum ParsedView {
    /// No word at all.
    Empty,
    /// A first word that calls no command.
    NotFound { name: Seq<char> },
    /// A command and its arguments.
    Found { kind: CmdKind, args: Seq<char> },
}

/// What an input line holds: nothing, an unknown name, or a command with
/// the rest of the line as its arguments.
pub open spec fn parse(s: Seq<char>) -> ParsedView {
    if skip_spaces(s, 0) >= s.len() {
        ParsedView::Empty
    } else {
        match find_kind(cmd_name(s)) {
            None => ParsedView::NotFound { name: cmd_name(s) },
            Some(kind) => ParsedView::Found { kind, args: cmd_tail(s) },
        }
    }
}

/// A command found in an input line.
#[derive(Clone, Copy, Debug, PartialEq, Eq)]
pub struct ParsedCmd<'a> {
    pub cmd: Cmd,
    /// Rest of the line after the command name.
    pub args: &'a str,
}

/// Why an input line holds no command.
#[derive(Clone, Copy, Debug, PartialEq, Eq)]
pub enum ParseError<'a> {
    /// The line is empty or holds only whitespace.
    Empty,
    /// The first word of the line calls no command.
    NotFound { name: &'a str },
}

/// The view of the result of [`parse_cmd`].
pub open spec fn parsed_view(r: Result<ParsedCmd<'_>, ParseError<'_>>) -> ParsedView {
    match r {
        Ok(p) => ParsedView::Found { kind: p.cmd.kind, args: p.args@ },
        Err(ParseError::Empty) => ParsedView::Empty,
        Err(ParseError::NotFound { name }) => ParsedView::NotFound { name: name@ },
    }
}

/// The descriptor of a command.
pub fn cmd_of(kind: CmdKind) -> (r: Cmd)
    ensures
        r@ == descriptor(kind),
{
    match kind {
        CmdKind::Away => Cmd {
            name: "away",
            kind,
            description: "Sets/removes away message",
            usage: "/away [message]",
        },
        CmdKind::Close => Cmd {
            name: "close",
            kind,
            description: "Closes current tab",
            usage: "/close [reason]",
        },
        CmdKind::Connect => Cmd {
            name: "connect",
            kind,
            description: "Connects to a server",
            usage: "/connect <host>:<port> | /connect",
        },
        CmdKind::Join => Cmd {
            name: "join",
            kind,
            description: "Joins a channel",
            usage: "/join <chan1> [-ignore] [-notify [off|mentions|messages]],<chan2>... | /join",
        },
        CmdKind::Me => Cmd {
            name: "me",
            kind,
            description: "Sends emote message",
            usage: "/me <message>",
        },
        CmdKind::Msg => Cmd {
            name: "msg",
            kind,
            description: "Sends a message to a user",
            usage: "/msg <nick> <message>",
        },
        CmdKind::Names => Cmd {
            name: "names",
            kind,
            description: "Shows users in channel",
            usage: "/names [nick]",
        },
        CmdKind::Nick => Cmd {
            name: "nick",
            kind,
            description: "Sets your nick",
            usage: "/nick <nick>",
        },
        CmdKind::Help => Cmd {
            name: "help",
            kind,
            description: "Displays this message",
            usage: "/help",
        },
    }
}

/// The descriptors of all commands, in registry order.
pub fn cmds() -> (r: Vec<Cmd>)
    ensures
        r.deep_view() == registry().map_values(|k: CmdKind| descriptor(k)),
{
    let mut r: Vec<Cmd> = Vec::new();
    r.push(cmd_of(CmdKind::Away));
    r.push(cmd_of(CmdKind::Close));
    r.push(cmd_of(CmdKind::Connect));
    r.push(cmd_of(CmdKind::Join));
    r.push(cmd_of(CmdKind::Me));
    r.push(cmd_of(CmdKind::Msg));
    r.push(cmd_of(CmdKind::Names));
    r.push(cmd_of(CmdKind::Nick));
    r.push(cmd_of(CmdKind::Help));
    assert(r.deep_view() =~= registry().map_values(|k: CmdKind| descriptor(k)));
    r
}

/// Looks `name` up in the registry: exact match, first entry wins.
pub fn find_cmd(name: &str) -> (r: Option<Cmd>)
    ensures
        r.deep_view() == match find_kind(name@) {
            Some(kind) => Some(descriptor(kind)),
            None => None,
        },
{
    let all = cmds();
    let mut i: usize = 0;
    assert(all.deep_view().len() == all.len());
    while i < all.len()
        invariant
            i <= all.len(),
            all.len() == registry().len(),
            all.deep_view() == registry().map_values(|k: CmdKind| descriptor(k)),
            find_kind(name@) == find_from(name@, i as int),
        decreases all.len() - i,
    {
        assert(all.deep_view()[i as int] == descriptor(registry()[i as int]));
        if str_eq(name, all[i].name) {
            return Some(all[i]);
        }
        i = i + 1;
    }
    None
}

/// Splits an input line (without the leading `/`) into a command and its
/// arguments. The arguments are the rest of the line behind the whitespace
/// that follows the name, character for character.
pub fn parse_cmd<'a>(cmd: &'a str) -> (r: Result<ParsedCmd<'a>, ParseError<'a>>)
    ensures
        parsed_view(r) == parse(cmd@),
        r matches Ok(p) ==> p.cmd@ == descriptor(p.cmd.kind),
{
    let v = to_chars(cmd);
    let a = skip_spaces_at(&v, 0);
    if a >= v.len() {
        return Err(ParseError::Empty);
    }
    let b = skip_word_at(&v, a);
    let c = skip_spaces_at(&v, b);
    let name = cmd.substring_char(a, b);
    match find_cmd(name) {
        None => Err(ParseError::NotFound { name }),
        Some(found) => Ok(ParsedCmd { cmd: found, args: cmd.substring_char(c, v.len()) }),
    }
}

} // verus!
