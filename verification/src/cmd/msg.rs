//! `/msg`: a message to a user, or to a server by its name.
use crate::action::{Action, ActionView};
use crate::cmd::{find_client, find_client_idx, pair_view, usage_error, usage_error_of};
use crate::outside::{alphabetic, is_alphabetic};
use crate::registry::CmdKind;
use crate::source::{MsgSource, SourceView};
use crate::text::{skip_spaces, skip_spaces_at, skip_word, skip_word_at, to_chars};
use vstd::prelude::*;

verus! {

/// Whether `c` is one of the special characters that a nick may begin
/// with: one of ``[ \ ] ^ _ ` { | }``.
pub open spec fn nick_special(c: char) -> bool {
    let n = c as u32;
    0x5B <= n <= 0x60 || 0x7B <= n <= 0x7D
}

/// Whether a nick may begin with `c`, given whether `c` is alphabetic: a
/// letter or a special character.
pub open spec fn nick_first_char(c: char, is_letter: bool) -> bool {
    is_letter || nick_special(c)
}

/// Whether a nick may begin with `c`, once it is known whether `c` is
/// alphabetic.
pub fn nick_first_char_given(c: char, is_letter: bool) -> (r: bool)
    ensures
        r == nick_first_char(c, is_letter),
{
    let n: u32 = c as u32;
    is_letter || (0x5B <= n && n <= 0x60) || (0x7B <= n && n <= 0x7D)
}

/// Whether a nick may begin with `c`.
pub fn is_nick_first_char(c: char) -> (r: bool)
    ensures
        r == nick_first_char(c, alphabetic(c)),
{
    nick_first_char_given(c, is_alphabetic(c))
}

/// A text split at the first whitespace behind its first character: what
/// stands before that whitespace, and what stands behind the whole run of
/// whitespace. `None` if there is no such whitespace.
pub open spec fn first_word_and_rest(s: Seq<char>) -> Option<(Seq<char>, Seq<char>)> {
    let b = skip_word(s, 1);
    if 0 < s.len() && b < s.len() {
        Some((s.subrange(0, b), s.subrange(skip_spaces(s, b), s.len() as int)))
    } else {
        None
    }
}

/// Executable `first_word_and_rest`.
pub fn split_first_word(args: &str) -> (r: Option<(&str, &str)>)
    ensures
        pair_view(r) == first_word_and_rest(args@),
{
    let v = to_chars(args);
    if v.len() == 0 {
        return None;
    }
    let b = skip_word_at(&v, 1);
    if b < v.len() {
        let c = skip_spaces_at(&v, b);
        Some((args.substring_char(0, b), args.substring_char(c, v.len())))
    } else {
        None
    }
}

/// The target and the message of `/msg <nick> <message>`: the text must
/// begin with a character that a nick may begin with, and is then split
/// at the first whitespace.
pub open spec fn msg_args(s: Seq<char>) -> Option<(Seq<char>, Seq<char>)> {
    if s.len() > 0 && nick_first_char(s[0], alphabetic(s[0])) {
        first_word_and_rest(s)
    } else {
        None
    }
}

/// Splits the arguments of `/msg` into the target and the message.
pub fn split_msg_args(args: &str) -> (r: Option<(&str, &str)>)
    ensures
        pair_view(r) == msg_args(args@),
{
    if args.is_empty() {
        return None;
    }
    if !is_nick_first_char(args.get_char(0)) {
        return None;
    }
    split_first_word(args)
}

/// Where `/msg` sends to: to the server, if `target` is the name of a
/// server that there is a connection to; else to the user `target` on the
/// source's server.
pub open spec fn msg_route(
    target: Seq<char>,
    clients: Seq<Seq<char>>,
    src: SourceView,
) -> SourceView {
    if find_client(clients, target) is Some {
        SourceView::Serv { serv: target }
    } else {
        SourceView::User { serv: src.serv_name(), nick: target }
    }
}

/// What `/msg` does, given its arguments split: without a target or
/// without a message a usage error, else the message sent as it was typed.
pub open spec fn msg_to_actions(
    split: Option<(Seq<char>, Seq<char>)>,
    clients: Seq<Seq<char>>,
    src: SourceView,
) -> Seq<ActionView> {
    match split {
        Some((target, text)) => if text.len() == 0 {
            seq![usage_error(CmdKind::Msg)]
        } else {
            seq![
                ActionView::SendMsg {
                    src: msg_route(target, clients, src),
                    msg: text,
                    is_action: false,
                },
            ]
        },
        None => seq![usage_error(CmdKind::Msg)],
    }
}

/// Sends a message, given the arguments of `/msg` split into target and text.
pub fn msg_to(split: Option<(&str, &str)>, clients: &Vec<String>, src: &MsgSource) -> (r: Vec<
    Action,
>)
    ensures
        r.deep_view() == msg_to_actions(pair_view(split), clients.deep_view(), src@),
{
    let mut r: Vec<Action> = Vec::new();
    match split {
        Some((target, text)) => {
            if text.is_empty() {
                r.push(usage_error_of(CmdKind::Msg));
            } else {
                let to = match find_client_idx(clients, target) {
                    Some(_) => MsgSource::Serv { serv: target.to_owned() },
                    None => MsgSource::User {
                        serv: src.serv_name().to_owned(),
                        nick: target.to_owned(),
                    },
                };
                r.push(Action::SendMsg { src: to, msg: text.to_owned(), is_action: false });
            }
        },
        None => {
            r.push(usage_error_of(CmdKind::Msg));
        },
    }
    assert(r.deep_view() =~= msg_to_actions(pair_view(split), clients.deep_view(), src@));
    r
}

/// `/msg <nick> <message>`.
pub open spec fn msg_actions(args: Seq<char>, clients: Seq<Seq<char>>, src: SourceView) -> Seq<
    ActionView,
> {
    msg_to_actions(msg_args(args), clients, src)
}

/// Handler of `/msg`.
pub fn msg(args: &str, clients: &Vec<String>, src: &MsgSource) -> (r: Vec<Action>)
    ensures
        r.deep_view() == msg_actions(args@, clients.deep_view(), src@),
{
    msg_to(split_msg_args(args), clients, src)
}

} // verus!
