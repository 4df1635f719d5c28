//! `/names`: who is in the channel.
use crate::action::{err_here, error_here, Action, ActionView};
use crate::cmd::{find_client, find_client_idx};
use crate::source::{MsgSource, MsgTarget, SourceView, TargetView};
use crate::text::{
    decimal, decimal_string, join_strings, join_with, split_words, str_eq, strs_view, words,
};
use vstd::prelude::*;

verus! {

/// `/names [nick]`: does nothing without a connection to the source's
/// server; outside a channel tab an error; else asks for the nicks of the
/// channel, to report on the first word of the arguments or on all.
pub open spec fn names_actions(args: Seq<char>, clients: Seq<Seq<char>>, src: SourceView) -> Seq<
    ActionView,
> {
    match find_client(clients, src.serv_name()) {
        None => seq![],
        Some(i) => match src {
            SourceView::Chan { serv, chan } => seq![
                ActionView::ListNicks {
                    client: i,
                    serv,
                    chan,
                    nick: if words(args).len() == 0 {
                        None
                    } else {
                        Some(words(args)[0])
                    },
                },
            ],
            _ => seq![err_here("/names only supported in chan tabs"@)],
        },
    }
}

/// Handler of `/names`.
pub fn names(args: &str, clients: &Vec<String>, src: &MsgSource) -> (r: Vec<Action>)
    ensures
        r.deep_view() == names_actions(args@, clients.deep_view(), src@),
{
    let mut r: Vec<Action> = Vec::new();
    let ws = split_words(args);
    assert(strs_view(ws@).len() == ws.len());
    if let Some(i) = find_client_idx(clients, src.serv_name()) {
        match src {
            MsgSource::Chan { serv, chan } => {
                let nick = if ws.len() == 0 {
                    None
                } else {
                    assert(strs_view(ws@)[0] == ws[0]@);
                    Some(ws[0].to_owned())
                };
                r.push(
                    Action::ListNicks { client: i, serv: serv.clone(), chan: chan.clone(), nick },
                );
            },
            _ => {
                r.push(error_here(String::from_str("/names only supported in chan tabs")));
            },
        }
    }
    assert(r.deep_view() =~= names_actions(args@, clients.deep_view(), src@));
    r
}

/// What `/names` says of the nicks of a channel: how many there are and
/// who, or whether the nick asked for is among them.
pub open spec fn names_text(nick: Option<Seq<char>>, nicks: Seq<Seq<char>>) -> Seq<char> {
    match nick {
        None => decimal(nicks.len()) + " users: "@ + join_with(nicks, ", "@),
        Some(nick) => if nicks.contains(nick) {
            nick + " is online"@
        } else {
            nick + " is not in the channel"@
        },
    }
}

/// The answer of `/names`: `names_text`, shown in the channel's tab.
pub open spec fn names_answer(
    serv: Seq<char>,
    chan: Seq<char>,
    nick: Option<Seq<char>>,
    nicks: Seq<Seq<char>>,
) -> ActionView {
    ActionView::ClientMsg { msg: names_text(nick, nicks), target: TargetView::Chan { serv, chan } }
}

/// Whether `nick` is one of `nicks`.
pub fn has_nick(nicks: &Vec<String>, nick: &str) -> (r: bool)
    ensures
        r == nicks.deep_view().contains(nick@),
{
    let mut i: usize = 0;
    while i < nicks.len()
        invariant
            i <= nicks.len(),
            forall|k: int| 0 <= k < i ==> nicks.deep_view()[k] != nick@,
        decreases nicks.len() - i,
    {
        if str_eq(nicks[i].as_str(), nick) {
            assert(nicks.deep_view()[i as int] == nick@);
            return true;
        }
        i = i + 1;
    }
    false
}

/// The answer to `/names`, given the nicks that the connection reported
/// for the channel.
pub fn names_reply(serv: &str, chan: &str, nick: Option<&str>, nicks: &Vec<String>) -> (r: Action)
    ensures
        r@ == names_answer(serv@, chan@, nick.deep_view(), nicks.deep_view()),
{
    let msg = match nick {
        None => decimal_string(nicks.len()).concat(" users: ").concat(
            join_strings(nicks, ", ").as_str(),
        ),
        Some(nick) => if has_nick(nicks, nick) {
            String::from_str(nick).concat(" is online")
        } else {
            String::from_str(nick).concat(" is not in the channel")
        },
    };
    Action::ClientMsg {
        msg,
        target: MsgTarget::Chan { serv: serv.to_owned(), chan: chan.to_owned() },
    }
}

} // verus!
