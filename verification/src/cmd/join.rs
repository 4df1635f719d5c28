//! `/join`: the channels to join, and the tabs that are made ready for them.
use crate::action::{err_here, error_here, Action, ActionView};
use crate::cmd::{find_client, find_client_idx, usage_error, usage_error_of};
use crate::config::{Chan, ChanView, TabConfig};
use crate::registry::CmdKind;
use crate::source::{mentions_name, MsgSource, SourceView};
use crate::text::{split_char, split_on, str_eq, strs_view, trim, trim_str};
use vstd::prelude::*;

verus! {

/// `/join [channels]`, first step: from the mentions tab an error; else the
/// arguments are split at each comma and each entry, trimmed, is to be
/// read as a channel.
pub open spec fn join_actions(args: Seq<char>, src: SourceView) -> Seq<ActionView> {
    if src.is_mentions() {
        seq![err_here("Switch to a server tab to join a channel"@)]
    } else {
        seq![
            ActionView::ParseChans {
                entries: split_on(args, ',').map_values(|e: Seq<char>| trim(e)),
            },
        ]
    }
}

/// Handler of `/join`, first step.
pub fn join(args: &str, src: &MsgSource) -> (r: Vec<Action>)
    ensures
        r.deep_view() == join_actions(args@, src@),
{
    let mut r: Vec<Action> = Vec::new();
    proof {
        reveal_strlit("mentions");
        assert("mentions"@ =~= mentions_name());
    }
    let from_mentions = match src {
        MsgSource::Serv { serv } => str_eq(serv.as_str(), "mentions"),
        _ => false,
    };
    if from_mentions {
        r.push(error_here(String::from_str("Switch to a server tab to join a channel")));
    } else {
        let pieces = split_char(args, ',');
        assert(strs_view(pieces@).len() == pieces.len());
        let mut entries: Vec<String> = Vec::new();
        let mut i: usize = 0;
        while i < pieces.len()
            invariant
                i <= pieces.len(),
                entries.len() == i,
                strs_view(pieces@) == split_on(args@, ','),
                forall|k: int| 0 <= k < i ==> entries[k]@ == trim(split_on(args@, ',')[k]),
            decreases pieces.len() - i,
        {
            assert(strs_view(pieces@)[i as int] == pieces[i as int]@);
            entries.push(trim_str(pieces[i]).to_owned());
            i = i + 1;
        }
        assert(entries.deep_view() =~= split_on(args@, ',').map_values(|e: Seq<char>| trim(e)));
        r.push(Action::ParseChans { entries });
    }
    assert(r.deep_view() =~= join_actions(args@, src@));
    r
}

/// The view of an entry of `/join` as it was read: a channel, or the
/// reason why the entry is none.
pub open spec fn entry_view(e: Result<Chan, String>) -> Result<ChanView, Seq<char>> {
    match e {
        Ok(chan) => Ok(chan@),
        Err(err) => Err(err@),
    }
}

/// The views of the entries of `/join`.
pub open spec fn entries_view(v: Seq<Result<Chan, String>>) -> Seq<Result<ChanView, Seq<char>>> {
    v.map_values(|e: Result<Chan, String>| entry_view(e))
}

/// One error message for each entry that is no channel, in order.
pub open spec fn join_errors(parsed: Seq<Result<ChanView, Seq<char>>>) -> Seq<ActionView>
    decreases parsed.len(),
{
    if parsed.len() == 0 {
        seq![]
    } else {
        match parsed.last() {
            Err(err) => join_errors(parsed.drop_last()).push(err_here(err)),
            Ok(_) => join_errors(parsed.drop_last()),
        }
    }
}

/// The entries that are channels, in order.
pub open spec fn join_given(parsed: Seq<Result<ChanView, Seq<char>>>) -> Seq<ChanView>
    decreases parsed.len(),
{
    if parsed.len() == 0 {
        seq![]
    } else {
        match parsed.last() {
            Err(_) => join_given(parsed.drop_last()),
            Ok(chan) => join_given(parsed.drop_last()).push(chan),
        }
    }
}

/// The channels that `/join` is to join: those given; if none is given, in
/// a channel tab the channel of that tab with the configuration stored for
/// it; elsewhere none.
pub open spec fn join_targets(
    parsed: Seq<Result<ChanView, Seq<char>>>,
    current_tab: Option<SourceView>,
    stored: TabConfig,
) -> Option<Seq<ChanView>> {
    if join_given(parsed).len() > 0 {
        Some(join_given(parsed))
    } else {
        match current_tab {
            Some(SourceView::Chan { serv, chan }) => Some(
                seq![ChanView::WithConfig { name: chan, config: stored }],
            ),
            _ => None,
        }
    }
}

/// The action that stores the tab configuration of a channel to join.
pub open spec fn tab_config_of(serv: Seq<char>, chan: ChanView) -> ActionView {
    ActionView::SetTabConfig { serv, chan: chan.name(), config: chan.config() }
}

/// `/join`, second step: the errors of the entries; then, with channels to
/// join and a connection to the source's server, the tab configuration of
/// each channel and one join of them all; without a connection an error;
/// without channels a usage error, or nothing if no tab is shown.
pub open spec fn join_chans_actions(
    parsed: Seq<Result<ChanView, Seq<char>>>,
    current_tab: Option<SourceView>,
    stored: TabConfig,
    clients: Seq<Seq<char>>,
    src: SourceView,
) -> Seq<ActionView> {
    let errors = join_errors(parsed);
    match join_targets(parsed, current_tab, stored) {
        None => if current_tab is None {
            errors
        } else {
            errors.push(usage_error(CmdKind::Join))
        },
        Some(chans) => match find_client(clients, src.serv_name()) {
            Some(i) => errors + chans.map_values(
                |c: ChanView| tab_config_of(src.serv_name(), c),
            ) + seq![
                ActionView::Join { client: i, chans: chans.map_values(|c: ChanView| c.name()) },
            ],
            None => errors.push(
                err_here("Can't join: Not connected to server "@ + src.serv_name()),
            ),
        },
    }
}

/// Handler of `/join`, second step. `parsed` holds what reading each entry
/// gave, `current_tab` the source of the tab that is shown, and `stored`
/// the configuration stored for that tab.
pub fn join_chans(
    parsed: &Vec<Result<Chan, String>>,
    current_tab: Option<&MsgSource>,
    stored: TabConfig,
    clients: &Vec<String>,
    src: &MsgSource,
) -> (r: Vec<Action>)
    ensures
        r.deep_view() == join_chans_actions(
            entries_view(parsed@),
            current_tab.deep_view(),
            stored,
            clients.deep_view(),
            src@,
        ),
{
    let ghost entries = entries_view(parsed@);
    let mut r: Vec<Action> = Vec::new();
    let mut chans: Vec<Chan> = Vec::new();
    let mut i: usize = 0;
    while i < parsed.len()
        invariant
            i <= parsed.len(),
            entries == entries_view(parsed@),
            r.deep_view() == join_errors(entries.take(i as int)),
            chans.deep_view() == join_given(entries.take(i as int)),
        decreases parsed.len() - i,
    {
        proof {
            let next = entries.take(i + 1);
            assert(next.drop_last() == entries.take(i as int));
            assert(next.last() == entry_view(parsed[i as int]));
        }
        match &parsed[i] {
            Ok(Chan::Name(name)) => {
                chans.push(Chan::Name(name.clone()));
            },
            Ok(Chan::WithConfig { name, config }) => {
                chans.push(Chan::WithConfig { name: name.clone(), config: *config });
            },
            Err(err) => {
                r.push(error_here(err.clone()));
            },
        }
        i = i + 1;
        assert(r.deep_view() =~= join_errors(entries.take(i as int)));
        assert(chans.deep_view() =~= join_given(entries.take(i as int)));
    }
    assert(entries.take(i as int) == entries);
    let ghost errors = join_errors(entries);
    if chans.len() == 0 {
        match current_tab {
            None => {
                return r;
            },
            Some(MsgSource::Chan { serv, chan }) => {
                chans.push(Chan::WithConfig { name: chan.clone(), config: stored });
                assert(chans.deep_view() =~= seq![
                    ChanView::WithConfig { name: chan@, config: stored },
                ]);
            },
            Some(_) => {
                r.push(usage_error_of(CmdKind::Join));
                assert(r.deep_view() =~= errors.push(usage_error(CmdKind::Join)));
                return r;
            },
        }
    }
    let ghost targets = chans.deep_view();
    assert(join_targets(entries, current_tab.deep_view(), stored) == Some(targets));
    let serv = src.serv_name();
    match find_client_idx(clients, serv) {
        Some(client) => {
            let mut names: Vec<String> = Vec::new();
            let mut k: usize = 0;
            while k < chans.len()
                invariant
                    k <= chans.len(),
                    targets == chans.deep_view(),
                    serv@ == src@.serv_name(),
                    names.deep_view() == targets.take(k as int).map_values(
                        |c: ChanView| c.name(),
                    ),
                    r.deep_view() == errors + targets.take(k as int).map_values(
                        |c: ChanView| tab_config_of(src@.serv_name(), c),
                    ),
                decreases chans.len() - k,
            {
                let config = match &chans[k] {
                    Chan::Name(_) => None,
                    Chan::WithConfig { config, .. } => Some(*config),
                };
                let name = chans[k].name();
                proof {
                    let target = targets[k as int];
                    let before = targets.take(k as int);
                    assert(target == chans[k as int]@);
                    assert(config == target.config());
                    assert(targets.take(k + 1) == before.push(target));
                    assert(before.push(target).map_values(|c: ChanView| c.name())
                        == before.map_values(|c: ChanView| c.name()).push(target.name()));
                    assert(before.push(target).map_values(
                        |c: ChanView| tab_config_of(src@.serv_name(), c),
                    ) == before.map_values(
                        |c: ChanView| tab_config_of(src@.serv_name(), c),
                    ).push(tab_config_of(src@.serv_name(), target)));
                }
                let ghost shown = r.deep_view();
                r.push(
                    Action::SetTabConfig { serv: serv.to_owned(), chan: name.to_owned(), config },
                );
                assert(r.deep_view() =~= shown.push(
                    tab_config_of(src@.serv_name(), targets[k as int]),
                ));
                names.push(name.to_owned());
                k = k + 1;
                assert(names.deep_view() =~= targets.take(k as int).map_values(
                    |c: ChanView| c.name(),
                ));
                assert(r.deep_view() =~= errors + targets.take(k as int).map_values(
                    |c: ChanView| tab_config_of(src@.serv_name(), c),
                ));
            }
            assert(targets.take(k as int) == targets);
            r.push(Action::Join { client, chans: names });
            assert(r.deep_view() =~= join_chans_actions(
                entries,
                current_tab.deep_view(),
                stored,
                clients.deep_view(),
                src@,
            ));
        },
        None => {
            r.push(
                error_here(String::from_str("Can't join: Not connected to server ").concat(serv)),
            );
            assert(r.deep_view() =~= errors.push(
                err_here("Can't join: Not connected to server "@ + src@.serv_name()),
            ));
        },
    }
    r
}

} // verus!
