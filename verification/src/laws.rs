//! What the backend's operations promise of one another, over the model of
//! what redis does with each command.

use vstd::prelude::*;
use crate::backend::{
    auth_resume, auth_start, finish_with, spec_expiry, spec_leave_plan, spec_put_plan, spec_servers_of,
    status_resume, status_start, OutcomeView, SessionAuthView, StatusQuery, StepView,
};
use crate::cron::{leaving_all, spec_leave_all, spec_players_of, spec_wait_time, sweep_resume, sweep_start, SweepView};
use crate::decimal::{decimal, lemma_parse_decimal, parse_unsigned};
use crate::ids::{GameServerId, QueueStatusView, SteamId};
use crate::keys::{
    lemma_keys_distinct, player_text, players_queuing, queuing_text, server_queuers_bare,
    server_text, spec_queuing_for_key, spec_server_queuers_key, spec_session_key,
    spec_status_key,
};
use crate::store::{apply, lemma_run_append, lemma_run_four, states4, lists, run, scored_at_most, Answer, CommandView, Entry, ReplyView, Store};

verus! {

/// The members of the set under `k`; nothing where `k` holds no set.
pub open spec fn members_at(s: Store, k: Seq<char>) -> Set<Seq<char>> {
    if s.entries.contains_key(k) && s.entries[k] is Members {
        s.entries[k]->Members_0
    } else {
        Set::empty()
    }
}

/// The scores of the sorted set under `k`; nothing where `k` holds no
/// sorted set.
pub open spec fn scores_at(s: Store, k: Seq<char>) -> Map<Seq<char>, int> {
    if s.entries.contains_key(k) && s.entries[k] is Scores {
        s.entries[k]->Scores_0
    } else {
        Map::empty()
    }
}

/// Every member of the player's server set is the text of a server number.
pub open spec fn server_set_readable(s: Store, player: SteamId) -> bool {
    forall|m: Seq<char>| #[trigger] members_at(s, spec_queuing_for_key(player)).contains(m)
        ==> parse_unsigned(m, u32::MAX as nat) is Some
}

/// Every member of `players_queuing` is the decimal text of an account
/// number, as queueing writes it.
pub open spec fn queue_members_canonical(s: Store) -> bool {
    forall|m: Seq<char>| #[trigger] scores_at(s, players_queuing()).contains_key(m) ==> {
        &&& parse_unsigned(m, u64::MAX as nat) is Some
        &&& decimal(parse_unsigned(m, u64::MAX as nat)->0) == m
    }
}

/// Once a player has been queued for a server, reading the player's place in
/// the queue finds the player queuing, for that server among others.
///
/// The read asks for the status key, which holds `queuing`; it then asks
/// for the player's server set, and whatever order redis lists the set in,
/// the result is `Queuing` with the server in it. This holds where the
/// server set held only server numbers before, as it does when nothing but
/// queueing writes it.
pub proof fn law_queued_player_reads_as_queuing(
    s: Store,
    player: SteamId,
    server: GameServerId,
    now: i64,
    listing: Seq<Seq<char>>,
)
    requires
        run(s, spec_put_plan(player, server, now)) is Some,
        server_set_readable(s, player),
        lists(listing, members_at(run(s, spec_put_plan(player, server, now))->0, spec_queuing_for_key(player))),
    ensures
        ({
            let s2 = run(s, spec_put_plan(player, server, now))->0;
            let sk = spec_status_key(player);
            let qk = spec_queuing_for_key(player);
            &&& status_start(StatusQuery::Ask(player)) == (StatusQuery::AwaitStatus(player), StepView::Send(CommandView::Get(sk)))
            &&& apply(s2, CommandView::Get(sk)).1 == Answer::Text(queuing_text())
            &&& status_resume(StatusQuery::AwaitStatus(player), Ok(ReplyView::Text(queuing_text())))
                == (StatusQuery::AwaitServers, StepView::Send(CommandView::SMembers(qk)))
            &&& apply(s2, CommandView::SMembers(qk)).1 == Answer::Members(members_at(s2, qk))
            &&& members_at(s2, qk).contains(server_text(server))
            &&& status_resume(StatusQuery::AwaitServers, Ok(ReplyView::Members(listing))).1
                matches StepView::Finish(Ok(OutcomeView::Status(QueueStatusView::Queuing(servers))))
                && servers.contains(server)
        }),
{
    let sk = spec_status_key(player);
    let qk = spec_queuing_for_key(player);
    let vk = spec_server_queuers_key(server);
    let pq = players_queuing();
    lemma_keys_distinct(player, player, server, Seq::empty());
    let plan = spec_put_plan(player, server, now);
    lemma_run_four(s, plan);
    let (s1, s2, s3, s4) = states4(s, plan);
    // the server set gains the server and keeps its members
    assert(members_at(s2, qk) == members_at(s, qk).insert(server_text(server))) by {
        assert(members_at(s1, qk) == members_at(s, qk));
    }
    assert(s4.entries[sk] == Entry::Text(queuing_text()));
    assert(members_at(s4, qk) == members_at(s2, qk));
    let set = members_at(s4, qk);
    lemma_parse_decimal(server.0 as nat, u32::MAX as nat);
    assert forall|i: int| 0 <= i < listing.len() implies (#[trigger] parse_unsigned(listing[i], u32::MAX as nat)) is Some by {
        assert(listing.to_set().contains(listing[i]));
        if listing[i] != server_text(server) {
            assert(members_at(s, qk).contains(listing[i]));
        }
    }
    let servers = spec_servers_of(listing)->0;
    assert(listing.to_set().contains(server_text(server)));
    let k = choose|i: int| 0 <= i < listing.len() && listing[i] == server_text(server);
    assert(servers[k] == server);
}

/// Once a player has left the queue, reading the player's place in the queue
/// finds the player not queuing, and `players_queuing` no longer holds the
/// player.
pub proof fn law_left_player_reads_as_not_queuing(s: Store, player: SteamId)
    requires
        run(s, spec_leave_plan(player)) is Some,
    ensures
        ({
            let s2 = run(s, spec_leave_plan(player))->0;
            let sk = spec_status_key(player);
            &&& apply(s2, CommandView::Get(sk)).1 == Answer::Nil
            &&& status_resume(StatusQuery::AwaitStatus(player), Ok(ReplyView::Nil)).1
                == finish_with(OutcomeView::Status(QueueStatusView::NotQueuing))
            &&& !scores_at(s2, players_queuing()).contains_key(player_text(player))
        }),
{
    lemma_keys_distinct(player, player, GameServerId(0), Seq::empty());
    let plan = spec_leave_plan(player);
    lemma_run_four(s, plan);
    let (s1, s2, s3, s4) = states4(s, plan);
    let pq = players_queuing();
    assert(!scores_at(s1, pq).contains_key(player_text(player)));
    assert(scores_at(s4, pq) == scores_at(s1, pq));
}

/// A login session logs in once: checking a session whose key names an
/// account gives that account.
pub proof fn law_session_gives_its_account(s: Store, session: Seq<char>, account: u64, count: i64)
    requires
        s.entries.contains_key(spec_session_key(session)),
        s.entries[spec_session_key(session)] == Entry::Text(decimal(account as nat)),
    ensures
        ({
            let k = spec_session_key(session);
            &&& auth_start(SessionAuthView::Lookup(k)) == (SessionAuthView::AwaitLookup(k), StepView::Send(CommandView::Get(k)))
            &&& apply(s, CommandView::Get(k)) == (s, Answer::Text(decimal(account as nat)))
            &&& auth_resume(SessionAuthView::AwaitLookup(k), Ok(ReplyView::Text(decimal(account as nat))))
                == (SessionAuthView::AwaitConsume(Some(SteamId(account))), StepView::Send(CommandView::Del(k)))
            &&& auth_resume(SessionAuthView::AwaitConsume(Some(SteamId(account))), Ok(ReplyView::Count(count))).1
                == finish_with(OutcomeView::Account(Some(SteamId(account))))
        }),
{
    lemma_parse_decimal(account as nat, u64::MAX as nat);
}

/// Checking a session deletes its key, whatever the key held, so that
/// checking the same session again gives no account.
pub proof fn law_checked_session_gives_no_account(s: Store, session: Seq<char>, count: i64)
    ensures
        ({
            let k = spec_session_key(session);
            let s2 = apply(s, CommandView::Del(k)).0;
            &&& apply(s2, CommandView::Get(k)) == (s2, Answer::Nil)
            &&& auth_resume(SessionAuthView::AwaitLookup(k), Ok(ReplyView::Nil))
                == (SessionAuthView::AwaitConsume(None), StepView::Send(CommandView::Del(k)))
            &&& auth_resume(SessionAuthView::AwaitConsume(None), Ok(ReplyView::Count(count))).1
                == finish_with(OutcomeView::Account(None))
        }),
{
}

/// Leaving the queue twice is leaving it once: once a player has left, a
/// second leave succeeds and changes nothing.
pub proof fn law_leaving_twice_is_leaving_once(s: Store, player: SteamId)
    requires
        run(s, spec_leave_plan(player)) is Some,
    ensures
        run(run(s, spec_leave_plan(player))->0, spec_leave_plan(player))
            == run(s, spec_leave_plan(player)),
{
    lemma_keys_distinct(player, player, GameServerId(0), Seq::empty());
    let plan = spec_leave_plan(player);
    lemma_run_four(s, plan);
    let (s1, s2, s3, s4) = states4(s, plan);
    let pq = players_queuing();
    let sb = server_queuers_bare();
    let m = player_text(player);
    let sk = spec_status_key(player);
    let qk = spec_queuing_for_key(player);
    // after the first leave the sorted set lacks the player and is absent or
    // non-empty; the bare set likewise
    assert(s4.entries.contains_key(pq) ==> (s4.entries[pq] matches Entry::Scores(sc) && !sc.contains_key(m) && !sc.dom().is_empty())) by {
        if s1.entries.contains_key(pq) {
            assert(s.entries.contains_key(pq));
            let sc = s.entries[pq]->Scores_0;
            assert(s1.entries[pq] == Entry::Scores(sc.remove(m)));
        }
        assert(s4.entries.contains_key(pq) == s1.entries.contains_key(pq));
    }
    assert(s4.entries.contains_key(sb) ==> (s4.entries[sb] matches Entry::Members(ms) && !ms.contains(m) && !ms.is_empty()));
    assert(!s4.entries.contains_key(sk));
    assert(!s4.entries.contains_key(qk));
    lemma_run_four(s4, plan);
    let (u1, u2, u3, u4) = states4(s4, plan);
    if s4.entries.contains_key(pq) {
        let sc = s4.entries[pq]->Scores_0;
        assert(sc.remove(m) =~= sc);
    }
    assert(u1.entries =~= s4.entries);
    assert(u2.entries =~= s4.entries);
    assert(u3.entries =~= s4.entries);
    if s4.entries.contains_key(sb) {
        let ms = s4.entries[sb]->Members_0;
        assert(ms.remove(m) =~= ms);
    }
    assert(u4.entries =~= s4.entries);
}

/// Leaving the queue takes each player's member out of `players_queuing` and
/// leaves the other members and their scores as they were.
pub proof fn lemma_leave_all_scores(s: Store, players: Seq<SteamId>)
    requires
        run(s, spec_leave_all(players)) is Some,
    ensures
        ({
            let s2 = run(s, spec_leave_all(players))->0;
            forall|m: Seq<char>| #[trigger] scores_at(s2, players_queuing()).contains_key(m) <==> (
                scores_at(s, players_queuing()).contains_key(m)
                && (forall|i: int| 0 <= i < players.len() ==> m != player_text(#[trigger] players[i])))
        }),
        ({
            let s2 = run(s, spec_leave_all(players))->0;
            forall|m: Seq<char>| #[trigger] scores_at(s2, players_queuing()).contains_key(m) ==>
                scores_at(s2, players_queuing())[m] == scores_at(s, players_queuing())[m]
        }),
    decreases players.len(),
{
    if players.len() == 0 {
        reveal_with_fuel(run, 1);
    } else {
        let init = players.drop_last();
        let p = players.last();
        lemma_run_append(s, spec_leave_all(init), spec_leave_plan(p));
        assert(spec_leave_all(players) == spec_leave_all(init) + spec_leave_plan(p));
        lemma_leave_all_scores(s, init);
        let s1 = run(s, spec_leave_all(init))->0;
        lemma_keys_distinct(p, p, GameServerId(0), Seq::empty());
        let plan = spec_leave_plan(p);
        lemma_run_four(s1, plan);
        let (t1, t2, t3, t4) = states4(s1, plan);
        let pq = players_queuing();
        assert(scores_at(t4, pq) == scores_at(t1, pq));
        assert(scores_at(t1, pq) =~= scores_at(s1, pq).remove(player_text(p)));
        let s2 = t4;
        assert forall|m: Seq<char>| #[trigger] scores_at(s2, pq).contains_key(m) <==> (
            scores_at(s, pq).contains_key(m)
            && (forall|i: int| 0 <= i < players.len() ==> m != player_text(#[trigger] players[i]))) by {
            if scores_at(s2, pq).contains_key(m) {
                assert forall|i: int| 0 <= i < players.len() implies m != player_text(#[trigger] players[i]) by {
                    if i < init.len() {
                        assert(init[i] == players[i]);
                    }
                }
            }
            if scores_at(s, pq).contains_key(m) && (forall|i: int| 0 <= i < players.len() ==> m != player_text(#[trigger] players[i])) {
                assert forall|i: int| 0 <= i < init.len() implies m != player_text(#[trigger] init[i]) by {
                    assert(init[i] == players[i]);
                }
                assert(m != player_text(players[players.len() - 1]));
            }
        }
    }
}

/// After a round of the sweep, no player whose place expired by the round's
/// start is left in `players_queuing`; the other players keep their places.
///
/// The round asks for the members scored at most `now`; whatever order redis
/// lists them in, each names a player, and the round takes exactly those
/// players out. This holds where every member of `players_queuing` is the
/// text of an account number as queueing writes it: a member such as `007`
/// names player 7, and leaving the queue removes `7`, not `007`.
pub proof fn law_sweep_drops_expired_players(s: Store, now: i64, listing: Seq<Seq<char>>)
    requires
        queue_members_canonical(s),
        lists(listing, scored_at_most(scores_at(s, players_queuing()), now as int)),
    ensures
        spec_players_of(listing) is Some,
        sweep_resume(SweepView::AwaitExpired, Ok(ReplyView::Members(listing)))
            == leaving_all(spec_players_of(listing)->0),
        run(s, spec_leave_all(spec_players_of(listing)->0)) is Some ==> ({
            let s2 = run(s, spec_leave_all(spec_players_of(listing)->0))->0;
            &&& forall|m: Seq<char>| #[trigger] scores_at(s2, players_queuing()).contains_key(m)
                ==> scores_at(s2, players_queuing())[m] > now
            &&& forall|m: Seq<char>| #[trigger] scores_at(s, players_queuing()).contains_key(m)
                && scores_at(s, players_queuing())[m] > now
                ==> scores_at(s2, players_queuing()).contains_key(m)
                && scores_at(s2, players_queuing())[m] == scores_at(s, players_queuing())[m]
        }),
{
    let pq = players_queuing();
    let sc = scores_at(s, pq);
    assert forall|i: int| 0 <= i < listing.len() implies (#[trigger] parse_unsigned(listing[i], u64::MAX as nat)) is Some by {
        assert(listing.to_set().contains(listing[i]));
        assert(sc.contains_key(listing[i]));
    }
    let players = spec_players_of(listing)->0;
    // each listed member is the text of the player it names
    assert forall|i: int| 0 <= i < listing.len() implies player_text(#[trigger] players[i]) == listing[i] by {
        assert(listing.to_set().contains(listing[i]));
        assert(sc.contains_key(listing[i]));
    }
    if run(s, spec_leave_all(players)) is Some {
        lemma_leave_all_scores(s, players);
        let s2 = run(s, spec_leave_all(players))->0;
        assert forall|m: Seq<char>| #[trigger] scores_at(s2, pq).contains_key(m) implies scores_at(s2, pq)[m] > now by {
            if scores_at(s2, pq)[m] <= now {
                assert(scored_at_most(sc, now as int).contains(m));
                assert(listing.to_set().contains(m));
                let k = choose|i: int| 0 <= i < listing.len() && listing[i] == m;
                assert(player_text(players[k]) == m);
            }
        }
        assert forall|m: Seq<char>| #[trigger] scores_at(s, pq).contains_key(m) && scores_at(s, pq)[m] > now
            implies scores_at(s2, pq).contains_key(m) && scores_at(s2, pq)[m] == scores_at(s, pq)[m] by {
            assert forall|i: int| 0 <= i < players.len() implies m != player_text(#[trigger] players[i]) by {
                assert(player_text(players[i]) == listing[i]);
                assert(listing.to_set().contains(listing[i]));
                assert(scored_at_most(sc, now as int).contains(listing[i]));
            }
            assert(scores_at(s2, pq).contains_key(m));
        }
    }
}

/// A place in the queue lasts a minute: once a player has been queued at
/// `now`, a round of the sweep that starts at `later` finds the player
/// expired exactly when `later` is at least a minute after `now` (the
/// expiry saturates at the largest time).
pub proof fn law_queued_player_expires_after_a_minute(
    s: Store,
    player: SteamId,
    server: GameServerId,
    now: i64,
    later: i64,
)
    requires
        run(s, spec_put_plan(player, server, now)) is Some,
    ensures
        ({
            let s2 = run(s, spec_put_plan(player, server, now))->0;
            scored_at_most(scores_at(s2, players_queuing()), later as int).contains(player_text(player))
                <==> later >= spec_expiry(now)
        }),
{
    lemma_keys_distinct(player, player, server, Seq::empty());
    let plan = spec_put_plan(player, server, now);
    lemma_run_four(s, plan);
    let (s1, s2, s3, s4) = states4(s, plan);
    let pq = players_queuing();
    assert(scores_at(s4, pq) == scores_at(s1, pq));
    assert(scores_at(s1, pq).contains_key(player_text(player)));
    assert(scores_at(s1, pq)[player_text(player)] == spec_expiry(now) as int);
}

/// The sweep's rounds are at most thirty seconds apart, or as long as a
/// round takes: after a round that started at `start` and ended at `end`,
/// the thread sleeps until `max(start + 30, end)`.
pub proof fn law_rounds_start_thirty_seconds_apart(start: i64, end: i64)
    requires
        start <= end,
    ensures
        end + spec_wait_time(start, end) == if start + 30 > end {
            start + 30
        } else {
            end as int
        },
{
}

/// An expired player is dropped by the next round: where a round started
/// at `start` and ended at `end`, the next round starts at
/// `max(start + 30, end)` and drops every player whose place expired by
/// then. With the expiry law, a player queued at `t` is out of the queue by
/// the first round that starts a minute after `t`, at most thirty seconds
/// (or one round's length) later. The store is the one the next round reads;
/// its members are written as queueing writes them.
pub proof fn law_expired_player_dropped_by_next_round(
    s: Store,
    m: Seq<char>,
    start: i64,
    end: i64,
    listing: Seq<Seq<char>>,
)
    requires
        start <= end,
        end + spec_wait_time(start, end) <= i64::MAX,
        queue_members_canonical(s),
        scores_at(s, players_queuing()).contains_key(m),
        scores_at(s, players_queuing())[m] <= end + spec_wait_time(start, end),
        lists(listing, scored_at_most(scores_at(s, players_queuing()), end + spec_wait_time(start, end))),
        spec_players_of(listing) is Some,
        run(s, spec_leave_all(spec_players_of(listing)->0)) is Some,
    ensures
        sweep_start(SweepView::Ask((end + spec_wait_time(start, end)) as i64)).1
            == StepView::Send(CommandView::ZRangeByScore(players_queuing(), (end + spec_wait_time(start, end)) as i64)),
        sweep_resume(SweepView::AwaitExpired, Ok(ReplyView::Members(listing)))
            == leaving_all(spec_players_of(listing)->0),
        !scores_at(run(s, spec_leave_all(spec_players_of(listing)->0))->0, players_queuing()).contains_key(m),
{
    let next = (end + spec_wait_time(start, end)) as i64;
    law_sweep_drops_expired_players(s, next, listing);
    let players = spec_players_of(listing)->0;
    lemma_leave_all_scores(s, players);
    let s2 = run(s, spec_leave_all(players))->0;
    if scores_at(s2, players_queuing()).contains_key(m) {
        assert(scores_at(s2, players_queuing())[m] == scores_at(s, players_queuing())[m]);
    }
}

} // verus!
