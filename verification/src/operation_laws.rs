//! What single operations do, stated over their inputs and results.

use vstd::prelude::*;
use crate::backend::{
    finish_with, fresh_plan, plan_next, plan_resume, redis_failure, spec_expiry, spec_put_plan,
    spec_servers_of, status_resume, OutcomeView, PlanView, StatusQuery, StepView,
};
use crate::cron::{sweep_resume, SweepView};
use crate::decimal::{decimal, lemma_parse_decimal, parse_unsigned};
use crate::form::spec_form_value;
use crate::ids::{GameServerId, QueueStatusView, SteamId};
use crate::keys::{player_text, players_queuing, server_text};
use crate::laws::law_queued_player_expires_after_a_minute;
use crate::prefs::{spec_prefs_from_form, Prefs};
use crate::store::{run, scored_at_most, CommandView, ReplyView, Store};
use crate::laws::scores_at;
use crate::wshandler::{result_text, server_item, servers_text, spec_ws_action, start_playing_text, Opcode, WsAction};
use vstd::utf8::valid_utf8;

verus! {

// ---------------------------------------------------------------------------
// Plans send every command, whatever the replies carry.

/// A running plan that is answered with any reply sends its next command
/// while commands remain, and finishes successfully once all were answered;
/// a failure ends it with that failure.
pub proof fn law_plan_goes_on_after_any_reply(p: PlanView, r: ReplyView, e: Seq<char>)
    ensures
        p.sent < p.commands.len() ==> plan_resume(p, Ok(r)) == (
            PlanView { commands: p.commands, sent: p.sent + 1, over: p.over },
            StepView::Send(p.commands[p.sent as int]),
        ),
        p.sent >= p.commands.len() ==> plan_resume(p, Ok(r)) == (
            PlanView { commands: p.commands, sent: p.sent, over: true },
            StepView::Finish(Ok(OutcomeView::Unit)),
        ),
        plan_resume(p, Err(e)).1 == StepView::Finish(Err(crate::backend::BackendErrorView::Redis(e))),
{
}

/// The plan's state after starting and being answered with `replies`, all
/// successful.
pub open spec fn plan_after(cs: Seq<CommandView>, replies: Seq<ReplyView>) -> (PlanView, StepView)
    decreases replies.len(),
{
    if replies.len() == 0 {
        plan_next(fresh_plan(cs))
    } else {
        plan_resume(plan_after(cs, replies.drop_last()).0, Ok(replies.last()))
    }
}

/// A plan sends all its commands, in order, whatever counts redis answers
/// with: after `k` successful replies it sends the command at `k`, and after
/// a reply to each command it finishes successfully.
pub proof fn law_plan_sends_every_command(cs: Seq<CommandView>, replies: Seq<ReplyView>)
    requires
        replies.len() <= cs.len(),
    ensures
        replies.len() < cs.len() ==> plan_after(cs, replies) == (
            PlanView { commands: cs, sent: replies.len() + 1, over: false },
            StepView::Send(cs[replies.len() as int]),
        ),
        replies.len() == cs.len() ==> plan_after(cs, replies).1 == StepView::Finish(Ok(OutcomeView::Unit)),
    decreases replies.len(),
{
    if replies.len() > 0 {
        law_plan_sends_every_command(cs, replies.drop_last());
    }
}

/// A sweep round that is taking players out of the queue goes on with its
/// next command after any successful reply.
pub proof fn law_sweep_goes_on_after_any_reply(p: PlanView, r: ReplyView)
    requires
        p.sent < p.commands.len(),
    ensures
        sweep_resume(SweepView::Leaving(p), Ok(r)) == (
            SweepView::Leaving(PlanView { commands: p.commands, sent: p.sent + 1, over: p.over }),
            StepView::Send(p.commands[p.sent as int]),
        ),
{
}

// ---------------------------------------------------------------------------
// Form fields are found by name.

/// A field of another name does not change what a name looks up; the
/// first field of that name gives its first value.
pub proof fn law_form_value_by_name(
    g: (Seq<char>, Seq<Seq<char>>),
    fs: Seq<(Seq<char>, Seq<Seq<char>>)>,
    n: Seq<char>,
)
    ensures
        g.0 != n ==> spec_form_value(seq![g] + fs, n) == spec_form_value(fs, n),
        g.0 == n && g.1.len() > 0 ==> spec_form_value(seq![g] + fs, n) == Some(g.1[0]),
        g.0 == n && g.1.len() == 0 ==> spec_form_value(seq![g] + fs, n) is None,
{
    assert((seq![g] + fs)[0] == g);
    assert((seq![g] + fs).drop_first() =~= fs);
}

/// A field that is the first of its name is found wherever it stands.
pub proof fn law_form_value_anywhere(fs: Seq<(Seq<char>, Seq<Seq<char>>)>, n: Seq<char>, i: int)
    requires
        0 <= i < fs.len(),
        fs[i].0 == n,
        forall|j: int| 0 <= j < i ==> fs[j].0 != n,
    ensures
        spec_form_value(fs, n) == if fs[i].1.len() > 0 {
            Some(fs[i].1[0])
        } else {
            None
        },
    decreases i,
{
    if i > 0 {
        let rest = fs.drop_first();
        assert forall|j: int| 0 <= j < i - 1 implies rest[j].0 != n by {
            assert(rest[j] == fs[j + 1]);
        }
        law_form_value_anywhere(rest, n, i - 1);
        assert(fs[0].0 != n);
    }
}

/// The preferences form sets `foo` from the field called `foo`, wherever it
/// stands among the fields: the preference is on exactly when that field's
/// first value is `on`.
pub proof fn law_prefs_form_reads_foo_anywhere(fs: Seq<(Seq<char>, Seq<Seq<char>>)>, i: int)
    requires
        0 <= i < fs.len(),
        fs[i].0 == "foo"@,
        forall|j: int| 0 <= j < i ==> fs[j].0 != "foo"@,
    ensures
        spec_prefs_from_form(Some(fs)) == Some(Prefs { foo: fs[i].1.len() > 0 && fs[i].1[0] == "on"@ }),
{
    law_form_value_anywhere(fs, "foo"@, i);
}

// ---------------------------------------------------------------------------
// A player's servers are read one per member.

/// The servers read from a listing of members have one entry per member, in
/// order: the `i`-th server is the number the `i`-th member spells.
pub proof fn law_servers_one_per_member(ms: Seq<Seq<char>>)
    requires
        forall|i: int| 0 <= i < ms.len() ==> (#[trigger] parse_unsigned(ms[i], u32::MAX as nat)) is Some,
    ensures
        spec_servers_of(ms) is Some,
        spec_servers_of(ms)->0.len() == ms.len(),
        forall|i: int| 0 <= i < ms.len() ==> (#[trigger] spec_servers_of(ms)->0[i]).0 as nat
            == parse_unsigned(ms[i], u32::MAX as nat)->0,
{
}

/// Servers written as set members read back as the same servers, in the
/// order the members are listed: reading a queuing player's servers gives
/// `Queuing` with exactly those servers.
pub proof fn law_written_servers_read_back(servers: Seq<GameServerId>)
    ensures
        status_resume(StatusQuery::AwaitServers, Ok(ReplyView::Members(servers.map_values(|g: GameServerId| server_text(g))))).1
            == finish_with(OutcomeView::Status(QueueStatusView::Queuing(servers))),
{
    let ms = servers.map_values(|g: GameServerId| server_text(g));
    assert forall|i: int| 0 <= i < ms.len() implies (#[trigger] parse_unsigned(ms[i], u32::MAX as nat)) == Some(servers[i].0 as nat) by {
        lemma_parse_decimal(servers[i].0 as nat, u32::MAX as nat);
    }
    law_servers_one_per_member(ms);
    assert(spec_servers_of(ms)->0 =~= servers);
}

// ---------------------------------------------------------------------------
// Answers list the servers joined by `, `.

/// A list of servers is written as their items joined by `, `: one server is
/// its item alone, and one more server adds `, ` and its item.
pub proof fn law_servers_text_joins_items(s: Seq<GameServerId>, g: GameServerId)
    ensures
        servers_text(seq![g]) == server_item(g),
        s.len() > 0 ==> servers_text(s.push(g)) == servers_text(s) + ", "@ + server_item(g),
        servers_text(Seq::empty()) == Seq::<char>::empty(),
{
    assert(s.push(g).drop_last() =~= s);
}

/// The answer for a player queuing for one server names that server once.
pub proof fn law_one_server_answer(g: GameServerId)
    ensures
        result_text(Ok(OutcomeView::Status(QueueStatusView::Queuing(seq![g]))))
            == "Ok("@ + ("Queuing(["@ + ("GameServerId("@ + decimal(g.0 as nat) + ")"@) + "])"@) + ")"@,
{
}

// ---------------------------------------------------------------------------
// A place in the queue lasts a minute.

/// Queueing at `now` writes the player's expiry as `now + 60`, saturating at
/// the largest time.
pub proof fn law_expiry_is_a_minute_later(player: SteamId, server: GameServerId, now: i64)
    ensures
        now <= i64::MAX - 60 ==> spec_expiry(now) == now + 60,
        now > i64::MAX - 60 ==> spec_expiry(now) == i64::MAX,
        now <= i64::MAX - 60 ==> spec_put_plan(player, server, now)[0]
            == CommandView::ZAdd(players_queuing(), player_text(player), (now + 60) as i64),
{
}

/// Once a player has been queued at `now`, a sweep round that starts at
/// `later` finds the player expired exactly when `later >= now + 60`.
pub proof fn law_queued_player_swept_a_minute_later(
    s: Store,
    player: SteamId,
    server: GameServerId,
    now: i64,
    later: i64,
)
    requires
        run(s, spec_put_plan(player, server, now)) is Some,
        now <= i64::MAX - 60,
    ensures
        scored_at_most(scores_at(run(s, spec_put_plan(player, server, now))->0, players_queuing()), later as int)
            .contains(player_text(player)) <==> later >= now + 60,
{
    law_queued_player_expires_after_a_minute(s, player, server, now, later);
}

// ---------------------------------------------------------------------------
// Reading a player's status, and the websocket protocol.

/// A player whose status key holds anything but `queuing`, or nothing, is
/// not queuing; one whose key holds `queuing` has the player's server set
/// read next.
pub proof fn law_status_reads_queuing_only(player: SteamId, t: Seq<char>)
    ensures
        t != "queuing"@ ==> status_resume(StatusQuery::AwaitStatus(player), Ok(ReplyView::Text(t))).1
            == finish_with(OutcomeView::Status(QueueStatusView::NotQueuing)),
        status_resume(StatusQuery::AwaitStatus(player), Ok(ReplyView::Nil)).1
            == finish_with(OutcomeView::Status(QueueStatusView::NotQueuing)),
        status_resume(StatusQuery::AwaitStatus(player), Ok(ReplyView::Text("queuing"@))).1
            == StepView::Send(CommandView::SMembers("player_queuing_for:"@ + decimal(player.0 as nat))),
{
}

/// The text `start_playing` starts playing; any other text asks for the
/// player's status; a close ends the connection, a ping is answered with a
/// pong, and binary data and pongs come back as they were.
pub proof fn law_ws_messages(payload: Seq<u8>)
    ensures
        spec_ws_action(Opcode::Text, seq![115u8, 116, 97, 114, 116, 95, 112, 108, 97, 121, 105, 110, 103])
            == WsAction::StartPlaying,
        valid_utf8(payload) && payload != seq![115u8, 116, 97, 114, 116, 95, 112, 108, 97, 121, 105, 110, 103]
            ==> spec_ws_action(Opcode::Text, payload) == WsAction::QueueStatus,
        !valid_utf8(payload) ==> spec_ws_action(Opcode::Text, payload) == WsAction::Ignore,
        spec_ws_action(Opcode::Close, payload) == WsAction::CloseConnection,
        spec_ws_action(Opcode::Ping, payload) == WsAction::Pong,
        spec_ws_action(Opcode::Binary, payload) == WsAction::Echo,
        spec_ws_action(Opcode::Pong, payload) == WsAction::Echo,
{
    reveal_strlit("start_playing");
    let b = seq![115u8, 116, 97, 114, 116, 95, 112, 108, 97, 121, 105, 110, 103];
    assert(start_playing_text() =~= b);
    assert(valid_utf8(b)) by {
        vstd::utf8::is_ascii_chars_encode_utf8("start_playing"@);
        vstd::utf8::encode_utf8_valid_utf8("start_playing"@);
        assert(vstd::utf8::encode_utf8("start_playing"@) =~= b);
    }
}

/// Answers as `{:?}` writes them: `Ok(())` after starting to play,
/// `Ok(NotQueuing)` for an idle player, and `Err(Redis(..))` around a
/// failure's text.
pub proof fn law_answer_texts(e: Seq<char>)
    ensures
        result_text(Ok(OutcomeView::Unit)) == "Ok("@ + "()"@ + ")"@,
        result_text(Ok(OutcomeView::Status(QueueStatusView::NotQueuing))) == "Ok("@ + "NotQueuing"@ + ")"@,
        result_text(Err(crate::backend::BackendErrorView::Redis(e))) == "Err(Redis("@ + e + "))"@,
{
}

} // verus!
