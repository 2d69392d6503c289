//! The periodic sweep that drops players whose place in the queue expired.
//!
//! Every round reads the players whose expiry is not later than the round's
//! start, takes each of them out of the queue, and then waits out the rest
//! of thirty seconds.

use vstd::prelude::*;
use crate::backend::{
    commands_view, fresh_plan, leave_commands, not_numeric, plan_next, plan_resume,
    redis_failure, spec_leave_plan, incompatible, BackendError, Plan, PlanView, Step, StepView,
};
use crate::decimal::parse_unsigned;
use crate::ids::SteamId;
use crate::keys::{players_queuing, players_queuing_key};
use crate::store::{answer_view, texts_view, Command, CommandView, Reply, ReplyView};
use crate::backend::parse_members;

verus! {

/// The length of one round of the sweep, in seconds.
pub open spec fn round_seconds() -> int {
    30
}

/// How long to sleep after a round that started at `start` and ended at
/// `end` (seconds): what is left of the round, never less than nothing.
pub open spec fn spec_wait_time(start: i64, end: i64) -> int {
    let w = round_seconds() - (end - start);
    if w < 0 {
        0
    } else if w > u64::MAX {
        u64::MAX as int
    } else {
        w
    }
}

pub fn wait_time(start: i64, end: i64) -> (w: u64)
    ensures
        w == spec_wait_time(start, end),
{
    let w: i128 = 30i128 - (end as i128 - start as i128);
    if w < 0 {
        0
    } else if w > u64::MAX as i128 {
        u64::MAX
    } else {
        w as u64
    }
}

/// The commands that take each of `players` out of the queue, in order.
pub open spec fn spec_leave_all(players: Seq<SteamId>) -> Seq<CommandView>
    decreases players.len(),
{
    if players.len() == 0 {
        Seq::empty()
    } else {
        spec_leave_all(players.drop_last()) + spec_leave_plan(players.last())
    }
}

/// The players that the members of `players_queuing` name, when each is the
/// text of an account number.
pub open spec fn spec_players_of(ms: Seq<Seq<char>>) -> Option<Seq<SteamId>> {
    if forall|i: int| 0 <= i < ms.len() ==> (#[trigger] parse_unsigned(ms[i], u64::MAX as nat)) is Some {
        Some(Seq::new(ms.len(), |i: int| SteamId(parse_unsigned(ms[i], u64::MAX as nat)->0 as u64)))
    } else {
        None
    }
}

/// One round of the sweep.
pub enum Sweep {
    /// Nothing sent yet; holds the round's start time.
    Ask(i64),
    /// Waiting for the expired players.
    AwaitExpired,
    /// Taking the expired players out of the queue.
    Leaving(Plan),
    Over,
}

pub enum SweepView {
    Ask(i64),
    AwaitExpired,
    Leaving(PlanView),
    Over,
}

impl View for Sweep {
    type V = SweepView;

    open spec fn view(&self) -> SweepView {
        match self {
            Sweep::Ask(t) => SweepView::Ask(*t),
            Sweep::AwaitExpired => SweepView::AwaitExpired,
            Sweep::Leaving(p) => SweepView::Leaving(p@),
            Sweep::Over => SweepView::Over,
        }
    }
}

pub open spec fn leaving_all(players: Seq<SteamId>) -> (SweepView, StepView) {
    let (p, st) = plan_next(fresh_plan(spec_leave_all(players)));
    (SweepView::Leaving(p), st)
}

pub open spec fn sweep_start(m: SweepView) -> (SweepView, StepView)
    recommends
        m is Ask,
{
    match m {
        SweepView::Ask(now) => (SweepView::AwaitExpired, StepView::Send(CommandView::ZRangeByScore(players_queuing(), now))),
        _ => (m, redis_failure(Seq::empty())),
    }
}

pub open spec fn sweep_resume(m: SweepView, answer: Result<ReplyView, Seq<char>>) -> (SweepView, StepView) {
    match m {
        SweepView::Leaving(p) => {
            let (p2, st) = plan_resume(p, answer);
            (SweepView::Leaving(p2), st)
        },
        SweepView::AwaitExpired => match answer {
            Err(e) => (SweepView::Over, redis_failure(e)),
            Ok(ReplyView::Members(ms)) => match spec_players_of(ms) {
                Some(players) => leaving_all(players),
                None => (SweepView::Over, redis_failure(not_numeric())),
            },
            Ok(ReplyView::Nil) => leaving_all(Seq::empty()),
            Ok(_) => (SweepView::Over, redis_failure(incompatible())),
        },
        _ => (m, redis_failure(Seq::empty())),
    }
}

fn leave_all(players: &Vec<u64>) -> (v: Vec<Command>)
    ensures
        commands_view(v@) == spec_leave_all(Seq::new(players@.len(), |i: int| SteamId(players@[i]))),
{
    let mut v: Vec<Command> = Vec::new();
    let mut i: usize = 0;
    while i < players.len()
        invariant
            i <= players@.len(),
            commands_view(v@) == spec_leave_all(Seq::new(i as nat, |j: int| SteamId(players@[j]))),
        decreases players@.len() - i,
    {
        let mut more = leave_commands(SteamId(players[i]));
        let ghost before = v@;
        v.append(&mut more);
        proof {
            let ids = Seq::new((i + 1) as nat, |j: int| SteamId(players@[j]));
            assert(ids.drop_last() =~= Seq::new(i as nat, |j: int| SteamId(players@[j])));
            assert(commands_view(v@) =~= commands_view(before) + spec_leave_plan(SteamId(players@[i as int])));
        }
        i = i + 1;
    }
    v
}

impl Sweep {
    /// A round that started at `now`.
    pub fn new(now: i64) -> (m: Sweep)
        ensures
            m@ == SweepView::Ask(now),
    {
        Sweep::Ask(now)
    }

    pub fn start(self) -> (r: (Sweep, Step))
        requires
            self is Ask,
        ensures
            (r.0@, r.1@) == sweep_start(self@),
    {
        match self {
            Sweep::Ask(now) => (Sweep::AwaitExpired, Step::Send(Command::ZRangeByScore(players_queuing_key(), now))),
            _ => (self, Step::Finish(Err(BackendError::Redis(String::new())))),
        }
    }

    pub fn resume(self, answer: Result<Reply, String>) -> (r: (Sweep, Step))
        requires
            self is AwaitExpired || self is Leaving,
        ensures
            (r.0@, r.1@) == sweep_resume(self@, answer_view(answer)),
    {
        match self {
            Sweep::Leaving(p) => {
                let (p2, st) = p.resume(answer);
                (Sweep::Leaving(p2), st)
            },
            Sweep::AwaitExpired => match answer {
                Err(e) => (Sweep::Over, Step::Finish(Err(BackendError::Redis(e)))),
                Ok(Reply::Members(ms)) => match parse_members(&ms, u64::MAX) {
                    Some(ids) => {
                        let cmds = leave_all(&ids);
                        proof {
                            let ts = texts_view(ms@);
                            assert forall|j: int| 0 <= j < ts.len() implies (#[trigger] parse_unsigned(ts[j], u64::MAX as nat)) is Some by {
                                assert(ts[j] == ms@[j]@);
                            }
                            let players = Seq::new(ts.len(), |j: int| SteamId(parse_unsigned(ts[j], u64::MAX as nat)->0 as u64));
                            assert forall|j: int| 0 <= j < ts.len() implies players[j] == SteamId(ids@[j]) by {
                                assert(ts[j] == ms@[j]@);
                            }
                            assert(players =~= Seq::new(ids@.len(), |j: int| SteamId(ids@[j])));
                        }
                        let (p, st) = Plan::new(cmds).start();
                        (Sweep::Leaving(p), st)
                    },
                    None => {
                        proof {
                            let ts = texts_view(ms@);
                            let k = choose|i: int| 0 <= i < ms@.len() && !(parse_unsigned(ms@[i]@, u64::MAX as nat) is Some);
                            assert(ts[k] == ms@[k]@);
                        }
                        (Sweep::Over, Step::Finish(Err(BackendError::Redis("Not numeric".to_owned()))))
                    },
                },
                Ok(Reply::Nil) => {
                    let v: Vec<Command> = Vec::new();
                    let (p, st) = Plan::new(v).start();
                    proof {
                        assert(commands_view(v@) =~= spec_leave_all(Seq::empty()));
                    }
                    (Sweep::Leaving(p), st)
                },
                Ok(_) => (Sweep::Over, Step::Finish(Err(BackendError::Redis("Response was of incompatible type".to_owned())))),
            },
            _ => (self, Step::Finish(Err(BackendError::Redis(String::new())))),
        }
    }
}

} // verus!
