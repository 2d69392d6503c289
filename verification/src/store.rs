//! The redis commands that the service sends, the replies it reads, and a
//! model of what redis does with them.
//!
//! The service never talks to redis itself: an exchange hands out one
//! `Command` at a time and is resumed with what came back. The model below
//! states what redis documents of each command, so that what one exchange
//! writes can be related to what a later one reads.

use vstd::prelude::*;

verus! {

/// A redis command.
#[derive(Debug)]
pub enum Command {
    /// `GET key`
    Get(String),
    /// `DEL key`
    Del(String),
    /// `SET key value`
    SetValue(String, String),
    /// `SADD key member`
    SAdd(String, String),
    /// `SREM key member`
    SRem(String, String),
    /// `SMEMBERS key`
    SMembers(String),
    /// `ZADD key score member`
    ZAdd(String, String, i64),
    /// `ZREM key member`
    ZRem(String, String),
    /// `ZRANGEBYSCORE key -inf max`
    ZRangeByScore(String, i64),
}

pub enum CommandView {
    Get(Seq<char>),
    Del(Seq<char>),
    SetValue(Seq<char>, Seq<char>),
    SAdd(Seq<char>, Seq<char>),
    SRem(Seq<char>, Seq<char>),
    SMembers(Seq<char>),
    ZAdd(Seq<char>, Seq<char>, i64),
    ZRem(Seq<char>, Seq<char>),
    ZRangeByScore(Seq<char>, i64),
}

impl View for Command {
    type V = CommandView;

    open spec fn view(&self) -> CommandView {
        match self {
            Command::Get(k) => CommandView::Get(k@),
            Command::Del(k) => CommandView::Del(k@),
            Command::SetValue(k, v) => CommandView::SetValue(k@, v@),
            Command::SAdd(k, m) => CommandView::SAdd(k@, m@),
            Command::SRem(k, m) => CommandView::SRem(k@, m@),
            Command::SMembers(k) => CommandView::SMembers(k@),
            Command::ZAdd(k, m, s) => CommandView::ZAdd(k@, m@, *s),
            Command::ZRem(k, m) => CommandView::ZRem(k@, m@),
            Command::ZRangeByScore(k, s) => CommandView::ZRangeByScore(k@, *s),
        }
    }
}

impl Command {
    /// A copy of this command.
    pub fn duplicate(&self) -> (c: Command)
        ensures
            c@ == self@,
    {
        match self {
            Command::Get(k) => Command::Get(k.clone()),
            Command::Del(k) => Command::Del(k.clone()),
            Command::SetValue(k, v) => Command::SetValue(k.clone(), v.clone()),
            Command::SAdd(k, m) => Command::SAdd(k.clone(), m.clone()),
            Command::SRem(k, m) => Command::SRem(k.clone(), m.clone()),
            Command::SMembers(k) => Command::SMembers(k.clone()),
            Command::ZAdd(k, m, s) => Command::ZAdd(k.clone(), m.clone(), *s),
            Command::ZRem(k, m) => Command::ZRem(k.clone(), m.clone()),
            Command::ZRangeByScore(k, s) => Command::ZRangeByScore(k.clone(), *s),
        }
    }
}

/// A reply to a command, as the caller read it from redis.
#[derive(Debug)]
pub enum Reply {
    /// No value (a missing key).
    Nil,
    /// A text value.
    Text(String),
    /// The members that a set or a range holds, in the order they came.
    Members(Vec<String>),
    /// A count of what the command changed.
    Count(i64),
    /// `OK`.
    Done,
}

pub enum ReplyView {
    Nil,
    Text(Seq<char>),
    Members(Seq<Seq<char>>),
    Count(i64),
    Done,
}

pub open spec fn texts_view(v: Seq<String>) -> Seq<Seq<char>> {
    v.map_values(|s: String| s@)
}

impl View for Reply {
    type V = ReplyView;

    open spec fn view(&self) -> ReplyView {
        match self {
            Reply::Nil => ReplyView::Nil,
            Reply::Text(t) => ReplyView::Text(t@),
            Reply::Members(ms) => ReplyView::Members(texts_view(ms@)),
            Reply::Count(n) => ReplyView::Count(*n),
            Reply::Done => ReplyView::Done,
        }
    }
}

/// What came back for a command: a reply, or the text of the failure.
pub open spec fn answer_view(a: Result<Reply, String>) -> Result<ReplyView, Seq<char>> {
    match a {
        Ok(r) => Ok(r@),
        Err(e) => Err(e@),
    }
}

/// What a redis key holds.
pub enum Entry {
    Text(Seq<char>),
    Members(Set<Seq<char>>),
    Scores(Map<Seq<char>, int>),
}

/// The keys of a redis database and what each holds.
pub struct Store {
    pub entries: Map<Seq<char>, Entry>,
}

/// What redis answers to a command.
pub enum Answer {
    Nil,
    Text(Seq<char>),
    Members(Set<Seq<char>>),
    Count,
    Done,
    /// The key holds a value of another type: redis refuses the command.
    WrongType,
}

pub open spec fn set_entry(s: Store, k: Seq<char>, e: Entry) -> Store {
    Store { entries: s.entries.insert(k, e) }
}

pub open spec fn remove_entry(s: Store, k: Seq<char>) -> Store {
    Store { entries: s.entries.remove(k) }
}

/// The members of a sorted set whose score is at most `max`.
pub open spec fn scored_at_most(scores: Map<Seq<char>, int>, max: int) -> Set<Seq<char>> {
    Set::new(|m: Seq<char>| scores.contains_key(m) && scores[m] <= max)
}

/// What redis does with one command, as its documentation describes it: the
/// database afterwards and the answer. Removing the last member of a set or
/// a sorted set removes the key.
pub open spec fn apply(s: Store, c: CommandView) -> (Store, Answer) {
    match c {
        CommandView::Get(k) => if !s.entries.contains_key(k) {
            (s, Answer::Nil)
        } else {
            match s.entries[k] {
                Entry::Text(t) => (s, Answer::Text(t)),
                _ => (s, Answer::WrongType),
            }
        },
        CommandView::Del(k) => (remove_entry(s, k), Answer::Count),
        CommandView::SetValue(k, v) => (set_entry(s, k, Entry::Text(v)), Answer::Done),
        CommandView::SAdd(k, m) => if !s.entries.contains_key(k) {
            (set_entry(s, k, Entry::Members(set![m])), Answer::Count)
        } else {
            match s.entries[k] {
                Entry::Members(ms) => (set_entry(s, k, Entry::Members(ms.insert(m))), Answer::Count),
                _ => (s, Answer::WrongType),
            }
        },
        CommandView::SRem(k, m) => if !s.entries.contains_key(k) {
            (s, Answer::Count)
        } else {
            match s.entries[k] {
                Entry::Members(ms) => if ms.remove(m).is_empty() {
                    (remove_entry(s, k), Answer::Count)
                } else {
                    (set_entry(s, k, Entry::Members(ms.remove(m))), Answer::Count)
                },
                _ => (s, Answer::WrongType),
            }
        },
        CommandView::SMembers(k) => if !s.entries.contains_key(k) {
            (s, Answer::Members(Set::empty()))
        } else {
            match s.entries[k] {
                Entry::Members(ms) => (s, Answer::Members(ms)),
                _ => (s, Answer::WrongType),
            }
        },
        CommandView::ZAdd(k, m, score) => if !s.entries.contains_key(k) {
            (
                set_entry(s, k, Entry::Scores(Map::empty().insert(m, score as int))),
                Answer::Count,
            )
        } else {
            match s.entries[k] {
                Entry::Scores(sc) => (
                    set_entry(s, k, Entry::Scores(sc.insert(m, score as int))),
                    Answer::Count,
                ),
                _ => (s, Answer::WrongType),
            }
        },
        CommandView::ZRem(k, m) => if !s.entries.contains_key(k) {
            (s, Answer::Count)
        } else {
            match s.entries[k] {
                Entry::Scores(sc) => if sc.remove(m).dom().is_empty() {
                    (remove_entry(s, k), Answer::Count)
                } else {
                    (set_entry(s, k, Entry::Scores(sc.remove(m))), Answer::Count)
                },
                _ => (s, Answer::WrongType),
            }
        },
        CommandView::ZRangeByScore(k, max) => if !s.entries.contains_key(k) {
            (s, Answer::Members(Set::empty()))
        } else {
            match s.entries[k] {
                Entry::Scores(sc) => (s, Answer::Members(scored_at_most(sc, max as int))),
                _ => (s, Answer::WrongType),
            }
        },
    }
}

/// Runs commands one after another; `None` where redis refuses one.
pub open spec fn run(s: Store, cmds: Seq<CommandView>) -> Option<Store>
    decreases cmds.len(),
{
    if cmds.len() == 0 {
        Some(s)
    } else {
        let (s2, a) = apply(s, cmds[0]);
        if a is WrongType {
            None
        } else {
            run(s2, cmds.drop_first())
        }
    }
}

/// Running two lists of commands one after the other.
pub proof fn lemma_run_append(s: Store, a: Seq<CommandView>, b: Seq<CommandView>)
    ensures
        run(s, a + b) == (match run(s, a) {
            Some(s2) => run(s2, b),
            None => None,
        }),
    decreases a.len(),
{
    if a.len() == 0 {
        assert(a + b =~= b);
    } else {
        assert((a + b).drop_first() =~= a.drop_first() + b);
        assert((a + b)[0] == a[0]);
        let (s2, ans) = apply(s, a[0]);
        lemma_run_append(s2, a.drop_first(), b);
    }
}

/// The stores that four commands pass through, one after another.
pub open spec fn states4(s: Store, c: Seq<CommandView>) -> (Store, Store, Store, Store) {
    let s1 = apply(s, c[0]).0;
    let s2 = apply(s1, c[1]).0;
    let s3 = apply(s2, c[2]).0;
    let s4 = apply(s3, c[3]).0;
    (s1, s2, s3, s4)
}

/// Running four commands succeeds when redis takes each of them, and then
/// passes through `states4`.
pub proof fn lemma_run_four(s: Store, c: Seq<CommandView>)
    requires
        c.len() == 4,
    ensures
        run(s, c) is Some <==> (!(apply(s, c[0]).1 is WrongType)
            && !(apply(states4(s, c).0, c[1]).1 is WrongType)
            && !(apply(states4(s, c).1, c[2]).1 is WrongType)
            && !(apply(states4(s, c).2, c[3]).1 is WrongType)),
        run(s, c) is Some ==> run(s, c) == Some(states4(s, c).3),
{
    let (s1, s2, s3, s4) = states4(s, c);
    assert(c.drop_first() =~= seq![c[1], c[2], c[3]]);
    assert(c.drop_first().drop_first() =~= seq![c[2], c[3]]);
    assert(c.drop_first().drop_first().drop_first() =~= seq![c[3]]);
    assert(c.drop_first().drop_first().drop_first().drop_first() =~= Seq::<CommandView>::empty());
    reveal_with_fuel(run, 5);
}

/// A reply that lists the members of `set`, in some order.
pub open spec fn lists(listing: Seq<Seq<char>>, set: Set<Seq<char>>) -> bool {
    listing.to_set() == set
}

} // verus!
