//! The backend's operations on the queue and on login sessions.
//!
//! Each operation is an exchange with redis: it hands out a command, is
//! resumed with what redis answered, and either hands out the next command
//! or finishes with the operation's result. Whoever holds the connection
//! sends the commands; every decision is made here.

use vstd::prelude::*;
use crate::decimal::{parse_decimal, parse_unsigned};
use crate::ids::{GameServerId, QueueStatus, QueueStatusView, SteamId};
use crate::keys::{
    bare_server_queuers_key, player_member, player_text, players_queuing, players_queuing_key,
    queuing_for_key, queuing_text, queuing_value, server_member, server_queuers_bare,
    server_queuers_key, server_text, session_key, spec_queuing_for_key, spec_server_queuers_key,
    spec_session_key, spec_status_key, status_key,
};
use crate::store::{answer_view, texts_view, Command, CommandView, Reply, ReplyView};

verus! {

/// Why a backend operation failed.
#[derive(Debug)]
pub enum BackendError {
    /// Redis refused a command, or answered with something unreadable.
    Redis(String),
    /// The database refused a query.
    Postgres(String),
}

pub enum BackendErrorView {
    Redis(Seq<char>),
    Postgres(Seq<char>),
}

impl View for BackendError {
    type V = BackendErrorView;

    open spec fn view(&self) -> BackendErrorView {
        match self {
            BackendError::Redis(e) => BackendErrorView::Redis(e@),
            BackendError::Postgres(e) => BackendErrorView::Postgres(e@),
        }
    }
}

/// What a finished operation gives back.
#[derive(Debug)]
pub enum Outcome {
    /// The operation has nothing to give back.
    Unit,
    /// The account that a login session named, if any.
    Account(Option<SteamId>),
    /// A player's place in the queue.
    Status(QueueStatus),
}

pub enum OutcomeView {
    Unit,
    Account(Option<SteamId>),
    Status(QueueStatusView),
}

impl View for Outcome {
    type V = OutcomeView;

    open spec fn view(&self) -> OutcomeView {
        match self {
            Outcome::Unit => OutcomeView::Unit,
            Outcome::Account(a) => OutcomeView::Account(*a),
            Outcome::Status(s) => OutcomeView::Status(s@),
        }
    }
}

/// What an exchange asks for next.
#[derive(Debug)]
pub enum Step {
    /// Send this command and resume with what came back.
    Send(Command),
    /// The operation is over, with this result.
    Finish(Result<Outcome, BackendError>),
}

pub enum StepView {
    Send(CommandView),
    Finish(Result<OutcomeView, BackendErrorView>),
}

impl View for Step {
    type V = StepView;

    open spec fn view(&self) -> StepView {
        match self {
            Step::Send(c) => StepView::Send(c@),
            Step::Finish(Ok(o)) => StepView::Finish(Ok(o@)),
            Step::Finish(Err(e)) => StepView::Finish(Err(e@)),
        }
    }
}

pub open spec fn not_numeric() -> Seq<char> {
    "Not numeric"@
}

pub open spec fn incompatible() -> Seq<char> {
    "Response was of incompatible type"@
}

pub open spec fn redis_failure(e: Seq<char>) -> StepView {
    StepView::Finish(Err(BackendErrorView::Redis(e)))
}

pub open spec fn finish_with(o: OutcomeView) -> StepView {
    StepView::Finish(Ok(o))
}

fn not_numeric_error() -> (e: BackendError)
    ensures
        e@ == BackendErrorView::Redis(not_numeric()),
{
    BackendError::Redis("Not numeric".to_owned())
}

fn incompatible_error() -> (e: BackendError)
    ensures
        e@ == BackendErrorView::Redis(incompatible()),
{
    BackendError::Redis("Response was of incompatible type".to_owned())
}

// ---------------------------------------------------------------------------
// Plans: commands sent one after another, stopping at the first failure.

/// A list of commands to send in order. The operation fails with the first
/// command that fails, and succeeds once all have been answered.
pub struct Plan {
    commands: Vec<Command>,
    sent: usize,
    over: bool,
}

pub struct PlanView {
    pub commands: Seq<CommandView>,
    pub sent: nat,
    pub over: bool,
}

pub open spec fn commands_view(v: Seq<Command>) -> Seq<CommandView> {
    v.map_values(|c: Command| c@)
}

impl View for Plan {
    type V = PlanView;

    closed spec fn view(&self) -> PlanView {
        PlanView { commands: commands_view(self.commands@), sent: self.sent as nat, over: self.over }
    }
}

/// A plan that has sent nothing yet.
pub open spec fn fresh_plan(commands: Seq<CommandView>) -> PlanView {
    PlanView { commands, sent: 0, over: false }
}

/// Sends the next command, or finishes once all were sent and answered.
pub open spec fn plan_next(p: PlanView) -> (PlanView, StepView) {
    if p.sent < p.commands.len() {
        (PlanView { sent: p.sent + 1, ..p }, StepView::Send(p.commands[p.sent as int]))
    } else {
        (PlanView { over: true, ..p }, finish_with(OutcomeView::Unit))
    }
}

pub open spec fn plan_resume(p: PlanView, answer: Result<ReplyView, Seq<char>>) -> (PlanView, StepView) {
    match answer {
        Err(e) => (PlanView { over: true, ..p }, redis_failure(e)),
        Ok(_) => plan_next(p),
    }
}

impl Plan {
    #[verifier::type_invariant]
    spec fn inv(self) -> bool {
        self.sent <= self.commands.len()
    }

    /// A plan that sends these commands.
    pub fn new(commands: Vec<Command>) -> (p: Plan)
        ensures
            p@ == fresh_plan(commands_view(commands@)),
    {
        Plan { commands, sent: 0, over: false }
    }

    pub fn is_over(&self) -> (r: bool)
        ensures
            r == self@.over,
    {
        self.over
    }

    fn next(self) -> (r: (Plan, Step))
        ensures
            (r.0@, r.1@) == plan_next(self@),
    {
        proof {
            use_type_invariant(&self);
        }
        let mut p = self;
        if p.sent < p.commands.len() {
            let c = p.commands[p.sent].duplicate();
            p.sent = p.sent + 1;
            (p, Step::Send(c))
        } else {
            p.over = true;
            (p, Step::Finish(Ok(Outcome::Unit)))
        }
    }

    /// The first step of the plan.
    pub fn start(self) -> (r: (Plan, Step))
        ensures
            (r.0@, r.1@) == plan_next(self@),
    {
        self.next()
    }

    /// The step after the last command was answered.
    pub fn resume(self, answer: Result<Reply, String>) -> (r: (Plan, Step))
        ensures
            (r.0@, r.1@) == plan_resume(self@, answer_view(answer)),
    {
        match answer {
            Err(e) => {
                proof {
                    use_type_invariant(&self);
                }
                let mut p = self;
                p.over = true;
                (p, Step::Finish(Err(BackendError::Redis(e))))
            },
            Ok(_) => self.next(),
        }
    }
}

// ---------------------------------------------------------------------------
// Queueing.

/// The score under which a player's place in the queue expires: a minute
/// from `now`, in seconds, saturating at the largest score.
pub open spec fn spec_expiry(now: i64) -> i64 {
    if now > i64::MAX - 60 {
        i64::MAX
    } else {
        (now + 60) as i64
    }
}

pub fn expiry(now: i64) -> (t: i64)
    ensures
        t == spec_expiry(now),
{
    if now > i64::MAX - 60 {
        i64::MAX
    } else {
        now + 60
    }
}

/// What queueing a player for a server writes: the player's expiry in
/// `players_queuing`, the server in the player's set, the player's status,
/// and the player in the server's set.
pub open spec fn spec_put_plan(player: SteamId, server: GameServerId, now: i64) -> Seq<CommandView> {
    seq![
        CommandView::ZAdd(players_queuing(), player_text(player), spec_expiry(now)),
        CommandView::SAdd(spec_queuing_for_key(player), server_text(server)),
        CommandView::SetValue(spec_status_key(player), queuing_text()),
        CommandView::SAdd(spec_server_queuers_key(server), player_text(player)),
    ]
}

/// What leaving the queue removes: the player from `players_queuing`, the
/// player's status and server set, and the player from the bare
/// `server_queuers` key (not from the per-server sets).
pub open spec fn spec_leave_plan(player: SteamId) -> Seq<CommandView> {
    seq![
        CommandView::ZRem(players_queuing(), player_text(player)),
        CommandView::Del(spec_status_key(player)),
        CommandView::Del(spec_queuing_for_key(player)),
        CommandView::SRem(server_queuers_bare(), player_text(player)),
    ]
}

/// Queues `player` for `server`, with `now` the current time in seconds.
pub fn put_player_in_queue(player: SteamId, server: GameServerId, now: i64) -> (p: Plan)
    ensures
        p@ == fresh_plan(spec_put_plan(player, server, now)),
{
    let mut v: Vec<Command> = Vec::new();
    v.push(Command::ZAdd(players_queuing_key(), player_member(player), expiry(now)));
    v.push(Command::SAdd(queuing_for_key(player), server_member(server)));
    v.push(Command::SetValue(status_key(player), queuing_value()));
    v.push(Command::SAdd(server_queuers_key(server), player_member(player)));
    let p = Plan::new(v);
    assert(commands_view(v@) =~= spec_put_plan(player, server, now));
    p
}

/// Takes `player` out of the queue.
pub fn leave_queue(player: SteamId) -> (p: Plan)
    ensures
        p@ == fresh_plan(spec_leave_plan(player)),
{
    let v = leave_commands(player);
    Plan::new(v)
}

pub(crate) fn leave_commands(player: SteamId) -> (v: Vec<Command>)
    ensures
        commands_view(v@) == spec_leave_plan(player),
{
    let mut v: Vec<Command> = Vec::new();
    v.push(Command::ZRem(players_queuing_key(), player_member(player)));
    v.push(Command::Del(status_key(player)));
    v.push(Command::Del(queuing_for_key(player)));
    v.push(Command::SRem(bare_server_queuers_key(), player_member(player)));
    assert(commands_view(v@) =~= spec_leave_plan(player));
    v
}

/// The servers a player would rather play on, best first.
pub open spec fn spec_preferred_servers(player: SteamId) -> Seq<GameServerId> {
    seq![GameServerId(42)]
}

pub fn get_player_preferred_servers(player: SteamId) -> (servers: Vec<GameServerId>)
    ensures
        servers@ == spec_preferred_servers(player),
        servers@.len() > 0,
{
    let mut v: Vec<GameServerId> = Vec::new();
    v.push(GameServerId(42));
    assert(v@ =~= spec_preferred_servers(player));
    v
}

/// Starts looking for a game: queues the player for their favourite server.
pub fn start_playing(player: SteamId, now: i64) -> (p: Plan)
    ensures
        p@ == fresh_plan(spec_put_plan(player, spec_preferred_servers(player)[0], now)),
{
    let servers = get_player_preferred_servers(player);
    put_player_in_queue(player, servers[0], now)
}

// ---------------------------------------------------------------------------
// Login sessions.

/// Checking a login session: read the account it names, then delete it, so
/// that each session logs in once.
pub enum SessionAuth {
    /// Nothing sent yet; holds the session's key.
    Lookup(String),
    /// Waiting for the value under the key.
    AwaitLookup(String),
    /// Waiting for the key's deletion; holds the account that was found.
    AwaitConsume(Option<SteamId>),
    Over,
}

pub enum SessionAuthView {
    Lookup(Seq<char>),
    AwaitLookup(Seq<char>),
    AwaitConsume(Option<SteamId>),
    Over,
}

impl View for SessionAuth {
    type V = SessionAuthView;

    open spec fn view(&self) -> SessionAuthView {
        match self {
            SessionAuth::Lookup(k) => SessionAuthView::Lookup(k@),
            SessionAuth::AwaitLookup(k) => SessionAuthView::AwaitLookup(k@),
            SessionAuth::AwaitConsume(a) => SessionAuthView::AwaitConsume(*a),
            SessionAuth::Over => SessionAuthView::Over,
        }
    }
}

/// The account that a `GET` reply names, read as the account type reads it
/// from redis: nothing for a missing key, the number for a numeric text or
/// an integer, a failure otherwise.
pub open spec fn spec_account_of(r: ReplyView) -> Result<Option<SteamId>, Seq<char>> {
    match r {
        ReplyView::Nil => Ok(None),
        ReplyView::Text(t) => match parse_unsigned(t, u64::MAX as nat) {
            Some(v) => Ok(Some(SteamId(v as u64))),
            None => Err(not_numeric()),
        },
        ReplyView::Count(n) => Ok(Some(SteamId(n as u64))),
        _ => Err(not_numeric()),
    }
}

pub open spec fn auth_start(m: SessionAuthView) -> (SessionAuthView, StepView)
    recommends
        m is Lookup,
{
    match m {
        SessionAuthView::Lookup(k) => (SessionAuthView::AwaitLookup(k), StepView::Send(CommandView::Get(k))),
        _ => (m, StepView::Finish(Ok(OutcomeView::Unit))),
    }
}

pub open spec fn auth_resume(m: SessionAuthView, answer: Result<ReplyView, Seq<char>>) -> (
    SessionAuthView,
    StepView,
) {
    match answer {
        Err(e) => (SessionAuthView::Over, redis_failure(e)),
        Ok(r) => match m {
            SessionAuthView::AwaitLookup(k) => match spec_account_of(r) {
                Ok(found) => (SessionAuthView::AwaitConsume(found), StepView::Send(CommandView::Del(k))),
                Err(e) => (SessionAuthView::Over, redis_failure(e)),
            },
            SessionAuthView::AwaitConsume(found) => (
                SessionAuthView::Over,
                finish_with(OutcomeView::Account(found)),
            ),
            _ => (m, StepView::Finish(Ok(OutcomeView::Unit))),
        },
    }
}

fn account_of(r: &Reply) -> (a: Result<Option<SteamId>, BackendError>)
    ensures
        match spec_account_of(r@) {
            Ok(found) => a == Ok::<Option<SteamId>, BackendError>(found),
            Err(e) => a is Err && a->Err_0@ == BackendErrorView::Redis(e),
        },
{
    match r {
        Reply::Nil => Ok(None),
        Reply::Text(t) => match parse_decimal(t.as_str(), u64::MAX) {
            Some(v) => Ok(Some(SteamId(v))),
            None => Err(not_numeric_error()),
        },
        Reply::Count(n) => Ok(Some(SteamId(*n as u64))),
        _ => Err(not_numeric_error()),
    }
}

impl SessionAuth {
    /// Checks the login session `session`.
    pub fn auth_request(session: &str) -> (m: SessionAuth)
        ensures
            m@ == SessionAuthView::Lookup(spec_session_key(session@)),
    {
        SessionAuth::Lookup(session_key(session))
    }

    pub fn start(self) -> (r: (SessionAuth, Step))
        requires
            self is Lookup,
        ensures
            (r.0@, r.1@) == auth_start(self@),
    {
        match self {
            SessionAuth::Lookup(k) => {
                let c = Command::Get(k.clone());
                (SessionAuth::AwaitLookup(k), Step::Send(c))
            },
            _ => (self, Step::Finish(Ok(Outcome::Unit))),
        }
    }

    pub fn resume(self, answer: Result<Reply, String>) -> (r: (SessionAuth, Step))
        requires
            self is AwaitLookup || self is AwaitConsume,
        ensures
            (r.0@, r.1@) == auth_resume(self@, answer_view(answer)),
    {
        match answer {
            Err(e) => (SessionAuth::Over, Step::Finish(Err(BackendError::Redis(e)))),
            Ok(r) => match self {
                SessionAuth::AwaitLookup(k) => match account_of(&r) {
                    Ok(found) => (SessionAuth::AwaitConsume(found), Step::Send(Command::Del(k))),
                    Err(e) => (SessionAuth::Over, Step::Finish(Err(e))),
                },
                SessionAuth::AwaitConsume(found) => (
                    SessionAuth::Over,
                    Step::Finish(Ok(Outcome::Account(found))),
                ),
                _ => (self, Step::Finish(Ok(Outcome::Unit))),
            },
        }
    }
}

// ---------------------------------------------------------------------------
// A player's place in the queue.

/// Reading a player's place in the queue: the status key, then, while the
/// player queues, the set of servers.
pub enum StatusQuery {
    Ask(SteamId),
    AwaitStatus(SteamId),
    AwaitServers,
    Over,
}

/// The servers that set members name, when every member is the text of a
/// server number.
pub open spec fn spec_servers_of(ms: Seq<Seq<char>>) -> Option<Seq<GameServerId>> {
    if forall|i: int| 0 <= i < ms.len() ==> (#[trigger] parse_unsigned(ms[i], u32::MAX as nat)) is Some {
        Some(Seq::new(ms.len(), |i: int| GameServerId(parse_unsigned(ms[i], u32::MAX as nat)->0 as u32)))
    } else {
        None
    }
}

pub open spec fn status_start(m: StatusQuery) -> (StatusQuery, StepView)
    recommends
        m is Ask,
{
    match m {
        StatusQuery::Ask(p) => (StatusQuery::AwaitStatus(p), StepView::Send(CommandView::Get(spec_status_key(p)))),
        _ => (m, StepView::Finish(Ok(OutcomeView::Unit))),
    }
}

pub open spec fn status_resume(m: StatusQuery, answer: Result<ReplyView, Seq<char>>) -> (StatusQuery, StepView) {
    match answer {
        Err(e) => (StatusQuery::Over, redis_failure(e)),
        Ok(r) => match m {
            StatusQuery::AwaitStatus(p) => match r {
                ReplyView::Text(t) => if t == queuing_text() {
                    (StatusQuery::AwaitServers, StepView::Send(CommandView::SMembers(spec_queuing_for_key(p))))
                } else {
                    (StatusQuery::Over, finish_with(OutcomeView::Status(QueueStatusView::NotQueuing)))
                },
                ReplyView::Members(_) => (StatusQuery::Over, redis_failure(incompatible())),
                _ => (StatusQuery::Over, finish_with(OutcomeView::Status(QueueStatusView::NotQueuing))),
            },
            StatusQuery::AwaitServers => match r {
                ReplyView::Members(ms) => match spec_servers_of(ms) {
                    Some(servers) => (StatusQuery::Over, finish_with(OutcomeView::Status(QueueStatusView::Queuing(servers)))),
                    None => (StatusQuery::Over, redis_failure(not_numeric())),
                },
                ReplyView::Nil => (StatusQuery::Over, finish_with(OutcomeView::Status(QueueStatusView::Queuing(Seq::empty())))),
                _ => (StatusQuery::Over, redis_failure(incompatible())),
            },
            _ => (m, StepView::Finish(Ok(OutcomeView::Unit))),
        },
    }
}

/// Reads each member as a number no greater than `max`; `None` if one is not.
pub fn parse_members(ms: &Vec<String>, max: u64) -> (r: Option<Vec<u64>>)
    ensures
        r is Some <==> (forall|i: int| 0 <= i < ms@.len() ==> (#[trigger] parse_unsigned(ms@[i]@, max as nat)) is Some),
        r is Some ==> r->0@.len() == ms@.len() && (forall|i: int| 0 <= i < ms@.len() ==> r->0@[i] as nat == (#[trigger] parse_unsigned(ms@[i]@, max as nat))->0),
{
    let mut out: Vec<u64> = Vec::new();
    let mut i: usize = 0;
    while i < ms.len()
        invariant
            i <= ms@.len(),
            out@.len() == i,
            forall|j: int| 0 <= j < i ==> (#[trigger] parse_unsigned(ms@[j]@, max as nat)) is Some,
            forall|j: int| 0 <= j < i ==> out@[j] as nat == (#[trigger] parse_unsigned(ms@[j]@, max as nat))->0,
        decreases ms@.len() - i,
    {
        match parse_decimal(ms[i].as_str(), max) {
            Some(v) => {
                out.push(v);
            },
            None => {
                return None;
            },
        }
        i = i + 1;
    }
    Some(out)
}

fn servers_of(ms: &Vec<String>) -> (r: Option<Vec<GameServerId>>)
    ensures
        match spec_servers_of(texts_view(ms@)) {
            Some(servers) => r is Some && r->0@ == servers,
            None => r is None,
        },
{
    let parsed = parse_members(ms, 4294967295u64);
    match parsed {
        None => {
            proof {
                let ts = texts_view(ms@);
                assert(!(forall|i: int| 0 <= i < ts.len() ==> (#[trigger] parse_unsigned(ts[i], u32::MAX as nat)) is Some)) by {
                    let k = choose|i: int| 0 <= i < ms@.len() && !(parse_unsigned(ms@[i]@, 4294967295nat) is Some);
                    assert(ts[k] == ms@[k]@);
                }
            }
            None
        },
        Some(vals) => {
            let mut out: Vec<GameServerId> = Vec::new();
            let mut i: usize = 0;
            while i < vals.len()
                invariant
                    i <= vals@.len(),
                    vals@.len() == ms@.len(),
                    out@.len() == i,
                    forall|j: int| 0 <= j < ms@.len() ==> vals@[j] as nat == (#[trigger] parse_unsigned(ms@[j]@, 4294967295nat))->0,
                    forall|j: int| 0 <= j < ms@.len() ==> (#[trigger] parse_unsigned(ms@[j]@, 4294967295nat)) is Some,
                    forall|j: int| 0 <= j < i ==> (#[trigger] out@[j]).0 as nat == parse_unsigned(ms@[j]@, 4294967295nat)->0,
                decreases vals@.len() - i,
            {
                proof {
                    let v = parse_unsigned(ms@[i as int]@, 4294967295nat);
                    assert(v is Some);
                }
                out.push(GameServerId(vals[i] as u32));
                i = i + 1;
            }
            proof {
                let ts = texts_view(ms@);
                assert forall|j: int| 0 <= j < ts.len() implies (#[trigger] parse_unsigned(ts[j], u32::MAX as nat)) is Some by {
                    assert(ts[j] == ms@[j]@);
                }
                let servers = Seq::new(ts.len(), |j: int| GameServerId(parse_unsigned(ts[j], u32::MAX as nat)->0 as u32));
                assert forall|j: int| 0 <= j < ts.len() implies out@[j] == servers[j] by {
                    assert(ts[j] == ms@[j]@);
                }
                assert(out@ =~= servers);
            }
            Some(out)
        },
    }
}

impl StatusQuery {
    /// Reads the place of `player` in the queue.
    pub fn get_queue_status(player: SteamId) -> (m: StatusQuery)
        ensures
            m == StatusQuery::Ask(player),
    {
        StatusQuery::Ask(player)
    }

    pub fn start(self) -> (r: (StatusQuery, Step))
        requires
            self is Ask,
        ensures
            (r.0, r.1@) == status_start(self),
    {
        match self {
            StatusQuery::Ask(p) => (StatusQuery::AwaitStatus(p), Step::Send(Command::Get(status_key(p)))),
            _ => (self, Step::Finish(Ok(Outcome::Unit))),
        }
    }

    pub fn resume(self, answer: Result<Reply, String>) -> (r: (StatusQuery, Step))
        requires
            self is AwaitStatus || self is AwaitServers,
        ensures
            (r.0, r.1@) == status_resume(self, answer_view(answer)),
    {
        match answer {
            Err(e) => (StatusQuery::Over, Step::Finish(Err(BackendError::Redis(e)))),
            Ok(r) => match self {
                StatusQuery::AwaitStatus(p) => match r {
                    Reply::Text(t) => {
                        let q = queuing_value();
                        if t.eq(&q) {
                            (StatusQuery::AwaitServers, Step::Send(Command::SMembers(queuing_for_key(p))))
                        } else {
                            (StatusQuery::Over, Step::Finish(Ok(Outcome::Status(QueueStatus::NotQueuing))))
                        }
                    },
                    Reply::Members(_) => (StatusQuery::Over, Step::Finish(Err(incompatible_error()))),
                    _ => (StatusQuery::Over, Step::Finish(Ok(Outcome::Status(QueueStatus::NotQueuing)))),
                },
                StatusQuery::AwaitServers => match r {
                    Reply::Members(ms) => match servers_of(&ms) {
                        Some(servers) => (StatusQuery::Over, Step::Finish(Ok(Outcome::Status(QueueStatus::Queuing(servers))))),
                        None => (StatusQuery::Over, Step::Finish(Err(not_numeric_error()))),
                    },
                    Reply::Nil => {
                        let v: Vec<GameServerId> = Vec::new();
                        (StatusQuery::Over, Step::Finish(Ok(Outcome::Status(QueueStatus::Queuing(v)))))
                    },
                    _ => (StatusQuery::Over, Step::Finish(Err(incompatible_error()))),
                },
                _ => (self, Step::Finish(Ok(Outcome::Unit))),
            },
        }
    }
}

// ---------------------------------------------------------------------------
// Settings.

/// Where the backend finds its services.
#[derive(Debug)]
pub struct BackendSettings {
    pub steam_apikey: String,
    pub redis_url: String,
    pub postgres_url: String,
}

pub open spec fn steam_apikey_variable() -> Seq<char> {
    "STEAM_APIKEY"@
}

pub open spec fn redis_url_variable() -> Seq<char> {
    "REDIS_URL"@
}

pub open spec fn postgres_url_variable() -> Seq<char> {
    "POSTGRES_URL"@
}

/// The environment variables that hold the settings, in the order they are
/// read.
pub fn required_variables() -> (names: Vec<String>)
    ensures
        texts_view(names@) == seq![steam_apikey_variable(), redis_url_variable(), postgres_url_variable()],
{
    let mut v: Vec<String> = Vec::new();
    v.push("STEAM_APIKEY".to_owned());
    v.push("REDIS_URL".to_owned());
    v.push("POSTGRES_URL".to_owned());
    assert(texts_view(v@) =~= seq![steam_apikey_variable(), redis_url_variable(), postgres_url_variable()]);
    v
}

/// The settings, from the values of the three variables; where one is not
/// set, the name of the first one read that is not.
pub fn create_backend(steam_apikey: Option<String>, redis_url: Option<String>, postgres_url: Option<String>) -> (r: Result<BackendSettings, String>)
    ensures
        r is Ok <==> (steam_apikey is Some && redis_url is Some && postgres_url is Some),
        r is Ok ==> r->Ok_0.steam_apikey@ == steam_apikey->0@ && r->Ok_0.redis_url@ == redis_url->0@
            && r->Ok_0.postgres_url@ == postgres_url->0@,
        steam_apikey is None ==> r is Err && r->Err_0@ == steam_apikey_variable(),
        steam_apikey is Some && redis_url is None ==> r is Err && r->Err_0@ == redis_url_variable(),
        steam_apikey is Some && redis_url is Some && postgres_url is None ==> r is Err && r->Err_0@
            == postgres_url_variable(),
{
    match steam_apikey {
        None => Err("STEAM_APIKEY".to_owned()),
        Some(key) => match redis_url {
            None => Err("REDIS_URL".to_owned()),
            Some(redis) => match postgres_url {
                None => Err("POSTGRES_URL".to_owned()),
                Some(postgres) => Ok(BackendSettings { steam_apikey: key, redis_url: redis, postgres_url: postgres }),
            },
        },
    }
}

/// What is said when a setting's variable is not set.
pub fn missing_variable_message(name: &str) -> (m: String)
    ensures
        m@ == "Environment variable "@ + name@ + " not set."@,
{
    "Environment variable ".to_owned().concat(name).concat(" not set.")
}

} // verus!
