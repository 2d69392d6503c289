//! The websocket protocol between the site and the backend.
//!
//! A client connects on `/<session>`; the connection is accepted when the
//! session names an account. Each text message is then a request: the text
//! `start_playing` queues the player, anything else asks for the player's
//! place in the queue, and the answer is the result written as Rust's
//! `{:?}` writes it.

use vstd::prelude::*;
use vstd::utf8::valid_utf8;
use crate::backend::{BackendError, BackendErrorView, Outcome, OutcomeView};
use crate::decimal::{decimal, render_decimal};
use crate::ids::{GameServerId, QueueStatus, QueueStatusView, SteamId};

verus! {

/// The session that a request path names: the path without its leading `/`,
/// where there is more than the `/`.
pub open spec fn spec_session_of_path(path: Seq<char>) -> Option<Seq<char>> {
    if path.len() > 1 {
        Some(path.drop_first())
    } else {
        None
    }
}

/// The session in the path of an upgrade request. The path of an HTTP
/// request begins with `/`; one that begins with a wider character cannot be
/// cut after its first byte, so it is left out.
pub fn session_of_path(path: &str) -> (session: Option<String>)
    requires
        path@.len() == 0 || (path@[0] as int) < 128,
    ensures
        match spec_session_of_path(path@) {
            Some(s) => session is Some && session->0@ == s,
            None => session is None,
        },
{
    let n = path.unicode_len();
    if n > 1 {
        let rest = path.substring_char(1, n);
        assert(rest@ =~= path@.drop_first());
        Some(rest.to_owned())
    } else {
        None
    }
}

/// The player whose connection is accepted: the account that the session
/// check found, when it found one.
pub open spec fn spec_accepted_player(check: Option<Result<OutcomeView, BackendErrorView>>) -> Option<SteamId> {
    match check {
        Some(Ok(OutcomeView::Account(Some(p)))) => Some(p),
        _ => None,
    }
}

pub open spec fn check_view(check: &Option<Result<Outcome, BackendError>>) -> Option<Result<OutcomeView, BackendErrorView>> {
    match check {
        Some(Ok(o)) => Some(Ok(o@)),
        Some(Err(e)) => Some(Err(e@)),
        None => None,
    }
}

/// Whom to accept, given the result of checking the session (`None` where
/// the path named no session).
pub fn accepted_player(check: &Option<Result<Outcome, BackendError>>) -> (p: Option<SteamId>)
    ensures
        p == spec_accepted_player(check_view(check)),
{
    match check {
        Some(Ok(Outcome::Account(Some(p)))) => Some(*p),
        _ => None,
    }
}

/// The kind of a websocket message.
#[derive(Copy, Clone, PartialEq, Eq, Debug, Structural)]
pub enum Opcode {
    Close,
    Ping,
    Pong,
    Text,
    Binary,
}

/// What to do with a message from the client.
#[derive(Copy, Clone, PartialEq, Eq, Debug, Structural)]
pub enum WsAction {
    /// Answer with a close message and end the connection.
    CloseConnection,
    /// Answer with a pong that carries the ping's payload.
    Pong,
    /// Queue the player and answer with the result.
    StartPlaying,
    /// Answer with the player's place in the queue.
    QueueStatus,
    /// Send the message back as it came.
    Echo,
    /// Do nothing.
    Ignore,
}

pub open spec fn start_playing_text() -> Seq<u8> {
    "start_playing"@.map_values(|c: char| c as u8)
}

pub open spec fn spec_ws_action(opcode: Opcode, payload: Seq<u8>) -> WsAction {
    match opcode {
        Opcode::Close => WsAction::CloseConnection,
        Opcode::Ping => WsAction::Pong,
        Opcode::Text => if !valid_utf8(payload) {
            WsAction::Ignore
        } else if payload == start_playing_text() {
            WsAction::StartPlaying
        } else {
            WsAction::QueueStatus
        },
        _ => WsAction::Echo,
    }
}

/// Calls `std::str::from_utf8` and reports whether it succeeds. Trusted:
/// std documents that it succeeds exactly on valid UTF-8, which vstd's
/// `valid_utf8` describes.
#[verifier::external_body]
fn is_utf8(bytes: &[u8]) -> (r: bool)
    ensures
        r == valid_utf8(bytes@),
{
    std::str::from_utf8(bytes).is_ok()
}

fn is_start_playing(payload: &[u8]) -> (r: bool)
    ensures
        r == (payload@ == start_playing_text()),
{
    proof {
        reveal_strlit("start_playing");
    }
    let expected: [u8; 13] = [115, 116, 97, 114, 116, 95, 112, 108, 97, 121, 105, 110, 103];
    assert(expected@ =~= start_playing_text());
    if payload.len() != 13 {
        return false;
    }
    let mut i: usize = 0;
    while i < 13
        invariant
            i <= 13,
            payload@.len() == 13,
            expected@ == start_playing_text(),
            forall|j: int| 0 <= j < i ==> payload@[j] == expected@[j],
        decreases 13 - i,
    {
        if payload[i] != expected[i] {
            return false;
        }
        i = i + 1;
    }
    assert(payload@ =~= expected@);
    true
}

/// What to do with a message of this kind and payload.
pub fn ws_action(opcode: Opcode, payload: &[u8]) -> (a: WsAction)
    ensures
        a == spec_ws_action(opcode, payload@),
{
    match opcode {
        Opcode::Close => WsAction::CloseConnection,
        Opcode::Ping => WsAction::Pong,
        Opcode::Text => {
            if !is_utf8(payload) {
                WsAction::Ignore
            } else if is_start_playing(payload) {
                WsAction::StartPlaying
            } else {
                WsAction::QueueStatus
            }
        },
        _ => WsAction::Echo,
    }
}

// ---------------------------------------------------------------------------
// Answers, as `{:?}` writes them.

pub open spec fn server_item(g: GameServerId) -> Seq<char> {
    "GameServerId("@ + decimal(g.0 as nat) + ")"@
}

/// The servers, separated by `, `.
pub open spec fn servers_text(servers: Seq<GameServerId>) -> Seq<char>
    decreases servers.len(),
{
    if servers.len() == 0 {
        Seq::empty()
    } else if servers.len() == 1 {
        server_item(servers[0])
    } else {
        servers_text(servers.drop_last()) + ", "@ + server_item(servers.last())
    }
}

pub open spec fn status_text(s: QueueStatusView) -> Seq<char> {
    match s {
        QueueStatusView::NotQueuing => "NotQueuing"@,
        QueueStatusView::Queuing(servers) => "Queuing(["@ + servers_text(servers) + "])"@,
        QueueStatusView::MatchFound(n) => "MatchFound("@ + decimal(n as nat) + ")"@,
        QueueStatusView::MatchConfirmed(g) => "MatchConfirmed("@ + server_item(g) + ")"@,
    }
}

pub open spec fn outcome_text(o: OutcomeView) -> Seq<char> {
    match o {
        OutcomeView::Unit => "()"@,
        OutcomeView::Account(None) => "None"@,
        OutcomeView::Account(Some(p)) => "Some(SteamId("@ + decimal(p.0 as nat) + "))"@,
        OutcomeView::Status(s) => status_text(s),
    }
}

/// The answer to a request: the operation's result as `{:?}` writes it.
pub open spec fn result_text(r: Result<OutcomeView, BackendErrorView>) -> Seq<char> {
    match r {
        Ok(o) => "Ok("@ + outcome_text(o) + ")"@,
        Err(BackendErrorView::Redis(e)) => "Err(Redis("@ + e + "))"@,
        Err(BackendErrorView::Postgres(e)) => "Err(Postgres("@ + e + "))"@,
    }
}

fn server_item_text(g: GameServerId) -> (t: String)
    ensures
        t@ == server_item(g),
{
    "GameServerId(".to_owned().concat(render_decimal(g.0 as u64).as_str()).concat(")")
}

fn servers_list_text(servers: &Vec<GameServerId>) -> (t: String)
    ensures
        t@ == servers_text(servers@),
{
    let mut t = String::new();
    let mut i: usize = 0;
    while i < servers.len()
        invariant
            i <= servers@.len(),
            t@ == servers_text(servers@.subrange(0, i as int)),
        decreases servers@.len() - i,
    {
        let item = server_item_text(servers[i]);
        let ghost before = t@;
        proof {
            let next = servers@.subrange(0, i as int + 1);
            assert(next.drop_last() =~= servers@.subrange(0, i as int));
            assert(next.last() == servers@[i as int]);
            if i == 0 {
                assert(servers@.subrange(0, 0) =~= Seq::<GameServerId>::empty());
                assert(next.len() == 1);
                assert(next[0] == servers@[0]);
            }
        }
        if i == 0 {
            t = item;
        } else {
            t = t.concat(", ").concat(item.as_str());
        }
        i = i + 1;
    }
    assert(servers@.subrange(0, servers@.len() as int) =~= servers@);
    t
}

impl QueueStatus {
    /// The status as `{:?}` writes it.
    pub fn describe(&self) -> (t: String)
        ensures
            t@ == status_text(self@),
    {
        match self {
            QueueStatus::NotQueuing => "NotQueuing".to_owned(),
            QueueStatus::Queuing(servers) => "Queuing([".to_owned().concat(servers_list_text(servers).as_str()).concat("])"),
            QueueStatus::MatchFound(n) => "MatchFound(".to_owned().concat(render_decimal(*n).as_str()).concat(")"),
            QueueStatus::MatchConfirmed(g) => "MatchConfirmed(".to_owned().concat(server_item_text(*g).as_str()).concat(")"),
        }
    }
}

fn outcome_description(o: &Outcome) -> (t: String)
    ensures
        t@ == outcome_text(o@),
{
    match o {
        Outcome::Unit => "()".to_owned(),
        Outcome::Account(None) => "None".to_owned(),
        Outcome::Account(Some(p)) => "Some(SteamId(".to_owned().concat(render_decimal(p.0).as_str()).concat("))"),
        Outcome::Status(s) => s.describe(),
    }
}

/// The text that answers a request, given the operation's result.
pub fn reply_text(r: &Result<Outcome, BackendError>) -> (t: String)
    ensures
        t@ == result_text(match r {
            Ok(o) => Ok(o@),
            Err(e) => Err(e@),
        }),
{
    match r {
        Ok(o) => "Ok(".to_owned().concat(outcome_description(o).as_str()).concat(")"),
        Err(BackendError::Redis(e)) => "Err(Redis(".to_owned().concat(e.as_str()).concat("))"),
        Err(BackendError::Postgres(e)) => "Err(Postgres(".to_owned().concat(e.as_str()).concat("))"),
    }
}

} // verus!
