//! The redis keys under which the service keeps sessions and the queue.
//!
//! * `session_steamid:<session>` holds the account that a login session names;
//! * `players_queuing` is a sorted set of queuing players, scored by the time
//!   at which their place expires;
//! * `player_queue_status:<player>` holds `queuing` while a player queues;
//! * `player_queuing_for:<player>` is the set of servers a player queues for;
//! * `server_queuers:<server>` is the set of players queuing for a server.

use vstd::prelude::*;
use crate::decimal::{decimal, lemma_decimal, lemma_decimal_injective, render_decimal};
use crate::ids::{GameServerId, SteamId};

verus! {

pub open spec fn session_prefix() -> Seq<char> {
    "session_steamid:"@
}

pub open spec fn players_queuing() -> Seq<char> {
    "players_queuing"@
}

pub open spec fn status_prefix() -> Seq<char> {
    "player_queue_status:"@
}

pub open spec fn queuing_for_prefix() -> Seq<char> {
    "player_queuing_for:"@
}

pub open spec fn server_queuers_prefix() -> Seq<char> {
    "server_queuers:"@
}

pub open spec fn server_queuers_bare() -> Seq<char> {
    "server_queuers"@
}

pub open spec fn queuing_text() -> Seq<char> {
    "queuing"@
}

/// How a player is written as a set member or in a key.
pub open spec fn player_text(player: SteamId) -> Seq<char> {
    decimal(player.0 as nat)
}

/// How a server is written as a set member or in a key.
pub open spec fn server_text(server: GameServerId) -> Seq<char> {
    decimal(server.0 as nat)
}

pub open spec fn spec_session_key(session: Seq<char>) -> Seq<char> {
    session_prefix() + session
}

pub open spec fn spec_status_key(player: SteamId) -> Seq<char> {
    status_prefix() + player_text(player)
}

pub open spec fn spec_queuing_for_key(player: SteamId) -> Seq<char> {
    queuing_for_prefix() + player_text(player)
}

pub open spec fn spec_server_queuers_key(server: GameServerId) -> Seq<char> {
    server_queuers_prefix() + server_text(server)
}

/// The literal texts of the key names, spelled out.
pub proof fn lemma_key_texts()
    ensures
        session_prefix() =~= seq![
            's', 'e', 's', 's', 'i', 'o', 'n', '_', 's', 't', 'e', 'a', 'm', 'i', 'd', ':'
        ],
        players_queuing() =~= seq![
            'p', 'l', 'a', 'y', 'e', 'r', 's', '_', 'q', 'u', 'e', 'u', 'i', 'n', 'g'
        ],
        status_prefix() =~= seq![
            'p', 'l', 'a', 'y', 'e', 'r', '_', 'q', 'u', 'e', 'u', 'e', '_', 's', 't', 'a', 't', 'u',
            's', ':'
        ],
        queuing_for_prefix() =~= seq![
            'p', 'l', 'a', 'y', 'e', 'r', '_', 'q', 'u', 'e', 'u', 'i', 'n', 'g', '_', 'f', 'o',
            'r', ':'
        ],
        server_queuers_prefix() =~= seq![
            's', 'e', 'r', 'v', 'e', 'r', '_', 'q', 'u', 'e', 'u', 'e', 'r', 's', ':'
        ],
        server_queuers_bare() =~= seq![
            's', 'e', 'r', 'v', 'e', 'r', '_', 'q', 'u', 'e', 'u', 'e', 'r', 's'
        ],
        queuing_text() =~= seq!['q', 'u', 'e', 'u', 'i', 'n', 'g'],
{
    reveal_strlit("session_steamid:");
    reveal_strlit("players_queuing");
    reveal_strlit("player_queue_status:");
    reveal_strlit("player_queuing_for:");
    reveal_strlit("server_queuers:");
    reveal_strlit("server_queuers");
    reveal_strlit("queuing");
}

/// Keys of different kinds never coincide, and a key of one kind names one
/// player, server or session.
pub proof fn lemma_keys_distinct(p: SteamId, q: SteamId, s: GameServerId, session: Seq<char>)
    ensures
        spec_status_key(p) != spec_queuing_for_key(q),
        spec_status_key(p) != players_queuing(),
        spec_queuing_for_key(p) != players_queuing(),
        spec_status_key(p) != server_queuers_bare(),
        spec_queuing_for_key(p) != server_queuers_bare(),
        spec_server_queuers_key(s) != players_queuing(),
        spec_server_queuers_key(s) != server_queuers_bare(),
        spec_server_queuers_key(s) != spec_status_key(p),
        spec_server_queuers_key(s) != spec_queuing_for_key(p),
        spec_session_key(session) != spec_status_key(p),
        spec_session_key(session) != spec_queuing_for_key(p),
        spec_session_key(session) != players_queuing(),
        spec_session_key(session) != server_queuers_bare(),
        spec_session_key(session) != spec_server_queuers_key(s),
        players_queuing() != server_queuers_bare(),
        (spec_status_key(p) == spec_status_key(q)) <==> p == q,
        (spec_queuing_for_key(p) == spec_queuing_for_key(q)) <==> p == q,
        (player_text(p) == player_text(q)) <==> p == q,
{
    lemma_key_texts();
    lemma_decimal(p.0 as nat);
    lemma_decimal(q.0 as nat);
    lemma_decimal(s.0 as nat);
    let sk = spec_status_key(p);
    let qk = spec_queuing_for_key(q);
    assert(sk[11] != qk[11]);
    assert(sk[6] != players_queuing()[6]);
    assert(spec_queuing_for_key(p)[6] != players_queuing()[6]);
    assert(sk[0] != server_queuers_bare()[0]);
    assert(spec_queuing_for_key(p)[0] != server_queuers_bare()[0]);
    let vk = spec_server_queuers_key(s);
    assert(vk[0] != players_queuing()[0]);
    assert(vk.len() != server_queuers_bare().len());
    assert(vk[0] != sk[0]);
    assert(vk[0] != spec_queuing_for_key(p)[0]);
    let ek = spec_session_key(session);
    assert(ek[0] != sk[0]);
    assert(ek[0] != spec_queuing_for_key(p)[0]);
    assert(ek[0] != players_queuing()[0]);
    assert(ek[2] != server_queuers_bare()[2]);
    assert(ek[2] != vk[2]);
    assert(players_queuing()[0] != server_queuers_bare()[0]);
    if spec_status_key(p) == spec_status_key(q) {
        assert(player_text(p) =~= spec_status_key(p).subrange(20, spec_status_key(p).len() as int));
        assert(player_text(q) =~= spec_status_key(q).subrange(20, spec_status_key(q).len() as int));
        lemma_decimal_injective(p.0 as nat, q.0 as nat);
    }
    if spec_queuing_for_key(p) == spec_queuing_for_key(q) {
        assert(player_text(p) =~= spec_queuing_for_key(p).subrange(19, spec_queuing_for_key(p).len() as int));
        assert(player_text(q) =~= spec_queuing_for_key(q).subrange(19, spec_queuing_for_key(q).len() as int));
        lemma_decimal_injective(p.0 as nat, q.0 as nat);
    }
    if player_text(p) == player_text(q) {
        lemma_decimal_injective(p.0 as nat, q.0 as nat);
    }
}

/// The key that holds the account of a login session.
pub fn session_key(session: &str) -> (key: String)
    ensures
        key@ == spec_session_key(session@),
{
    "session_steamid:".to_owned().concat(session)
}

/// The name of the sorted set of queuing players.
pub fn players_queuing_key() -> (key: String)
    ensures
        key@ == players_queuing(),
{
    "players_queuing".to_owned()
}

/// The key that holds whether a player queues.
pub fn status_key(player: SteamId) -> (key: String)
    ensures
        key@ == spec_status_key(player),
{
    "player_queue_status:".to_owned().concat(render_decimal(player.0).as_str())
}

/// The key of the set of servers a player queues for.
pub fn queuing_for_key(player: SteamId) -> (key: String)
    ensures
        key@ == spec_queuing_for_key(player),
{
    "player_queuing_for:".to_owned().concat(render_decimal(player.0).as_str())
}

/// The key of the set of players that queue for a server.
pub fn server_queuers_key(server: GameServerId) -> (key: String)
    ensures
        key@ == spec_server_queuers_key(server),
{
    "server_queuers:".to_owned().concat(render_decimal(server.0 as u64).as_str())
}

/// The key from which leaving the queue removes a player: the bare prefix
/// of the per-server sets, with no server named.
pub fn bare_server_queuers_key() -> (key: String)
    ensures
        key@ == server_queuers_bare(),
{
    "server_queuers".to_owned()
}

/// A player as a set member.
pub fn player_member(player: SteamId) -> (text: String)
    ensures
        text@ == player_text(player),
{
    render_decimal(player.0)
}

/// A server as a set member.
pub fn server_member(server: GameServerId) -> (text: String)
    ensures
        text@ == server_text(server),
{
    render_decimal(server.0 as u64)
}

/// The value that marks a player as queuing.
pub fn queuing_value() -> (text: String)
    ensures
        text@ == queuing_text(),
{
    "queuing".to_owned()
}

} // verus!
