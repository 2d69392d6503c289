//! Identifiers of players and game servers, and a player's place in the queue.

use vstd::prelude::*;

verus! {

/// A game server that players can be queued for.
#[derive(Copy, Clone, PartialEq, Eq, Debug, Structural)]
pub struct GameServerId(pub u32);

/// A Steam account, held by its 64-bit number.
#[derive(Copy, Clone, PartialEq, Eq, Debug, Structural)]
pub struct SteamId(pub u64);

/// The Steam universe that an account number names (bits 56 to 63).
#[derive(Copy, Clone, PartialEq, Eq, Debug, Structural)]
pub enum Universe {
    Invalid,
    Public,
    Beta,
    Internal,
    Dev,
}

/// The kind of account that an account number names (bits 52 to 55).
#[derive(Copy, Clone, PartialEq, Eq, Debug, Structural)]
pub enum AccountType {
    Invalid,
    Individual,
    Multiseat,
    GameServer,
    AnonGameServer,
    Pending,
    ContentServer,
    Clan,
    Chat,
    SuperSeeder,
    AnonUser,
}

pub open spec fn universe_field(value: u64) -> u64 {
    (value >> 56u64) & 0xFFu64
}

pub open spec fn account_type_field(value: u64) -> u64 {
    (value >> 52u64) & 0xFu64
}

/// The universe that `steamid::SteamId::get_universe` reads from a number.
pub open spec fn spec_universe(value: u64) -> Option<Universe> {
    let f = universe_field(value);
    if f == 0 {
        Some(Universe::Invalid)
    } else if f == 1 {
        Some(Universe::Public)
    } else if f == 2 {
        Some(Universe::Beta)
    } else if f == 3 {
        Some(Universe::Internal)
    } else if f == 4 {
        Some(Universe::Dev)
    } else {
        None
    }
}

/// The account type that `steamid::SteamId::get_type` reads from a number.
pub open spec fn spec_account_type(value: u64) -> Option<AccountType> {
    let f = account_type_field(value);
    if f == 0 {
        Some(AccountType::Invalid)
    } else if f == 1 {
        Some(AccountType::Individual)
    } else if f == 2 {
        Some(AccountType::Multiseat)
    } else if f == 3 {
        Some(AccountType::GameServer)
    } else if f == 4 {
        Some(AccountType::AnonGameServer)
    } else if f == 5 {
        Some(AccountType::Pending)
    } else if f == 6 {
        Some(AccountType::ContentServer)
    } else if f == 7 {
        Some(AccountType::Clan)
    } else if f == 8 {
        Some(AccountType::Chat)
    } else if f == 9 {
        Some(AccountType::SuperSeeder)
    } else if f == 10 {
        Some(AccountType::AnonUser)
    } else {
        None
    }
}

/// Calls `steamid::SteamId::get_universe` on the account with this number.
/// Trusted: the crate's source reads bits 56 to 63 and maps 0 to 4 onto the
/// five universes, anything else onto `None`; that is what `spec_universe` says.
#[verifier::external_body]
fn steamid_universe(value: u64) -> (r: Option<Universe>)
    ensures
        r == spec_universe(value),
{
    match steamid::SteamId::from_u64(value).get_universe() {
        Some(steamid::Universe::Invalid) => Some(Universe::Invalid),
        Some(steamid::Universe::Public) => Some(Universe::Public),
        Some(steamid::Universe::Beta) => Some(Universe::Beta),
        Some(steamid::Universe::Internal) => Some(Universe::Internal),
        Some(steamid::Universe::Dev) => Some(Universe::Dev),
        None => None,
    }
}

/// Calls `steamid::SteamId::get_type` on the account with this number.
/// Trusted: the crate's source reads bits 52 to 55 and maps 0 to 10 onto the
/// eleven account types, anything else onto `None`; that is what
/// `spec_account_type` says.
#[verifier::external_body]
fn steamid_account_type(value: u64) -> (r: Option<AccountType>)
    ensures
        r == spec_account_type(value),
{
    match steamid::SteamId::from_u64(value).get_type() {
        Some(steamid::AccountType::Invalid) => Some(AccountType::Invalid),
        Some(steamid::AccountType::Individual) => Some(AccountType::Individual),
        Some(steamid::AccountType::Multiseat) => Some(AccountType::Multiseat),
        Some(steamid::AccountType::GameServer) => Some(AccountType::GameServer),
        Some(steamid::AccountType::AnonGameServer) => Some(AccountType::AnonGameServer),
        Some(steamid::AccountType::Pending) => Some(AccountType::Pending),
        Some(steamid::AccountType::ContentServer) => Some(AccountType::ContentServer),
        Some(steamid::AccountType::Clan) => Some(AccountType::Clan),
        Some(steamid::AccountType::Chat) => Some(AccountType::Chat),
        Some(steamid::AccountType::SuperSeeder) => Some(AccountType::SuperSeeder),
        Some(steamid::AccountType::AnonUser) => Some(AccountType::AnonUser),
        None => None,
    }
}

impl SteamId {
    pub fn from_u64(value: u64) -> (id: SteamId)
        ensures
            id.0 == value,
    {
        SteamId(value)
    }

    pub fn to_u64(self) -> (value: u64)
        ensures
            value == self.0,
    {
        self.0
    }

    pub fn get_universe(self) -> (r: Option<Universe>)
        ensures
            r == spec_universe(self.0),
    {
        steamid_universe(self.0)
    }

    pub fn get_type(self) -> (r: Option<AccountType>)
        ensures
            r == spec_account_type(self.0),
    {
        steamid_account_type(self.0)
    }

    /// Whether this is an individual account in the public universe, the
    /// only kind that a login session may name.
    pub fn is_public_individual(self) -> (r: bool)
        ensures
            r == (spec_universe(self.0) == Some(Universe::Public) && spec_account_type(self.0)
                == Some(AccountType::Individual)),
    {
        let u = self.get_universe();
        let t = self.get_type();
        let public = match u {
            Some(Universe::Public) => true,
            _ => false,
        };
        let individual = match t {
            Some(AccountType::Individual) => true,
            _ => false,
        };
        public && individual
    }
}

/// Where a player stands in the matchmaking queue.
#[derive(Clone, PartialEq, Eq, Debug)]
pub enum QueueStatus {
    NotQueuing,
    /// Queuing for these servers.
    Queuing(Vec<GameServerId>),
    MatchFound(u64),
    MatchConfirmed(GameServerId),
}

/// The mathematical value of a `QueueStatus`.
pub enum QueueStatusView {
    NotQueuing,
    Queuing(Seq<GameServerId>),
    MatchFound(u64),
    MatchConfirmed(GameServerId),
}

impl View for QueueStatus {
    type V = QueueStatusView;

    open spec fn view(&self) -> QueueStatusView {
        match self {
            QueueStatus::NotQueuing => QueueStatusView::NotQueuing,
            QueueStatus::Queuing(servers) => QueueStatusView::Queuing(servers@),
            QueueStatus::MatchFound(n) => QueueStatusView::MatchFound(*n),
            QueueStatus::MatchConfirmed(g) => QueueStatusView::MatchConfirmed(*g),
        }
    }
}

} // verus!
