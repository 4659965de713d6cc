use vstd::prelude::*;
use crate::keys::Pubkey;

verus! {

/// Who currently controls a resource: an external wallet identity, or a
/// derived session address whose controller proves itself by re-deriving
/// the address from its seeds.
#[derive(Clone, Copy, Debug)]
pub enum Authority {
    External(Pubkey),
    Derived(Pubkey),
}

impl Authority {
    /// The controlled-by-this-external-identity test.
    pub open spec fn is_external_key(&self, k: Seq<u8>) -> bool {
        match *self {
            Authority::External(e) => e@ == k,
            Authority::Derived(_) => false,
        }
    }

    /// The controlled-by-this-derived-address test.
    pub open spec fn is_derived_key(&self, k: Seq<u8>) -> bool {
        match *self {
            Authority::External(_) => false,
            Authority::Derived(d) => d@ == k,
        }
    }
}

/// The lifecycle of a session, kept as a single stored discriminant.
#[derive(Clone, Copy, Debug, PartialEq, Eq, Structural)]
pub enum CoinState {
    /// Created and funded by the initiator; awaiting the acceptor.
    Created,
    /// A randomness request is outstanding.
    Flipping,
    /// The outcome was revealed and the vault paid out; terminal.
    Resolved,
}

/// The session record, one per initiator, stored at the address derived
/// from the coin seed and the initiator's identity.
#[derive(Clone, Copy, Debug)]
pub struct Coin {
    /// The party that created the session. Immutable after creation.
    pub initiator: Pubkey,
    /// The party invited to match the stake. Immutable after creation.
    pub acceptor: Pubkey,
    /// Where the session stands in its lifecycle.
    pub state: CoinState,
    /// The resolved outcome flag; meaningful only once `state` is
    /// `Resolved`.
    pub is_cross: bool,
    /// Creation timestamp, informational.
    pub created_at: i64,
    /// The disambiguating factor of the record's derived address.
    pub bump: u8,
}

impl Coin {
    /// True while a randomness request is outstanding.
    pub fn is_flipping(&self) -> (r: bool)
        ensures
            r == (self.state == CoinState::Flipping),
    {
        match self.state {
            CoinState::Flipping => true,
            _ => false,
        }
    }
}

/// The escrow record, one per session, stored at the address derived from
/// the vault seed and the initiator's identity. Its balance is the payout.
#[derive(Clone, Copy, Debug)]
pub struct Vault {
    /// The disambiguating factor of the record's derived address.
    pub bump: u8,
    /// The staked funds both parties locked in.
    pub balance: u64,
}

/// The oracle service's requester resource, as the escrow core observes it:
/// an authority that can be delegated, the oracle it was bound to when it
/// was set up, and the state of the one randomness request it can carry.
#[derive(Clone, Copy, Debug)]
pub struct Requester {
    /// Who may issue requests through this resource.
    pub authority: Authority,
    /// The oracle service this resource was bound to at setup.
    pub oracle: Pubkey,
    /// True while a randomness request is outstanding and unfulfilled.
    pub pending: bool,
    /// The fulfilled outcome, written by the oracle out of band.
    pub result: Option<u64>,
}

/// What a stored account holds.
#[derive(Clone, Copy, Debug)]
pub enum AccountData {
    Coin(Coin),
    Vault(Vault),
    Requester(Requester),
}

impl AccountData {
    pub open spec fn spec_as_coin(&self) -> Option<Coin> {
        match *self {
            AccountData::Coin(c) => Some(c),
            _ => None,
        }
    }

    pub open spec fn spec_as_vault(&self) -> Option<Vault> {
        match *self {
            AccountData::Vault(v) => Some(v),
            _ => None,
        }
    }

    pub open spec fn spec_as_requester(&self) -> Option<Requester> {
        match *self {
            AccountData::Requester(r) => Some(r),
            _ => None,
        }
    }

    /// Reads the account as a `Coin` record, if that is what it holds.
    pub fn as_coin(&self) -> (r: Option<Coin>)
        ensures
            r == self.spec_as_coin(),
    {
        match *self {
            AccountData::Coin(c) => Some(c),
            _ => None,
        }
    }

    /// Reads the account as a `Vault` record, if that is what it holds.
    pub fn as_vault(&self) -> (r: Option<Vault>)
        ensures
            r == self.spec_as_vault(),
    {
        match *self {
            AccountData::Vault(v) => Some(v),
            _ => None,
        }
    }

    /// Reads the account as a `Requester` record, if that is what it holds.
    pub fn as_requester(&self) -> (r: Option<Requester>)
        ensures
            r == self.spec_as_requester(),
    {
        match *self {
            AccountData::Requester(r) => Some(r),
            _ => None,
        }
    }
}

} // verus!
