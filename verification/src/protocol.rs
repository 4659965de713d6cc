use vstd::prelude::*;
use crate::keys::{Pubkey, key_eq, seed_bytes, coin_seed_tag, vault_seed_tag, SeedTag, DerivedSigner};
use crate::accounts::{AccountData, Authority, Coin, CoinState, Requester, Vault};
use crate::error::{ErrorCode, RevealError};
use crate::ledger::Ledger;
use crate::oracle::{request_random, request_random_spec, transfer_authority, transfer_authority_spec};
use crate::pda::{derivation_of, find_derived_address};

verus! {

/// The fixed stake each party locks into the vault; the payout is their sum.
pub const STAKE_AMOUNT: u64 = 100000;

/// The coin record stored at an address, when the address holds one.
pub open spec fn coin_account(l: Map<Seq<u8>, AccountData>, addr: Seq<u8>) -> Option<Coin> {
    if l.contains_key(addr) {
        l[addr].spec_as_coin()
    } else {
        None
    }
}

/// The vault record stored at an address, when the address holds one.
pub open spec fn vault_account(l: Map<Seq<u8>, AccountData>, addr: Seq<u8>) -> Option<Vault> {
    if l.contains_key(addr) {
        l[addr].spec_as_vault()
    } else {
        None
    }
}

/// The requester record stored at an address, when the address holds one.
pub open spec fn requester_account(l: Map<Seq<u8>, AccountData>, addr: Seq<u8>) -> Option<
    Requester,
> {
    if l.contains_key(addr) {
        l[addr].spec_as_requester()
    } else {
        None
    }
}

/// The accounts a creation call names: the authenticated initiator, the
/// invited acceptor, the requester resource whose authority is delegated,
/// and the oracle service (with its fee vault) the requester is bound to.
#[derive(Clone, Copy, Debug)]
pub struct CreateCoin {
    pub initiator: Pubkey,
    pub acceptor: Pubkey,
    pub requester: Pubkey,
    pub oracle: Pubkey,
    pub oracle_vault: Pubkey,
}

/// The accounts an approval call names: the authenticated acceptor (the
/// signing authority of the call), the session's vault and initiator, the
/// requester resource, and the oracle it expects.
#[derive(Clone, Copy, Debug)]
pub struct ApproveFlip {
    pub authority: Pubkey,
    pub vault: Pubkey,
    pub initiator: Pubkey,
    pub requester: Pubkey,
    pub oracle: Pubkey,
    pub oracle_vault: Pubkey,
}

/// The accounts a reveal call names: the authenticated caller (either
/// registered party), the counterparty, the session's vault and requester.
#[derive(Clone, Copy, Debug)]
pub struct RevealCoin {
    pub initiator_or_acceptor: Pubkey,
    pub other: Pubkey,
    pub vault: Pubkey,
    pub requester: Pubkey,
}

/// The payout a successful reveal instructs the runtime to make: the
/// vault's whole balance to the winning party.
#[derive(Clone, Copy, Debug)]
pub struct Payout {
    pub to: Pubkey,
    pub amount: u64,
}

/// What `create_coin` does: derive and occupy the session's two addresses,
/// record the session, credit the initiator's stake, and delegate the
/// requester's authority to the new coin record. Any failed step leaves the
/// store untouched.
pub open spec fn create_coin_spec(
    l: Map<Seq<u8>, AccountData>,
    program: Seq<u8>,
    ctx: CreateCoin,
    coin_bump: u8,
    vault_bump: u8,
    now: i64,
) -> (Map<Seq<u8>, AccountData>, Result<(), ErrorCode>) {
    match derivation_of(coin_seed_tag(), ctx.initiator@, program) {
        Option::None => (l, Err(ErrorCode::MissingRecord)),
        Option::Some((ck, cb)) => {
            if cb != coin_bump {
                (l, Err(ErrorCode::MissingRecord))
            } else if l.contains_key(ck@) {
                (l, Err(ErrorCode::AlreadyCompleted))
            } else {
                match derivation_of(vault_seed_tag(), ctx.initiator@, program) {
                    Option::None => (l, Err(ErrorCode::MissingRecord)),
                    Option::Some((vk, vb)) => {
                        if vb != vault_bump {
                            (l, Err(ErrorCode::MissingRecord))
                        } else if l.contains_key(vk@) || vk@ == ck@ {
                            (l, Err(ErrorCode::AlreadyCompleted))
                        } else {
                            match requester_account(l, ctx.requester@) {
                                Option::None => (l, Err(ErrorCode::MissingRecord)),
                                Option::Some(req) => {
                                    if req.oracle@ != ctx.oracle@ {
                                        (l, Err(ErrorCode::WrongOracle))
                                    } else {
                                        let (req2, tr) = transfer_authority_spec(
                                            req,
                                            ctx.initiator@,
                                            Authority::Derived(ck),
                                        );
                                        match tr {
                                            Err(e) => (l, Err(e)),
                                            Ok(()) => (
                                                l.insert(
                                                    ck@,
                                                    AccountData::Coin(
                                                        Coin {
                                                            initiator: ctx.initiator,
                                                            acceptor: ctx.acceptor,
                                                            state: CoinState::Created,
                                                            is_cross: false,
                                                            created_at: now,
                                                            bump: coin_bump,
                                                        },
                                                    ),
                                                ).insert(
                                                    vk@,
                                                    AccountData::Vault(
                                                        Vault {
                                                            bump: vault_bump,
                                                            balance: STAKE_AMOUNT,
                                                        },
                                                    ),
                                                ).insert(
                                                    ctx.requester@,
                                                    AccountData::Requester(req2),
                                                ),
                                                Ok(()),
                                            ),
                                        }
                                    }
                                }
                            }
                        }
                    }
                }
            }
        }
    }
}

/// Opens a session: creates the coin and vault records at their derived
/// addresses, credits the initiator's fixed stake to the vault, and
/// delegates the requester resource's authority to the coin record, so
/// that only the session itself can later request randomness.
///
/// The initiator is the call's authenticated signer; the runtime has
/// checked that before the operation runs. The disambiguating factors are
/// computed off-path by the caller and must re-derive here; a mismatch is
/// refused. The factor of the requester's own address is the oracle
/// service's concern and is carried through unchecked.
#[allow(unused_variables)]
pub fn create_coin(
    l: &mut Ledger,
    ctx: &CreateCoin,
    coin_bump: u8,
    req_bump: u8,
    vault_bump: u8,
    now: i64,
) -> (r: Result<(), ErrorCode>)
    requires
        old(l).wf(),
    ensures
        final(l).wf(),
        final(l).program() == old(l).program(),
        (final(l)@, r) == create_coin_spec(
            old(l)@,
            old(l).program(),
            *ctx,
            coin_bump,
            vault_bump,
            now,
        ),
{
    let program = l.program_id();
    let coin_tag = seed_bytes(SeedTag::CoinSeed);
    let (ck, cb) = match find_derived_address(&coin_tag, &ctx.initiator, &program) {
        Option::Some(p) => p,
        Option::None => {
            return Err(ErrorCode::MissingRecord);
        }
    };
    if cb != coin_bump {
        return Err(ErrorCode::MissingRecord);
    }
    if l.get(&ck).is_some() {
        return Err(ErrorCode::AlreadyCompleted);
    }
    let vault_tag = seed_bytes(SeedTag::VaultSeed);
    let (vk, vb) = match find_derived_address(&vault_tag, &ctx.initiator, &program) {
        Option::Some(p) => p,
        Option::None => {
            return Err(ErrorCode::MissingRecord);
        }
    };
    if vb != vault_bump {
        return Err(ErrorCode::MissingRecord);
    }
    if l.get(&vk).is_some() || key_eq(&vk, &ck) {
        return Err(ErrorCode::AlreadyCompleted);
    }
    let req = match l.get(&ctx.requester) {
        Option::Some(d) => match d.as_requester() {
            Option::Some(rq) => rq,
            Option::None => {
                return Err(ErrorCode::MissingRecord);
            }
        },
        Option::None => {
            return Err(ErrorCode::MissingRecord);
        }
    };
    if !key_eq(&req.oracle, &ctx.oracle) {
        return Err(ErrorCode::WrongOracle);
    }
    let mut req2 = req;
    match transfer_authority(&mut req2, &ctx.initiator, Authority::Derived(ck)) {
        Err(e) => {
            return Err(e);
        }
        Ok(()) => {}
    }
    let coin_created = l.insert_new(
        ck,
        AccountData::Coin(
            Coin {
                initiator: ctx.initiator,
                acceptor: ctx.acceptor,
                state: CoinState::Created,
                is_cross: false,
                created_at: now,
                bump: coin_bump,
            },
        ),
    );
    let vault_created = l.insert_new(
        vk,
        AccountData::Vault(Vault { bump: vault_bump, balance: STAKE_AMOUNT }),
    );
    let req_stored = l.set(&ctx.requester, AccountData::Requester(req2));
    proof {
        assert(coin_created);
        assert(vault_created);
        assert(req_stored);
    }
    Ok(())
}

/// What `approve_flip` does: re-derive the session's addresses from the
/// initiator named in the call, check the caller is the registered
/// acceptor and the session still awaits approval, match the acceptor's
/// stake, and issue the randomness request signed by the re-derived coin
/// credential. Any failed step leaves the store untouched.
pub open spec fn approve_flip_spec(
    l: Map<Seq<u8>, AccountData>,
    program: Seq<u8>,
    ctx: ApproveFlip,
) -> (Map<Seq<u8>, AccountData>, Result<(), ErrorCode>) {
    match derivation_of(coin_seed_tag(), ctx.initiator@, program) {
        Option::None => (l, Err(ErrorCode::MissingRecord)),
        Option::Some((ck, cb)) => {
            match coin_account(l, ck@) {
                Option::None => (l, Err(ErrorCode::MissingRecord)),
                Option::Some(coin) => {
                    if coin.bump != cb {
                        (l, Err(ErrorCode::MissingRecord))
                    } else if ctx.authority@ != coin.acceptor@ {
                        (l, Err(ErrorCode::Unauthorized))
                    } else if coin.state == CoinState::Flipping {
                        (l, Err(ErrorCode::InflightRequest))
                    } else if coin.state == CoinState::Resolved {
                        (l, Err(ErrorCode::AlreadyCompleted))
                    } else {
                        match derivation_of(vault_seed_tag(), ctx.initiator@, program) {
                            Option::None => (l, Err(ErrorCode::MissingRecord)),
                            Option::Some((vk, vb)) => {
                                if ctx.vault@ != vk@ {
                                    (l, Err(ErrorCode::MissingRecord))
                                } else {
                                    match vault_account(l, vk@) {
                                        Option::None => (l, Err(ErrorCode::MissingRecord)),
                                        Option::Some(vault) => {
                                            if vault.bump != vb {
                                                (l, Err(ErrorCode::MissingRecord))
                                            } else if vault.balance != STAKE_AMOUNT {
                                                (l, Err(ErrorCode::MissingRecord))
                                            } else {
                                                match requester_account(l, ctx.requester@) {
                                                    Option::None => (
                                                        l,
                                                        Err(ErrorCode::MissingRecord),
                                                    ),
                                                    Option::Some(req) => {
                                                        let signer = DerivedSigner {
                                                            tag: SeedTag::CoinSeed,
                                                            identity: ctx.initiator,
                                                            factor: cb,
                                                        };
                                                        let (req2, rr) = request_random_spec(
                                                            req,
                                                            signer,
                                                            ctx.oracle@,
                                                            program,
                                                        );
                                                        match rr {
                                                            Err(e) => (l, Err(e)),
                                                            Ok(()) => (
                                                                l.insert(
                                                                    vk@,
                                                                    AccountData::Vault(
                                                                        Vault {
                                                                            bump: vb,
                                                                            balance: (
                                                                            vault.balance
                                                                                + STAKE_AMOUNT
                                                                            ) as u64,
                                                                        },
                                                                    ),
                                                                ).insert(
                                                                    ctx.requester@,
                                                                    AccountData::Requester(req2),
                                                                ).insert(
                                                                    ck@,
                                                                    AccountData::Coin(
                                                                        Coin {
                                                                            state:
                                                                                CoinState::Flipping,
                                                                            ..coin
                                                                        },
                                                                    ),
                                                                ),
                                                                Ok(()),
                                                            ),
                                                        }
                                                    }
                                                }
                                            }
                                        }
                                    }
                                }
                            }
                        }
                    }
                }
            }
        }
    }
}

/// Matches the acceptor's stake and issues the randomness request.
///
/// The caller is the call's authenticated signer and must be the session's
/// registered acceptor. The coin credential used to sign the oracle request
/// is recomputed here from the initiator's identity — never taken from the
/// caller — so a forged factor cannot redirect the session. The stake is
/// accepted only into a vault that still holds exactly the initiator's
/// stake, and the request is refused while one is already outstanding.
pub fn approve_flip(l: &mut Ledger, ctx: &ApproveFlip) -> (r: Result<(), ErrorCode>)
    requires
        old(l).wf(),
    ensures
        final(l).wf(),
        final(l).program() == old(l).program(),
        (final(l)@, r) == approve_flip_spec(old(l)@, old(l).program(), *ctx),
{
    let program = l.program_id();
    let coin_tag = seed_bytes(SeedTag::CoinSeed);
    let (ck, cb) = match find_derived_address(&coin_tag, &ctx.initiator, &program) {
        Option::Some(p) => p,
        Option::None => {
            return Err(ErrorCode::MissingRecord);
        }
    };
    let coin = match l.get(&ck) {
        Option::Some(d) => match d.as_coin() {
            Option::Some(c) => c,
            Option::None => {
                return Err(ErrorCode::MissingRecord);
            }
        },
        Option::None => {
            return Err(ErrorCode::MissingRecord);
        }
    };
    if coin.bump != cb {
        return Err(ErrorCode::MissingRecord);
    }
    if !key_eq(&ctx.authority, &coin.acceptor) {
        return Err(ErrorCode::Unauthorized);
    }
    match coin.state {
        CoinState::Flipping => {
            return Err(ErrorCode::InflightRequest);
        }
        CoinState::Resolved => {
            return Err(ErrorCode::AlreadyCompleted);
        }
        CoinState::Created => {}
    }
    let vault_tag = seed_bytes(SeedTag::VaultSeed);
    let (vk, vb) = match find_derived_address(&vault_tag, &ctx.initiator, &program) {
        Option::Some(p) => p,
        Option::None => {
            return Err(ErrorCode::MissingRecord);
        }
    };
    if !key_eq(&ctx.vault, &vk) {
        return Err(ErrorCode::MissingRecord);
    }
    let vault = match l.get(&vk) {
        Option::Some(d) => match d.as_vault() {
            Option::Some(v) => v,
            Option::None => {
                return Err(ErrorCode::MissingRecord);
            }
        },
        Option::None => {
            return Err(ErrorCode::MissingRecord);
        }
    };
    if vault.bump != vb {
        return Err(ErrorCode::MissingRecord);
    }
    if vault.balance != STAKE_AMOUNT {
        return Err(ErrorCode::MissingRecord);
    }
    let req = match l.get(&ctx.requester) {
        Option::Some(d) => match d.as_requester() {
            Option::Some(rq) => rq,
            Option::None => {
                return Err(ErrorCode::MissingRecord);
            }
        },
        Option::None => {
            return Err(ErrorCode::MissingRecord);
        }
    };
    let signer = DerivedSigner { tag: SeedTag::CoinSeed, identity: ctx.initiator, factor: cb };
    let mut req2 = req;
    match request_random(&mut req2, &signer, &ctx.oracle, &ctx.oracle_vault, &program) {
        Err(e) => {
            return Err(e);
        }
        Ok(()) => {}
    }
    let new_balance = vault.balance + STAKE_AMOUNT;
    let vault_stored = l.set(&vk, AccountData::Vault(Vault { bump: vb, balance: new_balance }));
    let req_stored = l.set(&ctx.requester, AccountData::Requester(req2));
    let coin_stored = l.set(&ck, AccountData::Coin(Coin { state: CoinState::Flipping, ..coin }));
    proof {
        assert(vault_stored);
        assert(req_stored);
        assert(coin_stored);
    }
    Ok(())
}

/// The session a party's identity derives to, when its coin record exists.
pub open spec fn session_lookup(
    l: Map<Seq<u8>, AccountData>,
    program: Seq<u8>,
    party: Pubkey,
) -> Option<(Pubkey, u8, Coin)> {
    match derivation_of(coin_seed_tag(), party@, program) {
        Option::None => None,
        Option::Some((ck, cb)) => match coin_account(l, ck@) {
            Option::None => None,
            Option::Some(coin) => Some((ck, cb, coin)),
        },
    }
}

/// The session a reveal call names: the caller's own derivation is tried
/// first, then the counterparty's.
pub open spec fn locate_session(
    l: Map<Seq<u8>, AccountData>,
    program: Seq<u8>,
    ctx: RevealCoin,
) -> Option<(Pubkey, u8, Coin)> {
    match session_lookup(l, program, ctx.initiator_or_acceptor) {
        Option::Some(t) => Some(t),
        Option::None => session_lookup(l, program, ctx.other),
    }
}

/// The caller and counterparty a reveal names are exactly the session's two
/// registered parties, the caller being either one.
pub open spec fn reveal_parties_match(ctx: RevealCoin, coin: Coin) -> bool {
    (ctx.initiator_or_acceptor@ == coin.initiator@ && ctx.other@ == coin.acceptor@) || (
    ctx.initiator_or_acceptor@ == coin.acceptor@ && ctx.other@ == coin.initiator@)
}

/// The outcome selection rule: an even outcome is cross and pays the
/// initiator, an odd outcome pays the acceptor.
pub open spec fn outcome_is_cross(value: u64) -> bool {
    value % 2 == 0
}

/// What `reveal_coin` does: locate the session, admit only its two
/// registered parties, read the fulfilled outcome from the session's own
/// requester, pay the vault's whole balance to the winner and resolve the
/// session. While the request is unfulfilled the call fails retryably and
/// changes nothing; after resolution it fails as already completed.
pub open spec fn reveal_coin_spec(
    l: Map<Seq<u8>, AccountData>,
    program: Seq<u8>,
    ctx: RevealCoin,
) -> (Map<Seq<u8>, AccountData>, Result<Payout, RevealError>) {
    match locate_session(l, program, ctx) {
        Option::None => (l, Err(RevealError::Fatal(ErrorCode::MissingRecord))),
        Option::Some((ck, cb, coin)) => {
            if coin.bump != cb {
                (l, Err(RevealError::Fatal(ErrorCode::MissingRecord)))
            } else if !reveal_parties_match(ctx, coin) {
                (l, Err(RevealError::Fatal(ErrorCode::Unauthorized)))
            } else if coin.state == CoinState::Resolved {
                (l, Err(RevealError::Fatal(ErrorCode::AlreadyCompleted)))
            } else if coin.state == CoinState::Created {
                (l, Err(RevealError::Fatal(ErrorCode::NotYetFlipping)))
            } else {
                match requester_account(l, ctx.requester@) {
                    Option::None => (l, Err(RevealError::Fatal(ErrorCode::MissingRecord))),
                    Option::Some(req) => {
                        if !req.authority.is_derived_key(ck@) {
                            (l, Err(RevealError::Fatal(ErrorCode::Unauthorized)))
                        } else {
                            match req.result {
                                Option::None => (l, Err(RevealError::NotReady)),
                                Option::Some(value) => {
                                    match derivation_of(
                                        vault_seed_tag(),
                                        coin.initiator@,
                                        program,
                                    ) {
                                        Option::None => (
                                            l,
                                            Err(RevealError::Fatal(ErrorCode::MissingRecord)),
                                        ),
                                        Option::Some((vk, vb)) => {
                                            if ctx.vault@ != vk@ {
                                                (
                                                    l,
                                                    Err(
                                                        RevealError::Fatal(
                                                            ErrorCode::MissingRecord,
                                                        ),
                                                    ),
                                                )
                                            } else {
                                                match vault_account(l, vk@) {
                                                    Option::None => (
                                                        l,
                                                        Err(
                                                            RevealError::Fatal(
                                                                ErrorCode::MissingRecord,
                                                            ),
                                                        ),
                                                    ),
                                                    Option::Some(vault) => {
                                                        if vault.bump != vb {
                                                            (
                                                                l,
                                                                Err(
                                                                    RevealError::Fatal(
                                                                        ErrorCode::MissingRecord,
                                                                    ),
                                                                ),
                                                            )
                                                        } else {
                                                            let cross = outcome_is_cross(value);
                                                            let winner = if cross {
                                                                coin.initiator
                                                            } else {
                                                                coin.acceptor
                                                            };
                                                            (
                                                                l.insert(
                                                                    vk@,
                                                                    AccountData::Vault(
                                                                        Vault {
                                                                            bump: vb,
                                                                            balance: 0,
                                                                        },
                                                                    ),
                                                                ).insert(
                                                                    ck@,
                                                                    AccountData::Coin(
                                                                        Coin {
                                                                            state:
                                                                                CoinState::Resolved,
                                                                            is_cross: cross,
                                                                            ..coin
                                                                        },
                                                                    ),
                                                                ),
                                                                Ok(
                                                                    Payout {
                                                                        to: winner,
                                                                        amount: vault.balance,
                                                                    },
                                                                ),
                                                            )
                                                        }
                                                    }
                                                }
                                            }
                                        }
                                    }
                                }
                            }
                        }
                    }
                }
            }
        }
    }
}

/// Looks up the session a party's identity derives to.
fn lookup_session(l: &Ledger, party: &Pubkey) -> (r: Option<(Pubkey, u8, Coin)>)
    requires
        l.wf(),
    ensures
        r == session_lookup(l@, l.program(), *party),
{
    let program = l.program_id();
    let coin_tag = seed_bytes(SeedTag::CoinSeed);
    match find_derived_address(&coin_tag, party, &program) {
        Option::None => None,
        Option::Some((ck, cb)) => match l.get(&ck) {
            Option::None => None,
            Option::Some(d) => match d.as_coin() {
                Option::None => None,
                Option::Some(coin) => Some((ck, cb, coin)),
            },
        },
    }
}

/// Reveals the outcome and pays the vault out to the winner.
///
/// Either registered party may call; anyone else is refused. The outcome is
/// read from the session's own requester resource — the one whose authority
/// is the session's coin record — once the oracle has fulfilled it; until
/// then the call fails with the retryable not-ready condition and changes
/// nothing.
pub fn reveal_coin(l: &mut Ledger, ctx: &RevealCoin) -> (r: Result<Payout, RevealError>)
    requires
        old(l).wf(),
    ensures
        final(l).wf(),
        final(l).program() == old(l).program(),
        (final(l)@, r) == reveal_coin_spec(old(l)@, old(l).program(), *ctx),
{
    let located = match lookup_session(l, &ctx.initiator_or_acceptor) {
        Option::Some(t) => Some(t),
        Option::None => lookup_session(l, &ctx.other),
    };
    let (ck, cb, coin) = match located {
        Option::Some(t) => t,
        Option::None => {
            return Err(RevealError::Fatal(ErrorCode::MissingRecord));
        }
    };
    if coin.bump != cb {
        return Err(RevealError::Fatal(ErrorCode::MissingRecord));
    }
    let caller_is_initiator = key_eq(&ctx.initiator_or_acceptor, &coin.initiator) && key_eq(
        &ctx.other,
        &coin.acceptor,
    );
    let caller_is_acceptor = key_eq(&ctx.initiator_or_acceptor, &coin.acceptor) && key_eq(
        &ctx.other,
        &coin.initiator,
    );
    if !(caller_is_initiator || caller_is_acceptor) {
        return Err(RevealError::Fatal(ErrorCode::Unauthorized));
    }
    match coin.state {
        CoinState::Resolved => {
            return Err(RevealError::Fatal(ErrorCode::AlreadyCompleted));
        }
        CoinState::Created => {
            return Err(RevealError::Fatal(ErrorCode::NotYetFlipping));
        }
        CoinState::Flipping => {}
    }
    let req = match l.get(&ctx.requester) {
        Option::Some(d) => match d.as_requester() {
            Option::Some(rq) => rq,
            Option::None => {
                return Err(RevealError::Fatal(ErrorCode::MissingRecord));
            }
        },
        Option::None => {
            return Err(RevealError::Fatal(ErrorCode::MissingRecord));
        }
    };
    let authorized = match req.authority {
        Authority::Derived(d) => key_eq(&d, &ck),
        Authority::External(_) => false,
    };
    if !authorized {
        return Err(RevealError::Fatal(ErrorCode::Unauthorized));
    }
    let value = match req.result {
        Option::Some(v) => v,
        Option::None => {
            return Err(RevealError::NotReady);
        }
    };
    let program = l.program_id();
    let vault_tag = seed_bytes(SeedTag::VaultSeed);
    let (vk, vb) = match find_derived_address(&vault_tag, &coin.initiator, &program) {
        Option::Some(p) => p,
        Option::None => {
            return Err(RevealError::Fatal(ErrorCode::MissingRecord));
        }
    };
    if !key_eq(&ctx.vault, &vk) {
        return Err(RevealError::Fatal(ErrorCode::MissingRecord));
    }
    let vault = match l.get(&vk) {
        Option::Some(d) => match d.as_vault() {
            Option::Some(v) => v,
            Option::None => {
                return Err(RevealError::Fatal(ErrorCode::MissingRecord));
            }
        },
        Option::None => {
            return Err(RevealError::Fatal(ErrorCode::MissingRecord));
        }
    };
    if vault.bump != vb {
        return Err(RevealError::Fatal(ErrorCode::MissingRecord));
    }
    let cross = value % 2 == 0;
    let winner = if cross {
        coin.initiator
    } else {
        coin.acceptor
    };
    let amount = vault.balance;
    let vault_stored = l.set(&vk, AccountData::Vault(Vault { bump: vb, balance: 0 }));
    let coin_stored = l.set(
        &ck,
        AccountData::Coin(Coin { state: CoinState::Resolved, is_cross: cross, ..coin }),
    );
    proof {
        assert(vault_stored);
        assert(coin_stored);
    }
    Ok(Payout { to: winner, amount })
}

} // verus!
