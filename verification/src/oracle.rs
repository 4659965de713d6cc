use vstd::prelude::*;
use crate::keys::{Pubkey, key_eq, seed_bytes, tag_bytes, DerivedSigner};
use crate::accounts::{AccountData, Authority, Requester};
use crate::error::ErrorCode;
use crate::ledger::Ledger;
use crate::pda::{derivation_of, find_derived_address};

verus! {

/// The transition `transfer_authority` makes on a requester resource:
/// only the current external authority may delegate; on success the new
/// authority replaces it, on failure nothing changes.
pub open spec fn transfer_authority_spec(
    req: Requester,
    caller: Seq<u8>,
    new_authority: Authority,
) -> (Requester, Result<(), ErrorCode>) {
    if req.authority.is_external_key(caller) {
        (Requester { authority: new_authority, ..req }, Ok(()))
    } else {
        (req, Err(ErrorCode::Unauthorized))
    }
}

/// Reassigns control of a requester resource, as the oracle service's
/// authority-transfer operation does: the authenticated caller must be its
/// current external authority.
pub fn transfer_authority(req: &mut Requester, caller: &Pubkey, new_authority: Authority) -> (r:
    Result<(), ErrorCode>)
    ensures
        (*final(req), r) == transfer_authority_spec(*old(req), caller@, new_authority),
{
    match req.authority {
        Authority::External(current) => {
            if key_eq(&current, caller) {
                req.authority = new_authority;
                Ok(())
            } else {
                Err(ErrorCode::Unauthorized)
            }
        }
        Authority::Derived(_) => Err(ErrorCode::Unauthorized),
    }
}

/// The transition `request_random` makes on a requester resource. The
/// signer credential proves itself by re-derivation: its seed descriptor
/// and factor must re-derive to exactly the derived address that holds
/// authority over the resource. The referenced oracle must be the one the
/// resource was bound to, and only one request may be outstanding.
pub open spec fn request_random_spec(
    req: Requester,
    signer: DerivedSigner,
    oracle: Seq<u8>,
    program: Seq<u8>,
) -> (Requester, Result<(), ErrorCode>) {
    match derivation_of(tag_bytes(signer.tag), signer.identity@, program) {
        Option::None => (req, Err(ErrorCode::Unauthorized)),
        Option::Some((addr, factor)) => {
            if factor != signer.factor {
                (req, Err(ErrorCode::Unauthorized))
            } else if !req.authority.is_derived_key(addr@) {
                (req, Err(ErrorCode::Unauthorized))
            } else if req.oracle@ != oracle {
                (req, Err(ErrorCode::WrongOracle))
            } else if req.pending {
                (req, Err(ErrorCode::InflightRequest))
            } else {
                (Requester { pending: true, result: None, ..req }, Ok(()))
            }
        }
    }
}

/// Issues a randomness request through a requester resource, as the oracle
/// service's request operation does, signed by the derived credential
/// rather than by any wallet key. The oracle-vault parameter carries the
/// fee account of the oracle service; its bookkeeping is the service's own.
pub fn request_random(
    req: &mut Requester,
    signer: &DerivedSigner,
    oracle: &Pubkey,
    _oracle_vault: &Pubkey,
    program: &Pubkey,
) -> (r: Result<(), ErrorCode>)
    ensures
        (*final(req), r) == request_random_spec(*old(req), *signer, oracle@, program@),
{
    let tag_vec = seed_bytes(signer.tag);
    match find_derived_address(&tag_vec, &signer.identity, program) {
        Option::None => Err(ErrorCode::Unauthorized),
        Option::Some((addr, factor)) => {
            if factor != signer.factor {
                return Err(ErrorCode::Unauthorized);
            }
            let authorized = match req.authority {
                Authority::Derived(d) => key_eq(&d, &addr),
                Authority::External(_) => false,
            };
            if !authorized {
                return Err(ErrorCode::Unauthorized);
            }
            if !key_eq(&req.oracle, oracle) {
                return Err(ErrorCode::WrongOracle);
            }
            if req.pending {
                return Err(ErrorCode::InflightRequest);
            }
            req.pending = true;
            req.result = None;
            Ok(())
        }
    }
}

/// The write the oracle makes when it fulfills an outstanding request:
/// the resolved outcome lands in the resource and the request stops being
/// pending. A resource with no outstanding request is left alone.
pub open spec fn fulfill_spec(req: Requester, value: u64) -> (Requester, Result<(), ErrorCode>) {
    if req.pending {
        (Requester { pending: false, result: Some(value), ..req }, Ok(()))
    } else {
        (req, Err(ErrorCode::MissingRecord))
    }
}

/// The oracle service's setup of a requester resource, as the escrow core
/// relies on it: bound to one oracle, controlled by its external owner,
/// with no request outstanding.
pub open spec fn fresh_requester(owner: Pubkey, oracle: Pubkey) -> Requester {
    Requester { authority: Authority::External(owner), oracle, pending: false, result: None }
}

/// What setting up a requester resource does to the store: one-shot
/// creation at the given address.
pub open spec fn init_requester_spec(
    l: Map<Seq<u8>, AccountData>,
    addr: Pubkey,
    owner: Pubkey,
    oracle: Pubkey,
) -> (Map<Seq<u8>, AccountData>, Result<(), ErrorCode>) {
    if l.contains_key(addr@) {
        (l, Err(ErrorCode::AlreadyCompleted))
    } else {
        (l.insert(addr@, AccountData::Requester(fresh_requester(owner, oracle))), Ok(()))
    }
}

/// Sets up a requester resource in the store.
pub fn init_requester(l: &mut Ledger, addr: Pubkey, owner: Pubkey, oracle: Pubkey) -> (r: Result<
    (),
    ErrorCode,
>)
    requires
        old(l).wf(),
    ensures
        final(l).wf(),
        final(l).program() == old(l).program(),
        (final(l)@, r) == init_requester_spec(old(l)@, addr, owner, oracle),
{
    let created = l.insert_new(addr, AccountData::Requester(Requester {
        authority: Authority::External(owner),
        oracle,
        pending: false,
        result: None,
    }));
    if created {
        Ok(())
    } else {
        Err(ErrorCode::AlreadyCompleted)
    }
}

/// What the oracle's fulfillment does to the store: the requester resource
/// at the address receives the outcome if it has a request outstanding;
/// anything else is left alone.
pub open spec fn fulfill_request_spec(
    l: Map<Seq<u8>, AccountData>,
    addr: Seq<u8>,
    value: u64,
) -> (Map<Seq<u8>, AccountData>, Result<(), ErrorCode>) {
    if !l.contains_key(addr) {
        (l, Err(ErrorCode::MissingRecord))
    } else {
        match l[addr].spec_as_requester() {
            Option::None => (l, Err(ErrorCode::MissingRecord)),
            Option::Some(req) => {
                let (req2, r) = fulfill_spec(req, value);
                if r is Ok {
                    (l.insert(addr, AccountData::Requester(req2)), Ok(()))
                } else {
                    (l, r)
                }
            }
        }
    }
}

/// Applies the oracle's out-of-band fulfillment to the requester resource
/// stored at an address.
pub fn fulfill_request(l: &mut Ledger, addr: &Pubkey, value: u64) -> (r: Result<(), ErrorCode>)
    requires
        old(l).wf(),
    ensures
        final(l).wf(),
        final(l).program() == old(l).program(),
        (final(l)@, r) == fulfill_request_spec(old(l)@, addr@, value),
{
    let data = match l.get(addr) {
        Option::Some(d) => d,
        Option::None => {
            return Err(ErrorCode::MissingRecord);
        }
    };
    let req = match data.as_requester() {
        Option::Some(req) => req,
        Option::None => {
            return Err(ErrorCode::MissingRecord);
        }
    };
    if !req.pending {
        return Err(ErrorCode::MissingRecord);
    }
    let updated = Requester { pending: false, result: Some(value), ..req };
    let stored = l.set(addr, AccountData::Requester(updated));
    proof {
        assert(stored);
    }
    Ok(())
}

} // verus!
