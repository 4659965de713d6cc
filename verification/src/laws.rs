use vstd::prelude::*;
use crate::accounts::{AccountData, CoinState};
use crate::error::{ErrorCode, RevealError};
use crate::keys::coin_seed_tag;
use crate::pda::derivation_of;
use crate::protocol::{
    approve_flip_spec, coin_account, create_coin_spec, locate_session, requester_account,
    reveal_coin_spec, reveal_parties_match, session_lookup, ApproveFlip, CreateCoin, Payout,
    RevealCoin,
};

verus! {

/// Creation is one-shot per initiator: once a creation has succeeded, any
/// further creation naming the same initiator (with the same re-derived
/// coin factor) is refused as already existing, and the refusal leaves the
/// store exactly as the first creation left it.
pub proof fn lemma_create_coin_one_shot(
    l: Map<Seq<u8>, AccountData>,
    program: Seq<u8>,
    ctx1: CreateCoin,
    ctx2: CreateCoin,
    coin_bump: u8,
    vault_bump1: u8,
    vault_bump2: u8,
    now1: i64,
    now2: i64,
)
    requires
        ctx2.initiator@ == ctx1.initiator@,
        create_coin_spec(l, program, ctx1, coin_bump, vault_bump1, now1).1 is Ok,
    ensures
        ({
            let l1 = create_coin_spec(l, program, ctx1, coin_bump, vault_bump1, now1).0;
            create_coin_spec(l1, program, ctx2, coin_bump, vault_bump2, now2) == (
                l1,
                Err::<(), ErrorCode>(ErrorCode::AlreadyCompleted),
            )
        }),
{
}

/// Approval needs a created session: when no coin record stands at the
/// derived address of the initiator the call names, the approval is
/// refused for want of the record and changes nothing.
pub proof fn lemma_approve_flip_needs_session(
    l: Map<Seq<u8>, AccountData>,
    program: Seq<u8>,
    ctx: ApproveFlip,
)
    requires
        (match derivation_of(coin_seed_tag(), ctx.initiator@, program) {
            Option::None => true,
            Option::Some((ck, cb)) => coin_account(l, ck@) is None,
        }),
    ensures
        approve_flip_spec(l, program, ctx) == (l, Err::<(), ErrorCode>(ErrorCode::MissingRecord)),
{
}

/// Only one request may be in flight: after a successful approval the
/// session is flipping, and repeating the same approval is refused as in
/// flight, leaving the store — the acceptor's stake included — exactly as
/// the first approval left it.
pub proof fn lemma_approve_flip_once(
    l: Map<Seq<u8>, AccountData>,
    program: Seq<u8>,
    ctx: ApproveFlip,
)
    requires
        approve_flip_spec(l, program, ctx).1 is Ok,
    ensures
        ({
            let l1 = approve_flip_spec(l, program, ctx).0;
            approve_flip_spec(l1, program, ctx) == (
                l1,
                Err::<(), ErrorCode>(ErrorCode::InflightRequest),
            )
        }),
{
}

/// A session never approved cannot be revealed: a reveal of a session that
/// still awaits its acceptor is refused as a precondition violation and
/// changes nothing.
pub proof fn lemma_reveal_needs_flip(
    l: Map<Seq<u8>, AccountData>,
    program: Seq<u8>,
    ctx: RevealCoin,
)
    requires
        ({
            &&& locate_session(l, program, ctx) matches Some((ck, cb, coin))
            &&& coin.bump == cb
            &&& reveal_parties_match(ctx, coin)
            &&& coin.state == CoinState::Created
        }),
    ensures
        reveal_coin_spec(l, program, ctx) == (
            l,
            Err::<Payout, RevealError>(RevealError::Fatal(ErrorCode::NotYetFlipping)),
        ),
{
}

/// An unfulfilled request is retryable, not fatal: while the session is
/// flipping and the oracle has not yet written an outcome into the
/// session's requester, a reveal fails with the not-ready condition and
/// changes nothing.
pub proof fn lemma_reveal_not_ready(
    l: Map<Seq<u8>, AccountData>,
    program: Seq<u8>,
    ctx: RevealCoin,
)
    requires
        ({
            &&& locate_session(l, program, ctx) matches Some((ck, cb, coin))
            &&& coin.bump == cb
            &&& reveal_parties_match(ctx, coin)
            &&& coin.state == CoinState::Flipping
            &&& requester_account(l, ctx.requester@) matches Some(req)
            &&& req.authority.is_derived_key(ck@)
            &&& req.result is None
        }),
    ensures
        reveal_coin_spec(l, program, ctx) == (l, Err::<Payout, RevealError>(RevealError::NotReady)),
{
}

/// A session resolves once: after a successful reveal the session is
/// resolved, and repeating the same reveal is refused as already
/// completed, leaving the store — the emptied vault included — exactly as
/// the first reveal left it.
pub proof fn lemma_reveal_once(l: Map<Seq<u8>, AccountData>, program: Seq<u8>, ctx: RevealCoin)
    requires
        reveal_coin_spec(l, program, ctx).1 is Ok,
    ensures
        ({
            let l1 = reveal_coin_spec(l, program, ctx).0;
            reveal_coin_spec(l1, program, ctx) == (
                l1,
                Err::<Payout, RevealError>(RevealError::Fatal(ErrorCode::AlreadyCompleted)),
            )
        }),
{
    let l1 = reveal_coin_spec(l, program, ctx).0;
    let (ck, cb, coin) = locate_session(l, program, ctx).unwrap();
    let caller = ctx.initiator_or_acceptor;
    if session_lookup(l, program, caller) is Some {
        assert(locate_session(l1, program, ctx) is Some);
    } else {
        match derivation_of(coin_seed_tag(), caller@, program) {
            Option::None => {
                assert(session_lookup(l1, program, caller) is None);
            }
            Option::Some((k1, b1)) => {
                assert(coin_account(l, k1@) is None);
                assert(k1@ != ck@);
                assert(coin_account(l1, k1@) is None);
            }
        }
        assert(locate_session(l1, program, ctx) is Some);
    }
}

} // verus!
