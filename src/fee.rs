//! The fee-charging protocol: each record is paired with a vault that the
//! authority funds, and every accepted request pays a fixed fee from the vault
//! to the oracle in the same step that locks the record.
use vstd::prelude::*;

use crate::error::ErrorCode;
use crate::key::Key;
use crate::requester::Requester;

pub use crate::base::{transfer_authority, TransferAuthority};

verus! {

/// The fee, in lamports, that each accepted request pays to the oracle.
pub const ORACLE_FEE: u64 = 495000;

/// The escrow paired with exactly one record, named by its address.
#[derive(Clone, Copy, Debug)]
pub struct Vault {
    pub requester: Key,
    pub bump: u8,
}

/// Why a fee-charging operation was refused.
#[derive(Clone, Copy, Debug, PartialEq, Eq, Structural)]
pub enum FeeError {
    /// A check of the protocol failed.
    Code(ErrorCode),
    /// The vault holds less than the fee.
    InsufficientFunds,
    /// The receiving balance would exceed what a balance can hold.
    BalanceOverflow,
}

/// What creating a record and its vault reads: the record's address, who
/// controls it and which oracle serves it.
#[derive(Clone, Copy, Debug)]
pub struct Initialize {
    pub requester: Key,
    pub authority: Key,
    pub oracle: Key,
}

/// A paid request: the record and its address, its vault and the vault's
/// balance, the signing caller, the named oracle and the oracle's balance.
#[derive(Clone, Copy, Debug)]
pub struct RequestRandom {
    pub requester: Requester,
    pub requester_key: Key,
    pub vault: Vault,
    pub vault_lamports: u64,
    pub authority: Key,
    pub oracle: Key,
    pub oracle_lamports: u64,
}

/// A fulfilment: the record, taken as the caller hands it over, and the
/// signing caller, whom the record itself must name as its oracle.
#[derive(Clone, Copy, Debug)]
pub struct PublishRandom {
    pub requester: Requester,
    pub oracle: Key,
}

/// A cancellation: the record and its address, its vault and the vault's
/// balance, the signing caller and the caller's balance.
#[derive(Clone, Copy, Debug)]
pub struct Cancel {
    pub requester: Requester,
    pub requester_key: Key,
    pub vault: Vault,
    pub vault_lamports: u64,
    pub authority: Key,
    pub authority_lamports: u64,
}

/// What a paid request meets: the protocol's checks first, then the vault's
/// back-reference, then the two balances.
pub open spec fn request_verdict(ctx: RequestRandom) -> Result<(), FeeError> {
    match ctx.requester.request_verdict(ctx.authority@, ctx.oracle@) {
        Err(e) => Err(FeeError::Code(e)),
        Ok(_) => if ctx.vault.requester@ != ctx.requester_key@ {
            Err(FeeError::Code(ErrorCode::Unauthorized))
        } else if ctx.vault_lamports < ORACLE_FEE {
            Err(FeeError::InsufficientFunds)
        } else if ctx.oracle_lamports + ORACLE_FEE > u64::MAX {
            Err(FeeError::BalanceOverflow)
        } else {
            Ok(())
        },
    }
}

/// The accounts once a paid request is accepted at time `now`: the fee has
/// moved from the vault to the oracle and the record is locked.
pub open spec fn requested(ctx: RequestRandom, now: i64) -> RequestRandom {
    RequestRandom {
        requester: ctx.requester.requested(now),
        vault_lamports: (ctx.vault_lamports - ORACLE_FEE) as u64,
        oracle_lamports: (ctx.oracle_lamports + ORACLE_FEE) as u64,
        ..ctx
    }
}

/// What a cancellation meets: the protocol's checks, the vault's
/// back-reference, and room in the authority's balance for the vault's.
pub open spec fn cancel_verdict(ctx: Cancel) -> Result<(), FeeError> {
    match ctx.requester.control_verdict(ctx.authority@) {
        Err(e) => Err(FeeError::Code(e)),
        Ok(_) => if ctx.vault.requester@ != ctx.requester_key@ {
            Err(FeeError::Code(ErrorCode::Unauthorized))
        } else if ctx.authority_lamports + ctx.vault_lamports > u64::MAX {
            Err(FeeError::BalanceOverflow)
        } else {
            Ok(())
        },
    }
}

/// Creates the record and its vault, the vault naming the record. These
/// records are addressed by their authority alone, so `uuid` stays zero.
pub fn initialize(ctx: &Initialize, request_bump: u8, vault_bump: u8, now: i64) -> (r: (
    Requester,
    Vault,
))
    ensures
        r.0 == Requester::fresh(ctx.authority, ctx.oracle, now, 0, request_bump),
        r.1 == (Vault { requester: ctx.requester, bump: vault_bump }),
{
    let vault = Vault { requester: ctx.requester, bump: vault_bump };
    let requester = Requester::new(ctx.authority, ctx.oracle, now, 0, request_bump);
    (requester, vault)
}

/// Opens a paid request: on success the fee moves from the vault to the
/// oracle and the record is locked, all in one step; on failure nothing moves.
pub fn request_random(ctx: &mut RequestRandom, now: i64) -> (r: Result<(), FeeError>)
    requires
        old(ctx).requester.count < u64::MAX,
    ensures
        r == request_verdict(*old(ctx)),
        r is Ok ==> *final(ctx) == requested(*old(ctx), now),
        r is Err ==> *final(ctx) == *old(ctx),
{
    match ctx.requester.check_request(&ctx.authority, &ctx.oracle) {
        Err(e) => {
            return Err(FeeError::Code(e));
        },
        Ok(()) => {},
    }
    if !ctx.vault.requester.same_as(&ctx.requester_key) {
        return Err(FeeError::Code(ErrorCode::Unauthorized));
    }
    let vault_lamports = match ctx.vault_lamports.checked_sub(ORACLE_FEE) {
        Some(v) => v,
        None => {
            return Err(FeeError::InsufficientFunds);
        },
    };
    let oracle_lamports = match ctx.oracle_lamports.checked_add(ORACLE_FEE) {
        Some(v) => v,
        None => {
            return Err(FeeError::BalanceOverflow);
        },
    };
    ctx.vault_lamports = vault_lamports;
    ctx.oracle_lamports = oracle_lamports;
    ctx.requester.lock(now);
    Ok(())
}

/// Fulfils the outstanding request: only the oracle that the record names may,
/// and only once.
pub fn publish_random(
    ctx: &mut PublishRandom,
    random: [u8; 64],
    pkt_id: [u8; 32],
    tls_id: [u8; 32],
    now: i64,
) -> (r: Result<(), ErrorCode>)
    ensures
        r == old(ctx).requester.publish_verdict(old(ctx).oracle@),
        r is Ok ==> final(ctx).requester == old(ctx).requester.published(
            random,
            pkt_id,
            tls_id,
            now,
        ),
        r is Ok ==> final(ctx).oracle == old(ctx).oracle,
        r is Err ==> *final(ctx) == *old(ctx),
{
    match ctx.requester.check_publish(&ctx.oracle) {
        Err(e) => Err(e),
        Ok(()) => {
            ctx.requester.fulfill(random, pkt_id, tls_id, now);
            Ok(())
        },
    }
}

/// Decides whether the record and its vault may be closed, under the same
/// guard as the base protocol, and on success drains the vault's balance to
/// the authority. The host then closes both accounts.
pub fn cancel(ctx: &mut Cancel) -> (r: Result<(), FeeError>)
    ensures
        r == cancel_verdict(*old(ctx)),
        r is Ok ==> *final(ctx) == (Cancel {
            vault_lamports: 0,
            authority_lamports: (old(ctx).authority_lamports + old(ctx).vault_lamports) as u64,
            ..*old(ctx)
        }),
        r is Err ==> *final(ctx) == *old(ctx),
{
    match ctx.requester.check_control(&ctx.authority) {
        Err(e) => {
            return Err(FeeError::Code(e));
        },
        Ok(()) => {},
    }
    if !ctx.vault.requester.same_as(&ctx.requester_key) {
        return Err(FeeError::Code(ErrorCode::Unauthorized));
    }
    match ctx.authority_lamports.checked_add(ctx.vault_lamports) {
        Some(v) => {
            ctx.authority_lamports = v;
            ctx.vault_lamports = 0;
            Ok(())
        },
        None => Err(FeeError::BalanceOverflow),
    }
}

} // verus!
