//! The base protocol: records addressed by their authority and a
//! client-chosen disambiguator, with no fee.
use vstd::prelude::*;

use crate::error::ErrorCode;
use crate::key::Key;
use crate::requester::Requester;

verus! {

/// What creating a record reads: who controls it and which oracle serves it.
#[derive(Clone, Copy, Debug)]
pub struct Initialize {
    pub authority: Key,
    pub oracle: Key,
}

/// Notice that a request was accepted, naming the record's address.
#[derive(Clone, Copy, Debug)]
pub struct RandomRequested {
    pub requester: Key,
}

/// Notice that a request was fulfilled, naming the record's address.
#[derive(Clone, Copy, Debug)]
pub struct RandomPublished {
    pub requester: Key,
}

/// A request: the record and its address, the signing caller, the named oracle.
#[derive(Clone, Copy, Debug)]
pub struct RequestRandom {
    pub requester: Requester,
    pub requester_key: Key,
    pub authority: Key,
    pub oracle: Key,
}

/// A fulfilment: the record and its address, and the signing caller.
#[derive(Clone, Copy, Debug)]
pub struct PublishRandom {
    pub requester: Requester,
    pub requester_key: Key,
    pub oracle: Key,
}

/// A hand-off of control: the record, the signing caller, the new authority.
#[derive(Clone, Copy, Debug)]
pub struct TransferAuthority {
    pub requester: Requester,
    pub authority: Key,
    pub new_authority: Key,
}

/// A cancellation: the record and the signing caller.
#[derive(Clone, Copy, Debug)]
pub struct Cancel {
    pub requester: Requester,
    pub authority: Key,
}

/// Creates the record of `ctx.authority`, bound to `ctx.oracle`, at time `now`.
pub fn initialize(ctx: &Initialize, request_bump: u8, uuid: u64, now: i64) -> (r: Requester)
    ensures
        r == Requester::fresh(ctx.authority, ctx.oracle, now, uuid, request_bump),
{
    Requester::new(ctx.authority, ctx.oracle, now, uuid, request_bump)
}

/// Opens a request: checks the caller, the oracle and the lock, in that order,
/// then locks the record and counts the request.
pub fn request_random(ctx: &mut RequestRandom, now: i64) -> (r: Result<RandomRequested, ErrorCode>)
    requires
        old(ctx).requester.count < u64::MAX,
    ensures
        r is Ok <==> old(ctx).requester.request_verdict(old(ctx).authority@, old(ctx).oracle@) is Ok,
        match r {
            Ok(event) => {
                &&& event.requester == old(ctx).requester_key
                &&& final(ctx).requester == old(ctx).requester.requested(now)
                &&& final(ctx).requester_key == old(ctx).requester_key
                &&& final(ctx).authority == old(ctx).authority
                &&& final(ctx).oracle == old(ctx).oracle
            },
            Err(e) => {
                &&& old(ctx).requester.request_verdict(old(ctx).authority@, old(ctx).oracle@) == Err::<(), ErrorCode>(e)
                &&& *final(ctx) == *old(ctx)
            },
        },
{
    match ctx.requester.check_request(&ctx.authority, &ctx.oracle) {
        Err(e) => Err(e),
        Ok(()) => {
            ctx.requester.lock(now);
            Ok(RandomRequested { requester: ctx.requester_key })
        },
    }
}

/// Fulfils the outstanding request: only the bound oracle may, and only once.
pub fn publish_random(
    ctx: &mut PublishRandom,
    random: [u8; 64],
    pkt_id: [u8; 32],
    tls_id: [u8; 32],
    now: i64,
) -> (r: Result<RandomPublished, ErrorCode>)
    ensures
        r is Ok <==> old(ctx).requester.publish_verdict(old(ctx).oracle@) is Ok,
        match r {
            Ok(event) => {
                &&& event.requester == old(ctx).requester_key
                &&& final(ctx).requester == old(ctx).requester.published(
                    random,
                    pkt_id,
                    tls_id,
                    now,
                )
                &&& final(ctx).requester_key == old(ctx).requester_key
                &&& final(ctx).oracle == old(ctx).oracle
            },
            Err(e) => {
                &&& old(ctx).requester.publish_verdict(old(ctx).oracle@) == Err::<(), ErrorCode>(e)
                &&& *final(ctx) == *old(ctx)
            },
        },
{
    match ctx.requester.check_publish(&ctx.oracle) {
        Err(e) => Err(e),
        Ok(()) => {
            ctx.requester.fulfill(random, pkt_id, tls_id, now);
            Ok(RandomPublished { requester: ctx.requester_key })
        },
    }
}

/// Hands control of an idle record to `ctx.new_authority`.
pub fn transfer_authority(ctx: &mut TransferAuthority) -> (r: Result<(), ErrorCode>)
    ensures
        r == old(ctx).requester.control_verdict(old(ctx).authority@),
        r is Ok ==> final(ctx).requester == old(ctx).requester.transferred(old(ctx).new_authority),
        r is Ok ==> final(ctx).authority == old(ctx).authority,
        r is Ok ==> final(ctx).new_authority == old(ctx).new_authority,
        r is Err ==> *final(ctx) == *old(ctx),
{
    match ctx.requester.check_control(&ctx.authority) {
        Err(e) => Err(e),
        Ok(()) => {
            ctx.requester.authority = ctx.new_authority;
            Ok(())
        },
    }
}

/// Decides whether the record may be closed: only by its authority, and only
/// while no request is outstanding. On `Ok` the host closes the record and
/// returns its storage allowance to the authority.
pub fn cancel(ctx: &Cancel) -> (r: Result<(), ErrorCode>)
    ensures
        r == ctx.requester.control_verdict(ctx.authority@),
{
    ctx.requester.check_control(&ctx.authority)
}

} // verus!
