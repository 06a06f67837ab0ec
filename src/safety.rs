//! The protocol's guarantees, stated over every record and every sequence of
//! calls on it, and proved from the transitions that the operations follow.
use vstd::prelude::*;

use crate::error::ErrorCode;
use crate::fee;
use crate::key::Key;
use crate::requester::Requester;

verus! {

/// One call on a record, with what the host supplies along with it.
pub enum Call {
    Request { caller: Key, oracle: Key, now: i64 },
    Publish { caller: Key, random: [u8; 64], pkt_id: [u8; 32], tls_id: [u8; 32], now: i64 },
    Transfer { caller: Key, new_authority: Key },
    Cancel { caller: Key },
}

/// Whether `call` is accepted on `r`.
pub open spec fn accepted(r: Requester, call: Call) -> bool {
    match call {
        Call::Request { caller, oracle, .. } => r.request_verdict(caller@, oracle@) is Ok,
        Call::Publish { caller, .. } => r.publish_verdict(caller@) is Ok,
        Call::Transfer { caller, .. } => r.control_verdict(caller@) is Ok,
        Call::Cancel { caller } => r.control_verdict(caller@) is Ok,
    }
}

/// The record after `call`: the operation's transition where it is accepted,
/// the record unchanged where it is refused. An accepted cancellation leaves
/// the record as it is until the host closes it.
pub open spec fn step(r: Requester, call: Call) -> Requester {
    if !accepted(r, call) {
        r
    } else {
        match call {
            Call::Request { now, .. } => r.requested(now),
            Call::Publish { random, pkt_id, tls_id, now, .. } => r.published(
                random,
                pkt_id,
                tls_id,
                now,
            ),
            Call::Transfer { new_authority, .. } => r.transferred(new_authority),
            Call::Cancel { .. } => r,
        }
    }
}

/// The record after the calls, in order.
pub open spec fn run(r: Requester, calls: Seq<Call>) -> Requester
    decreases calls.len(),
{
    if calls.len() == 0 {
        r
    } else {
        run(step(r, calls[0]), calls.drop_first())
    }
}

/// A pending record stays pending through any calls that hold no fulfilment,
/// and a new request on it fails: with `InflightRequest` where its authority
/// names its oracle.
pub proof fn lemma_request_excludes_request(r: Requester, calls: Seq<Call>)
    requires
        r.active_request,
        forall|i: int| 0 <= i < calls.len() ==> !(calls[i] is Publish),
    ensures
        run(r, calls).active_request,
        forall|caller: Seq<u8>, oracle: Seq<u8>|
            #[trigger] run(r, calls).request_verdict(caller, oracle) is Err,
        run(r, calls).request_verdict(run(r, calls).authority@, run(r, calls).oracle@) == Err::<
            (),
            ErrorCode,
        >(ErrorCode::InflightRequest),
    decreases calls.len(),
{
    if calls.len() > 0 {
        lemma_request_excludes_request(step(r, calls[0]), calls.drop_first());
    }
}

/// An idle record stays idle through any calls that hold no request, and a
/// fulfilment on it fails: with `AlreadyCompleted` where its oracle calls.
pub proof fn lemma_no_fulfilment_without_request(r: Requester, calls: Seq<Call>)
    requires
        !r.active_request,
        forall|i: int| 0 <= i < calls.len() ==> !(calls[i] is Request),
    ensures
        !run(r, calls).active_request,
        forall|caller: Seq<u8>| #[trigger] run(r, calls).publish_verdict(caller) is Err,
        run(r, calls).publish_verdict(run(r, calls).oracle@) == Err::<(), ErrorCode>(
            ErrorCode::AlreadyCompleted,
        ),
    decreases calls.len(),
{
    if calls.len() > 0 {
        lemma_no_fulfilment_without_request(step(r, calls[0]), calls.drop_first());
    }
}

/// A request that was fulfilled cannot be fulfilled again: a second
/// fulfilment by the same oracle fails with `AlreadyCompleted`.
pub proof fn lemma_fulfilment_once(
    r: Requester,
    caller: Seq<u8>,
    random: [u8; 64],
    pkt_id: [u8; 32],
    tls_id: [u8; 32],
    now: i64,
)
    requires
        r.publish_verdict(caller) is Ok,
    ensures
        r.published(random, pkt_id, tls_id, now).publish_verdict(caller) == Err::<(), ErrorCode>(
            ErrorCode::AlreadyCompleted,
        ),
{
}

/// Whoever is not the record's authority is refused a request, a transfer and
/// a cancellation with `Unauthorized`, in every state of the record; whoever is
/// not its oracle is refused a fulfilment with `Unauthorized`.
pub proof fn lemma_authorization(r: Requester, caller: Seq<u8>, oracle: Seq<u8>)
    ensures
        caller != r.authority@ ==> r.request_verdict(caller, oracle) == Err::<(), ErrorCode>(
            ErrorCode::Unauthorized,
        ),
        caller != r.authority@ ==> r.control_verdict(caller) == Err::<(), ErrorCode>(
            ErrorCode::Unauthorized,
        ),
        caller != r.oracle@ ==> r.publish_verdict(caller) == Err::<(), ErrorCode>(
            ErrorCode::Unauthorized,
        ),
{
}

/// In the fee-charging protocol too, a request by anyone but the record's
/// authority, or against a vault that names another record, fails with
/// `Unauthorized`, and so does a cancellation.
pub proof fn lemma_fee_authorization(ctx: fee::RequestRandom, cancel: fee::Cancel)
    ensures
        ctx.authority@ != ctx.requester.authority@ ==> fee::request_verdict(ctx) == Err::<
            (),
            fee::FeeError,
        >(fee::FeeError::Code(ErrorCode::Unauthorized)),
        ctx.vault.requester@ != ctx.requester_key@ ==> fee::request_verdict(ctx) is Err,
        ctx.vault.requester@ != ctx.requester_key@ && ctx.requester.request_verdict(
            ctx.authority@,
            ctx.oracle@,
        ) is Ok ==> fee::request_verdict(ctx) == Err::<(), fee::FeeError>(
            fee::FeeError::Code(ErrorCode::Unauthorized),
        ),
        cancel.authority@ != cancel.requester.authority@ ==> fee::cancel_verdict(cancel) == Err::<
            (),
            fee::FeeError,
        >(fee::FeeError::Code(ErrorCode::Unauthorized)),
{
}

/// A request by the authority that names another oracle than the bound one
/// fails with `WrongOracle`, whether or not a request is outstanding.
pub proof fn lemma_oracle_binding(r: Requester, oracle: Seq<u8>)
    ensures
        oracle != r.oracle@ ==> r.request_verdict(r.authority@, oracle) == Err::<(), ErrorCode>(
            ErrorCode::WrongOracle,
        ),
{
}

/// The authority's transfer or cancellation fails with `RequesterLocked` while
/// a request is outstanding, and is accepted while none is.
pub proof fn lemma_lock_on_mutation(r: Requester)
    ensures
        r.active_request ==> r.control_verdict(r.authority@) == Err::<(), ErrorCode>(
            ErrorCode::RequesterLocked,
        ),
        !r.active_request ==> r.control_verdict(r.authority@) == Ok::<(), ErrorCode>(()),
{
}

/// Each accepted request adds exactly one to the count; every other call,
/// refused ones included, leaves it as it was.
pub proof fn lemma_count_step(r: Requester, call: Call)
    requires
        r.count < u64::MAX,
    ensures
        call is Request && accepted(r, call) ==> step(r, call).count == r.count + 1,
        !(call is Request && accepted(r, call)) ==> step(r, call).count == r.count,
{
}

/// Over any sequence of calls the count never goes down, and it rises by at
/// most one per call.
pub proof fn lemma_count_monotone(r: Requester, calls: Seq<Call>)
    requires
        r.count + calls.len() <= u64::MAX,
    ensures
        r.count <= run(r, calls).count <= r.count + calls.len(),
    decreases calls.len(),
{
    if calls.len() > 0 {
        lemma_count_step(r, calls[0]);
        lemma_count_monotone(step(r, calls[0]), calls.drop_first());
    }
}

/// An accepted paid request moves exactly the fee from the vault to the
/// oracle, in the same step that locks the record and counts the request;
/// what the two balances hold together is kept.
pub proof fn lemma_fee_atomicity(ctx: fee::RequestRandom, now: i64)
    requires
        fee::request_verdict(ctx) is Ok,
    ensures
        fee::requested(ctx, now).vault_lamports == ctx.vault_lamports - fee::ORACLE_FEE,
        fee::requested(ctx, now).oracle_lamports == ctx.oracle_lamports + fee::ORACLE_FEE,
        fee::requested(ctx, now).vault_lamports + fee::requested(ctx, now).oracle_lamports
            == ctx.vault_lamports + ctx.oracle_lamports,
        fee::requested(ctx, now).requester == ctx.requester.requested(now),
        !ctx.requester.active_request,
{
}

} // verus!
