use vstd::prelude::*;

use crate::error::ErrorCode;
use crate::key::Key;
use vstd::array::spec_array_fill_for_copy_type;

verus! {

/// One request/response slot: owned by an authority, bound to an oracle.
///
/// `active_request` is the lock of the record: while it is set a request is
/// outstanding, the payload fields are stale and control cannot change.
#[derive(Clone, Copy, Debug)]
pub struct Requester {
    pub authority: Key,
    pub oracle: Key,
    pub created_at: i64,
    pub count: u64,
    pub last_updated: i64,
    pub random: [u8; 64],
    pub pkt_id: [u8; 32],
    pub tls_id: [u8; 32],
    pub active_request: bool,
    pub uuid: u64,
    pub bump: u8,
}

impl Requester {
    /// A fresh record: idle, no request ever made, payloads zeroed.
    pub open spec fn fresh(
        authority: Key,
        oracle: Key,
        now: i64,
        uuid: u64,
        bump: u8,
    ) -> Requester {
        Requester {
            authority,
            oracle,
            created_at: now,
            count: 0,
            last_updated: now,
            random: spec_array_fill_for_copy_type::<u8, 64>(0u8),
            pkt_id: spec_array_fill_for_copy_type::<u8, 32>(0u8),
            tls_id: spec_array_fill_for_copy_type::<u8, 32>(0u8),
            active_request: false,
            uuid,
            bump,
        }
    }

    /// What a request by `caller` naming `oracle` meets, checks in order.
    pub open spec fn request_verdict(self, caller: Seq<u8>, oracle: Seq<u8>) -> Result<
        (),
        ErrorCode,
    > {
        if caller != self.authority@ {
            Err(ErrorCode::Unauthorized)
        } else if oracle != self.oracle@ {
            Err(ErrorCode::WrongOracle)
        } else if self.active_request {
            Err(ErrorCode::InflightRequest)
        } else {
            Ok(())
        }
    }

    /// The record once a request is accepted at time `now`.
    pub open spec fn requested(self, now: i64) -> Requester {
        Requester {
            last_updated: now,
            active_request: true,
            count: (self.count + 1) as u64,
            ..self
        }
    }

    /// What a fulfilment by `caller` meets.
    pub open spec fn publish_verdict(self, caller: Seq<u8>) -> Result<(), ErrorCode> {
        if caller != self.oracle@ {
            Err(ErrorCode::Unauthorized)
        } else if !self.active_request {
            Err(ErrorCode::AlreadyCompleted)
        } else {
            Ok(())
        }
    }

    /// The record once a fulfilment is accepted at time `now`.
    pub open spec fn published(
        self,
        random: [u8; 64],
        pkt_id: [u8; 32],
        tls_id: [u8; 32],
        now: i64,
    ) -> Requester {
        Requester { last_updated: now, active_request: false, random, pkt_id, tls_id, ..self }
    }

    /// What a change of control (a transfer or a cancellation) by `caller` meets.
    pub open spec fn control_verdict(self, caller: Seq<u8>) -> Result<(), ErrorCode> {
        if caller != self.authority@ {
            Err(ErrorCode::Unauthorized)
        } else if self.active_request {
            Err(ErrorCode::RequesterLocked)
        } else {
            Ok(())
        }
    }

    /// The record once control passes to `new_authority`.
    pub open spec fn transferred(self, new_authority: Key) -> Requester {
        Requester { authority: new_authority, ..self }
    }

    /// Creates an idle record with no request made yet.
    pub fn new(authority: Key, oracle: Key, now: i64, uuid: u64, bump: u8) -> (r: Requester)
        ensures
            r == Requester::fresh(authority, oracle, now, uuid, bump),
    {
        Requester {
            authority,
            oracle,
            created_at: now,
            count: 0,
            last_updated: now,
            random: [0u8; 64],
            pkt_id: [0u8; 32],
            tls_id: [0u8; 32],
            active_request: false,
            uuid,
            bump,
        }
    }

    /// Runs the checks of a request, first failing check first.
    pub fn check_request(&self, caller: &Key, oracle: &Key) -> (r: Result<(), ErrorCode>)
        ensures
            r == self.request_verdict(caller@, oracle@),
    {
        if !caller.same_as(&self.authority) {
            Err(ErrorCode::Unauthorized)
        } else if !oracle.same_as(&self.oracle) {
            Err(ErrorCode::WrongOracle)
        } else if self.active_request {
            Err(ErrorCode::InflightRequest)
        } else {
            Ok(())
        }
    }

    /// Takes the lock for a request that passed its checks.
    pub fn lock(&mut self, now: i64)
        requires
            old(self).count < u64::MAX,
        ensures
            *final(self) == old(self).requested(now),
    {
        self.last_updated = now;
        self.active_request = true;
        self.count = self.count + 1;
    }

    /// Runs the checks of a fulfilment.
    pub fn check_publish(&self, caller: &Key) -> (r: Result<(), ErrorCode>)
        ensures
            r == self.publish_verdict(caller@),
    {
        if !caller.same_as(&self.oracle) {
            Err(ErrorCode::Unauthorized)
        } else if !self.active_request {
            Err(ErrorCode::AlreadyCompleted)
        } else {
            Ok(())
        }
    }

    /// Stores the delivered payloads and releases the lock.
    pub fn fulfill(&mut self, random: [u8; 64], pkt_id: [u8; 32], tls_id: [u8; 32], now: i64)
        ensures
            *final(self) == old(self).published(random, pkt_id, tls_id, now),
    {
        self.last_updated = now;
        self.active_request = false;
        self.random = random;
        self.pkt_id = pkt_id;
        self.tls_id = tls_id;
    }

    /// Runs the checks of a change of control.
    pub fn check_control(&self, caller: &Key) -> (r: Result<(), ErrorCode>)
        ensures
            r == self.control_verdict(caller@),
    {
        if !caller.same_as(&self.authority) {
            Err(ErrorCode::Unauthorized)
        } else if self.active_request {
            Err(ErrorCode::RequesterLocked)
        } else {
            Ok(())
        }
    }
}

} // verus!
