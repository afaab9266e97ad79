//! The swap state machine: creating a swap, releasing its funds against the
//! secret, and returning them after the deadline.

use crate::digest::{host_sha256, sha256, MAX_PREIMAGE_LEN};
use crate::effects::{Invocation, Receipt, SwapEvent, Transfer};
use crate::error::SwapError;
use crate::identity::{same_digest, Address};
use crate::ledger::SwapLedger;
use crate::order::SwapOrder;
use crate::rules::{
    fresh_order, initiate_outcome, refund_outcome, seen, withdraw_outcome, GRACE_PERIOD,
    MAX_WINDOW, MIN_WINDOW,
};
use vstd::prelude::*;

verus! {

/// The four operations of the swap ledger. Each one runs on the store as the
/// host has read it, in the context of one invocation. It either is refused,
/// with the error of the first condition that fails and the store left as it
/// was, or changes the store and returns what the host is to do.
pub trait StellarHTLCTrait {
    /// Creates a swap: escrows `amount` of `asset` from the caller, to be
    /// released to `participant` against the preimage of `hashlock` before
    /// `timelock`, or returned to the caller from `timelock` on. The swap's
    /// identifier is `hashlock`; a record that stood under it is replaced.
    /// The caller's counter must not be at its last value.
    fn initiate_swap(
        ledger: &mut SwapLedger,
        call: &Invocation,
        participant: Address,
        asset: Address,
        amount: i128,
        hashlock: [u8; 32],
        timelock: u32,
        ethereum_destination: String,
        ethereum_amount: String,
        ethereum_token: String,
    ) -> (created: Result<Receipt, SwapError>)
        requires
            old(ledger)@.nonce(call.caller@) < u32::MAX,
        ensures
            final(ledger)@.consistent(),
            ({
                let order = fresh_order(
                    call@,
                    participant@,
                    asset@,
                    amount,
                    hashlock@,
                    timelock,
                    ethereum_destination@,
                    ethereum_amount@,
                    ethereum_token@,
                );
                let outcome = initiate_outcome(old(ledger)@, call@, order);
                &&& final(ledger)@ == outcome.ledger
                &&& seen(created) == outcome.result
                &&& created is Ok ==> final(ledger)@.swaps == old(ledger)@.swaps.insert(
                    hashlock@,
                    order,
                )
            }),
            created is Ok <==> {
                &&& amount > 0
                &&& call.sequence + MIN_WINDOW < timelock < call.sequence + MAX_WINDOW
            },
            created is Err ==> final(ledger)@ == old(ledger)@,
            created matches Ok(receipt) ==> {
                &&& receipt.swap_id@ == hashlock@
                &&& receipt.transfer.amount == amount
                &&& receipt.transfer.asset@ == asset@
                &&& receipt.transfer.from@ == call.caller@
                &&& receipt.transfer.to@ == call.contract@
                &&& receipt.keep_until == timelock + GRACE_PERIOD
                &&& receipt@.ttl_extension(call.sequence) == timelock - call.sequence + GRACE_PERIOD
                &&& !final(ledger)@.swaps[hashlock@].withdrawn
                &&& !final(ledger)@.swaps[hashlock@].refunded
                &&& final(ledger)@.nonce(call.caller@) == old(ledger)@.nonce(call.caller@) + 1
            },
    ;

    /// Releases the funds of the swap `swap_id` to its participant, against
    /// the preimage of its hashlock and before its deadline. The preimage
    /// must not be longer than the host hashes.
    fn withdraw(
        ledger: &mut SwapLedger,
        call: &Invocation,
        swap_id: [u8; 32],
        preimage: Vec<u8>,
    ) -> (released: Result<Receipt, SwapError>)
        requires
            preimage@.len() <= MAX_PREIMAGE_LEN,
        ensures
            final(ledger)@.consistent(),
            ({
                let outcome = withdraw_outcome(
                    old(ledger)@,
                    call@,
                    swap_id@,
                    preimage@,
                    sha256(preimage@),
                );
                final(ledger)@ == outcome.ledger && seen(released) == outcome.result
            }),
            released is Ok <==> {
                &&& old(ledger)@.swap(swap_id@) matches Some(order)
                &&& !order.settled()
                &&& sha256(preimage@) == order.hashlock
                &&& call.sequence < order.timelock
                &&& call.caller@ == order.participant
            },
            released is Err ==> final(ledger)@ == old(ledger)@,
    ;

    /// Returns the funds of the swap `swap_id` to its initiator, from its
    /// deadline on.
    fn refund(
        ledger: &mut SwapLedger,
        call: &Invocation,
        swap_id: [u8; 32],
    ) -> (returned: Result<Receipt, SwapError>)
        ensures
            final(ledger)@.consistent(),
            ({
                let outcome = refund_outcome(old(ledger)@, call@, swap_id@);
                final(ledger)@ == outcome.ledger && seen(returned) == outcome.result
            }),
            returned is Ok <==> {
                &&& old(ledger)@.swap(swap_id@) matches Some(order)
                &&& !order.settled()
                &&& call.sequence >= order.timelock
                &&& call.caller@ == order.initiator
            },
            returned is Err ==> final(ledger)@ == old(ledger)@,
    ;

    /// The record of the swap `swap_id`, or `NotFound` where there is none.
    /// Nothing is changed.
    fn get_swap(ledger: &SwapLedger, swap_id: [u8; 32]) -> (found: Result<SwapOrder, SwapError>)
        ensures
            match found {
                Ok(order) => ledger@.swap(swap_id@) == Some(order@),
                Err(e) => e == SwapError::NotFound && ledger@.swap(swap_id@).is_none(),
            },
    ;
}

/// The hashed-timelock swap ledger.
pub struct StellarHTLC;

impl StellarHTLC {
    /// What `withdraw` does once the host has hashed the preimage: releases
    /// the funds of the swap `swap_id` to its participant, before its
    /// deadline, where `digest` is its hashlock.
    pub fn withdraw_with_digest(
        ledger: &mut SwapLedger,
        call: &Invocation,
        swap_id: [u8; 32],
        preimage: Vec<u8>,
        digest: [u8; 32],
    ) -> (released: Result<Receipt, SwapError>)
        ensures
            final(ledger)@.consistent(),
            ({
                let outcome = withdraw_outcome(old(ledger)@, call@, swap_id@, preimage@, digest@);
                final(ledger)@ == outcome.ledger && seen(released) == outcome.result
            }),
            released is Ok <==> {
                &&& old(ledger)@.swap(swap_id@) matches Some(order)
                &&& !order.settled()
                &&& digest@ == order.hashlock
                &&& call.sequence < order.timelock
                &&& call.caller@ == order.participant
            },
            released is Err ==> final(ledger)@ == old(ledger)@,
    {
        let order = match ledger.get(&swap_id) {
            Ok(order) => order,
            Err(e) => {
                return Err(e);
            },
        };
        if !call.caller.same_as(&order.participant) {
            return Err(SwapError::Unauthorized);
        }
        if order.is_settled() {
            return Err(SwapError::AlreadySettled);
        }
        if call.sequence >= order.timelock {
            return Err(SwapError::Expired);
        }
        if !same_digest(&digest, &order.hashlock) {
            return Err(SwapError::InvalidPreimage);
        }
        let mut settled = order.clone();
        settled.withdrawn = true;
        let transfer = Transfer {
            asset: settled.asset.clone(),
            from: call.contract.clone(),
            to: settled.participant.clone(),
            amount: settled.amount,
        };
        match ledger.put(swap_id, settled) {
            Ok(keep_until) => Ok(
                Receipt {
                    swap_id,
                    transfer,
                    event: SwapEvent::Withdrawn { swap_id, preimage },
                    keep_until,
                },
            ),
            Err(e) => Err(e),
        }
    }
}

impl StellarHTLCTrait for StellarHTLC {
    fn initiate_swap(
        ledger: &mut SwapLedger,
        call: &Invocation,
        participant: Address,
        asset: Address,
        amount: i128,
        hashlock: [u8; 32],
        timelock: u32,
        ethereum_destination: String,
        ethereum_amount: String,
        ethereum_token: String,
    ) -> (created: Result<Receipt, SwapError>) {
        proof {
            use_type_invariant(&*ledger);
            ledger.lemma_consistent();
        }
        if amount <= 0 {
            return Err(SwapError::InvalidAmount);
        }
        let now = call.sequence as u64;
        let deadline = timelock as u64;
        if deadline <= now + MIN_WINDOW as u64 {
            return Err(SwapError::TimelockTooShort);
        }
        if deadline >= now + MAX_WINDOW as u64 {
            return Err(SwapError::TimelockTooLong);
        }
        let _ = ledger.next_nonce(&call.caller);
        let order = SwapOrder {
            initiator: call.caller.clone(),
            participant,
            asset,
            amount,
            hashlock,
            timelock,
            withdrawn: false,
            refunded: false,
            ethereum_destination,
            ethereum_amount,
            ethereum_token,
        };
        let transfer = Transfer {
            asset: order.asset.clone(),
            from: order.initiator.clone(),
            to: call.contract.clone(),
            amount,
        };
        let announced = order.clone();
        match ledger.put(hashlock, order) {
            Ok(keep_until) => Ok(
                Receipt {
                    swap_id: hashlock,
                    transfer,
                    event: SwapEvent::Initiated { swap_id: hashlock, order: announced },
                    keep_until,
                },
            ),
            Err(e) => Err(e),
        }
    }

    fn withdraw(
        ledger: &mut SwapLedger,
        call: &Invocation,
        swap_id: [u8; 32],
        preimage: Vec<u8>,
    ) -> (released: Result<Receipt, SwapError>) {
        let digest = host_sha256(&preimage);
        StellarHTLC::withdraw_with_digest(ledger, call, swap_id, preimage, digest)
    }

    fn refund(
        ledger: &mut SwapLedger,
        call: &Invocation,
        swap_id: [u8; 32],
    ) -> (returned: Result<Receipt, SwapError>) {
        let order = match ledger.get(&swap_id) {
            Ok(order) => order,
            Err(e) => {
                return Err(e);
            },
        };
        if !call.caller.same_as(&order.initiator) {
            return Err(SwapError::Unauthorized);
        }
        if order.is_settled() {
            return Err(SwapError::AlreadySettled);
        }
        if call.sequence < order.timelock {
            return Err(SwapError::NotYetExpired);
        }
        let mut settled = order.clone();
        settled.refunded = true;
        let transfer = Transfer {
            asset: settled.asset.clone(),
            from: call.contract.clone(),
            to: settled.initiator.clone(),
            amount: settled.amount,
        };
        let initiator = settled.initiator.clone();
        match ledger.put(swap_id, settled) {
            Ok(keep_until) => Ok(
                Receipt {
                    swap_id,
                    transfer,
                    event: SwapEvent::Refunded { swap_id, initiator },
                    keep_until,
                },
            ),
            Err(e) => Err(e),
        }
    }

    fn get_swap(ledger: &SwapLedger, swap_id: [u8; 32]) -> (found: Result<SwapOrder, SwapError>) {
        match ledger.get(&swap_id) {
            Ok(order) => Ok(order.clone()),
            Err(e) => Err(e),
        }
    }
}

} // verus!
