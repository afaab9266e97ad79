//! The rules of the swap state machine, as functions on mathematical values:
//! when each operation is refused, and what it does where it is not.

use crate::effects::{EventView, InvocationView, Receipt, ReceiptView, TransferView};
use crate::error::SwapError;
use crate::ledger::LedgerView;
use crate::order::OrderView;
use vstd::prelude::*;

verus! {

/// A deadline must lie more than this many ledgers ahead: about ten minutes,
/// so that the counterparty can still react.
pub const MIN_WINDOW: u32 = 120;

/// A deadline must lie fewer than this many ledgers ahead: about one day.
pub const MAX_WINDOW: u32 = 17280;

/// The number of ledgers past its deadline for which a record is kept.
pub const GRACE_PERIOD: u32 = 1000;

/// The order that `initiate_swap` creates: open, with the caller as initiator.
pub open spec fn fresh_order(
    call: InvocationView,
    participant: Seq<u8>,
    asset: Seq<u8>,
    amount: i128,
    hashlock: Seq<u8>,
    timelock: u32,
    ethereum_destination: Seq<char>,
    ethereum_amount: Seq<char>,
    ethereum_token: Seq<char>,
) -> OrderView {
    OrderView {
        initiator: call.caller,
        participant,
        asset,
        amount,
        hashlock,
        timelock,
        withdrawn: false,
        refunded: false,
        ethereum_destination,
        ethereum_amount,
        ethereum_token,
    }
}

/// Why a swap of `amount` with deadline `timelock` is not created at ledger
/// `sequence`, if it is not: the first of the conditions that fails.
pub open spec fn initiate_refusal(sequence: u32, amount: i128, timelock: u32) -> Option<SwapError> {
    if amount <= 0 {
        Some(SwapError::InvalidAmount)
    } else if timelock <= sequence + MIN_WINDOW {
        Some(SwapError::TimelockTooShort)
    } else if timelock >= sequence + MAX_WINDOW {
        Some(SwapError::TimelockTooLong)
    } else {
        None
    }
}

/// Why `caller` may not withdraw at ledger `sequence` with a preimage that
/// hashes to `digest`, if it may not: the first of the conditions that fails.
pub open spec fn withdraw_refusal(
    record: Option<OrderView>,
    caller: Seq<u8>,
    sequence: u32,
    digest: Seq<u8>,
) -> Option<SwapError> {
    match record {
        None => Some(SwapError::NotFound),
        Some(order) => if caller != order.participant {
            Some(SwapError::Unauthorized)
        } else if order.settled() {
            Some(SwapError::AlreadySettled)
        } else if sequence >= order.timelock {
            Some(SwapError::Expired)
        } else if digest != order.hashlock {
            Some(SwapError::InvalidPreimage)
        } else {
            None
        },
    }
}

/// Why `caller` may not take a refund at ledger `sequence`, if it may not:
/// the first of the conditions that fails.
pub open spec fn refund_refusal(
    record: Option<OrderView>,
    caller: Seq<u8>,
    sequence: u32,
) -> Option<SwapError> {
    match record {
        None => Some(SwapError::NotFound),
        Some(order) => if caller != order.initiator {
            Some(SwapError::Unauthorized)
        } else if order.settled() {
            Some(SwapError::AlreadySettled)
        } else if sequence < order.timelock {
            Some(SwapError::NotYetExpired)
        } else {
            None
        },
    }
}

/// What creating `order` asks of the host: the deposit into custody and the
/// event.
pub open spec fn initiate_receipt(call: InvocationView, order: OrderView) -> ReceiptView {
    ReceiptView {
        swap_id: order.hashlock,
        transfer: TransferView {
            asset: order.asset,
            from: order.initiator,
            to: call.contract,
            amount: order.amount,
        },
        event: EventView::Initiated { swap_id: order.hashlock, order },
        keep_until: order.kept_until() as u64,
    }
}

/// What withdrawing from `order` asks of the host: the payout to the
/// participant and the event that makes the preimage public.
pub open spec fn withdraw_receipt(
    call: InvocationView,
    order: OrderView,
    preimage: Seq<u8>,
) -> ReceiptView {
    ReceiptView {
        swap_id: order.hashlock,
        transfer: TransferView {
            asset: order.asset,
            from: call.contract,
            to: order.participant,
            amount: order.amount,
        },
        event: EventView::Withdrawn { swap_id: order.hashlock, preimage },
        keep_until: order.kept_until() as u64,
    }
}

/// What refunding `order` asks of the host: the return to the initiator and
/// the event.
pub open spec fn refund_receipt(call: InvocationView, order: OrderView) -> ReceiptView {
    ReceiptView {
        swap_id: order.hashlock,
        transfer: TransferView {
            asset: order.asset,
            from: call.contract,
            to: order.initiator,
            amount: order.amount,
        },
        event: EventView::Refunded { swap_id: order.hashlock, initiator: order.initiator },
        keep_until: order.kept_until() as u64,
    }
}

/// How an operation ends: the store it leaves, and the receipt or the error.
#[verifier::ext_equal]
pub struct Outcome {
    pub ledger: LedgerView,
    pub result: Result<ReceiptView, SwapError>,
}

/// The result of an operation as a mathematical value.
pub open spec fn seen(result: Result<Receipt, SwapError>) -> Result<ReceiptView, SwapError> {
    match result {
        Ok(receipt) => Ok(receipt@),
        Err(e) => Err(e),
    }
}

/// `initiate_swap` on the store `ledger`: a refusal leaves the store as it
/// was; otherwise the caller's counter is advanced and `order` is recorded
/// under its hashlock.
pub open spec fn initiate_outcome(
    ledger: LedgerView,
    call: InvocationView,
    order: OrderView,
) -> Outcome {
    match initiate_refusal(call.sequence, order.amount, order.timelock) {
        Some(e) => Outcome { ledger, result: Err(e) },
        None => {
            let advanced = (ledger.nonce(call.caller) + 1) as u32;
            Outcome {
                ledger: ledger.with_nonce(call.caller, advanced).with_swap(order),
                result: Ok(initiate_receipt(call, order)),
            }
        },
    }
}

/// `withdraw` on the store `ledger`, for a preimage that hashes to `digest`:
/// a refusal leaves the store as it was; otherwise the record is marked
/// withdrawn.
pub open spec fn withdraw_outcome(
    ledger: LedgerView,
    call: InvocationView,
    id: Seq<u8>,
    preimage: Seq<u8>,
    digest: Seq<u8>,
) -> Outcome {
    match withdraw_refusal(ledger.swap(id), call.caller, call.sequence, digest) {
        Some(e) => Outcome { ledger, result: Err(e) },
        None => Outcome {
            ledger: ledger.with_swap(ledger.swaps[id].after_withdrawal()),
            result: Ok(withdraw_receipt(call, ledger.swaps[id], preimage)),
        },
    }
}

/// `refund` on the store `ledger`: a refusal leaves the store as it was;
/// otherwise the record is marked refunded.
pub open spec fn refund_outcome(ledger: LedgerView, call: InvocationView, id: Seq<u8>) -> Outcome {
    match refund_refusal(ledger.swap(id), call.caller, call.sequence) {
        Some(e) => Outcome { ledger, result: Err(e) },
        None => Outcome {
            ledger: ledger.with_swap(ledger.swaps[id].after_refund()),
            result: Ok(refund_receipt(call, ledger.swaps[id])),
        },
    }
}

} // verus!
