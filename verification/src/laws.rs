//! What holds of the swap state machine on every store and for every input.

use crate::effects::{InvocationView, ReceiptView};
use crate::error::SwapError;
use crate::ledger::LedgerView;
use crate::order::OrderView;
use crate::rules::{
    initiate_outcome, refund_outcome, refund_refusal, withdraw_outcome, withdraw_refusal, Outcome,
    MAX_WINDOW, MIN_WINDOW,
};
use vstd::prelude::*;

verus! {

/// One call of an operation, with everything it is given.
pub enum Operation {
    /// `initiate_swap`, creating `order`.
    Initiate { call: InvocationView, order: OrderView },
    /// `withdraw` from the swap `id`, with a preimage that hashes to `digest`.
    Withdraw { call: InvocationView, id: Seq<u8>, preimage: Seq<u8>, digest: Seq<u8> },
    /// `refund` of the swap `id`.
    Refund { call: InvocationView, id: Seq<u8> },
}

impl Operation {
    /// Whether the call settles the swap `id`: a `withdraw` or a `refund` of it.
    pub open spec fn settles(self, id: Seq<u8>) -> bool {
        match self {
            Operation::Initiate { .. } => false,
            Operation::Withdraw { id: target, .. } => target == id,
            Operation::Refund { id: target, .. } => target == id,
        }
    }

    /// Whether the call creates a swap under the identifier `id`.
    pub open spec fn creates(self, id: Seq<u8>) -> bool {
        self matches Operation::Initiate { order, .. } && order.hashlock == id
    }

    /// Whether the call creates a record that the store may hold: an open
    /// one with a hashlock of 32 bytes.
    pub open spec fn well_formed(self) -> bool {
        self matches Operation::Initiate { order, .. } ==> order.hashlock.len() == 32
            && !order.withdrawn && !order.refunded
    }
}

/// How `operation` ends on the store `ledger`.
pub open spec fn apply(ledger: LedgerView, operation: Operation) -> Outcome {
    match operation {
        Operation::Initiate { call, order } => initiate_outcome(ledger, call, order),
        Operation::Withdraw { call, id, preimage, digest } => withdraw_outcome(
            ledger,
            call,
            id,
            preimage,
            digest,
        ),
        Operation::Refund { call, id } => refund_outcome(ledger, call, id),
    }
}

/// The store after `operation` was called `times` times in a row.
pub open spec fn repeated(ledger: LedgerView, operation: Operation, times: nat) -> LedgerView
    decreases times,
{
    if times == 0 {
        ledger
    } else {
        repeated(apply(ledger, operation).ledger, operation, (times - 1) as nat)
    }
}

/// How many withdrawals and refunds of the swap `id` succeed when
/// `operations` are called one after the other from the store `ledger` on.
pub open spec fn settlements(ledger: LedgerView, id: Seq<u8>, operations: Seq<Operation>) -> nat
    decreases operations.len(),
{
    if operations.len() == 0 {
        0
    } else {
        let first = apply(ledger, operations.first());
        (if operations.first().settles(id) && first.result is Ok {
            1nat
        } else {
            0nat
        }) + settlements(first.ledger, id, operations.drop_first())
    }
}

/// Every operation keeps the store consistent: each record stays valid, with
/// a positive amount and at most one of its two flags set, under its own
/// hashlock.
pub proof fn operations_keep_records_valid(ledger: LedgerView, operation: Operation)
    requires
        ledger.consistent(),
        operation.well_formed(),
    ensures
        apply(ledger, operation).ledger.consistent(),
{
}

/// A refused operation changes nothing, and no receipt comes of it: neither
/// a transfer nor an event.
pub proof fn refusal_changes_nothing(ledger: LedgerView, operation: Operation)
    ensures
        apply(ledger, operation).result is Err ==> apply(ledger, operation).ledger == ledger,
{
}

/// A refused operation is refused again, for the same reason, however often
/// it is repeated, and the store stays as it was.
pub proof fn refusal_repeats(ledger: LedgerView, operation: Operation, times: nat)
    requires
        apply(ledger, operation).result is Err,
    ensures
        repeated(ledger, operation, times) == ledger,
        apply(repeated(ledger, operation, times), operation) == apply(ledger, operation),
    decreases times,
{
    if times > 0 {
        refusal_repeats(ledger, operation, (times - 1) as nat);
    }
}

/// A withdrawal or a refund changes the two flags of its record and nothing
/// else: the parties, the asset, the amount, the hashlock and the deadline
/// stay as they were created, and every other record stays as it was.
pub proof fn settlement_keeps_terms(ledger: LedgerView, operation: Operation, id: Seq<u8>)
    requires
        ledger.consistent(),
        operation.settles(id),
    ensures
        apply(ledger, operation).ledger.nonces == ledger.nonces,
        apply(ledger, operation).ledger.swaps.dom() == ledger.swaps.dom(),
        forall|other: Seq<u8>|
            other != id && ledger.swaps.contains_key(other) ==> apply(
                ledger,
                operation,
            ).ledger.swaps[other] == ledger.swaps[other],
        ledger.swaps.contains_key(id) ==> {
            let before = ledger.swaps[id];
            let after = apply(ledger, operation).ledger.swaps[id];
            after == OrderView { withdrawn: after.withdrawn, refunded: after.refunded, ..before }
        },
{
    assert(apply(ledger, operation).ledger.swaps.dom() =~= ledger.swaps.dom());
}

/// Once a swap is settled, every further withdrawal or refund of it is
/// refused and leaves the store as it was. The party that could have settled
/// it is told `AlreadySettled`.
pub proof fn settled_is_final(ledger: LedgerView, operation: Operation, id: Seq<u8>)
    requires
        ledger.swaps.contains_key(id),
        ledger.swaps[id].settled(),
        operation.settles(id),
    ensures
        apply(ledger, operation).result is Err,
        apply(ledger, operation).ledger == ledger,
        ({
            let entitled = match operation {
                Operation::Withdraw { call, .. } => call.caller == ledger.swaps[id].participant,
                Operation::Refund { call, .. } => call.caller == ledger.swaps[id].initiator,
                Operation::Initiate { .. } => false,
            };
            entitled ==> apply(ledger, operation).result == Err::<ReceiptView, SwapError>(
                SwapError::AlreadySettled,
            )
        }),
{
}

/// A withdrawal or a refund that succeeds settles its swap.
pub proof fn success_settles(ledger: LedgerView, operation: Operation, id: Seq<u8>)
    requires
        ledger.consistent(),
        operation.settles(id),
        apply(ledger, operation).result is Ok,
    ensures
        ledger.swaps.contains_key(id),
        !ledger.swaps[id].settled(),
        apply(ledger, operation).ledger.swaps.contains_key(id),
        apply(ledger, operation).ledger.swaps[id].settled(),
{
}

/// A settled swap stays settled under every operation that does not create
/// a swap under its identifier anew.
pub proof fn settled_stays_settled(ledger: LedgerView, operation: Operation, id: Seq<u8>)
    requires
        ledger.consistent(),
        ledger.swaps.contains_key(id),
        ledger.swaps[id].settled(),
        !operation.creates(id),
    ensures
        apply(ledger, operation).ledger.swaps.contains_key(id),
        apply(ledger, operation).ledger.swaps[id] == ledger.swaps[id],
{
}

/// Of the withdrawals and refunds of one swap, whoever calls them and
/// whatever else is called in between, at most one succeeds, and none does
/// if the swap was settled before; as long as no swap is created under the
/// same identifier in between.
pub proof fn settles_at_most_once(ledger: LedgerView, id: Seq<u8>, operations: Seq<Operation>)
    requires
        ledger.consistent(),
        forall|i: int|
            0 <= i < operations.len() ==> (#[trigger] operations[i]).well_formed()
                && !operations[i].creates(id),
    ensures
        settlements(ledger, id, operations) <= 1,
        ledger.swaps.contains_key(id) && ledger.swaps[id].settled() ==> settlements(
            ledger,
            id,
            operations,
        ) == 0,
    decreases operations.len(),
{
    if operations.len() > 0 {
        let first = operations.first();
        let rest = operations.drop_first();
        let next = apply(ledger, first).ledger;
        assert forall|i: int| 0 <= i < rest.len() implies (#[trigger] rest[i]).well_formed()
            && !rest[i].creates(id) by {
            assert(rest[i] == operations[i + 1]);
        }
        operations_keep_records_valid(ledger, first);
        settles_at_most_once(next, id, rest);
        if first.settles(id) && apply(ledger, first).result is Ok {
            success_settles(ledger, first, id);
        }
        if ledger.swaps.contains_key(id) && ledger.swaps[id].settled() {
            settled_stays_settled(ledger, first, id);
            if first.settles(id) {
                settled_is_final(ledger, first, id);
            }
        }
    }
}

/// On an open swap, a withdrawal succeeds exactly when the caller is the
/// participant, the deadline is not reached and the preimage hashes to the
/// hashlock. Else it is refused with the error of the first of these that
/// fails, and the store stays as it was.
pub proof fn withdraw_succeeds_iff(
    ledger: LedgerView,
    call: InvocationView,
    id: Seq<u8>,
    preimage: Seq<u8>,
    digest: Seq<u8>,
)
    requires
        ledger.swaps.contains_key(id),
        !ledger.swaps[id].settled(),
    ensures
        ({
            let order = ledger.swaps[id];
            let outcome = withdraw_outcome(ledger, call, id, preimage, digest);
            &&& outcome.result is Ok <==> {
                &&& digest == order.hashlock
                &&& call.sequence < order.timelock
                &&& call.caller == order.participant
            }
            &&& outcome.result matches Err(e) ==> {
                &&& outcome.ledger == ledger
                &&& e == if call.caller != order.participant {
                    SwapError::Unauthorized
                } else if call.sequence >= order.timelock {
                    SwapError::Expired
                } else {
                    SwapError::InvalidPreimage
                }
            }
        }),
{
}

/// On an open swap, a refund succeeds exactly when the caller is the
/// initiator and the deadline is reached. Else it is refused with the error
/// of the first of these that fails, and the store stays as it was.
pub proof fn refund_succeeds_iff(ledger: LedgerView, call: InvocationView, id: Seq<u8>)
    requires
        ledger.swaps.contains_key(id),
        !ledger.swaps[id].settled(),
    ensures
        ({
            let order = ledger.swaps[id];
            let outcome = refund_outcome(ledger, call, id);
            &&& outcome.result is Ok <==> {
                &&& call.sequence >= order.timelock
                &&& call.caller == order.initiator
            }
            &&& outcome.result matches Err(e) ==> {
                &&& outcome.ledger == ledger
                &&& e == if call.caller != order.initiator {
                    SwapError::Unauthorized
                } else {
                    SwapError::NotYetExpired
                }
            }
        }),
{
}

/// While a swap is open, exactly one of the two ways out is legal for the
/// right caller at any ledger: withdrawal before the deadline, refund from
/// the deadline on.
pub proof fn deadline_parts_withdrawal_from_refund(order: OrderView, sequence: u32)
    requires
        !order.settled(),
    ensures
        withdraw_refusal(Some(order), order.participant, sequence, order.hashlock) is None
            <==> refund_refusal(Some(order), order.initiator, sequence) is Some,
{
}

/// A swap is created exactly when the amount is positive and the deadline
/// lies inside the window. Then one record is written, open, under the
/// hashlock, and the whole amount goes from the caller into custody.
pub proof fn initiate_creates_one_open_record(
    ledger: LedgerView,
    call: InvocationView,
    order: OrderView,
)
    requires
        !order.withdrawn,
        !order.refunded,
    ensures
        ({
            let outcome = initiate_outcome(ledger, call, order);
            &&& outcome.result is Ok <==> {
                &&& order.amount > 0
                &&& call.sequence + MIN_WINDOW < order.timelock < call.sequence + MAX_WINDOW
            }
            &&& outcome.result matches Ok(receipt) ==> {
                &&& outcome.ledger.swaps == ledger.swaps.insert(order.hashlock, order)
                &&& !outcome.ledger.swaps[order.hashlock].settled()
                &&& receipt.swap_id == order.hashlock
                &&& receipt.transfer.amount == order.amount
                &&& receipt.transfer.asset == order.asset
                &&& receipt.transfer.from == order.initiator
                &&& receipt.transfer.to == call.contract
            }
        }),
{
}

} // verus!
