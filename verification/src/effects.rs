//! What an operation hands to the host: the context it ran in, the transfer
//! to perform and the event to publish.

use crate::error::SwapError;
use crate::identity::Address;
use crate::order::{OrderView, SwapOrder};
use vstd::prelude::*;

verus! {

/// What the host knows of one invocation.
#[derive(Debug, PartialEq, Eq)]
pub struct Invocation {
    /// The ledger's own address, under which escrowed funds are held.
    pub contract: Address,
    /// The identity that the host has authenticated as the caller.
    pub caller: Address,
    /// The current ledger sequence.
    pub sequence: u32,
}

/// An invocation as a mathematical value.
#[verifier::ext_equal]
pub struct InvocationView {
    pub contract: Seq<u8>,
    pub caller: Seq<u8>,
    pub sequence: u32,
}

impl View for Invocation {
    type V = InvocationView;

    open spec fn view(&self) -> InvocationView {
        InvocationView { contract: self.contract@, caller: self.caller@, sequence: self.sequence }
    }
}

/// A movement of `amount` of `asset` from one identity to another.
#[derive(Debug, PartialEq, Eq)]
pub struct Transfer {
    pub asset: Address,
    pub from: Address,
    pub to: Address,
    pub amount: i128,
}

/// A transfer as a mathematical value.
#[verifier::ext_equal]
pub struct TransferView {
    pub asset: Seq<u8>,
    pub from: Seq<u8>,
    pub to: Seq<u8>,
    pub amount: i128,
}

impl View for Transfer {
    type V = TransferView;

    open spec fn view(&self) -> TransferView {
        TransferView { asset: self.asset@, from: self.from@, to: self.to@, amount: self.amount }
    }
}

/// The notification of one step of a swap, for the relayers of the other
/// chain.
#[derive(Debug, PartialEq, Eq)]
pub enum SwapEvent {
    /// A swap was created; the whole order goes with it.
    Initiated { swap_id: [u8; 32], order: SwapOrder },
    /// The funds were released; the preimage is public from here on.
    Withdrawn { swap_id: [u8; 32], preimage: Vec<u8> },
    /// The funds went back to the initiator.
    Refunded { swap_id: [u8; 32], initiator: Address },
}

/// An event as a mathematical value.
#[verifier::ext_equal]
pub enum EventView {
    Initiated { swap_id: Seq<u8>, order: OrderView },
    Withdrawn { swap_id: Seq<u8>, preimage: Seq<u8> },
    Refunded { swap_id: Seq<u8>, initiator: Seq<u8> },
}

impl EventView {
    /// The name under which the event is published.
    pub open spec fn name(self) -> Seq<char> {
        match self {
            EventView::Initiated { .. } => "swap_initiated"@,
            EventView::Withdrawn { .. } => "withdrawn"@,
            EventView::Refunded { .. } => "refunded"@,
        }
    }
}

impl View for SwapEvent {
    type V = EventView;

    open spec fn view(&self) -> EventView {
        match self {
            SwapEvent::Initiated { swap_id, order } => EventView::Initiated {
                swap_id: swap_id@,
                order: order@,
            },
            SwapEvent::Withdrawn { swap_id, preimage } => EventView::Withdrawn {
                swap_id: swap_id@,
                preimage: preimage@,
            },
            SwapEvent::Refunded { swap_id, initiator } => EventView::Refunded {
                swap_id: swap_id@,
                initiator: initiator@,
            },
        }
    }
}

impl SwapEvent {
    /// The name under which the event is published.
    pub fn name(&self) -> (name: &'static str)
        ensures
            name@ == self@.name(),
    {
        match self {
            SwapEvent::Initiated { .. } => "swap_initiated",
            SwapEvent::Withdrawn { .. } => "withdrawn",
            SwapEvent::Refunded { .. } => "refunded",
        }
    }
}

/// What a successful operation asks of the host.
#[derive(Debug, PartialEq, Eq)]
pub struct Receipt {
    /// The swap that the operation was about.
    pub swap_id: [u8; 32],
    /// The transfer to perform.
    pub transfer: Transfer,
    /// The event to publish once the write and the transfer are through.
    pub event: SwapEvent,
    /// The ledger sequence through which the host must keep the record.
    pub keep_until: u64,
}

/// A receipt as a mathematical value.
#[verifier::ext_equal]
pub struct ReceiptView {
    pub swap_id: Seq<u8>,
    pub transfer: TransferView,
    pub event: EventView,
    pub keep_until: u64,
}

impl ReceiptView {
    /// The number of ledgers from `sequence` on for which the host must keep
    /// the record: none once `keep_until` is reached.
    pub open spec fn ttl_extension(self, sequence: u32) -> u32 {
        if self.keep_until <= sequence {
            0
        } else if self.keep_until - sequence > u32::MAX {
            u32::MAX
        } else {
            (self.keep_until - sequence) as u32
        }
    }
}

impl View for Receipt {
    type V = ReceiptView;

    open spec fn view(&self) -> ReceiptView {
        ReceiptView {
            swap_id: self.swap_id@,
            transfer: self.transfer@,
            event: self.event@,
            keep_until: self.keep_until,
        }
    }
}

/// How the host fared with a receipt.
#[derive(Clone, Copy, Debug, PartialEq, Eq, Structural)]
pub enum HostReport {
    /// The entries were written and the asset was moved.
    Completed,
    /// The asset could not be moved.
    TransferRejected,
    /// The entries could not be written.
    StorageUnavailable,
}

impl Receipt {
    /// The number of ledgers from `sequence` on for which the host must keep
    /// the record: none once `keep_until` is reached.
    pub fn ttl_extension(&self, sequence: u32) -> (ledgers: u32)
        ensures
            ledgers == self@.ttl_extension(sequence),
    {
        let now = sequence as u64;
        if self.keep_until <= now {
            0
        } else if self.keep_until - now > u32::MAX as u64 {
            u32::MAX
        } else {
            (self.keep_until - now) as u32
        }
    }

    /// The event to publish, once the host has reported on the receipt. Where
    /// the host failed there is no event, and the operation as a whole fails
    /// with the matching error; undoing what it wrote is the host's part.
    pub fn conclude(self, report: HostReport) -> (published: Result<SwapEvent, SwapError>)
        ensures
            match report {
                HostReport::Completed => published matches Ok(event) && event@ == self@.event,
                HostReport::TransferRejected => published == Err::<SwapEvent, SwapError>(
                    SwapError::TransferFailed,
                ),
                HostReport::StorageUnavailable => published == Err::<SwapEvent, SwapError>(
                    SwapError::StorageFailure,
                ),
            },
    {
        match report {
            HostReport::Completed => Ok(self.event),
            HostReport::TransferRejected => Err(SwapError::TransferFailed),
            HostReport::StorageUnavailable => Err(SwapError::StorageFailure),
        }
    }
}

} // verus!
