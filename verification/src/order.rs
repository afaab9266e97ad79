//! The record of one swap.

use crate::identity::Address;
use crate::rules::GRACE_PERIOD;
use vstd::prelude::*;

verus! {

/// One escrowed swap. It is created open, and is settled at most once: either
/// withdrawn by the participant or refunded to the initiator.
#[derive(Debug, PartialEq, Eq)]
pub struct SwapOrder {
    /// The depositor, who may reclaim the funds once the deadline is reached.
    pub initiator: Address,
    /// The counterparty, who may withdraw the funds by revealing the secret.
    pub participant: Address,
    /// The asset held in escrow.
    pub asset: Address,
    /// The escrowed quantity, always positive.
    pub amount: i128,
    /// The SHA-256 digest of the secret; it is also the swap's identifier.
    pub hashlock: [u8; 32],
    /// The ledger sequence from which a refund is legal and a withdrawal is not.
    pub timelock: u32,
    /// Whether the funds were released to the participant.
    pub withdrawn: bool,
    /// Whether the funds were returned to the initiator.
    pub refunded: bool,
    /// Where the counterpart leg pays out; passed through unread.
    pub ethereum_destination: String,
    /// The amount of the counterpart leg; passed through unread.
    pub ethereum_amount: String,
    /// The token of the counterpart leg; passed through unread.
    pub ethereum_token: String,
}

/// A swap record as a mathematical value.
#[verifier::ext_equal]
pub struct OrderView {
    pub initiator: Seq<u8>,
    pub participant: Seq<u8>,
    pub asset: Seq<u8>,
    pub amount: i128,
    pub hashlock: Seq<u8>,
    pub timelock: u32,
    pub withdrawn: bool,
    pub refunded: bool,
    pub ethereum_destination: Seq<char>,
    pub ethereum_amount: Seq<char>,
    pub ethereum_token: Seq<char>,
}

impl OrderView {
    /// The swap was withdrawn or refunded: no further step is legal.
    pub open spec fn settled(self) -> bool {
        self.withdrawn || self.refunded
    }

    /// What holds of every record at all times.
    pub open spec fn valid(self) -> bool {
        &&& self.amount > 0
        &&& !(self.withdrawn && self.refunded)
        &&& self.hashlock.len() == 32
    }

    /// The ledger sequence through which the host must keep the record: the
    /// grace period past its deadline.
    pub open spec fn kept_until(self) -> int {
        self.timelock + GRACE_PERIOD
    }

    /// This record after the funds were released to the participant.
    pub open spec fn after_withdrawal(self) -> OrderView {
        OrderView { withdrawn: true, ..self }
    }

    /// This record after the funds were returned to the initiator.
    pub open spec fn after_refund(self) -> OrderView {
        OrderView { refunded: true, ..self }
    }
}

impl View for SwapOrder {
    type V = OrderView;

    open spec fn view(&self) -> OrderView {
        OrderView {
            initiator: self.initiator@,
            participant: self.participant@,
            asset: self.asset@,
            amount: self.amount,
            hashlock: self.hashlock@,
            timelock: self.timelock,
            withdrawn: self.withdrawn,
            refunded: self.refunded,
            ethereum_destination: self.ethereum_destination@,
            ethereum_amount: self.ethereum_amount@,
            ethereum_token: self.ethereum_token@,
        }
    }
}

impl Clone for SwapOrder {
    fn clone(&self) -> (copy: Self)
        ensures
            copy@ == self@,
    {
        SwapOrder {
            initiator: self.initiator.clone(),
            participant: self.participant.clone(),
            asset: self.asset.clone(),
            amount: self.amount,
            hashlock: self.hashlock,
            timelock: self.timelock,
            withdrawn: self.withdrawn,
            refunded: self.refunded,
            ethereum_destination: self.ethereum_destination.clone(),
            ethereum_amount: self.ethereum_amount.clone(),
            ethereum_token: self.ethereum_token.clone(),
        }
    }
}

impl SwapOrder {
    /// Whether the swap was withdrawn or refunded.
    pub fn is_settled(&self) -> (settled: bool)
        ensures
            settled == self@.settled(),
    {
        self.withdrawn || self.refunded
    }

    /// The ledger sequence through which the host must keep the record.
    pub fn kept_until(&self) -> (until: u64)
        ensures
            until == self@.kept_until(),
    {
        self.timelock as u64 + GRACE_PERIOD as u64
    }

    /// Whether the record is one that the ledger may hold.
    pub fn is_valid(&self) -> (valid: bool)
        ensures
            valid == self@.valid(),
    {
        self.amount > 0 && !(self.withdrawn && self.refunded)
    }
}

} // verus!
