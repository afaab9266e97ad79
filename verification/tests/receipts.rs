//! What the host is handed, and what it hands back.

use stellar_htlc::{
    Address, HostReport, Invocation, Receipt, StellarHTLC, StellarHTLCTrait, SwapError, SwapEvent,
    SwapLedger, Transfer,
};

fn who(tag: u8) -> Address {
    Address::from_bytes(vec![tag; 32])
}

fn refund_receipt() -> Receipt {
    let mut ledger = SwapLedger::new();
    let id = [3u8; 32];
    StellarHTLC::initiate_swap(
        &mut ledger,
        &Invocation { contract: who(0xcc), caller: who(1), sequence: 10 },
        who(2),
        who(3),
        8,
        id,
        500,
        String::new(),
        String::new(),
        String::new(),
    )
    .expect("the swap is created");
    StellarHTLC::refund(
        &mut ledger,
        &Invocation { contract: who(0xcc), caller: who(1), sequence: 500 },
        id,
    )
    .expect("the funds are returned")
}

#[test]
fn a_completed_receipt_gives_its_event() {
    let published = refund_receipt().conclude(HostReport::Completed);
    assert_eq!(published, Ok(SwapEvent::Refunded { swap_id: [3u8; 32], initiator: who(1) }));
}

#[test]
fn a_rejected_transfer_gives_no_event() {
    let published = refund_receipt().conclude(HostReport::TransferRejected);
    assert_eq!(published, Err(SwapError::TransferFailed));
}

#[test]
fn a_failed_write_gives_no_event() {
    let published = refund_receipt().conclude(HostReport::StorageUnavailable);
    assert_eq!(published, Err(SwapError::StorageFailure));
}

#[test]
fn events_are_published_under_their_names() {
    let receipt = refund_receipt();
    assert_eq!(receipt.event.name(), "refunded");
    let withdrawn = SwapEvent::Withdrawn { swap_id: [0u8; 32], preimage: vec![1] };
    assert_eq!(withdrawn.name(), "withdrawn");

    let mut ledger = SwapLedger::new();
    let created = StellarHTLC::initiate_swap(
        &mut ledger,
        &Invocation { contract: who(0xcc), caller: who(1), sequence: 10 },
        who(2),
        who(3),
        8,
        [3u8; 32],
        500,
        String::new(),
        String::new(),
        String::new(),
    )
    .expect("the swap is created");
    assert_eq!(created.event.name(), "swap_initiated");
}

#[test]
fn a_refund_receipt_pays_the_initiator_out_of_custody() {
    let receipt = refund_receipt();
    assert_eq!(receipt.swap_id, [3u8; 32]);
    assert_eq!(
        receipt.transfer,
        Transfer { asset: who(3), from: who(0xcc), to: who(1), amount: 8 }
    );
    assert_eq!(receipt.keep_until, 1500);
}

#[test]
fn nothing_is_left_to_keep_once_the_grace_period_is_over() {
    let receipt = refund_receipt();
    assert_eq!(receipt.keep_until, 1500);
    assert_eq!(receipt.ttl_extension(0), 1500);
    assert_eq!(receipt.ttl_extension(500), 1000);
    assert_eq!(receipt.ttl_extension(1499), 1);
    assert_eq!(receipt.ttl_extension(1500), 0);
    assert_eq!(receipt.ttl_extension(1501), 0);
    assert_eq!(receipt.ttl_extension(u32::MAX), 0);
}

#[test]
fn a_span_of_ledgers_that_no_counter_holds_is_cut_short() {
    let receipt = Receipt {
        swap_id: [0u8; 32],
        transfer: Transfer { asset: who(3), from: who(0xcc), to: who(1), amount: 8 },
        event: SwapEvent::Refunded { swap_id: [0u8; 32], initiator: who(1) },
        keep_until: u64::from(u32::MAX) + 1000,
    };
    assert_eq!(receipt.ttl_extension(0), u32::MAX);
    assert_eq!(receipt.ttl_extension(999), u32::MAX);
    assert_eq!(receipt.ttl_extension(1000), u32::MAX);
    assert_eq!(receipt.ttl_extension(1001), u32::MAX - 1);
}

#[test]
fn a_new_record_is_kept_for_the_grace_period_past_its_deadline() {
    let mut ledger = SwapLedger::new();
    for (sequence, timelock, expected) in
        [(0u32, 121u32, 1121u32), (10, 500, 1490), (4_000_000, 4_017_279, 18_279)]
    {
        let receipt = StellarHTLC::initiate_swap(
            &mut ledger,
            &Invocation { contract: who(0xcc), caller: who(1), sequence },
            who(2),
            who(3),
            8,
            [3u8; 32],
            timelock,
            String::new(),
            String::new(),
            String::new(),
        )
        .expect("the swap is created");
        assert_eq!(receipt.keep_until, u64::from(timelock) + 1000);
        assert_eq!(receipt.ttl_extension(sequence), expected);
        assert_eq!(receipt.ttl_extension(sequence), timelock - sequence + 1000);
    }
}
