//! The hashlock is the SHA-256 digest of the preimage.

use stellar_htlc::{
    Address, Invocation, StellarHTLC, StellarHTLCTrait, SwapError, SwapLedger, MAX_PREIMAGE_LEN,
};

const OF_EMPTY: [u8; 32] = [
    0xe3, 0xb0, 0xc4, 0x42, 0x98, 0xfc, 0x1c, 0x14, 0x9a, 0xfb, 0xf4, 0xc8, 0x99, 0x6f, 0xb9, 0x24,
    0x27, 0xae, 0x41, 0xe4, 0x64, 0x9b, 0x93, 0x4c, 0xa4, 0x95, 0x99, 0x1b, 0x78, 0x52, 0xb8, 0x55,
];
const OF_ABC: [u8; 32] = [
    0xba, 0x78, 0x16, 0xbf, 0x8f, 0x01, 0xcf, 0xea, 0x41, 0x41, 0x40, 0xde, 0x5d, 0xae, 0x22, 0x23,
    0xb0, 0x03, 0x61, 0xa3, 0x96, 0x17, 0x7a, 0x9c, 0xb4, 0x10, 0xff, 0x61, 0xf2, 0x00, 0x15, 0xad,
];
const OF_ZEROS: [u8; 32] = [
    0xde, 0x2f, 0x25, 0x60, 0x64, 0xa0, 0xaf, 0x79, 0x77, 0x47, 0xc2, 0xb9, 0x75, 0x05, 0xdc, 0x0b,
    0x9f, 0x3d, 0xf0, 0xde, 0x4f, 0x48, 0x9e, 0xac, 0x73, 0x1c, 0x23, 0xae, 0x9c, 0xa9, 0xcc, 0x31,
];

fn who(tag: u8) -> Address {
    Address::from_bytes(vec![tag; 32])
}

fn at(caller: u8, sequence: u32) -> Invocation {
    Invocation { contract: who(0xcc), caller: who(caller), sequence }
}

fn ledger_with(hashlock: [u8; 32]) -> SwapLedger {
    let mut ledger = SwapLedger::new();
    StellarHTLC::initiate_swap(
        &mut ledger,
        &at(1, 1000),
        who(2),
        who(3),
        10,
        hashlock,
        1500,
        String::new(),
        String::new(),
        String::new(),
    )
    .expect("the swap is created");
    ledger
}

#[test]
fn withdraw_hashes_the_preimage() {
    let mut ledger = ledger_with(OF_ABC);
    let released = StellarHTLC::withdraw(&mut ledger, &at(2, 1200), OF_ABC, b"abc".to_vec());
    assert!(released.is_ok());
}

#[test]
fn the_hashlock_itself_is_no_preimage() {
    let mut ledger = ledger_with(OF_ABC);
    let refused = StellarHTLC::withdraw(&mut ledger, &at(2, 1200), OF_ABC, OF_ABC.to_vec());
    assert_eq!(refused, Err(SwapError::InvalidPreimage));
}

#[test]
fn a_preimage_that_differs_in_one_byte_is_refused() {
    let mut ledger = ledger_with(OF_ABC);
    for wrong in [&b"abd"[..], &b"ab"[..], &b"abc\0"[..], &b"Abc"[..], &b""[..]] {
        let refused = StellarHTLC::withdraw(&mut ledger, &at(2, 1200), OF_ABC, wrong.to_vec());
        assert_eq!(refused, Err(SwapError::InvalidPreimage));
    }
    assert!(!StellarHTLC::get_swap(&ledger, OF_ABC).expect("the swap is recorded").withdrawn);
}

#[test]
fn the_empty_preimage_has_a_digest_too() {
    let mut ledger = ledger_with(OF_EMPTY);
    let refused = StellarHTLC::withdraw(&mut ledger, &at(2, 1200), OF_EMPTY, b"abc".to_vec());
    assert_eq!(refused, Err(SwapError::InvalidPreimage));
    let released = StellarHTLC::withdraw(&mut ledger, &at(2, 1200), OF_EMPTY, Vec::new());
    assert!(released.is_ok());
}

#[test]
fn the_longest_preimage_is_hashed() {
    assert_eq!(MAX_PREIMAGE_LEN, 65536);
    let mut ledger = ledger_with(OF_ZEROS);
    let short = StellarHTLC::withdraw(&mut ledger, &at(2, 1200), OF_ZEROS, vec![0u8; 65535]);
    assert_eq!(short, Err(SwapError::InvalidPreimage));
    let released = StellarHTLC::withdraw(&mut ledger, &at(2, 1200), OF_ZEROS, vec![0u8; 65536]);
    assert!(released.is_ok());
}

#[test]
fn withdraw_with_digest_takes_the_digest_as_given() {
    let mut ledger = ledger_with(OF_ABC);
    let refused = StellarHTLC::withdraw_with_digest(
        &mut ledger,
        &at(2, 1200),
        OF_ABC,
        b"abc".to_vec(),
        OF_EMPTY,
    );
    assert_eq!(refused, Err(SwapError::InvalidPreimage));
    let released = StellarHTLC::withdraw_with_digest(
        &mut ledger,
        &at(2, 1200),
        OF_ABC,
        b"abc".to_vec(),
        OF_ABC,
    )
    .expect("the funds are released");
    assert_eq!(released.transfer.to, who(2));
    assert_eq!(released.transfer.amount, 10);
}
