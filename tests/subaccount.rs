use candid::Principal;
use icp_canister_backend::subaccount::{subaccount_preimage, subaccount_of};
use icp_canister_backend::{get_deposit_subaccount, Identity};
use sha2::{Digest, Sha256};

fn identity_of(text: &str) -> Identity {
    Identity { bytes: Principal::from_text(text).unwrap().as_slice().to_vec() }
}

#[test]
fn test_get_deposit_subaccount() {
    let user = Principal::from_text("xkbqi-2qaaa-aaaah-qbpqq-cai").unwrap();
    let timelock: u64 = 123456789;

    let returned_subaccount: [u8; 32] =
        get_deposit_subaccount(Identity { bytes: user.as_slice().to_vec() }, timelock);

    let mut hasher = Sha256::new();
    hasher.update(user.as_slice());
    hasher.update(timelock.to_be_bytes());
    let expected_subaccount: [u8; 32] = hasher.finalize().into();

    assert_eq!(returned_subaccount, expected_subaccount);
}

#[test]
fn preimage_is_user_bytes_then_big_endian_timelock() {
    let user = Identity { bytes: vec![1, 2, 3] };
    let data = subaccount_preimage(&user, 0x0102030405060708);
    assert_eq!(data, vec![1, 2, 3, 1, 2, 3, 4, 5, 6, 7, 8]);
}

#[test]
fn subaccount_of_zero_timelock_hashes_eight_zero_bytes() {
    let user = Identity { bytes: vec![4] };
    let expected: [u8; 32] = Sha256::digest([4u8, 0, 0, 0, 0, 0, 0, 0, 0]).into();
    assert_eq!(subaccount_of(&user, 0), expected);
}

#[test]
fn subaccount_is_not_its_input() {
    let user = Identity { bytes: vec![] };
    let r = subaccount_of(&user, 7);
    assert_ne!(r.to_vec(), vec![0u8, 0, 0, 0, 0, 0, 0, 7]);
    assert_eq!(r[0], 0xa3);
}

#[test]
fn subaccount_is_deterministic_and_separates_pairs() {
    let a = identity_of("xkbqi-2qaaa-aaaah-qbpqq-cai");
    let b = identity_of("aaaaa-aa");
    let first = get_deposit_subaccount(identity_of("xkbqi-2qaaa-aaaah-qbpqq-cai"), 86400);
    let second = get_deposit_subaccount(identity_of("xkbqi-2qaaa-aaaah-qbpqq-cai"), 86400);
    assert_eq!(first, second);
    assert_ne!(subaccount_of(&a, 86400), subaccount_of(&a, 86401));
    assert_ne!(subaccount_of(&a, 86400), subaccount_of(&b, 86400));
}
