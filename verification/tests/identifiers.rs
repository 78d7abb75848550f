use p2p_name_service::ident::{zero_address, AccountId, Name};
use p2p_name_service::word::{pack, unpack};

fn counting() -> [u8; 32] {
    let mut bytes = [0u8; 32];
    for (i, byte) in bytes.iter_mut().enumerate() {
        *byte = i as u8 + 1;
    }
    bytes
}

#[test]
fn bytes_are_packed_most_significant_first() {
    assert_eq!(
        pack(&counting()),
        (
            0x0102_0304_0506_0708_090a_0b0c_0d0e_0f10,
            0x1112_1314_1516_1718_191a_1b1c_1d1e_1f20
        )
    );
    assert_eq!(pack(&[0u8; 32]), (0, 0));
    assert_eq!(pack(&[0xff; 32]), (u128::MAX, u128::MAX));
    let mut last = [0u8; 32];
    last[31] = 1;
    assert_eq!(pack(&last), (0, 1));
    let mut first = [0u8; 32];
    first[0] = 0x80;
    assert_eq!(pack(&first), (1 << 127, 0));
    let mut middle = [0u8; 32];
    middle[15] = 7;
    middle[16] = 9;
    assert_eq!(pack(&middle), (7, 9 << 120));
}

#[test]
fn words_are_unpacked_most_significant_first() {
    assert_eq!(
        unpack(
            0x0102_0304_0506_0708_090a_0b0c_0d0e_0f10,
            0x1112_1314_1516_1718_191a_1b1c_1d1e_1f20
        ),
        counting()
    );
    assert_eq!(unpack(0, 0), [0u8; 32]);
    assert_eq!(unpack(u128::MAX, u128::MAX), [0xff; 32]);
    let mut last = [0u8; 32];
    last[31] = 1;
    assert_eq!(unpack(0, 1), last);
}

#[test]
fn unpacking_undoes_packing() {
    let mut bytes = counting();
    for round in 0..8u8 {
        for byte in bytes.iter_mut() {
            *byte = byte.wrapping_mul(37).wrapping_add(round);
        }
        let (hi, lo) = pack(&bytes);
        assert_eq!(unpack(hi, lo), bytes);
    }
}

#[test]
fn an_account_gives_back_its_bytes() {
    assert_eq!(AccountId::from(counting()).to_bytes(), counting());
    assert_eq!(AccountId::from([0x01; 32]).to_bytes(), [0x01; 32]);
}

#[test]
fn a_name_gives_back_its_bytes() {
    assert_eq!(Name::from(counting()).to_bytes(), counting());
    assert_eq!(Name::from([0x99; 32]).to_bytes(), [0x99; 32]);
}

#[test]
fn identifiers_are_equal_when_their_bytes_are() {
    let mut other = counting();
    other[31] ^= 1;
    assert_eq!(AccountId::from(counting()), AccountId::from(counting()));
    assert_ne!(AccountId::from(counting()), AccountId::from(other));
    assert_eq!(Name::from(counting()), Name::from(counting()));
    assert_ne!(Name::from(counting()), Name::from(other));
    let mut early = counting();
    early[0] ^= 0x80;
    assert_ne!(Name::from(counting()), Name::from(early));
    assert_ne!(AccountId::from(counting()), AccountId::from(early));
}

#[test]
fn the_zero_account_is_thirty_two_zero_bytes() {
    assert_eq!(zero_address().to_bytes(), [0u8; 32]);
    assert_eq!(zero_address(), AccountId::from([0u8; 32]));
    assert_ne!(zero_address(), AccountId::from([0x01; 32]));
}

#[test]
fn the_default_name_is_thirty_two_zero_bytes() {
    assert_eq!(Name::default().to_bytes(), [0u8; 32]);
    assert_eq!(Name::default(), Name::from([0u8; 32]));
    assert_ne!(Name::default(), Name::from([0x99; 32]));
}

#[test]
fn identifiers_are_ordered_as_their_bytes_are() {
    let mut low = [0u8; 32];
    low[31] = 0xff;
    let mut high = [0u8; 32];
    high[0] = 1;
    let mut across = [0u8; 32];
    across[16] = 1;
    let mut before = [0u8; 32];
    before[15] = 1;
    assert!(low < high);
    assert!(AccountId::from(low) < AccountId::from(high));
    assert!(Name::from(low) < Name::from(high));
    assert!(across < before);
    assert!(AccountId::from(across) < AccountId::from(before));
    assert!(Name::from(across) < Name::from(before));
    assert!(Name::from(low) < Name::from(across));
}
