use the_resistance::encoding::build_public_inputs;
use the_resistance::{Error, MAX_NEIGHBORS};

fn field(value: u32) -> Vec<u8> {
    let mut bytes = vec![0u8; 28];
    bytes.extend_from_slice(&value.to_be_bytes());
    bytes
}

fn commitment(seed: u8) -> [u8; 32] {
    let mut bytes = [0u8; 32];
    bytes[0] = seed;
    bytes[31] = seed;
    bytes
}

#[test]
fn public_inputs_have_the_fixed_layout() {
    let neighbors = vec![7u32, 0x0102_0304, 199];
    let out = build_public_inputs(&commitment(9), 1, 150, &neighbors, 3, 4);

    let mut expected = commitment(9).to_vec();
    expected.extend(field(1));
    expected.extend(field(150));
    expected.extend(field(7));
    expected.extend(field(0x0102_0304));
    expected.extend(field(199));
    for _ in 3..MAX_NEIGHBORS {
        expected.extend(field(0));
    }
    expected.extend(field(3));
    expected.extend(field(4));

    assert_eq!(out.len(), 800);
    assert_eq!(out, expected);
}

#[test]
fn public_inputs_golden_bytes() {
    let out = build_public_inputs(&[0xab; 32], 2, 0x0000_00c7, &Vec::new(), 0, 10);
    assert_eq!(&out[0..32], &[0xab; 32][..]);
    assert_eq!(&out[32..60], &[0u8; 28][..]);
    assert_eq!(&out[60..64], &[0, 0, 0, 2][..]);
    assert_eq!(&out[92..96], &[0, 0, 0, 0xc7][..]);
    assert_eq!(&out[96..736], &[0u8; 640][..]);
    assert_eq!(&out[736..768], &[0u8; 32][..]);
    assert_eq!(&out[796..800], &[0, 0, 0, 10][..]);
}

#[test]
fn big_endian_bytes_of_a_wide_value() {
    let out = build_public_inputs(&[0; 32], 0xdead_beef, 0xffff_ffff, &vec![0x8000_0001], 1, 256);
    assert_eq!(&out[60..64], &[0xde, 0xad, 0xbe, 0xef][..]);
    assert_eq!(&out[92..96], &[0xff, 0xff, 0xff, 0xff][..]);
    assert_eq!(&out[124..128], &[0x80, 0, 0, 1][..]);
    assert_eq!(&out[796..800], &[0, 0, 1, 0][..]);
}

#[test]
fn neighbors_beyond_the_count_are_zeroed() {
    let garbage = vec![11u32, 22, 33, 44, 55];
    let clean = vec![11u32, 22];
    let with_garbage = build_public_inputs(&commitment(1), 1, 5, &garbage, 2, 1);
    let without = build_public_inputs(&commitment(1), 1, 5, &clean, 2, 1);
    assert_eq!(with_garbage, without);
    assert_eq!(&with_garbage[96 + 2 * 32..736], &[0u8; 576][..]);
}

#[test]
fn count_beyond_the_list_encodes_zero_slots() {
    let out = build_public_inputs(&commitment(1), 1, 5, &vec![11u32], 20, 0);
    assert_eq!(&out[124..128], &[0, 0, 0, 11][..]);
    assert_eq!(&out[128..736], &[0u8; 608][..]);
    assert_eq!(&out[764..768], &[0, 0, 0, 20][..]);
}

#[test]
fn more_than_twenty_neighbors_fill_twenty_slots() {
    let neighbors: Vec<u32> = (1..=30).collect();
    let out = build_public_inputs(&commitment(1), 1, 5, &neighbors, 30, 0);
    assert_eq!(out.len(), 800);
    for slot in 0..20usize {
        assert_eq!(out[96 + 32 * slot + 31], (slot + 1) as u8);
    }
    assert_eq!(&out[764..768], &[0, 0, 0, 30][..]);
}

#[test]
fn encoding_is_deterministic_and_tells_inputs_apart() {
    let neighbors = vec![1u32, 2, 3];
    let a = build_public_inputs(&commitment(1), 0, 5, &neighbors, 3, 1);
    let b = build_public_inputs(&commitment(1), 0, 5, &neighbors, 3, 1);
    assert_eq!(a, b);
    assert_ne!(a, build_public_inputs(&commitment(2), 0, 5, &neighbors, 3, 1));
    assert_ne!(a, build_public_inputs(&commitment(1), 2, 5, &neighbors, 3, 1));
    assert_ne!(a, build_public_inputs(&commitment(1), 0, 6, &neighbors, 3, 1));
    assert_ne!(a, build_public_inputs(&commitment(1), 0, 5, &neighbors, 2, 1));
    assert_ne!(a, build_public_inputs(&commitment(1), 0, 5, &neighbors, 3, 0));
}

#[test]
fn error_codes_are_the_wire_codes() {
    assert_eq!(Error::GameNotFound.code(), 1);
    assert_eq!(Error::NotPlayer.code(), 2);
    assert_eq!(Error::NotYourTurn.code(), 3);
    assert_eq!(Error::GameAlreadyEnded.code(), 4);
    assert_eq!(Error::InvalidProof.code(), 5);
    assert_eq!(Error::ProofVerificationFailed.code(), 6);
    assert_eq!(Error::StarAlreadyScanned.code(), 7);
    assert_eq!(Error::InvalidStarId.code(), 8);
    assert_eq!(Error::VkNotSet.code(), 9);
    assert_eq!(Error::VkParseError.code(), 10);
    assert_eq!(Error::CommitmentMismatch.code(), 11);
    assert_eq!(Error::GameNotReady.code(), 12);
    assert_eq!(Error::InvalidActionType.code(), 13);
    assert_eq!(Error::ArmAlreadyStruck.code(), 14);
    assert_eq!(Error::InvalidResultCount.code(), 15);
    assert_eq!(Error::SelfPlay.code(), 16);
}
