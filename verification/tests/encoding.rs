use phala_registry::attestation::WorkerRegistrationInfo;
use phala_registry::primitives::{EcdhPublicKey, Sr25519Public, H256};
use phala_registry::scale::Account;

fn info(
    machine_id: Vec<u8>,
    features: Vec<u32>,
    operator: Option<u64>,
) -> WorkerRegistrationInfo<u64> {
    WorkerRegistrationInfo {
        version: 1,
        machine_id,
        pubkey: Sr25519Public([1u8; 32]),
        ecdh_pubkey: EcdhPublicKey([2u8; 32]),
        genesis_block_hash: H256([3u8; 32]),
        features,
        operator,
    }
}

#[test]
fn a_registration_is_encoded_field_by_field() {
    let mut expected = vec![1, 0, 0, 0, 12, 7, 8, 9];
    expected.extend([1u8; 32]);
    expected.extend([2u8; 32]);
    expected.extend([3u8; 32]);
    expected.extend([8, 4, 0, 0, 0, 1, 0, 0, 0]);
    expected.extend([1, 5, 0, 0, 0, 0, 0, 0, 0]);
    assert_eq!(info(vec![7, 8, 9], vec![4, 1], Some(5)).encode(), expected);
}

#[test]
fn a_registration_is_encoded_as_the_tuple_of_its_fields() {
    for (len, operator) in [(0, None), (63, Some(1)), (64, None), (16383, Some(2)), (16384, None)] {
        let machine_id = vec![9u8; len];
        let features = vec![0x01020304u32; len];
        let tuple = (
            1u32,
            machine_id.clone(),
            [1u8; 32],
            [2u8; 32],
            [3u8; 32],
            features.clone(),
            operator,
        );
        assert_eq!(
            info(machine_id, features, operator).encode(),
            parity_scale_codec::Encode::encode(&tuple)
        );
    }
}

#[test]
fn the_attested_hash_is_blake2_of_the_encoding() {
    let expected: [u8; 32] = [
        0x58, 0x3c, 0x19, 0x94, 0x57, 0xdf, 0x88, 0x22,
        0xf5, 0xcb, 0xf5, 0x47, 0xd6, 0xa8, 0x3d, 0x84,
        0xdf, 0x95, 0xaf, 0x31, 0xc1, 0x34, 0xf2, 0x85,
        0xc0, 0x56, 0x51, 0x77, 0x8d, 0x52, 0xcd, 0x2b,
    ];
    assert_eq!(info(vec![7, 8, 9], vec![4, 1], Some(5)).runtime_info_hash(), expected);
}

#[test]
fn different_statements_have_different_encodings() {
    let all = [
        info(vec![1], vec![], None),
        info(vec![], vec![1], None),
        info(vec![], vec![], Some(0)),
        info(vec![], vec![], None),
        info(vec![1], vec![1], None),
    ];
    for (i, a) in all.iter().enumerate() {
        for (j, b) in all.iter().enumerate() {
            assert_eq!(a.encode() == b.encode(), i == j);
        }
    }
}

#[test]
fn accounts_are_encoded() {
    assert_eq!(Account::encode(&0x0102030405060708u64), vec![8, 7, 6, 5, 4, 3, 2, 1]);
    let account = [7u8; 32];
    assert_eq!(<[u8; 32] as Account>::encode(&account), account.to_vec());
}
