use kitties::dna::{encode_seed_payload, mix_dna, random_value};
use kitties::offchain::{derived_key, validate_unsigned, UnsignedValidity};
use parity_scale_codec::Encode;

#[test]
fn seed_payload_matches_scale_encoding() {
    let seed = [9u8; 32];
    let who: u64 = 0x0102_0304_0506_0708;
    assert_eq!(encode_seed_payload(&seed, who, Some(0xAABB_CCDD)), (seed, who, Some(0xAABB_CCDDu32)).encode());
    assert_eq!(encode_seed_payload(&seed, who, None), (seed, who, None::<u32>).encode());
    let bytes = encode_seed_payload(&seed, 1, Some(2));
    assert_eq!(bytes.len(), 32 + 8 + 5);
    assert_eq!(&bytes[32..], &[1, 0, 0, 0, 0, 0, 0, 0, 1, 2, 0, 0, 0]);
}

#[test]
fn random_value_is_the_digest_of_the_payload() {
    let seed = [3u8; 32];
    let payload = encode_seed_payload(&seed, 42, Some(5));
    let code = random_value(&seed, 42, Some(5));
    assert_eq!(code, sp_crypto_hashing::blake2_128(&payload));
    assert_ne!(code.to_vec(), payload[..16].to_vec());
    assert_eq!(code, random_value(&seed, 42, Some(5)));
    assert_ne!(code, random_value(&seed, 43, Some(5)));
    assert_ne!(code, random_value(&seed, 42, Some(6)));
}

#[test]
fn mix_takes_bits_by_selector() {
    let a = [0xF0u8; 16];
    let b = [0x0Fu8; 16];
    assert_eq!(mix_dna(&a, &b, &[0u8; 16]), a);
    assert_eq!(mix_dna(&a, &b, &[0xFFu8; 16]), b);
    let mut sel = [0u8; 16];
    sel[0] = 0b1010_1010;
    sel[15] = 0xFF;
    let r = mix_dna(&a, &b, &sel);
    assert_eq!(r[0], 0b0101_1010);
    assert_eq!(r[1], 0xF0);
    assert_eq!(r[15], 0x0F);
}

#[test]
fn derived_key_appends_tag_and_block_number() {
    let key = derived_key(0x0102_0304, b"indexing_1");
    let mut expected = b"indexing_1@".to_vec();
    expected.extend_from_slice(&[4, 3, 2, 1]);
    assert_eq!(key, expected);
    let mut scale = b"indexing_1@".to_vec();
    scale.extend(7u32.encode());
    assert_eq!(derived_key(7, b"indexing_1"), scale);
    assert_eq!(derived_key(0, b""), vec![64, 0, 0, 0, 0]);
}

#[test]
fn unsigned_submissions_need_a_valid_signature() {
    assert_eq!(validate_unsigned(false, true), UnsignedValidity::UnknownCall);
    assert_eq!(validate_unsigned(false, false), UnsignedValidity::UnknownCall);
    assert_eq!(validate_unsigned(true, false), UnsignedValidity::BadProof);
    assert_eq!(
        validate_unsigned(true, true),
        UnsignedValidity::Valid {
            tag_prefix: "my-pallet",
            provides: "unsigned_extrinsic_with_signed_payload",
            priority: 100,
            longevity: 3,
            propagate: true,
        }
    );
}
