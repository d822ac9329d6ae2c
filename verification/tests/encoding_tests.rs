use dstack::attestation::{register_digest, Attestation};
use dstack::encoding::hex_encode;

use sha2::Digest;

#[test]
fn hex_encode_matches_the_hex_crate() {
    let data = vec![0u8, 1, 15, 16, 171, 255, 222, 173];
    let encoded = hex_encode(&data);
    assert_eq!(encoded, hex::encode(&data).into_bytes());

    assert_eq!(hex_encode(&Vec::new()), Vec::<u8>::new());
    assert_eq!(hex_encode(&vec![0xffu8]), b"ff".to_vec());
    assert_eq!(hex_encode(&vec![0x00u8]), b"00".to_vec());
}

#[test]
fn register_digest_is_the_domain_separated_hash() {
    let pubkey = vec![17u8; 32];
    let digest = register_digest(&pubkey);

    let preimage = format!("register{}", hex::encode(&pubkey));
    let expected: [u8; 32] = sha2::Sha256::digest(preimage.as_bytes()).into();
    assert_eq!(digest, expected);

    let provider = Attestation::new();
    assert_eq!(provider.quote_report_data(&pubkey), expected);
}

#[test]
fn check_binding_compares_the_recomputed_hash() {
    let provider = Attestation::new();
    let pubkey = vec![5u8; 32];
    let other = vec![6u8; 32];
    let digest = register_digest(&pubkey);
    assert!(provider.check_binding(&digest, &pubkey));
    assert!(!provider.check_binding(&digest, &other));
}

#[test]
fn tdx_report_data_is_the_digest_zero_padded() {
    let provider = dstack::tdx::Attestation::new();
    let pubkey = vec![33u8; 32];
    let padded = provider.padded_report_data(&pubkey);
    let digest = register_digest(&pubkey);
    assert_eq!(&padded[..32], &digest[..]);
    assert_eq!(&padded[32..], &[0u8; 32][..]);
}
