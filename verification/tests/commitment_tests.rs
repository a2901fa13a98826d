use offuscate::commitment::compute_commitment;
use offuscate::commitment::verify_commitment;

const SECRET_HASH: [u8; 32] = [0x11; 32];
const NULLIFIER: [u8; 32] = [0x22; 32];

#[test]
fn commitment_matches_known_sha256_digest() {
    // SHA-256 of the 72-byte preimage 0x11*32 || 0x22*32 || 500_000_000 LE,
    // computed independently.
    let expected: [u8; 32] = [
        228, 5, 51, 25, 74, 4, 126, 15, 121, 219, 141, 242, 28, 58, 40, 47, 179, 250, 170, 122,
        194, 135, 95, 227, 242, 48, 151, 118, 143, 47, 137, 162,
    ];
    let got = compute_commitment(&SECRET_HASH, &NULLIFIER, 500_000_000);
    assert_eq!(got, expected);
}

#[test]
fn commitment_round_trip_verifies_for_all_denominations() {
    for amount in [100_000_000u64, 500_000_000, 1_000_000_000] {
        let c = compute_commitment(&SECRET_HASH, &NULLIFIER, amount);
        assert!(verify_commitment(&c, &SECRET_HASH, &NULLIFIER, amount));
    }
}

#[test]
fn commitment_rejects_altered_secret_hash() {
    let c = compute_commitment(&SECRET_HASH, &NULLIFIER, 500_000_000);
    let mut bad = SECRET_HASH;
    bad[7] ^= 0x01;
    assert!(!verify_commitment(&c, &bad, &NULLIFIER, 500_000_000));
}

#[test]
fn commitment_rejects_altered_nullifier() {
    let c = compute_commitment(&SECRET_HASH, &NULLIFIER, 500_000_000);
    let mut bad = NULLIFIER;
    bad[31] ^= 0x80;
    assert!(!verify_commitment(&c, &SECRET_HASH, &bad, 500_000_000));
}

#[test]
fn commitment_rejects_altered_amount() {
    let c = compute_commitment(&SECRET_HASH, &NULLIFIER, 500_000_000);
    assert!(!verify_commitment(&c, &SECRET_HASH, &NULLIFIER, 500_000_001));
    assert!(!verify_commitment(&c, &SECRET_HASH, &NULLIFIER, 100_000_000));
}
