use breeding_verifier::calculate_commitment;
use breeding_verifier::commitment::COMMITMENT_BYTES;

#[test]
fn commitment_of_a_known_child() {
    let digest = calculate_commitment(&[88, 82, 78, 84, 62, 84, 83, 72], 1);
    assert_eq!(
        digest,
        [
            88, 82, 78, 84, 62, 84, 83, 72, // the traits
            88, 95, 104, 123, 114, 149, 161, 163, // plus 13 times the position
            104, 144, 190, 72, 170, 240, 55, 240, // times the position plus 7
            89, 82, 78, 84, 62, 84, 83, 72, // xor a window of the generation
        ]
    );
    assert_eq!(COMMITMENT_BYTES, 32);
}

#[test]
fn commitment_arithmetic_wraps() {
    let digest = calculate_commitment(&[255, 254, 253, 252, 251, 250, 249, 248], 0xDEAD_BEEF);
    assert_eq!(
        digest,
        [
            255, 254, 253, 252, 251, 250, 249, 248, //
            255, 11, 23, 35, 47, 59, 71, 83, //
            249, 240, 229, 216, 201, 184, 165, 144, //
            16, 16, 67, 39, 86, 16, 39, 245,
        ]
    );
}

#[test]
fn commitment_windows_step_by_four_bits() {
    // With all traits zero the last block shows the windows themselves.
    let digest = calculate_commitment(&[0; 8], 0x1234_5678);
    assert_eq!(
        &digest[24..],
        &[0x78, 0x67, 0x56, 0x45, 0x34, 0x23, 0x12, 0x01]
    );
    assert_eq!(&digest[..8], &[0; 8]);
    assert_eq!(&digest[8..16], &[0, 13, 26, 39, 52, 65, 78, 91]);
    assert_eq!(&digest[16..24], &[0; 8]);
}

#[test]
fn commitment_is_the_same_twice() {
    let traits = [88, 82, 78, 84, 62, 84, 83, 72];
    assert_eq!(
        calculate_commitment(&traits, 77),
        calculate_commitment(&traits, 77)
    );
}

#[test]
fn commitment_changes_with_every_trait() {
    let traits = [88, 82, 78, 84, 62, 84, 83, 72];
    let base = calculate_commitment(&traits, 5);
    for i in 0..8 {
        let mut changed = traits;
        changed[i] = changed[i].wrapping_add(1);
        assert_ne!(calculate_commitment(&changed, 5), base);
    }
}

#[test]
fn commitment_changes_with_every_bit_of_the_generation() {
    let traits = [88, 82, 78, 84, 62, 84, 83, 72];
    let base = calculate_commitment(&traits, 0x0F0F_0F0F);
    for bit in 0..32 {
        let changed = 0x0F0F_0F0Fu32 ^ (1 << bit);
        assert_ne!(calculate_commitment(&traits, changed), base);
    }
}

#[test]
fn commitment_agrees_with_the_mixing_formula() {
    let cases: [([u8; 8], u32); 3] = [
        ([0, 1, 2, 3, 4, 5, 6, 7], 0),
        ([100, 99, 98, 97, 96, 95, 94, 93], 0xFFFF_FFFF),
        ([17, 200, 33, 250, 64, 128, 255, 1], 0x8000_0001),
    ];
    for (traits, generation) in cases {
        let digest = calculate_commitment(&traits, generation);
        for i in 0..8 {
            let t = traits[i];
            assert_eq!(digest[i], t);
            assert_eq!(digest[i + 8], t.wrapping_add(i as u8 * 13));
            assert_eq!(digest[i + 16], t.wrapping_mul(i as u8 + 7));
            assert_eq!(digest[i + 24], t ^ ((generation >> (i * 4)) as u8));
        }
    }
}
