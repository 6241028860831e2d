use breeding_verifier::dna::{DNA_BYTES, NUM_TRAITS};
use breeding_verifier::endian::{u32_from_le, u32_to_le, u64_from_le, u64_to_le};
use breeding_verifier::AgentDNA;

#[test]
fn u32_is_written_least_significant_byte_first() {
    assert_eq!(u32_to_le(0x0102_0304), [0x04, 0x03, 0x02, 0x01]);
    assert_eq!(u32_to_le(0), [0, 0, 0, 0]);
    assert_eq!(u32_to_le(258), [2, 1, 0, 0]);
    assert_eq!(u32_to_le(u32::MAX), [255, 255, 255, 255]);
}

#[test]
fn u32_is_read_least_significant_byte_first() {
    assert_eq!(u32_from_le([0x04, 0x03, 0x02, 0x01]), 0x0102_0304);
    assert_eq!(u32_from_le([0, 0, 0, 0]), 0);
    assert_eq!(u32_from_le([255, 255, 255, 255]), u32::MAX);
    assert_eq!(u32_from_le([0, 0, 0, 128]), 0x8000_0000);
}

#[test]
fn u64_is_written_least_significant_byte_first() {
    assert_eq!(
        u64_to_le(0x0102_0304_0506_0708),
        [0x08, 0x07, 0x06, 0x05, 0x04, 0x03, 0x02, 0x01]
    );
    assert_eq!(u64_to_le(1), [1, 0, 0, 0, 0, 0, 0, 0]);
    assert_eq!(u64_to_le(u64::MAX), [255; 8]);
}

#[test]
fn u64_is_read_least_significant_byte_first() {
    assert_eq!(
        u64_from_le([0x08, 0x07, 0x06, 0x05, 0x04, 0x03, 0x02, 0x01]),
        0x0102_0304_0506_0708
    );
    assert_eq!(u64_from_le([255; 8]), u64::MAX);
    assert_eq!(u64_from_le([0, 0, 0, 0, 1, 0, 0, 0]), 1 << 32);
}

#[test]
fn integers_agree_with_the_standard_library() {
    let samples: [u64; 7] = [
        0,
        1,
        255,
        256,
        0xDEAD_BEEF,
        0x0123_4567_89AB_CDEF,
        u64::MAX,
    ];
    for x in samples {
        assert_eq!(u64_to_le(x), x.to_le_bytes());
        assert_eq!(u64_from_le(x.to_le_bytes()), x);
        let y = x as u32;
        assert_eq!(u32_to_le(y), y.to_le_bytes());
        assert_eq!(u32_from_le(y.to_le_bytes()), y);
    }
}

#[test]
fn genome_layout_is_traits_then_generation() {
    let dna = AgentDNA {
        traits: [85, 78, 72, 80, 60, 75, 82, 70],
        generation: 0x0A0B_0C0D,
    };
    assert_eq!(
        dna.to_bytes(),
        [85, 78, 72, 80, 60, 75, 82, 70, 0x0D, 0x0C, 0x0B, 0x0A]
    );
    assert_eq!(NUM_TRAITS, 8);
    assert_eq!(DNA_BYTES, 12);
}

#[test]
fn genome_is_read_back_from_its_layout() {
    let dna = AgentDNA::from_bytes(&[1, 2, 3, 4, 5, 6, 7, 8, 1, 1, 0, 0]);
    assert_eq!(dna.traits, [1, 2, 3, 4, 5, 6, 7, 8]);
    assert_eq!(dna.generation, 257);
}

#[test]
fn genome_round_trips_through_bytes() {
    let samples = [
        AgentDNA { traits: [0; 8], generation: 0 },
        AgentDNA { traits: [100; 8], generation: 1 },
        AgentDNA { traits: [255; 8], generation: u32::MAX },
        AgentDNA { traits: [85, 78, 72, 80, 60, 75, 82, 70], generation: 0x8000_0001 },
    ];
    for dna in samples {
        assert_eq!(AgentDNA::from_bytes(&dna.to_bytes()), dna);
    }
}

#[test]
fn bytes_round_trip_through_genome() {
    let buffers: [[u8; 12]; 3] = [
        [0; 12],
        [255; 12],
        [200, 150, 101, 100, 99, 1, 0, 255, 0xEF, 0xBE, 0xAD, 0xDE],
    ];
    for bytes in buffers {
        assert_eq!(AgentDNA::from_bytes(&bytes).to_bytes(), bytes);
    }
}

#[test]
fn codec_accepts_traits_outside_the_domain() {
    let dna = AgentDNA::from_bytes(&[101, 150, 200, 255, 0, 0, 0, 0, 0, 0, 0, 0]);
    assert_eq!(dna.traits, [101, 150, 200, 255, 0, 0, 0, 0]);
    assert_eq!(dna.generation, 0);
}

#[test]
fn to_traits_gives_the_traits_in_order() {
    let dna = AgentDNA {
        traits: [85, 78, 72, 80, 60, 75, 82, 70],
        generation: 9,
    };
    assert_eq!(dna.to_traits(), [85, 78, 72, 80, 60, 75, 82, 70]);
}
