use breeding_verifier::inputs::PRIVATE_INPUT_BYTES;
use breeding_verifier::pipeline::{execute, validate_and_commit};
use breeding_verifier::{
    calculate_commitment, AgentDNA, BreedingProof, DecodeError, PrivateInputs, PublicOutputRecord,
};

fn example_inputs() -> PrivateInputs {
    PrivateInputs {
        parent_a: AgentDNA {
            traits: [85, 78, 72, 80, 60, 75, 82, 70],
            generation: 0,
        },
        parent_b: AgentDNA {
            traits: [92, 87, 85, 88, 65, 94, 85, 75],
            generation: 0,
        },
        child: AgentDNA {
            traits: [88, 82, 78, 84, 62, 84, 83, 72],
            generation: 1,
        },
        parent_a_id: 1,
        parent_b_id: 2,
    }
}

const EXAMPLE_STREAM: [u8; 52] = [
    85, 78, 72, 80, 60, 75, 82, 70, 0, 0, 0, 0, // first parent
    92, 87, 85, 88, 65, 94, 85, 75, 0, 0, 0, 0, // second parent
    88, 82, 78, 84, 62, 84, 83, 72, 1, 0, 0, 0, // child
    1, 0, 0, 0, 0, 0, 0, 0, // first parent's identifier
    2, 0, 0, 0, 0, 0, 0, 0, // second parent's identifier
];

const EXAMPLE_RECORD: [u8; 54] = [
    88, 82, 78, 84, 62, 84, 83, 72, 88, 95, 104, 123, 114, 149, 161, 163, //
    104, 144, 190, 72, 170, 240, 55, 240, 89, 82, 78, 84, 62, 84, 83, 72, // commitment
    1, // valid
    1, 0, 0, 0, 0, 0, 0, 0, // first parent's identifier
    2, 0, 0, 0, 0, 0, 0, 0, // second parent's identifier
    1, 0, 0, 0, // child generation
    0, // mutation count
];

#[test]
fn private_inputs_are_written_in_order() {
    assert_eq!(example_inputs().to_bytes(), EXAMPLE_STREAM);
    assert_eq!(PRIVATE_INPUT_BYTES, 52);
}

#[test]
fn private_inputs_are_read_in_order() {
    assert_eq!(
        PrivateInputs::from_bytes(&EXAMPLE_STREAM),
        Ok(example_inputs())
    );
}

#[test]
fn private_inputs_round_trip() {
    let mut inputs = example_inputs();
    inputs.parent_a.generation = u32::MAX;
    inputs.child.traits = [255, 0, 101, 100, 99, 1, 2, 3];
    inputs.parent_a_id = u64::MAX;
    inputs.parent_b_id = 0x0102_0304_0506_0708;
    assert_eq!(PrivateInputs::from_bytes(&inputs.to_bytes()), Ok(inputs));
}

#[test]
fn private_inputs_of_the_wrong_size_are_rejected() {
    let mut longer = EXAMPLE_STREAM.to_vec();
    longer.push(0);
    assert_eq!(
        PrivateInputs::from_bytes(&longer),
        Err(DecodeError::TruncatedOrMalformedRecord)
    );
    for len in 0..52 {
        assert_eq!(
            PrivateInputs::from_bytes(&EXAMPLE_STREAM[..len]),
            Err(DecodeError::TruncatedOrMalformedRecord)
        );
    }
}

#[test]
fn pipeline_discloses_the_expected_record() {
    assert_eq!(execute(&EXAMPLE_STREAM), Ok(EXAMPLE_RECORD));
}

#[test]
fn pipeline_rejects_a_badly_framed_stream() {
    assert_eq!(
        execute(&EXAMPLE_STREAM[..51]),
        Err(DecodeError::TruncatedOrMalformedRecord)
    );
    assert_eq!(
        execute(&[0u8; 53]),
        Err(DecodeError::TruncatedOrMalformedRecord)
    );
    assert_eq!(execute(&[]), Err(DecodeError::TruncatedOrMalformedRecord));
}

#[test]
fn pipeline_reports_an_invalid_breeding_as_a_result() {
    let mut inputs = example_inputs();
    inputs.child.traits[0] = 150;
    inputs.child.generation = 0;
    let record = validate_and_commit(&inputs);
    assert!(!record.is_valid);
    assert_eq!(record.mutation_count, 1);
    assert_eq!(record.child_generation, 0);
    assert_eq!(
        record.commitment,
        calculate_commitment(&[150, 82, 78, 84, 62, 84, 83, 72], 0)
    );
    assert_eq!(execute(&inputs.to_bytes()), Ok(record.to_bytes()));
}

#[test]
fn pipeline_passes_the_parent_identifiers_through() {
    let mut inputs = example_inputs();
    inputs.parent_a_id = 0xFFFF_0000_FFFF_0000;
    inputs.parent_b_id = 0x0123_4567_89AB_CDEF;
    let record = validate_and_commit(&inputs);
    assert_eq!(record.parent_a_id, 0xFFFF_0000_FFFF_0000);
    assert_eq!(record.parent_b_id, 0x0123_4567_89AB_CDEF);
    assert!(record.is_valid);
}

#[test]
fn pipeline_discloses_the_same_bytes_twice() {
    let first = execute(&EXAMPLE_STREAM);
    let second = execute(&EXAMPLE_STREAM);
    assert_eq!(first, second);
}

#[test]
fn host_reads_what_the_pipeline_disclosed() {
    let inputs = example_inputs();
    let journal = execute(&inputs.to_bytes()).unwrap().to_vec();
    let proof = BreedingProof::from_backend_output(vec![7; 16], journal).unwrap();
    assert_eq!(proof.record(), validate_and_commit(&inputs));
    assert_eq!(
        proof.record(),
        PublicOutputRecord::from_bytes(&EXAMPLE_RECORD).unwrap()
    );
    assert!(proof.is_valid);
    assert_eq!(proof.parent_a_id, 1);
    assert_eq!(proof.parent_b_id, 2);
    assert_eq!(proof.child_generation, 1);
    assert_eq!(proof.mutation_count, 0);
    assert_eq!(
        proof.commitment_hex(),
        "58524e543e545348585f687b7295a1a36890be48aaf037f059524e543e545348"
    );
}
