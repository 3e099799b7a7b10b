use rna_interpreter::codon::tokenize;
use rna_interpreter::decode::{decode_instruction, decode_program, Instruction};
use rna_interpreter::error::InterpError;
use rna_interpreter::validate::validate_program;

fn decode(source: &str) -> Result<Vec<Instruction>, InterpError> {
    decode_program(&tokenize(source))
}

#[test]
fn the_last_codon_is_dispatched() {
    assert_eq!(decode("AUGUAA"), Ok(vec![Instruction::Start, Instruction::Stop]));
    assert_eq!(decode("UAA"), Ok(vec![Instruction::Stop]));
    // After an operand that ends one codon before the end.
    assert_eq!(
        decode("AUGCACCUAUAA"),
        Ok(vec![Instruction::Start, Instruction::Increment(1), Instruction::Stop])
    );
    // An operand whose digit run reaches the end leaves nothing to dispatch.
    assert_eq!(decode("AUGCACCUA"), Ok(vec![Instruction::Start, Instruction::Increment(1)]));
    assert_eq!(decode(""), Ok(vec![]));
}

#[test]
fn jump_not_zero_codons() {
    assert_eq!(decode("AACCUA"), Ok(vec![Instruction::JumpNotZero(1)]));
    assert_eq!(decode("AAUCUA"), Ok(vec![Instruction::JumpNotZero(1)]));
    // AAG is a digit codon, not an opcode.
    assert_eq!(decode("AAGCUA"), Err(InterpError::UnrecognizedSymbol { position: 0 }));
}

#[test]
fn one_operand_instructions() {
    assert_eq!(
        decode("GCACUAAAACAGCGACUAGAAAUAAACUUG"),
        Ok(vec![
            Instruction::Output(12),
            Instruction::Break,
            Instruction::Decrement(1),
            Instruction::JumpIfZero(0),
            Instruction::JumpNotZero(1),
        ])
    );
    // No digit codons at all: the operand is 0.
    assert_eq!(decode("CACUAA"), Ok(vec![Instruction::Increment(0), Instruction::Stop]));
}

#[test]
fn two_operand_instructions_skip_the_separator() {
    // GAC, first operand 1, separator UAA, second operand 2, then UAA (Stop).
    assert_eq!(
        decode("AUGGACCUAUAAAAAUAA"),
        Ok(vec![Instruction::Start, Instruction::Addition(1, 2), Instruction::Stop])
    );
    assert_eq!(
        decode("UGUAAACAAUUUUAA"),
        Ok(vec![Instruction::Subtraction(2, 3), Instruction::Stop])
    );
    assert_eq!(decode("GGACUACAAUGGUGG"), Ok(vec![Instruction::Move(1, 77)]));
    // The first run reaches the end: the second operand is 0.
    assert_eq!(decode("GGACUA"), Ok(vec![Instruction::Move(1, 0)]));
    // The separator ends the sequence.
    assert_eq!(decode("GGACUAUAA"), Ok(vec![Instruction::Move(1, 0)]));
}

#[test]
fn decode_instruction_reports_the_next_position() {
    let codons = tokenize("AUGGACCUAUAAAAAUAA");
    assert_eq!(decode_instruction(&codons, 0), Ok((Instruction::Start, 1)));
    assert_eq!(decode_instruction(&codons, 1), Ok((Instruction::Addition(1, 2), 5)));
    assert_eq!(decode_instruction(&codons, 5), Ok((Instruction::Stop, 6)));
    assert_eq!(decode_instruction(&codons, 2), Err(InterpError::UnrecognizedSymbol { position: 2 }));
}

#[test]
fn decoding_errors() {
    assert_eq!(decode("AUGXXXUAA"), Err(InterpError::UnrecognizedSymbol { position: 1 }));
    // Output with the operand 4294967296.
    assert_eq!(
        decode("AUGGCACCAAAAGUACCAGUAACCUGGAAAGUAACCUAA"),
        Err(InterpError::Overflow { position: 2 })
    );
    // The overflow in the second operand of a Move.
    assert_eq!(
        decode("GGAUAACCAAAAGUACCAGUAACCUGGAAAGUAACC"),
        Err(InterpError::Overflow { position: 2 })
    );
}

#[test]
fn decoding_is_deterministic() {
    let codons = tokenize("AUGGCAAUACACAUAUAA");
    assert_eq!(decode_program(&codons), decode_program(&codons.clone()));
}

#[test]
fn validator_rejections() {
    assert_eq!(validate_program(vec![]), Err(InterpError::TooFewInstructions { count: 0 }));
    assert_eq!(
        validate_program(vec![Instruction::Start]),
        Err(InterpError::TooFewInstructions { count: 1 })
    );
    assert_eq!(
        validate_program(vec![Instruction::Stop]),
        Err(InterpError::TooFewInstructions { count: 1 })
    );
    assert_eq!(
        validate_program(vec![Instruction::Break, Instruction::Stop]),
        Err(InterpError::MissingStart)
    );
    assert_eq!(
        validate_program(vec![Instruction::Start, Instruction::Break]),
        Err(InterpError::MissingStop)
    );
    assert_eq!(
        validate_program(vec![Instruction::Stop, Instruction::Start]),
        Err(InterpError::MissingStart)
    );
    assert_eq!(
        validate_program(vec![Instruction::Start, Instruction::Stop]),
        Ok(vec![Instruction::Start, Instruction::Stop])
    );
}
