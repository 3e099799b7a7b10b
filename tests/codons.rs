use rna_interpreter::codon::{digit_of, opcode_of, tokenize, Opcode};
use rna_interpreter::number::codons_to_number;
use rna_interpreter::error::InterpError;

fn strings(items: &[&str]) -> Vec<String> {
    items.iter().map(|s| s.to_string()).collect()
}

const DIGIT_TABLE: [(&str, u32); 34] = [
    ("AUA", 0), ("AUC", 0), ("AUU", 0),
    ("CUA", 1), ("CUC", 1), ("CUG", 1), ("CUU", 1), ("UUA", 1), ("UUG", 1),
    ("AAA", 2), ("AAG", 2),
    ("UUU", 3), ("UUC", 3),
    ("CCA", 4), ("CCC", 4), ("CCG", 4), ("CCU", 4),
    ("AGC", 5), ("AGU", 5), ("UCA", 5), ("UCC", 5), ("UCG", 5), ("UCU", 5),
    ("ACC", 6), ("ACU", 6), ("UGC", 6), ("UGU", 6),
    ("UGG", 7),
    ("UAU", 8), ("UAC", 8),
    ("GUA", 9), ("GUC", 9), ("GUG", 9), ("GUU", 9),
];

#[test]
fn tokenize_splits_into_threes() {
    assert_eq!(tokenize(""), Vec::<String>::new());
    assert_eq!(tokenize("AUG"), strings(&["AUG"]));
    assert_eq!(tokenize("AUGCA"), strings(&["AUG", "CA"]));
    assert_eq!(tokenize("AUGCACU"), strings(&["AUG", "CAC", "U"]));
    assert_eq!(tokenize("AUGCACUAA"), strings(&["AUG", "CAC", "UAA"]));
}

#[test]
fn tokenize_is_deterministic_and_idempotent() {
    for source in ["AUGCACAUACAAUAA", "AUGGC", "", "UUUUUUU"] {
        let first = tokenize(source);
        let second = tokenize(source);
        assert_eq!(first, second);
        let joined: String = first.concat();
        assert_eq!(joined, source);
        assert_eq!(tokenize(&joined), first);
    }
}

#[test]
fn every_digit_codon_decodes_to_its_digit() {
    for (codon, digit) in DIGIT_TABLE {
        assert_eq!(digit_of(codon), Some(digit), "{}", codon);
        let alone = strings(&[codon]);
        assert_eq!(codons_to_number(&alone, 0), Ok((digit, 1)));
        let ended = strings(&["AUG", codon, "UAA"]);
        assert_eq!(codons_to_number(&ended, 1), Ok((digit, 2)));
    }
}

#[test]
fn empty_digit_run_is_zero_and_does_not_move() {
    let codons = strings(&["GCA", "UAA", "AUA"]);
    assert_eq!(codons_to_number(&codons, 1), Ok((0, 1)));
    assert_eq!(codons_to_number(&codons, 3), Ok((0, 3)));
    assert_eq!(codons_to_number(&codons, 10), Ok((0, 10)));
    assert_eq!(codons_to_number(&Vec::new(), 0), Ok((0, 0)));
}

#[test]
fn digit_runs_read_most_significant_first() {
    let codons = strings(&["CUA", "AAA", "UUU", "UAA"]);
    assert_eq!(codons_to_number(&codons, 0), Ok((123, 3)));
    assert_eq!(codons_to_number(&codons, 1), Ok((23, 3)));
    let zeros = strings(&["AUA", "AUC", "AUU", "CUA"]);
    assert_eq!(codons_to_number(&zeros, 0), Ok((1, 4)));
}

#[test]
fn digit_run_overflow() {
    // 4294967295 fits, 4294967296 does not.
    let max = strings(&["CCA", "AAA", "GUA", "CCA", "GUA", "ACC", "UGG", "AAA", "GUA", "AGC"]);
    assert_eq!(codons_to_number(&max, 0), Ok((u32::MAX, 10)));
    let over = strings(&["GCA", "CCA", "AAA", "GUA", "CCA", "GUA", "ACC", "UGG", "AAA", "GUA", "ACC"]);
    assert_eq!(codons_to_number(&over, 1), Err(InterpError::Overflow { position: 1 }));
    let mut long = vec!["AUA".to_string(); 40];
    long.push("CUA".to_string());
    assert_eq!(codons_to_number(&long, 0), Ok((1, 41)));
}

#[test]
fn opcode_table() {
    let table: [(&str, Opcode); 30] = [
        ("AUG", Opcode::Start),
        ("UAA", Opcode::Stop), ("UAG", Opcode::Stop), ("UGA", Opcode::Stop),
        ("CAA", Opcode::Break), ("CAG", Opcode::Break),
        ("GCA", Opcode::Output), ("GCC", Opcode::Output), ("GCG", Opcode::Output), ("GCU", Opcode::Output),
        ("CAC", Opcode::Increment), ("CAU", Opcode::Increment),
        ("AGA", Opcode::Decrement), ("AGG", Opcode::Decrement), ("CGA", Opcode::Decrement),
        ("CGC", Opcode::Decrement), ("CGG", Opcode::Decrement), ("CGU", Opcode::Decrement),
        ("GAA", Opcode::JumpIfZero), ("GAG", Opcode::JumpIfZero),
        ("AAC", Opcode::JumpNotZero), ("AAU", Opcode::JumpNotZero),
        ("GAC", Opcode::Addition), ("GAU", Opcode::Addition),
        ("UGC", Opcode::Subtraction), ("UGU", Opcode::Subtraction),
        ("GGA", Opcode::Move), ("GGC", Opcode::Move), ("GGG", Opcode::Move), ("GGU", Opcode::Move),
    ];
    for (codon, op) in table {
        assert_eq!(opcode_of(codon), Some(op), "{}", codon);
    }
    for codon in ["AAG", "AAA", "AUA", "UGG", "AU", "", "AUGA", "XYZ", "aug"] {
        assert_eq!(opcode_of(codon), None, "{}", codon);
    }
    assert_eq!(digit_of("AUGA"), None);
    assert_eq!(digit_of("UG"), None);
    assert_eq!(digit_of("AUG"), None);
}

#[test]
fn operand_counts() {
    assert_eq!(Opcode::Start.operand_count(), 0);
    assert_eq!(Opcode::Stop.operand_count(), 0);
    assert_eq!(Opcode::Break.operand_count(), 0);
    assert_eq!(Opcode::Output.operand_count(), 1);
    assert_eq!(Opcode::JumpNotZero.operand_count(), 1);
    assert_eq!(Opcode::Addition.operand_count(), 2);
    assert_eq!(Opcode::Move.operand_count(), 2);
}
