//! Codons, the opcode and digit tables, and the tokenizer.
use vstd::prelude::*;
use vstd::string::StrSliceExecFns;

verus! {

/// The kind of an instruction, without its operands.
#[derive(Clone, Copy, Debug, PartialEq, Eq, Structural)]
pub enum Opcode {
    Start,
    Stop,
    Break,
    Output,
    Increment,
    Decrement,
    JumpIfZero,
    JumpNotZero,
    Addition,
    Subtraction,
    Move,
}

impl Opcode {
    /// How many numeric operands follow the opcode's codon.
    pub open spec fn arity(self) -> nat {
        match self {
            Opcode::Start | Opcode::Stop | Opcode::Break => 0,
            Opcode::Output | Opcode::Increment | Opcode::Decrement | Opcode::JumpIfZero
            | Opcode::JumpNotZero => 1,
            Opcode::Addition | Opcode::Subtraction | Opcode::Move => 2,
        }
    }

    pub fn operand_count(self) -> (r: usize)
        ensures
            r == self.arity(),
    {
        match self {
            Opcode::Start | Opcode::Stop | Opcode::Break => 0,
            Opcode::Output | Opcode::Increment | Opcode::Decrement | Opcode::JumpIfZero
            | Opcode::JumpNotZero => 1,
            Opcode::Addition | Opcode::Subtraction | Opcode::Move => 2,
        }
    }
}

/// The digit that a codon stands for, if it is in the digit table.
/// Several codons share one digit.
pub open spec fn codon_digit(c: Seq<char>) -> Option<u32> {
    if c.len() != 3 {
        None
    } else {
        match (c[0], c[1], c[2]) {
            ('A', 'U', 'A') | ('A', 'U', 'C') | ('A', 'U', 'U') => Some(0),
            ('C', 'U', 'A') | ('C', 'U', 'C') | ('C', 'U', 'G') | ('C', 'U', 'U') | ('U', 'U', 'A')
            | ('U', 'U', 'G') => Some(1),
            ('A', 'A', 'A') | ('A', 'A', 'G') => Some(2),
            ('U', 'U', 'U') | ('U', 'U', 'C') => Some(3),
            ('C', 'C', 'A') | ('C', 'C', 'C') | ('C', 'C', 'G') | ('C', 'C', 'U') => Some(4),
            ('A', 'G', 'C') | ('A', 'G', 'U') | ('U', 'C', 'A') | ('U', 'C', 'C') | ('U', 'C', 'G')
            | ('U', 'C', 'U') => Some(5),
            ('A', 'C', 'C') | ('A', 'C', 'U') | ('U', 'G', 'C') | ('U', 'G', 'U') => Some(6),
            ('U', 'G', 'G') => Some(7),
            ('U', 'A', 'U') | ('U', 'A', 'C') => Some(8),
            ('G', 'U', 'A') | ('G', 'U', 'C') | ('G', 'U', 'G') | ('G', 'U', 'U') => Some(9),
            _ => None,
        }
    }
}

/// The opcode that a codon stands for, if it is in the opcode table.
/// `JumpNotZero` is written `AAC` or `AAU`.
pub open spec fn codon_opcode(c: Seq<char>) -> Option<Opcode> {
    if c.len() != 3 {
        None
    } else {
        match (c[0], c[1], c[2]) {
            ('A', 'U', 'G') => Some(Opcode::Start),
            ('U', 'A', 'A') | ('U', 'A', 'G') | ('U', 'G', 'A') => Some(Opcode::Stop),
            ('C', 'A', 'A') | ('C', 'A', 'G') => Some(Opcode::Break),
            ('G', 'C', 'A') | ('G', 'C', 'C') | ('G', 'C', 'G') | ('G', 'C', 'U') => Some(
                Opcode::Output,
            ),
            ('C', 'A', 'C') | ('C', 'A', 'U') => Some(Opcode::Increment),
            ('A', 'G', 'A') | ('A', 'G', 'G') | ('C', 'G', 'A') | ('C', 'G', 'C') | ('C', 'G', 'G')
            | ('C', 'G', 'U') => Some(Opcode::Decrement),
            ('G', 'A', 'A') | ('G', 'A', 'G') => Some(Opcode::JumpIfZero),
            ('A', 'A', 'C') | ('A', 'A', 'U') => Some(Opcode::JumpNotZero),
            ('G', 'A', 'C') | ('G', 'A', 'U') => Some(Opcode::Addition),
            ('U', 'G', 'C') | ('U', 'G', 'U') => Some(Opcode::Subtraction),
            ('G', 'G', 'A') | ('G', 'G', 'C') | ('G', 'G', 'G') | ('G', 'G', 'U') => Some(
                Opcode::Move,
            ),
            _ => None,
        }
    }
}

/// The three symbols of a codon, or `None` for a group of another length.
fn symbols(codon: &str) -> (r: Option<(char, char, char)>)
    ensures
        codon@.len() == 3 <==> r is Some,
        r matches Some((a, b, c)) ==> a == codon@[0] && b == codon@[1] && c == codon@[2],
{
    if codon.unicode_len() != 3 {
        None
    } else {
        Some((codon.get_char(0), codon.get_char(1), codon.get_char(2)))
    }
}

/// Looks a codon up in the digit table.
pub fn digit_of(codon: &str) -> (r: Option<u32>)
    ensures
        r == codon_digit(codon@),
{
    match symbols(codon) {
        None => None,
        Some(s) => match s {
            ('A', 'U', 'A') | ('A', 'U', 'C') | ('A', 'U', 'U') => Some(0),
            ('C', 'U', 'A') | ('C', 'U', 'C') | ('C', 'U', 'G') | ('C', 'U', 'U') | ('U', 'U', 'A')
            | ('U', 'U', 'G') => Some(1),
            ('A', 'A', 'A') | ('A', 'A', 'G') => Some(2),
            ('U', 'U', 'U') | ('U', 'U', 'C') => Some(3),
            ('C', 'C', 'A') | ('C', 'C', 'C') | ('C', 'C', 'G') | ('C', 'C', 'U') => Some(4),
            ('A', 'G', 'C') | ('A', 'G', 'U') | ('U', 'C', 'A') | ('U', 'C', 'C') | ('U', 'C', 'G')
            | ('U', 'C', 'U') => Some(5),
            ('A', 'C', 'C') | ('A', 'C', 'U') | ('U', 'G', 'C') | ('U', 'G', 'U') => Some(6),
            ('U', 'G', 'G') => Some(7),
            ('U', 'A', 'U') | ('U', 'A', 'C') => Some(8),
            ('G', 'U', 'A') | ('G', 'U', 'C') | ('G', 'U', 'G') | ('G', 'U', 'U') => Some(9),
            _ => None,
        },
    }
}

/// Looks a codon up in the opcode table.
pub fn opcode_of(codon: &str) -> (r: Option<Opcode>)
    ensures
        r == codon_opcode(codon@),
{
    match symbols(codon) {
        None => None,
        Some(s) => match s {
            ('A', 'U', 'G') => Some(Opcode::Start),
            ('U', 'A', 'A') | ('U', 'A', 'G') | ('U', 'G', 'A') => Some(Opcode::Stop),
            ('C', 'A', 'A') | ('C', 'A', 'G') => Some(Opcode::Break),
            ('G', 'C', 'A') | ('G', 'C', 'C') | ('G', 'C', 'G') | ('G', 'C', 'U') => Some(
                Opcode::Output,
            ),
            ('C', 'A', 'C') | ('C', 'A', 'U') => Some(Opcode::Increment),
            ('A', 'G', 'A') | ('A', 'G', 'G') | ('C', 'G', 'A') | ('C', 'G', 'C') | ('C', 'G', 'G')
            | ('C', 'G', 'U') => Some(Opcode::Decrement),
            ('G', 'A', 'A') | ('G', 'A', 'G') => Some(Opcode::JumpIfZero),
            ('A', 'A', 'C') | ('A', 'A', 'U') => Some(Opcode::JumpNotZero),
            ('G', 'A', 'C') | ('G', 'A', 'U') => Some(Opcode::Addition),
            ('U', 'G', 'C') | ('U', 'G', 'U') => Some(Opcode::Subtraction),
            ('G', 'G', 'A') | ('G', 'G', 'C') | ('G', 'G', 'G') | ('G', 'G', 'U') => Some(
                Opcode::Move,
            ),
            _ => None,
        },
    }
}

/// The codons of a source text: successive windows of three symbols from the
/// start; when the length is not a multiple of three the last window is shorter.
pub open spec fn tokens_of(s: Seq<char>) -> Seq<Seq<char>>
    decreases s.len(),
{
    if s.len() == 0 {
        seq![]
    } else if s.len() <= 3 {
        seq![s]
    } else {
        seq![s.take(3)] + tokens_of(s.skip(3))
    }
}

/// The codons written one after the other.
pub open spec fn join(cs: Seq<Seq<char>>) -> Seq<char>
    decreases cs.len(),
{
    if cs.len() == 0 {
        seq![]
    } else {
        cs[0] + join(cs.drop_first())
    }
}

/// Splits a source text (with its separators already removed) into codons.
pub fn tokenize(source: &str) -> (r: Vec<String>)
    ensures
        r.deep_view() == tokens_of(source@),
{
    let n = source.unicode_len();
    let mut codons: Vec<String> = Vec::new();
    let mut start: usize = 0;
    assert(source@.skip(0) =~= source@);
    assert(codons.deep_view() + tokens_of(source@) =~= tokens_of(source@));
    while start < n
        invariant
            n == source@.len(),
            start <= n,
            tokens_of(source@) == codons.deep_view() + tokens_of(source@.skip(start as int)),
        decreases n - start,
    {
        let ghost rest = source@.skip(start as int);
        let end: usize = if n - start > 3 {
            start + 3
        } else {
            n
        };
        let codon = source.substring_char(start, end).to_owned();
        proof {
            if rest.len() > 3 {
                assert(codon@ =~= rest.take(3));
                assert(rest.skip(3) =~= source@.skip(end as int));
            } else {
                assert(codon@ =~= rest);
                assert(source@.skip(end as int) =~= seq![]);
            }
        }
        let ghost before = codons.deep_view();
        codons.push(codon);
        assert(codons.deep_view() =~= before + seq![codon@]);
        start = end;
    }
    assert(source@.skip(start as int) =~= seq![]);
    assert(codons.deep_view() + seq![] =~= codons.deep_view());
    codons
}

/// Writing the codons of a text one after the other gives the text back.
pub proof fn lemma_join_tokens(s: Seq<char>)
    ensures
        join(tokens_of(s)) == s,
    decreases s.len(),
{
    if s.len() == 0 {
    } else if s.len() <= 3 {
        assert(join(seq![s]) == s + join(seq![s].drop_first()));
        assert(seq![s].drop_first() =~= seq![]);
        assert(s + seq![] =~= s);
    } else {
        let t = seq![s.take(3)] + tokens_of(s.skip(3));
        lemma_join_tokens(s.skip(3));
        assert(t.drop_first() =~= tokens_of(s.skip(3)));
        assert(s.take(3) + s.skip(3) =~= s);
    }
}

/// Tokenizing is a function of the text alone, and tokenizing again the text
/// that a codon list spells out gives the same codon list.
pub proof fn lemma_retokenize(s1: Seq<char>, s2: Seq<char>)
    requires
        s1 == s2,
    ensures
        tokens_of(s1) == tokens_of(s2),
        tokens_of(join(tokens_of(s1))) == tokens_of(s1),
{
    lemma_join_tokens(s1);
}

} // verus!
