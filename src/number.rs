//! Reading a numeric operand from a run of digit codons.
use vstd::prelude::*;
use crate::codon::{codon_digit, digit_of};
use crate::error::InterpError;

verus! {

/// How many codons from `start` on are in the digit table, up to the first
/// one that is not or the end of the sequence.
pub open spec fn digit_run_len(cs: Seq<Seq<char>>, start: int) -> nat
    decreases cs.len() - start,
{
    if 0 <= start < cs.len() && codon_digit(cs[start]) is Some {
        1 + digit_run_len(cs, start + 1)
    } else {
        0
    }
}

/// The decimal value of the `n` digit codons from `start` on, the first
/// being the most significant.
pub open spec fn run_value(cs: Seq<Seq<char>>, start: int, n: nat) -> nat
    decreases n,
{
    if n == 0 {
        0
    } else {
        (run_value(cs, start, (n - 1) as nat) * 10 + codon_digit(cs[start + n - 1])->0) as nat
    }
}

/// The operand read from `start` on: its value and the position just past the
/// digit run, or `Overflow` when the value does not fit in a `u32`.
pub open spec fn number_at(cs: Seq<Seq<char>>, start: int) -> Result<(u32, int), InterpError> {
    let n = digit_run_len(cs, start);
    let v = run_value(cs, start, n);
    if v <= u32::MAX {
        Ok((v as u32, start + n))
    } else {
        Err(InterpError::Overflow { position: start as usize })
    }
}

/// A result that carries an executable position, with the position as an integer.
pub open spec fn widen<T>(r: Result<(T, usize), InterpError>) -> Result<(T, int), InterpError> {
    match r {
        Ok((v, pos)) => Ok((v, pos as int)),
        Err(e) => Err(e),
    }
}

/// The digit run from `start` on ends inside the sequence, or at `start`.
pub proof fn lemma_run_len_bound(cs: Seq<Seq<char>>, start: int)
    ensures
        digit_run_len(cs, start) == 0 || start + digit_run_len(cs, start) <= cs.len(),
    decreases cs.len() - start,
{
    if 0 <= start < cs.len() && codon_digit(cs[start]) is Some {
        lemma_run_len_bound(cs, start + 1);
    }
}

/// A longer run is worth at least as much as its prefix.
proof fn lemma_run_value_monotonic(cs: Seq<Seq<char>>, start: int, k: nat, n: nat)
    requires
        k <= n,
    ensures
        run_value(cs, start, k) <= run_value(cs, start, n),
    decreases n,
{
    if k < n {
        lemma_run_value_monotonic(cs, start, k, (n - 1) as nat);
    }
}

/// Reads the numeric operand that starts at codon `index`: each codon in the
/// digit table adds one decimal digit, and the first codon that is not in it
/// (or the end of the sequence) ends the run. An empty run is worth 0.
/// Returns the value and the position of the first codon not consumed.
pub fn codons_to_number(codons: &Vec<String>, index: usize) -> (r: Result<(u32, usize), InterpError>)
    ensures
        widen(r) == number_at(codons.deep_view(), index as int),
{
    let ghost cs = codons.deep_view();
    let mut value: u32 = 0;
    let mut current: usize = index;
    loop
        invariant
            cs == codons.deep_view(),
            index <= current,
            current <= index || current <= codons.len(),
            value == run_value(cs, index as int, (current - index) as nat),
            digit_run_len(cs, index as int) == (current - index) + digit_run_len(
                cs,
                current as int,
            ),
        ensures
            index <= current,
            value == run_value(cs, index as int, (current - index) as nat),
            digit_run_len(cs, index as int) == current - index,
        decreases codons.len() - current,
    {
        if current >= codons.len() {
            break;
        }
        assert(cs[current as int] == codons@[current as int]@);
        let digit = match digit_of(codons[current].as_str()) {
            None => {
                break;
            },
            Some(d) => d,
        };
        let next: u64 = value as u64 * 10 + digit as u64;
        if next > u32::MAX as u64 {
            proof {
                let k = (current + 1 - index) as nat;
                assert(run_value(cs, index as int, k) == next);
                lemma_run_value_monotonic(cs, index as int, k, digit_run_len(cs, index as int));
            }
            return Err(InterpError::Overflow { position: index });
        }
        value = next as u32;
        current = current + 1;
    }
    Ok((value, current))
}

/// A run of exactly one digit codon is worth that digit and ends one codon
/// later; an empty run is worth 0 and leaves the position where it was.
pub proof fn lemma_short_runs(cs: Seq<Seq<char>>, start: int)
    requires
        0 <= start,
        start < cs.len() ==> codon_digit(cs[start]) is None || start + 1 == cs.len()
            || codon_digit(cs[start + 1]) is None,
    ensures
        start < cs.len() && codon_digit(cs[start]) is Some ==> number_at(cs, start) == Ok::<
            (u32, int),
            InterpError,
        >((codon_digit(cs[start])->0, start + 1)),
        start >= cs.len() || codon_digit(cs[start]) is None ==> number_at(cs, start) == Ok::<
            (u32, int),
            InterpError,
        >((0, start)),
{
    if start < cs.len() && codon_digit(cs[start]) is Some {
        assert(digit_run_len(cs, start + 1) == 0);
        assert(digit_run_len(cs, start) == 1);
        assert(run_value(cs, start, 0) == 0);
    }
}

} // verus!
