//! The benchmark circuit: the fixed block, hashed a given number of times.
use vstd::prelude::*;
use crate::padding::{fixed_block, fixed_block_spec};

verus! {

/// A description of the benchmark circuit. A shape carries no witness values
/// and serves key derivation; an instance carries the fixed block and serves
/// proving. Both invoke the hash gadget `repeats` times.
#[derive(Clone, Copy, Debug, PartialEq, Eq, Structural)]
pub struct ShaCircuit {
    pub repeats: u64,
    pub witnessed: bool,
}

/// The words handed to one gadget invocation: the fixed block where the
/// circuit carries witness values, and sixteen unknown words where it does not.
pub open spec fn input_words_spec(witnessed: bool) -> Seq<Option<u32>> {
    Seq::new(16, |i: int| if witnessed { Some(fixed_block_spec()[i]) } else { None })
}

impl ShaCircuit {
    /// The structure-only circuit for `repeats` invocations.
    pub fn shape(repeats: u64) -> (r: ShaCircuit)
        ensures
            r.repeats == repeats,
            !r.witnessed,
    {
        ShaCircuit { repeats, witnessed: false }
    }

    /// The circuit for `repeats` invocations with the fixed block as witness.
    pub fn instance(repeats: u64) -> (r: ShaCircuit)
        ensures
            r.repeats == repeats,
            r.witnessed,
    {
        ShaCircuit { repeats, witnessed: true }
    }

    /// The same circuit without witness values.
    pub fn without_witnesses(&self) -> (r: ShaCircuit)
        ensures
            r.repeats == self.repeats,
            !r.witnessed,
    {
        ShaCircuit::shape(self.repeats)
    }

    /// The sixteen input words of one gadget invocation.
    pub fn input_words(&self) -> (r: Vec<Option<u32>>)
        ensures
            r@ == input_words_spec(self.witnessed),
    {
        let block: [u32; 16] = fixed_block();
        let mut out: Vec<Option<u32>> = Vec::new();
        let mut i: usize = 0;
        while i < 16
            invariant
                i <= 16,
                block@ == fixed_block_spec(),
                out@ == input_words_spec(self.witnessed).subrange(0, i as int),
            decreases 16 - i,
        {
            let w: Option<u32> = if self.witnessed {
                Some(block[i])
            } else {
                None
            };
            out.push(w);
            proof {
                assert(input_words_spec(self.witnessed).subrange(0, i + 1) =~= input_words_spec(
                    self.witnessed,
                ).subrange(0, i as int).push(w));
            }
            i = i + 1;
        }
        proof {
            assert(input_words_spec(self.witnessed).subrange(0, 16) =~= input_words_spec(
                self.witnessed,
            ));
        }
        out
    }

    /// The inputs of the gadget invocations that synthesis makes, in order:
    /// one per repetition, each the same sixteen words.
    pub fn digest_inputs(&self) -> (r: Vec<Vec<Option<u32>>>)
        requires
            self.repeats <= usize::MAX,
        ensures
            r@.len() == self.repeats,
            forall|i: int| 0 <= i < r@.len() ==> r@[i]@ == input_words_spec(self.witnessed),
    {
        let n: usize = self.repeats as usize;
        let mut out: Vec<Vec<Option<u32>>> = Vec::new();
        let mut i: usize = 0;
        while i < n
            invariant
                n == self.repeats,
                i <= n,
                out@.len() == i,
                forall|j: int| 0 <= j < out@.len() ==> out@[j]@ == input_words_spec(self.witnessed),
            decreases n - i,
        {
            out.push(self.input_words());
            i = i + 1;
        }
        out
    }
}

} // verus!
