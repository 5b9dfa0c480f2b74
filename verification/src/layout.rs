//! Arithmetic for placing sections.

use vstd::prelude::*;
use vstd::arithmetic::div_mod::{lemma_fundamental_div_mod, lemma_mod_multiples_basic};

verus! {

/// Rounds a value up to the nearest multiple of an alignment, which is a
/// power of two.
pub fn align_up_to(value: usize, alignment: usize) -> (aligned: usize)
    requires
        alignment > 0,
        alignment & (alignment - 1) as usize == 0,
        value <= usize::MAX - (alignment - 1),
    ensures
        aligned % alignment == 0,
        value <= aligned < value + alignment,
{
    let beyond = value % alignment;
    if beyond == 0 {
        value
    } else {
        proof {
            lemma_fundamental_div_mod(value as int, alignment as int);
            lemma_mod_multiples_basic(value as int / alignment as int + 1, alignment as int);
            assert((value as int / alignment as int + 1) * alignment == value - beyond
                + alignment) by (nonlinear_arith)
                requires
                    value == alignment * (value as int / alignment as int) + beyond,
            ;
        }
        value - beyond + alignment
    }
}

} // verus!
