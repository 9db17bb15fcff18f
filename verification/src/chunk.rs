use vstd::arithmetic::div_mod::lemma_div_by_self;
use vstd::arithmetic::div_mod::lemma_div_is_ordered;
use vstd::arithmetic::div_mod::lemma_fundamental_div_mod;
use vstd::arithmetic::div_mod::lemma_remainder_lower;
use vstd::prelude::*;

verus! {

/// How a workload of `elements` items is split over `cpus` workers: each
/// worker takes one item when there are fewer items than workers, and
/// `elements / cpus` items (integer floor division) otherwise. The final
/// partition may be larger, to absorb the remainder; sizing that remainder is
/// the caller's concern.
pub open spec fn spec_chunk_size(elements: int, cpus: int) -> int
    recommends
        cpus >= 1,
{
    if elements < cpus {
        1
    } else {
        elements / cpus
    }
}

/// The per-partition element count used by the pooled fork-join region.
pub fn chunk_size(elements: usize, cpus: usize) -> (c: usize)
    requires
        cpus >= 1,
    ensures
        c == spec_chunk_size(elements as int, cpus as int),
        c >= 1,
{
    if elements < cpus {
        1
    } else {
        proof {
            lemma_div_by_self(cpus as int);
            lemma_div_is_ordered(cpus as int, elements as int, cpus as int);
        }
        elements / cpus
    }
}

/// Law: when there are at least as many elements as workers, every worker can
/// be given a full chunk without running out: `chunk_size * cpus` never
/// exceeds `elements`, and a chunk is never empty.
pub proof fn lemma_chunk_size_covers(elements: int, cpus: int)
    requires
        cpus >= 1,
        elements >= cpus,
    ensures
        spec_chunk_size(elements, cpus) * cpus <= elements,
        spec_chunk_size(elements, cpus) >= 1,
{
    lemma_fundamental_div_mod(elements, cpus);
    lemma_remainder_lower(elements, cpus);
    lemma_div_by_self(cpus);
    lemma_div_is_ordered(cpus, elements, cpus);
}

} // verus!
