use vstd::prelude::*;

verus! {

/// Slot of the frequency-domain delay line holding the input block that
/// partition `p` multiplies: the block stored `p` blocks before the current
/// one, `(fdl_index - p) mod num_partitions`.
pub fn fdl_slot(fdl_index: usize, p: usize, num_partitions: usize) -> (slot: usize)
    requires
        fdl_index < num_partitions,
        p < num_partitions,
    ensures
        slot < num_partitions,
        slot as int == (fdl_index as int - p as int) % (num_partitions as int),
{
    let n = num_partitions;
    proof {
        vstd::arithmetic::div_mod::lemma_mod_add_multiples_vanish(fdl_index as int - p as int, n as int);
    }
    if fdl_index >= p {
        proof {
            vstd::arithmetic::div_mod::lemma_small_mod((fdl_index - p) as nat, n as nat);
        }
        fdl_index - p
    } else {
        proof {
            vstd::arithmetic::div_mod::lemma_small_mod((fdl_index + n - p) as nat, n as nat);
        }
        fdl_index + (n - p)
    }
}

/// Slot that the next input block is stored in.
pub fn fdl_advance(fdl_index: usize, num_partitions: usize) -> (next: usize)
    requires
        fdl_index < num_partitions,
    ensures
        next < num_partitions,
        next as int == (fdl_index as int + 1) % (num_partitions as int),
{
    if fdl_index + 1 >= num_partitions {
        proof {
            vstd::arithmetic::div_mod::lemma_mod_self_0(num_partitions as int);
        }
        0
    } else {
        proof {
            vstd::arithmetic::div_mod::lemma_small_mod((fdl_index + 1) as nat, num_partitions as nat);
        }
        fdl_index + 1
    }
}

/// The frequency-domain delay line pairs partitions with past blocks: after
/// advancing `p` times from the slot where a block was stored, partition `p`
/// reads that same slot.
pub proof fn lemma_fdl_pairs_partition_with_past_block(stored: int, p: int, n: int)
    requires
        n > 0,
        0 <= stored < n,
        0 <= p < n,
    ensures
        (((stored + p) % n) - p) % n == stored,
{
    vstd::arithmetic::div_mod::lemma_sub_mod_noop(stored + p, p, n);
    vstd::arithmetic::div_mod::lemma_mod_twice(stored + p, n);
    vstd::arithmetic::div_mod::lemma_small_mod(p as nat, n as nat);
    vstd::arithmetic::div_mod::lemma_small_mod(stored as nat, n as nat);
    vstd::arithmetic::div_mod::lemma_sub_mod_noop((stored + p) % n, p, n);
}

} // verus!
