use vstd::prelude::*;

verus! {

/// Number of blocks of `block_size` needed to cover `ir_len` samples
/// (`ceil(ir_len / block_size)`), and one block for an empty response.
pub open spec fn spec_partition_count(ir_len: nat, block_size: nat) -> nat {
    if ir_len == 0 {
        1
    } else {
        ((ir_len + block_size - 1) / (block_size as int)) as nat
    }
}

/// Number of partitions an impulse response of `ir_len` samples is split
/// into with blocks of `block_size` samples.
pub fn partition_count(ir_len: usize, block_size: usize) -> (n: usize)
    requires
        block_size > 0,
    ensures
        n == spec_partition_count(ir_len as nat, block_size as nat),
        n >= 1,
        ir_len > 0 ==> (n - 1) * block_size < ir_len <= n * block_size,
{
    if ir_len == 0 {
        1
    } else {
        let q = ir_len / block_size;
        proof {
            vstd::arithmetic::div_mod::lemma_fundamental_div_mod(ir_len as int, block_size as int);
            if ir_len % block_size != 0 {
                assert(q < ir_len) by (nonlinear_arith)
                    requires
                        ir_len == block_size * q + ir_len % block_size,
                        ir_len % block_size > 0,
                        block_size >= 1,
                ;
            }
        }
        let n = if ir_len % block_size == 0 { q } else { q + 1 };
        proof {
            lemma_ceil_div(ir_len as int, block_size as int, n as int);
        }
        n
    }
}

proof fn lemma_ceil_div(len: int, b: int, n: int)
    requires
        len > 0,
        b > 0,
        n == len / b + if len % b == 0 { 0int } else { 1int },
    ensures
        n == (len + b - 1) / b,
        n >= 1,
        (n - 1) * b < len <= n * b,
{
    vstd::arithmetic::div_mod::lemma_fundamental_div_mod(len, b);
    let q = len / b;
    let r = len % b;
    assert(len == b * q + r);
    assert(0 <= r < b);
    assert((len + b - 1) / b == n) by {
        assert(b * q == q * b) by (nonlinear_arith);
        assert((q + 1) * b == q * b + b) by (nonlinear_arith);
        if r == 0 {
            vstd::arithmetic::div_mod::lemma_fundamental_div_mod_converse(len + b - 1, b, q, b - 1);
        } else {
            vstd::arithmetic::div_mod::lemma_fundamental_div_mod_converse(len + b - 1, b, q + 1, r - 1);
        }
    }
    assert(b * q == q * b) by (nonlinear_arith);
    assert(n * b == q * b + (n - q) * b) by (nonlinear_arith);
    assert((n - 1) * b == n * b - b) by (nonlinear_arith);
    if q == 0 {
        assert(r > 0);
    }
}

/// Sample range `[start, end)` of the impulse response copied into
/// partition `p` (the rest of the block is zero padding).
pub fn partition_range(ir_len: usize, block_size: usize, p: usize) -> (range: (usize, usize))
    requires
        block_size > 0,
        p < spec_partition_count(ir_len as nat, block_size as nat),
    ensures
        range.0 == p * block_size,
        range.1 == if p * block_size + block_size <= ir_len { p * block_size + block_size } else { ir_len as int },
        range.0 <= range.1 <= ir_len,
        range.1 - range.0 <= block_size,
{
    proof {
        if ir_len > 0 {
            let n = spec_partition_count(ir_len as nat, block_size as nat);
            let n2 = ir_len / block_size + if ir_len % block_size == 0 { 0usize } else { 1usize };
            lemma_ceil_div(ir_len as int, block_size as int, n2 as int);
            assert(p * block_size < ir_len) by (nonlinear_arith)
                requires
                    p <= n - 1,
                    (n - 1) * block_size < ir_len,
                    block_size > 0,
            ;
        } else {
            assert(p == 0);
        }
    }
    let start = p * block_size;
    let end = if block_size <= ir_len - start { start + block_size } else { ir_len };
    (start, end)
}

/// The partitions tile the impulse response: sample `i` lies in partition
/// `i / block_size`, at offset `i % block_size` inside that partition's range.
pub proof fn lemma_partitions_cover(ir_len: nat, block_size: nat, i: nat)
    requires
        block_size > 0,
        i < ir_len,
    ensures
        i / block_size < spec_partition_count(ir_len, block_size),
        (i / block_size) * block_size <= i < (i / block_size) * block_size + block_size,
        i - (i / block_size) * block_size == i % block_size,
{
    let q = i / block_size;
    let b = block_size as int;
    let m = ir_len as int - 1;
    vstd::arithmetic::div_mod::lemma_fundamental_div_mod(m, b);
    assert(b * (m / b) == (m / b) * b) by (nonlinear_arith);
    assert((m / b + 1) * b == (m / b) * b + b) by (nonlinear_arith);
    vstd::arithmetic::div_mod::lemma_fundamental_div_mod_converse(m + b, b, m / b + 1, m % b);
    vstd::arithmetic::div_mod::lemma_div_is_ordered(i as int, m, b);
    vstd::arithmetic::div_mod::lemma_fundamental_div_mod(i as int, block_size as int);
    assert(block_size * q == q * block_size) by (nonlinear_arith);
    assert(ir_len + block_size - 1 == m + b);
}

} // verus!
