//! Positions at a fixed stride.
//!
//! Interleaved buffers and decimated plots both read a buffer at the
//! positions `offset`, `offset + stride`, `offset + 2 * stride` and so on.
//! This module counts those positions and proves the count exact.

use vstd::arithmetic::div_mod::lemma_fundamental_div_mod;
use vstd::arithmetic::mul::{lemma_mul_inequality, lemma_mul_is_commutative};
use vstd::prelude::*;

verus! {

/// The number of positions `offset + k * stride` below `len`.
pub open spec fn stride_count(len: nat, stride: nat, offset: nat) -> nat
    recommends
        offset < stride,
{
    if len <= offset {
        0
    } else {
        ((len - offset - 1) / (stride as int) + 1) as nat
    }
}

/// Position `k` at the stride lies in the buffer exactly when `k` is below
/// the count: `stride_count` counts every such position and no other.
pub proof fn lemma_stride_count_is_exact(len: nat, stride: nat, offset: nat, k: nat)
    requires
        offset < stride,
    ensures
        k < stride_count(len, stride, offset) <==> k * stride + offset < len,
{
    let c = stride as int;
    if len > offset {
        let x = len - offset - 1;
        let q = x / c;
        lemma_fundamental_div_mod(x, c);
        lemma_mul_is_commutative(c, q);
        assert(x == q * c + x % c);
        if k <= q {
            lemma_mul_inequality(k as int, q, c);
        } else {
            lemma_mul_inequality(q + 1, k as int, c);
            assert((q + 1) * c == q * c + c) by (nonlinear_arith);
        }
    } else {
        assert(k * stride >= 0) by (nonlinear_arith)
            requires
                k >= 0,
                stride >= 0,
        ;
    }
}

/// A buffer of whole strides holds one position per stride at every offset.
pub proof fn lemma_whole_strides(len: nat, stride: nat, offset: nat)
    requires
        offset < stride,
        len % stride == 0,
    ensures
        stride_count(len, stride, offset) == len / stride,
{
    let c = stride as int;
    let n = len / stride;
    lemma_fundamental_div_mod(len as int, c);
    lemma_mul_is_commutative(c, n as int);
    assert(len == n * c);
    if n > 0 {
        lemma_stride_count_is_exact(len, stride, offset, (n - 1) as nat);
        assert((n - 1) * c == n * c - c) by (nonlinear_arith);
    }
    lemma_stride_count_is_exact(len, stride, offset, n);
}

/// The number of positions `offset + k * stride` below `len`.
pub fn count_strides(len: usize, stride: usize, offset: usize) -> (count: usize)
    requires
        offset < stride,
    ensures
        count == stride_count(len as nat, stride as nat, offset as nat),
{
    if len <= offset {
        0
    } else {
        (len - offset - 1) / stride + 1
    }
}

} // verus!
