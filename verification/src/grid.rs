//! Rounding and packing for device work: workgroup counts, aligned sizes and
//! parameter blocks.

use vstd::prelude::*;

verus! {

/// The least number of groups of `size` that cover `count`.
pub open spec fn groups(count: nat, size: nat) -> nat
    recommends
        size > 0,
{
    ((count + size - 1) / size as int) as nat
}

/// The least number of groups of `size` that cover `count`.
pub fn div_ceil(count: u32, size: u32) -> (n: u32)
    requires
        size > 0,
    ensures
        n == groups(count as nat, size as nat),
{
    let n: u64 = (count as u64 + size as u64 - 1) / size as u64;
    proof {
        let c = count as int;
        let s = size as int;
        if count == 0 {
            assert((s - 1) / s == 0) by (nonlinear_arith)
                requires
                    0 < s,
            ;
        } else {
            assert((c + s - 1) / s <= c) by (nonlinear_arith)
                requires
                    0 < s,
                    0 < c,
            ;
        }
    }
    n as u32
}

/// The least multiple of `granularity` that is not below `size`.
pub open spec fn aligned(size: nat, granularity: nat) -> nat
    recommends
        granularity > 0,
{
    groups(size, granularity) * granularity
}

/// The least multiple of `granularity` that is not below `size`.
pub fn align_up(size: u64, granularity: u64) -> (rounded: u64)
    requires
        granularity > 0,
        aligned(size as nat, granularity as nat) <= u64::MAX,
    ensures
        rounded == aligned(size as nat, granularity as nat),
{
    let n: u64 = size / granularity;
    let rest: u64 = size % granularity;
    proof {
        lemma_aligned(size as nat, granularity as nat);
        let s = size as int;
        let g = granularity as int;
        vstd::arithmetic::div_mod::lemma_fundamental_div_mod(s, g);
        if rest == 0 {
            assert((s + g - 1) / g == n) by (nonlinear_arith)
                requires
                    s == g * n,
                    0 < g,
            ;
        } else {
            assert((s + g - 1) / g == n + 1) by (nonlinear_arith)
                requires
                    s == g * n + rest,
                    0 < rest < g,
                    0 < g,
            ;
            assert((n + 1) * g == n * g + g) by (nonlinear_arith);
        }
        assert(0 <= n * g) by (nonlinear_arith)
            requires
                0 <= n,
                0 < g,
        ;
    }
    if rest == 0 {
        n * granularity
    } else {
        (n + 1) * granularity
    }
}

proof fn lemma_aligned(size: nat, granularity: nat)
    requires
        granularity > 0,
    ensures
        size <= aligned(size, granularity) < size + granularity,
        aligned(size, granularity) % granularity == 0,
{
    let n = groups(size, granularity) as int;
    let g = granularity as int;
    let s = size as int;
    vstd::arithmetic::div_mod::lemma_fundamental_div_mod(s + g - 1, g);
    vstd::arithmetic::div_mod::lemma_mod_bound(s + g - 1, g);
    let r = (s + g - 1) % g;
    assert(s <= n * g < s + g) by (nonlinear_arith)
        requires
            s + g - 1 == g * n + r,
            0 <= r < g,
    ;
    assert((n * g) % g == 0) by (nonlinear_arith)
        requires
            0 < g,
    ;
}

/// Rounding up never loses a byte, adds less than one granule, and gives a
/// multiple.
pub proof fn law_align_up(size: nat, granularity: nat)
    requires
        granularity > 0,
    ensures
        size <= aligned(size, granularity) < size + granularity,
        aligned(size, granularity) % granularity == 0,
        size % granularity == 0 ==> aligned(size, granularity) == size,
{
    lemma_aligned(size, granularity);
    if size % granularity == 0 {
        let a = aligned(size, granularity) as int;
        let s = size as int;
        let g = granularity as int;
        vstd::arithmetic::div_mod::lemma_fundamental_div_mod(a, g);
        vstd::arithmetic::div_mod::lemma_fundamental_div_mod(s, g);
        let x = a / g;
        let y = s / g;
        assert(x == y) by (nonlinear_arith)
            requires
                a == g * x,
                s == g * y,
                s <= a < s + g,
                0 < g,
        ;
    }
}

/// The groups cover the count, and no fewer would.
pub proof fn law_groups_cover(count: nat, size: nat)
    requires
        size > 0,
    ensures
        groups(count, size) * size >= count,
        groups(count, size) > 0 ==> (groups(count, size) - 1) * size < count,
{
    lemma_aligned(count, size);
    let n = groups(count, size) as int;
    let s = size as int;
    assert((n - 1) * s == n * s - s) by (nonlinear_arith);
}

/// Word `i` of `bytes`, least significant byte first.
pub open spec fn word_le(bytes: Seq<u8>, i: int) -> int {
    bytes[4 * i] + 0x100 * bytes[4 * i + 1] + 0x1_0000 * bytes[4 * i + 2] + 0x100_0000 * bytes[4 * i
        + 3]
}

/// Word `i` of `bytes`, most significant byte first.
pub open spec fn word_be(bytes: Seq<u8>, i: int) -> int {
    bytes[4 * i + 3] + 0x100 * bytes[4 * i + 2] + 0x1_0000 * bytes[4 * i + 1] + 0x100_0000
        * bytes[4 * i]
}

/// `bytes` are the words in the byte order of one machine or another.
pub open spec fn native_bytes(words: Seq<u32>, bytes: Seq<u8>) -> bool {
    &&& bytes.len() == 4 * words.len()
    &&& (forall|i: int| 0 <= i < words.len() ==> #[trigger] words[i] == word_le(bytes, i)) || (
    forall|i: int| 0 <= i < words.len() ==> #[trigger] words[i] == word_be(bytes, i))
}

/// The bytes of a parameter block, as `bytemuck::cast_slice` reinterprets its
/// words: four bytes per word, in the byte order of the machine. Which of the
/// two orders that is stays open.
#[verifier::external_body]
pub(crate) fn words_to_bytes(words: &[u32]) -> (bytes: Vec<u8>)
    ensures
        native_bytes(words@, bytes@),
{
    bytemuck::cast_slice::<u32, u8>(words).to_vec()
}

} // verus!
