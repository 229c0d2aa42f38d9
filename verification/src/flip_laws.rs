//! Laws of the vertical flip of block-compressed data: reversing the rows
//! of blocks twice, or the pixel rows inside every block twice, restores
//! the data; the two steps commute; so flipping twice restores the data.

use vstd::prelude::*;
use crate::dds::{Fmt, spec_flip_for};
use crate::flip::{
    spec_rows_reversed, spec_lookups_reversed, spec_bc2_blocks_flipped, spec_bc2_source,
    spec_bc3_blocks_flipped, spec_bc3_byte, spec_flip_bc1, spec_flip_bc2, spec_flip_bc3,
    spec_blocks_wide, spec_alpha_bits, spec_byte_of, spec_reverse_alpha_rows,
    lemma_alpha_rows_reversed, lemma_pack_alpha, spec_pack_alpha,
};

verus! {

/// Where byte `i` of the data with its rows of `rl` bytes reversed comes
/// from.
pub open spec fn row_src(len: int, rl: int, i: int) -> int {
    let n = len / rl;
    if i < n * rl {
        (n - 1 - i / rl) * rl + i % rl
    } else {
        i
    }
}

proof fn lemma_div_mod_facts(i: int, d: int)
    requires
        d > 0,
        0 <= i,
    ensures
        i == (i / d) * d + i % d,
        0 <= i % d < d,
        0 <= i / d,
{
    vstd::arithmetic::div_mod::lemma_fundamental_div_mod(i, d);
    vstd::arithmetic::div_mod::lemma_mod_bound(i, d);
    vstd::arithmetic::div_mod::lemma_div_pos_is_pos(i, d);
    assert(d * (i / d) == (i / d) * d) by (nonlinear_arith);
}

/// `q * d + r` divided by `d` is `q`, remainder `r`, for `0 <= r < d`.
proof fn lemma_div_mod_unique(q: int, r: int, d: int)
    requires
        d > 0,
        0 <= r < d,
    ensures
        (q * d + r) / d == q,
        (q * d + r) % d == r,
{
    vstd::arithmetic::div_mod::lemma_fundamental_div_mod_converse(q * d + r, d, q, r);
}

/// The row reversal sends every byte of a whole block of `bs` bytes (rows
/// being `w` blocks long) to the same place in another whole block,
/// undoes itself, and leaves the bytes after the last whole block alone.
pub proof fn lemma_row_src(len: int, w: int, bs: int, i: int)
    requires
        w > 0,
        bs > 0,
        0 <= i < len,
    ensures
        ({
            let rl = w * bs;
            let nb = len / bs;
            let g = row_src(len, rl, i);
            &&& 0 <= g < len
            &&& row_src(len, rl, g) == i
            &&& i < (len / rl) * rl ==> i < nb * bs
            &&& i < nb * bs ==> {
                &&& g < nb * bs
                &&& g % bs == i % bs
                &&& forall|j: int| 0 <= j < bs ==> #[trigger] row_src(len, rl, (i / bs) * bs + j) == (g / bs) * bs + j
            }
            &&& i >= nb * bs ==> g == i
        }),
{
    let rl = w * bs;
    assert(rl > 0) by (nonlinear_arith) requires w > 0, bs > 0, rl == w * bs;
    let n = len / rl;
    let nb = len / bs;
    lemma_div_mod_facts(len, rl);
    lemma_div_mod_facts(len, bs);
    lemma_div_mod_facts(i, rl);
    lemma_div_mod_facts(i, bs);
    // whole rows end at or before whole blocks
    assert(n * w <= nb) by {
        assert(n * rl == (n * w) * bs) by (nonlinear_arith) requires rl == w * bs;
        if n * w > nb {
            assert((n * w) * bs >= (nb + 1) * bs) by (nonlinear_arith) requires n * w > nb, bs > 0;
            assert((nb + 1) * bs == nb * bs + bs) by (nonlinear_arith);
        }
    }
    assert(n * rl <= nb * bs) by (nonlinear_arith) requires n * w <= nb, rl == w * bs, bs > 0;
    if i < n * rl {
        let r = i / rl;
        let c = i % rl;
        assert(0 <= r < n) by (nonlinear_arith) requires i == r * rl + c, 0 <= c, c < rl, i < n * rl, 0 <= r, rl > 0;
        let g = (n - 1 - r) * rl + c;
        assert(g == row_src(len, rl, i));
        assert(0 <= g < n * rl) by (nonlinear_arith) requires g == (n - 1 - r) * rl + c, 0 <= r < n, 0 <= c < rl;
        lemma_div_mod_unique(n - 1 - r, c, rl);
        assert(row_src(len, rl, g) == (n - 1 - (n - 1 - r)) * rl + c);
        assert(row_src(len, rl, g) == i);
        // the column splits into a block and an offset in it
        let qb = c / bs;
        let k = c % bs;
        lemma_div_mod_facts(c, bs);
        assert(0 <= qb < w) by (nonlinear_arith) requires c == qb * bs + k, 0 <= k, c < rl, rl == w * bs, bs > 0, 0 <= qb;
        assert(i == (r * w + qb) * bs + k) by (nonlinear_arith) requires i == r * rl + c, c == qb * bs + k, rl == w * bs;
        assert(g == ((n - 1 - r) * w + qb) * bs + k) by (nonlinear_arith) requires g == (n - 1 - r) * rl + c, c == qb * bs + k, rl == w * bs;
        lemma_div_mod_unique(r * w + qb, k, bs);
        lemma_div_mod_unique((n - 1 - r) * w + qb, k, bs);
        assert(i / bs == r * w + qb && i % bs == k);
        assert(g / bs == (n - 1 - r) * w + qb && g % bs == k);
        assert(g < nb * bs);
        assert forall|j: int| 0 <= j < bs implies #[trigger] row_src(len, rl, (i / bs) * bs + j) == (g / bs) * bs + j by {
            let x = (r * w + qb) * bs + j;
            assert(x == r * rl + (qb * bs + j)) by (nonlinear_arith) requires x == (r * w + qb) * bs + j, rl == w * bs;
            assert(0 <= qb * bs + j < rl) by (nonlinear_arith) requires 0 <= qb < w, 0 <= j < bs, rl == w * bs;
            assert(x < n * rl) by (nonlinear_arith) requires x == r * rl + (qb * bs + j), qb * bs + j < rl, r < n, rl > 0;
            lemma_div_mod_unique(r, qb * bs + j, rl);
            assert(row_src(len, rl, x) == (n - 1 - r) * rl + (qb * bs + j));
            assert((n - 1 - r) * rl + (qb * bs + j) == ((n - 1 - r) * w + qb) * bs + j) by (nonlinear_arith) requires rl == w * bs;
        }
    } else {
        assert(row_src(len, rl, i) == i);
        if i < nb * bs {
            // a byte after the whole rows is in a block after them too
            let q = i / bs;
            assert(q >= n * w) by {
                if q < n * w {
                    assert(i < n * w * bs) by (nonlinear_arith) requires i == q * bs + i % bs, i % bs < bs, q < n * w, bs > 0;
                    assert(n * w * bs == n * rl) by (nonlinear_arith) requires rl == w * bs;
                }
            }
            assert forall|j: int| 0 <= j < bs implies #[trigger] row_src(len, rl, (i / bs) * bs + j) == (i / bs) * bs + j by {
                assert((i / bs) * bs + j >= n * rl) by (nonlinear_arith) requires i / bs >= n * w, j >= 0, rl == w * bs, bs > 0;
            }
        }
    }
}

/// Reversing the rows of the data twice restores it.
pub proof fn lemma_rows_reversed_twice(s: Seq<u8>, rl: int)
    requires
        rl > 0,
    ensures
        spec_rows_reversed(spec_rows_reversed(s, rl), rl) == s,
{
    let t = spec_rows_reversed(s, rl);
    assert forall|i: int| 0 <= i < s.len() implies spec_rows_reversed(t, rl)[i] == s[i] by {
        lemma_row_src(s.len() as int, rl, 1, i);
        assert(rl * 1 == rl);
        let g = row_src(s.len() as int, rl, i);
        assert(t[i] == s[g]);
        lemma_row_src(s.len() as int, rl, 1, g);
        assert(spec_rows_reversed(t, rl)[i] == t[g]);
        assert(t[g] == s[row_src(s.len() as int, rl, g)]);
    }
    assert(spec_rows_reversed(t, rl) =~= s);
}

/// The bytes with every whole block of `bs` bytes rearranged: byte `k` of
/// a block comes from byte `perm(k)` of the same block.
pub open spec fn block_perm(s: Seq<u8>, bs: int, perm: spec_fn(int) -> int) -> Seq<u8> {
    let nb = (s.len() as int) / bs;
    Seq::new(
        s.len(),
        |i: int|
            if i < nb * bs {
                s[(i / bs) * bs + perm(i % bs)]
            } else {
                s[i]
            },
    )
}

/// Whether `perm` rearranges the offsets of a block of `bs` bytes and
/// undoes itself.
pub open spec fn is_block_involution(bs: int, perm: spec_fn(int) -> int) -> bool {
    forall|k: int| 0 <= k < bs ==> 0 <= #[trigger] perm(k) < bs && perm(perm(k)) == k
}

proof fn lemma_block_index(len: int, bs: int, i: int, k: int)
    requires
        bs > 0,
        0 <= i < (len / bs) * bs,
        0 <= k < bs,
    ensures
        0 <= (i / bs) * bs + k < (len / bs) * bs,
        ((i / bs) * bs + k) / bs == i / bs,
        ((i / bs) * bs + k) % bs == k,
{
    lemma_div_mod_facts(i, bs);
    lemma_div_mod_unique(i / bs, k, bs);
    assert(i / bs < len / bs) by (nonlinear_arith)
        requires i == (i / bs) * bs + i % bs, 0 <= i % bs, i < (len / bs) * bs, bs > 0;
    assert((i / bs) * bs + k < (len / bs) * bs) by (nonlinear_arith)
        requires i / bs < len / bs, k < bs, bs > 0;
    assert(0 <= (i / bs) * bs) by (nonlinear_arith) requires i / bs >= 0, bs > 0;
}

/// Rearranging every block twice by an involution restores the data.
pub proof fn lemma_block_perm_twice(s: Seq<u8>, bs: int, perm: spec_fn(int) -> int)
    requires
        bs > 0,
        is_block_involution(bs, perm),
    ensures
        block_perm(block_perm(s, bs, perm), bs, perm) == s,
{
    let len = s.len() as int;
    let t = block_perm(s, bs, perm);
    lemma_div_mod_facts(len, bs);
    assert forall|i: int| 0 <= i < len implies block_perm(t, bs, perm)[i] == s[i] by {
        if i < (len / bs) * bs {
            let k = i % bs;
            lemma_div_mod_facts(i, bs);
            let x = (i / bs) * bs + perm(k);
            lemma_block_index(len, bs, i, perm(k));
            assert(t[x] == s[(x / bs) * bs + perm(x % bs)]);
            assert(s[(x / bs) * bs + perm(x % bs)] == s[(i / bs) * bs + k]);
        }
    }
    assert(block_perm(t, bs, perm) =~= s);
}

/// Rearranging the blocks commutes with reversing the rows of blocks.
pub proof fn lemma_block_perm_commutes(s: Seq<u8>, w: int, bs: int, perm: spec_fn(int) -> int)
    requires
        w > 0,
        bs > 0,
        is_block_involution(bs, perm),
    ensures
        block_perm(spec_rows_reversed(s, w * bs), bs, perm) == spec_rows_reversed(block_perm(s, bs, perm), w * bs),
{
    let len = s.len() as int;
    let rl = w * bs;
    let nb = len / bs;
    let r = spec_rows_reversed(s, rl);
    let b = block_perm(s, bs, perm);
    lemma_div_mod_facts(len, bs);
    assert forall|i: int| 0 <= i < len implies block_perm(r, bs, perm)[i] == spec_rows_reversed(b, rl)[i] by {
        lemma_row_src(len, w, bs, i);
        let g = row_src(len, rl, i);
        assert(spec_rows_reversed(b, rl)[i] == b[g]);
        if i < nb * bs {
            let k = i % bs;
            let x = (i / bs) * bs + perm(k);
            lemma_block_index(len, bs, i, perm(k));
            assert(block_perm(r, bs, perm)[i] == r[x]);
            assert(r[x] == s[row_src(len, rl, x)]);
            assert(row_src(len, rl, x) == (g / bs) * bs + perm(k));
            assert(b[g] == s[(g / bs) * bs + perm(g % bs)]);
        } else {
            assert(g == i);
            assert(block_perm(r, bs, perm)[i] == r[i]);
            assert(r[i] == s[g]);
            assert(b[i] == s[i]);
        }
    }
    assert(block_perm(r, bs, perm) =~= spec_rows_reversed(b, rl));
}

/// Where byte `k` of a flipped BC2 block comes from.
pub open spec fn bc2_perm() -> spec_fn(int) -> int {
    |k: int| spec_bc2_source(k)
}

/// Where byte `k` of an 8-byte BC1 block comes from once its four
/// colour-index bytes are reversed.
pub open spec fn bc1_perm() -> spec_fn(int) -> int {
    |k: int| if k < 4 { k } else { 11 - k }
}

proof fn lemma_bc2_perm_involution()
    ensures
        is_block_involution(16, bc2_perm()),
{
    assert forall|k: int| 0 <= k < 16 implies 0 <= #[trigger] bc2_perm()(k) < 16 && bc2_perm()(bc2_perm()(k)) == k by {
        if k < 2 {
        } else if k < 4 {
        } else if k < 6 {
        } else if k < 8 {
        }
    }
}

proof fn lemma_bc1_perm_involution()
    ensures
        is_block_involution(8, bc1_perm()),
{
}

proof fn lemma_bc2_is_block_perm(s: Seq<u8>)
    ensures
        spec_bc2_blocks_flipped(s) == block_perm(s, 16, bc2_perm()),
{
    assert(spec_bc2_blocks_flipped(s) =~= block_perm(s, 16, bc2_perm()));
}

proof fn lemma_bc1_is_block_perm(s: Seq<u8>)
    ensures
        spec_lookups_reversed(s) == block_perm(s, 8, bc1_perm()),
{
    let len = s.len() as int;
    let nh = len / 4;
    let nb = len / 8;
    lemma_div_mod_facts(len, 4);
    lemma_div_mod_facts(len, 8);
    assert(nb * 8 <= nh * 4) by {
        assert(nb * 8 == (2 * nb) * 4);
        if 2 * nb > nh {
            assert(len >= nb * 8);
            assert((2 * nb) * 4 >= (nh + 1) * 4);
        }
    }
    assert forall|i: int| 0 <= i < len implies spec_lookups_reversed(s)[i] == block_perm(s, 8, bc1_perm())[i] by {
        lemma_div_mod_facts(i, 8);
        lemma_div_mod_facts(i, 4);
        let q = i / 8;
        let k = i % 8;
        if i < nb * 8 {
            if k >= 4 {
                lemma_div_mod_unique(2 * q + 1, k - 4, 4);
                assert(i == (2 * q + 1) * 4 + (k - 4));
            } else {
                lemma_div_mod_unique(2 * q, k, 4);
                assert(i == (2 * q) * 4 + k);
            }
        } else {
            let g = i / 4;
            if i < 4 * nh && g % 2 == 1 {
                lemma_div_mod_facts(g, 2);
                let q2 = g / 2;
                assert(g + 1 <= nh);
                assert(8 * (q2 + 1) == 4 * (g + 1));
                assert(8 * (q2 + 1) <= len);
                lemma_div_mod_unique(q2 + 1, len - 8 * (q2 + 1), 8);
                if len - 8 * (q2 + 1) < 8 {
                    assert(nb == q2 + 1);
                } else {
                    assert(nb >= q2 + 1) by {
                        vstd::arithmetic::div_mod::lemma_div_is_ordered(8 * (q2 + 1), len, 8);
                        lemma_div_mod_unique(q2 + 1, 0, 8);
                    }
                }
                assert(i < 4 * (g + 1));
                assert(false);
            }
        }
    }
    assert(spec_lookups_reversed(s) =~= block_perm(s, 8, bc1_perm()));
}

/// Flipping BC1 data twice restores it.
pub proof fn lemma_flip_bc1_twice(s: Seq<u8>, width: int)
    requires
        width > 0,
    ensures
        spec_flip_bc1(spec_flip_bc1(s, width), width) == s,
{
    let w = spec_blocks_wide(width);
    assert(w > 0);
    let rl = w * 8;
    lemma_bc1_perm_involution();
    let once = spec_flip_bc1(s, width);
    let r = spec_rows_reversed(s, rl);
    lemma_bc1_is_block_perm(r);
    lemma_bc1_is_block_perm(spec_rows_reversed(once, rl));
    // flip(flip(s)) = B(R(B(R(s)))) = B(B(R(R(s))))
    lemma_block_perm_commutes(block_perm(r, 8, bc1_perm()), w, 8, bc1_perm());
    lemma_block_perm_twice(spec_rows_reversed(block_perm(r, 8, bc1_perm()), rl), 8, bc1_perm());
    lemma_block_perm_commutes(r, w, 8, bc1_perm());
    lemma_block_perm_twice(r, 8, bc1_perm());
    lemma_rows_reversed_twice(s, rl);
    assert(spec_rows_reversed(block_perm(r, 8, bc1_perm()), rl) == block_perm(spec_rows_reversed(r, rl), 8, bc1_perm()));
}

/// Flipping BC2 data twice restores it.
pub proof fn lemma_flip_bc2_twice(s: Seq<u8>, width: int)
    requires
        width > 0,
    ensures
        spec_flip_bc2(spec_flip_bc2(s, width), width) == s,
{
    let w = spec_blocks_wide(width);
    let rl = w * 16;
    lemma_bc2_perm_involution();
    let once = spec_flip_bc2(s, width);
    let r = spec_rows_reversed(s, rl);
    lemma_bc2_is_block_perm(r);
    lemma_bc2_is_block_perm(spec_rows_reversed(once, rl));
    lemma_block_perm_commutes(block_perm(r, 16, bc2_perm()), w, 16, bc2_perm());
    lemma_block_perm_twice(spec_rows_reversed(block_perm(r, 16, bc2_perm()), rl), 16, bc2_perm());
    lemma_block_perm_commutes(r, w, 16, bc2_perm());
    lemma_block_perm_twice(r, 16, bc2_perm());
    lemma_rows_reversed_twice(s, rl);
    assert(spec_rows_reversed(block_perm(r, 16, bc2_perm()), rl) == block_perm(spec_rows_reversed(r, rl), 16, bc2_perm()));
}

/// The bytes of packed alpha indices read back one by one.
proof fn lemma_unpack_alpha(b2: u8, b3: u8, b4: u8, b5: u8, b6: u8, b7: u8)
    ensures
        spec_byte_of(spec_pack_alpha(b2, b3, b4, b5, b6, b7), 0) == b2,
        spec_byte_of(spec_pack_alpha(b2, b3, b4, b5, b6, b7), 1) == b3,
        spec_byte_of(spec_pack_alpha(b2, b3, b4, b5, b6, b7), 2) == b4,
        spec_byte_of(spec_pack_alpha(b2, b3, b4, b5, b6, b7), 3) == b5,
        spec_byte_of(spec_pack_alpha(b2, b3, b4, b5, b6, b7), 4) == b6,
        spec_byte_of(spec_pack_alpha(b2, b3, b4, b5, b6, b7), 5) == b7,
{
    let v = spec_pack_alpha(b2, b3, b4, b5, b6, b7);
    assert(((v >> 0u64) & 0xff) as u8 == b2) by (bit_vector)
        requires v == (b2 as u64) | ((b3 as u64) << 8u64) | ((b4 as u64) << 16u64) | ((b5 as u64) << 24u64) | ((b6 as u64) << 32u64) | ((b7 as u64) << 40u64);
    assert(((v >> 8u64) & 0xff) as u8 == b3) by (bit_vector)
        requires v == (b2 as u64) | ((b3 as u64) << 8u64) | ((b4 as u64) << 16u64) | ((b5 as u64) << 24u64) | ((b6 as u64) << 32u64) | ((b7 as u64) << 40u64);
    assert(((v >> 16u64) & 0xff) as u8 == b4) by (bit_vector)
        requires v == (b2 as u64) | ((b3 as u64) << 8u64) | ((b4 as u64) << 16u64) | ((b5 as u64) << 24u64) | ((b6 as u64) << 32u64) | ((b7 as u64) << 40u64);
    assert(((v >> 24u64) & 0xff) as u8 == b5) by (bit_vector)
        requires v == (b2 as u64) | ((b3 as u64) << 8u64) | ((b4 as u64) << 16u64) | ((b5 as u64) << 24u64) | ((b6 as u64) << 32u64) | ((b7 as u64) << 40u64);
    assert(((v >> 32u64) & 0xff) as u8 == b6) by (bit_vector)
        requires v == (b2 as u64) | ((b3 as u64) << 8u64) | ((b4 as u64) << 16u64) | ((b5 as u64) << 24u64) | ((b6 as u64) << 32u64) | ((b7 as u64) << 40u64);
    assert(((v >> 40u64) & 0xff) as u8 == b7) by (bit_vector)
        requires v == (b2 as u64) | ((b3 as u64) << 8u64) | ((b4 as u64) << 16u64) | ((b5 as u64) << 24u64) | ((b6 as u64) << 32u64) | ((b7 as u64) << 40u64);
    assert(spec_byte_of(v, 0) == ((v >> 0u64) & 0xff) as u8);
    assert(spec_byte_of(v, 1) == ((v >> 8u64) & 0xff) as u8);
    assert(spec_byte_of(v, 2) == ((v >> 16u64) & 0xff) as u8);
    assert(spec_byte_of(v, 3) == ((v >> 24u64) & 0xff) as u8);
    assert(spec_byte_of(v, 4) == ((v >> 32u64) & 0xff) as u8);
    assert(spec_byte_of(v, 5) == ((v >> 40u64) & 0xff) as u8);
}

/// A flipped BC3 block depends only on the sixteen bytes of the block.
proof fn lemma_bc3_byte_local(s1: Seq<u8>, b1: int, s2: Seq<u8>, b2: int, k: int)
    requires
        0 <= k < 16,
        forall|j: int| 0 <= j < 16 ==> #[trigger] s1[b1 + j] == s2[b2 + j],
    ensures
        spec_bc3_byte(s1, b1, k) == spec_bc3_byte(s2, b2, k),
{
    assert(s1[b1 + 2] == s2[b2 + 2]);
    assert(s1[b1 + 3] == s2[b2 + 3]);
    assert(s1[b1 + 4] == s2[b2 + 4]);
    assert(s1[b1 + 5] == s2[b2 + 5]);
    assert(s1[b1 + 6] == s2[b2 + 6]);
    assert(s1[b1 + 7] == s2[b2 + 7]);
    assert(spec_alpha_bits(s1, b1) == spec_alpha_bits(s2, b2));
    if k >= 12 {
        assert(s1[b1 + (27 - k)] == s2[b2 + (27 - k)]);
    } else if !(2 <= k < 8) {
        assert(s1[b1 + k] == s2[b2 + k]);
    }
}

/// Flipping a BC3 block twice restores it.
proof fn lemma_bc3_byte_twice(s: Seq<u8>, t: Seq<u8>, b: int, k: int)
    requires
        0 <= k < 16,
        forall|j: int| 0 <= j < 16 ==> #[trigger] t[b + j] == spec_bc3_byte(s, b, j),
    ensures
        spec_bc3_byte(t, b, k) == s[b + k],
{
    let v = spec_alpha_bits(s, b);
    lemma_pack_alpha(v, s[b + 2], s[b + 3], s[b + 4], s[b + 5], s[b + 6], s[b + 7]);
    lemma_alpha_rows_reversed(v);
    let w = spec_reverse_alpha_rows(v);
    assert(t[b + 2] == spec_byte_of(w, 0));
    assert(t[b + 3] == spec_byte_of(w, 1));
    assert(t[b + 4] == spec_byte_of(w, 2));
    assert(t[b + 5] == spec_byte_of(w, 3));
    assert(t[b + 6] == spec_byte_of(w, 4));
    assert(t[b + 7] == spec_byte_of(w, 5));
    lemma_pack_alpha(w, t[b + 2], t[b + 3], t[b + 4], t[b + 5], t[b + 6], t[b + 7]);
    assert(spec_alpha_bits(t, b) == w);
    assert(spec_reverse_alpha_rows(w) == v);
    lemma_unpack_alpha(s[b + 2], s[b + 3], s[b + 4], s[b + 5], s[b + 6], s[b + 7]);
    if k >= 12 {
        assert(t[b + (27 - k)] == spec_bc3_byte(s, b, 27 - k));
    } else if !(2 <= k < 8) {
        assert(t[b + k] == spec_bc3_byte(s, b, k));
    }
}

/// Flipping the rows inside every BC3 block commutes with reversing the
/// rows of blocks.
proof fn lemma_bc3_commutes(s: Seq<u8>, w: int)
    requires
        w > 0,
    ensures
        spec_bc3_blocks_flipped(spec_rows_reversed(s, w * 16)) == spec_rows_reversed(spec_bc3_blocks_flipped(s), w * 16),
{
    let len = s.len() as int;
    let rl = w * 16;
    let nb = len / 16;
    let r = spec_rows_reversed(s, rl);
    let b = spec_bc3_blocks_flipped(s);
    lemma_div_mod_facts(len, 16);
    assert forall|i: int| 0 <= i < len implies spec_bc3_blocks_flipped(r)[i] == spec_rows_reversed(b, rl)[i] by {
        lemma_row_src(len, w, 16, i);
        let g = row_src(len, rl, i);
        assert(spec_rows_reversed(b, rl)[i] == b[g]);
        if i < nb * 16 {
            lemma_div_mod_facts(i, 16);
            lemma_div_mod_facts(g, 16);
            let bi = (i / 16) * 16;
            let bg = (g / 16) * 16;
            assert forall|j: int| 0 <= j < 16 implies #[trigger] r[bi + j] == s[bg + j] by {
                lemma_block_index(len, 16, i, j);
                assert(row_src(len, rl, bi + j) == bg + j);
            }
            lemma_bc3_byte_local(r, bi, s, bg, i % 16);
            assert(spec_bc3_blocks_flipped(r)[i] == spec_bc3_byte(r, bi, i % 16));
            assert(b[g] == spec_bc3_byte(s, bg, g % 16));
        } else {
            assert(g == i);
        }
    }
    assert(spec_bc3_blocks_flipped(r) =~= spec_rows_reversed(b, rl));
}

/// Flipping the rows inside every BC3 block twice restores the data.
proof fn lemma_bc3_blocks_twice(s: Seq<u8>)
    ensures
        spec_bc3_blocks_flipped(spec_bc3_blocks_flipped(s)) == s,
{
    let len = s.len() as int;
    let nb = len / 16;
    let t = spec_bc3_blocks_flipped(s);
    lemma_div_mod_facts(len, 16);
    assert forall|i: int| 0 <= i < len implies spec_bc3_blocks_flipped(t)[i] == s[i] by {
        if i < nb * 16 {
            lemma_div_mod_facts(i, 16);
            let bi = (i / 16) * 16;
            assert forall|j: int| 0 <= j < 16 implies #[trigger] t[bi + j] == spec_bc3_byte(s, bi, j) by {
                lemma_block_index(len, 16, i, j);
            }
            lemma_bc3_byte_twice(s, t, bi, i % 16);
        }
    }
    assert(spec_bc3_blocks_flipped(t) =~= s);
}

/// Flipping BC3 data twice restores it.
pub proof fn lemma_flip_bc3_twice(s: Seq<u8>, width: int)
    requires
        width > 0,
    ensures
        spec_flip_bc3(spec_flip_bc3(s, width), width) == s,
{
    let w = spec_blocks_wide(width);
    let rl = w * 16;
    let r = spec_rows_reversed(s, rl);
    let once = spec_bc3_blocks_flipped(r);
    lemma_bc3_commutes(once, w);
    lemma_bc3_blocks_twice(spec_rows_reversed(once, rl));
    lemma_bc3_commutes(r, w);
    lemma_bc3_blocks_twice(r);
    lemma_rows_reversed_twice(s, rl);
}

/// Flipping data of any block format twice, as a loader would if it
/// flipped the data it had already flipped, restores it.
pub proof fn lemma_flip_for_twice(fmt: Fmt, s: Seq<u8>, width: int)
    requires
        width > 0,
    ensures
        spec_flip_for(fmt, spec_flip_for(fmt, s, width), width) == s,
{
    match fmt {
        Fmt::Bc1Opaque | Fmt::Bc1 => lemma_flip_bc1_twice(s, width),
        Fmt::Bc2 => lemma_flip_bc2_twice(s, width),
        Fmt::Bc3 => lemma_flip_bc3_twice(s, width),
    }
}

} // verus!
