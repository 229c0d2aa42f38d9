//! Vertical flip of block-compressed (BC1, BC2, BC3) image data.
//!
//! A flip reverses the order of the rows of 4x4 blocks, then reverses the
//! four pixel rows inside every block: for BC1 and the colour part of BC2
//! and BC3 by reversing the four bytes of colour indices, for the alpha
//! part of BC2 by reversing its four 2-byte rows, and for the alpha part of
//! BC3 by reversing its four 12-bit rows of alpha indices.

use vstd::prelude::*;

verus! {

/// Byte `c` of row `r`, for rows of `row_len` bytes.
pub open spec fn pos(row_len: int, r: int, c: int) -> int {
    r * row_len + c
}

/// The bytes with their whole rows of `row_len` bytes in reverse order;
/// bytes after the last whole row keep their place.
pub open spec fn spec_rows_reversed(s: Seq<u8>, row_len: int) -> Seq<u8> {
    let n = (s.len() as int) / row_len;
    Seq::new(
        s.len(),
        |i: int|
            if i < n * row_len {
                s[(n - 1 - i / row_len) * row_len + i % row_len]
            } else {
                s[i]
            },
    )
}

proof fn lemma_pos_bounds(row_len: int, n: int, r: int, c: int)
    requires
        0 <= r < n,
        0 <= c < row_len,
    ensures
        0 <= pos(row_len, r, c) < n * row_len,
        pos(row_len, r, c) + row_len - c <= n * row_len,
{
    assert(r * row_len + c < (r + 1) * row_len) by (nonlinear_arith)
        requires
            c < row_len,
    ;
    assert((r + 1) * row_len <= n * row_len) by (nonlinear_arith)
        requires
            r + 1 <= n,
            row_len > 0,
    ;
    assert((r + 1) * row_len == r * row_len + row_len) by (nonlinear_arith);
    assert(0 <= r * row_len) by (nonlinear_arith)
        requires
            r >= 0,
            row_len > 0,
    ;
}

proof fn lemma_pos_injective(row_len: int, r1: int, c1: int, r2: int, c2: int)
    requires
        0 <= c1 < row_len,
        0 <= c2 < row_len,
        pos(row_len, r1, c1) == pos(row_len, r2, c2),
    ensures
        r1 == r2,
        c1 == c2,
{
    if r1 < r2 {
        assert(r1 * row_len + c1 < r2 * row_len + c2) by (nonlinear_arith)
            requires
                r1 < r2,
                0 <= c1 < row_len,
                0 <= c2,
        ;
    } else if r2 < r1 {
        assert(r2 * row_len + c2 < r1 * row_len + c1) by (nonlinear_arith)
            requires
                r2 < r1,
                0 <= c2 < row_len,
                0 <= c1,
        ;
    }
}

/// Every byte before the end of the last whole row is a (row, column)
/// position.
proof fn lemma_pos_of_index(row_len: int, n: int, i: int)
    requires
        row_len > 0,
        0 <= i < n * row_len,
    ensures
        0 <= i / row_len < n,
        0 <= i % row_len < row_len,
        i == pos(row_len, i / row_len, i % row_len),
{
    vstd::arithmetic::div_mod::lemma_fundamental_div_mod(i, row_len);
    let q = i / row_len;
    let m = i % row_len;
    assert(0 <= m < row_len) by {
        vstd::arithmetic::div_mod::lemma_mod_bound(i, row_len);
    }
    assert(row_len * q == q * row_len) by (nonlinear_arith);
    assert(q < n) by (nonlinear_arith)
        requires
            i == q * row_len + m,
            0 <= m,
            i < n * row_len,
            row_len > 0,
    ;
    assert(q >= 0) by (nonlinear_arith)
        requires
            i == q * row_len + m,
            m < row_len,
            i >= 0,
            row_len > 0,
    ;
}

/// Reverse the order of the whole rows of `row_len` bytes.
pub fn reverse_rows(data: &mut [u8], row_len: usize)
    requires
        row_len > 0,
    ensures
        final(data)@ == spec_rows_reversed(old(data)@, row_len as int),
{
    let ghost s = data@;
    let ghost rl = row_len as int;
    let len = data.len();
    let n = len / row_len;
    let ghost ni = n as int;
    assert(ni * rl <= len) by (nonlinear_arith)
        requires
            ni == (len as int) / rl,
            rl > 0,
            len >= 0,
    ;
    let mut r: usize = 0;
    while r < n / 2
        invariant
            data@.len() == s.len(),
            len == s.len(),
            rl == row_len as int,
            rl > 0,
            ni == n,
            n == len / row_len,
            ni * rl <= len,
            r <= n / 2,
            forall|rr: int, cc: int|
                #![trigger data@[pos(rl, rr, cc)]]
                0 <= rr < ni && 0 <= cc < rl ==> data@[pos(rl, rr, cc)] == if rr < r || rr >= ni
                    - r {
                    s[pos(rl, ni - 1 - rr, cc)]
                } else {
                    s[pos(rl, rr, cc)]
                },
            forall|i: int| ni * rl <= i < s.len() ==> data@[i] == s[i],
        decreases n / 2 - r,
    {
        let top = r;
        let bottom = n - 1 - r;
        proof {
            lemma_pos_bounds(rl, ni, bottom as int, 0);
            lemma_pos_bounds(rl, ni, top as int, 0);
        }
        let a = top * row_len;
        let b = bottom * row_len;
        let ghost d0 = data@;
        let mut c: usize = 0;
        while c < row_len
            invariant
                data@.len() == s.len(),
                len == s.len(),
                rl == row_len as int,
                rl > 0,
                ni * rl <= s.len(),
                top < bottom < ni,
                top as int == r,
                bottom as int == ni - 1 - r,
                a as int == pos(rl, top as int, 0),
                b as int == pos(rl, bottom as int, 0),
                c <= row_len,
                forall|rr: int, cc: int|
                    #![trigger data@[pos(rl, rr, cc)]]
                    0 <= rr < ni && 0 <= cc < rl ==> data@[pos(rl, rr, cc)] == if (rr == top
                        || rr == bottom) && cc < c {
                        d0[pos(rl, ni - 1 - rr, cc)]
                    } else {
                        d0[pos(rl, rr, cc)]
                    },
                forall|i: int| ni * rl <= i < s.len() ==> data@[i] == d0[i],
            decreases row_len - c,
        {
            proof {
                lemma_pos_bounds(rl, ni, top as int, c as int);
                lemma_pos_bounds(rl, ni, bottom as int, c as int);
                assert(pos(rl, top as int, c as int) == a + c);
                assert(pos(rl, bottom as int, c as int) == b + c);
            }
            let ghost before = data@;
            let t = data[a + c];
            let u = data[b + c];
            data[a + c] = u;
            data[b + c] = t;
            proof {
                assert forall|rr: int, cc: int|
                    0 <= rr < ni && 0 <= cc < rl implies #[trigger] data@[pos(rl, rr, cc)] == if (
                    rr == top || rr == bottom) && cc < c + 1 {
                        d0[pos(rl, ni - 1 - rr, cc)]
                    } else {
                        d0[pos(rl, rr, cc)]
                    } by {
                    lemma_pos_bounds(rl, ni, rr, cc);
                    if pos(rl, rr, cc) == pos(rl, top as int, c as int) {
                        lemma_pos_injective(rl, rr, cc, top as int, c as int);
                    } else if pos(rl, rr, cc) == pos(rl, bottom as int, c as int) {
                        lemma_pos_injective(rl, rr, cc, bottom as int, c as int);
                    } else {
                        assert(data@[pos(rl, rr, cc)] == before[pos(rl, rr, cc)]);
                        if (rr == top || rr == bottom) && cc == c {
                            assert(false);
                        }
                    }
                }
                assert forall|i: int| ni * rl <= i < s.len() implies data@[i] == d0[i] by {
                    assert(i != a + c && i != b + c);
                    assert(data@[i] == before[i]);
                }
            }
            c = c + 1;
        }
        r = r + 1;
    }
    proof {
        let target = spec_rows_reversed(s, rl);
        assert((s.len() as int) / rl == ni);
        assert forall|i: int| 0 <= i < s.len() implies data@[i] == target[i] by {
            if i < ni * rl {
                lemma_pos_of_index(rl, ni, i);
                let rr = i / rl;
                let cc = i % rl;
                assert(data@[pos(rl, rr, cc)] == s[pos(rl, ni - 1 - rr, cc)]);
            }
        }
        assert(data@ =~= target);
    }
}

/// The bytes with the four bytes of every odd 4-byte group reversed: in
/// BC1 data these are the colour indices of each 8-byte block, one byte
/// per pixel row.
pub open spec fn spec_lookups_reversed(s: Seq<u8>) -> Seq<u8> {
    let nh = (s.len() as int) / 4;
    Seq::new(
        s.len(),
        |i: int|
            if i < 4 * nh && (i / 4) % 2 == 1 {
                s[(i / 4) * 4 + 3 - i % 4]
            } else {
                s[i]
            },
    )
}

/// Reverse the colour-index bytes of every BC1 block (the second half of
/// each 8-byte block).
pub fn reverse_bc1_lookups(data: &mut [u8])
    ensures
        final(data)@ == spec_lookups_reversed(old(data)@),
{
    let ghost s = data@;
    let len = data.len();
    let nh = len / 4;
    let mut h: usize = 1;
    while h < nh
        invariant
            data@.len() == s.len(),
            len == s.len(),
            nh == len / 4,
            h % 2 == 1,
            h <= nh + 1,
            forall|i: int|
                0 <= i < s.len() ==> #[trigger] data@[i] == if i / 4 < h && (i / 4) % 2 == 1 {
                    s[(i / 4) * 4 + 3 - i % 4]
                } else {
                    s[i]
                },
        decreases nh + 1 - h,
    {
        let b = 4 * h;
        let x0 = data[b];
        let x1 = data[b + 1];
        let x2 = data[b + 2];
        let x3 = data[b + 3];
        data[b] = x3;
        data[b + 1] = x2;
        data[b + 2] = x1;
        data[b + 3] = x0;
        h = h + 2;
    }
    assert(data@ =~= spec_lookups_reversed(s));
}

/// Where byte `k` of a flipped 16-byte BC2 block comes from: the four
/// 2-byte alpha rows are reversed, the colour endpoints stay, and the four
/// colour-index bytes are reversed.
pub open spec fn spec_bc2_source(k: int) -> int {
    if k < 8 {
        6 - 2 * (k / 2) + k % 2
    } else if k < 12 {
        k
    } else {
        27 - k
    }
}

/// The bytes with every whole 16-byte block rearranged by
/// `spec_bc2_source`.
pub open spec fn spec_bc2_blocks_flipped(s: Seq<u8>) -> Seq<u8> {
    let nb = (s.len() as int) / 16;
    Seq::new(
        s.len(),
        |i: int|
            if i < 16 * nb {
                s[(i / 16) * 16 + spec_bc2_source(i % 16)]
            } else {
                s[i]
            },
    )
}

/// Flip the pixel rows inside every BC2 block.
pub fn flip_bc2_blocks(data: &mut [u8])
    ensures
        final(data)@ == spec_bc2_blocks_flipped(old(data)@),
{
    let ghost s = data@;
    let len = data.len();
    let nb = len / 16;
    let mut b: usize = 0;
    while b < nb
        invariant
            data@.len() == s.len(),
            len == s.len(),
            nb == len / 16,
            b <= nb,
            forall|i: int|
                0 <= i < s.len() ==> #[trigger] data@[i] == if i / 16 < b {
                    s[(i / 16) * 16 + spec_bc2_source(i % 16)]
                } else {
                    s[i]
                },
        decreases nb - b,
    {
        let base = 16 * b;
        let x0 = data[base];
        let x1 = data[base + 1];
        let x2 = data[base + 2];
        let x3 = data[base + 3];
        let x4 = data[base + 4];
        let x5 = data[base + 5];
        let x6 = data[base + 6];
        let x7 = data[base + 7];
        let x12 = data[base + 12];
        let x13 = data[base + 13];
        let x14 = data[base + 14];
        let x15 = data[base + 15];
        data[base] = x6;
        data[base + 1] = x7;
        data[base + 2] = x4;
        data[base + 3] = x5;
        data[base + 4] = x2;
        data[base + 5] = x3;
        data[base + 6] = x0;
        data[base + 7] = x1;
        data[base + 12] = x15;
        data[base + 13] = x14;
        data[base + 14] = x13;
        data[base + 15] = x12;
        b = b + 1;
    }
    assert(data@ =~= spec_bc2_blocks_flipped(s));
}

/// The 48 bits of alpha indices of a BC3 block, from its six bytes
/// (bytes 2 to 7 of the block), least significant first.
pub open spec fn spec_pack_alpha(b2: u8, b3: u8, b4: u8, b5: u8, b6: u8, b7: u8) -> u64 {
    (b2 as u64) | ((b3 as u64) << 8u64) | ((b4 as u64) << 16u64) | ((b5 as u64) << 24u64) | ((
    b6 as u64) << 32u64) | ((b7 as u64) << 40u64)
}

/// Row `k` (0 to 3) of a 48-bit block of alpha indices: 12 bits, three
/// bits for each of the row's four pixels.
pub open spec fn spec_alpha_row(v: u64, k: int) -> u64 {
    if k == 0 {
        v & 0xfff
    } else if k == 1 {
        (v >> 12u64) & 0xfff
    } else if k == 2 {
        (v >> 24u64) & 0xfff
    } else {
        (v >> 36u64) & 0xfff
    }
}

/// The alpha indices with their four rows in reverse order.
pub open spec fn spec_reverse_alpha_rows(v: u64) -> u64 {
    ((v & 0xfff) << 36u64) | (((v >> 12u64) & 0xfff) << 24u64) | (((v >> 24u64) & 0xfff) << 12u64)
        | ((v >> 36u64) & 0xfff)
}

/// Byte `j` (0 to 5) of a 48-bit value.
pub open spec fn spec_byte_of(v: u64, j: int) -> u8 {
    ((v >> (8 * j) as u64) & 0xff) as u8
}

/// The alpha indices of the BC3 block that starts at `base`.
pub open spec fn spec_alpha_bits(s: Seq<u8>, base: int) -> u64 {
    spec_pack_alpha(s[base + 2], s[base + 3], s[base + 4], s[base + 5], s[base + 6], s[base + 7])
}

/// Where byte `k` of a flipped 16-byte BC3 block comes from, outside the
/// alpha indices: the alpha endpoints (bytes 0, 1) and colour endpoints
/// (bytes 8 to 11) stay, the four colour-index bytes are reversed.
pub open spec fn spec_bc3_byte(s: Seq<u8>, base: int, k: int) -> u8 {
    if 2 <= k < 8 {
        spec_byte_of(spec_reverse_alpha_rows(spec_alpha_bits(s, base)), k - 2)
    } else if k >= 12 {
        s[base + 27 - k]
    } else {
        s[base + k]
    }
}

/// The bytes with the pixel rows inside every whole 16-byte BC3 block
/// reversed.
pub open spec fn spec_bc3_blocks_flipped(s: Seq<u8>) -> Seq<u8> {
    let nb = (s.len() as int) / 16;
    Seq::new(
        s.len(),
        |i: int|
            if i < 16 * nb {
                spec_bc3_byte(s, (i / 16) * 16, i % 16)
            } else {
                s[i]
            },
    )
}

/// Reversing the rows of a 48-bit block of alpha indices moves row `k` to
/// row `3 - k`, and writing the result out as six bytes and reading them
/// back loses nothing.
pub proof fn lemma_alpha_rows_reversed(v: u64)
    requires
        v >> 48u64 == 0,
    ensures
        spec_alpha_row(spec_reverse_alpha_rows(v), 0) == spec_alpha_row(v, 3),
        spec_alpha_row(spec_reverse_alpha_rows(v), 1) == spec_alpha_row(v, 2),
        spec_alpha_row(spec_reverse_alpha_rows(v), 2) == spec_alpha_row(v, 1),
        spec_alpha_row(spec_reverse_alpha_rows(v), 3) == spec_alpha_row(v, 0),
        spec_reverse_alpha_rows(spec_reverse_alpha_rows(v)) == v,
        spec_reverse_alpha_rows(v) >> 48u64 == 0,
{
    assert(((((v & 0xfff) << 36u64) | (((v >> 12u64) & 0xfff) << 24u64) | (((v >> 24u64) & 0xfff)
        << 12u64) | ((v >> 36u64) & 0xfff)) & 0xfff) == (v >> 36u64) & 0xfff) by (bit_vector);
    assert((((((v & 0xfff) << 36u64) | (((v >> 12u64) & 0xfff) << 24u64) | (((v >> 24u64)
        & 0xfff) << 12u64) | ((v >> 36u64) & 0xfff)) >> 12u64) & 0xfff) == (v >> 24u64) & 0xfff)
        by (bit_vector);
    assert((((((v & 0xfff) << 36u64) | (((v >> 12u64) & 0xfff) << 24u64) | (((v >> 24u64)
        & 0xfff) << 12u64) | ((v >> 36u64) & 0xfff)) >> 24u64) & 0xfff) == (v >> 12u64) & 0xfff)
        by (bit_vector);
    assert((((((v & 0xfff) << 36u64) | (((v >> 12u64) & 0xfff) << 24u64) | (((v >> 24u64)
        & 0xfff) << 12u64) | ((v >> 36u64) & 0xfff)) >> 36u64) & 0xfff) == v & 0xfff)
        by (bit_vector);
    let w = spec_reverse_alpha_rows(v);
    assert(w >> 48u64 == 0) by (bit_vector)
        requires
            w == ((v & 0xfff) << 36u64) | (((v >> 12u64) & 0xfff) << 24u64) | (((v >> 24u64)
                & 0xfff) << 12u64) | ((v >> 36u64) & 0xfff),
    ;
    assert(spec_reverse_alpha_rows(w) == v) by (bit_vector)
        requires
            w == ((v & 0xfff) << 36u64) | (((v >> 12u64) & 0xfff) << 24u64) | (((v >> 24u64)
                & 0xfff) << 12u64) | ((v >> 36u64) & 0xfff),
            v >> 48u64 == 0,
    ;
}

/// Six bytes read as alpha indices fit 48 bits, and a 48-bit value written
/// out as six bytes reads back unchanged.
pub proof fn lemma_pack_alpha(v: u64, b2: u8, b3: u8, b4: u8, b5: u8, b6: u8, b7: u8)
    ensures
        spec_pack_alpha(b2, b3, b4, b5, b6, b7) >> 48u64 == 0,
        v >> 48u64 == 0 ==> spec_pack_alpha(
            spec_byte_of(v, 0),
            spec_byte_of(v, 1),
            spec_byte_of(v, 2),
            spec_byte_of(v, 3),
            spec_byte_of(v, 4),
            spec_byte_of(v, 5),
        ) == v,
{
    assert(((b2 as u64) | ((b3 as u64) << 8u64) | ((b4 as u64) << 16u64) | ((b5 as u64) << 24u64)
        | ((b6 as u64) << 32u64) | ((b7 as u64) << 40u64)) >> 48u64 == 0) by (bit_vector);
    assert(v >> 48u64 == 0 ==> ((((v >> 0u64) & 0xff) as u8 as u64) | ((((v >> 8u64) & 0xff) as u8
        as u64) << 8u64) | ((((v >> 16u64) & 0xff) as u8 as u64) << 16u64) | ((((v >> 24u64)
        & 0xff) as u8 as u64) << 24u64) | ((((v >> 32u64) & 0xff) as u8 as u64) << 32u64) | ((((v
        >> 40u64) & 0xff) as u8 as u64) << 40u64)) == v) by (bit_vector);
}

/// Flip the pixel rows inside every BC3 block.
pub fn flip_bc3_blocks(data: &mut [u8])
    ensures
        final(data)@ == spec_bc3_blocks_flipped(old(data)@),
{
    let ghost s = data@;
    let len = data.len();
    let nb = len / 16;
    let mut b: usize = 0;
    while b < nb
        invariant
            data@.len() == s.len(),
            len == s.len(),
            nb == len / 16,
            b <= nb,
            forall|i: int|
                0 <= i < s.len() ==> #[trigger] data@[i] == if i / 16 < b {
                    spec_bc3_byte(s, (i / 16) * 16, i % 16)
                } else {
                    s[i]
                },
        decreases nb - b,
    {
        let base = 16 * b;
        let v: u64 = (data[base + 2] as u64) | ((data[base + 3] as u64) << 8u64) | ((data[base
            + 4] as u64) << 16u64) | ((data[base + 5] as u64) << 24u64) | ((data[base + 6] as u64)
            << 32u64) | ((data[base + 7] as u64) << 40u64);
        assert(v == spec_alpha_bits(s, base as int));
        let nv: u64 = ((v & 0xfff) << 36u64) | (((v >> 12u64) & 0xfff) << 24u64) | (((v
            >> 24u64) & 0xfff) << 12u64) | ((v >> 36u64) & 0xfff);
        let x12 = data[base + 12];
        let x13 = data[base + 13];
        let x14 = data[base + 14];
        let x15 = data[base + 15];
        data[base + 2] = (nv & 0xff) as u8;
        data[base + 3] = ((nv >> 8u64) & 0xff) as u8;
        data[base + 4] = ((nv >> 16u64) & 0xff) as u8;
        data[base + 5] = ((nv >> 24u64) & 0xff) as u8;
        data[base + 6] = ((nv >> 32u64) & 0xff) as u8;
        data[base + 7] = ((nv >> 40u64) & 0xff) as u8;
        data[base + 12] = x15;
        data[base + 13] = x14;
        data[base + 14] = x13;
        data[base + 15] = x12;
        proof {
            assert(nv == spec_reverse_alpha_rows(v));
            assert((nv & 0xff) == ((nv >> 0u64) & 0xff)) by (bit_vector);
            assert(data@[base + 2] == spec_byte_of(nv, 0));
            assert(data@[base + 3] == spec_byte_of(nv, 1));
            assert(data@[base + 4] == spec_byte_of(nv, 2));
            assert(data@[base + 5] == spec_byte_of(nv, 3));
            assert(data@[base + 6] == spec_byte_of(nv, 4));
            assert(data@[base + 7] == spec_byte_of(nv, 5));
        }
        b = b + 1;
    }
    assert(data@ =~= spec_bc3_blocks_flipped(s));
}

/// Number of 4-pixel blocks across `width` pixels: `ceil(width / 4)`.
pub open spec fn spec_blocks_wide(width: int) -> int {
    (width + 3) / 4
}

/// BC1 data flipped vertically: rows of 8-byte blocks reversed, then the
/// colour-index rows of each block reversed.
pub open spec fn spec_flip_bc1(s: Seq<u8>, width: int) -> Seq<u8> {
    spec_lookups_reversed(spec_rows_reversed(s, spec_blocks_wide(width) * 8))
}

/// BC2 data flipped vertically: rows of 16-byte blocks reversed, then the
/// pixel rows of each block reversed.
pub open spec fn spec_flip_bc2(s: Seq<u8>, width: int) -> Seq<u8> {
    spec_bc2_blocks_flipped(spec_rows_reversed(s, spec_blocks_wide(width) * 16))
}

/// BC3 data flipped vertically: rows of 16-byte blocks reversed, then the
/// pixel rows of each block reversed.
pub open spec fn spec_flip_bc3(s: Seq<u8>, width: int) -> Seq<u8> {
    spec_bc3_blocks_flipped(spec_rows_reversed(s, spec_blocks_wide(width) * 16))
}

/// Flip BC1 data of an image `width` pixels wide.
pub fn flip_bc1(data: &mut [u8], width: u16)
    requires
        width > 0,
    ensures
        final(data)@ == spec_flip_bc1(old(data)@, width as int),
{
    let blocks_wide = (width as usize + 3) / 4;
    reverse_rows(data, blocks_wide * 8);
    reverse_bc1_lookups(data);
}

/// Flip BC2 data of an image `width` pixels wide.
pub fn flip_bc2(data: &mut [u8], width: u16)
    requires
        width > 0,
    ensures
        final(data)@ == spec_flip_bc2(old(data)@, width as int),
{
    let blocks_wide = (width as usize + 3) / 4;
    reverse_rows(data, blocks_wide * 16);
    flip_bc2_blocks(data);
}

/// Flip BC3 data of an image `width` pixels wide.
pub fn flip_bc3(data: &mut [u8], width: u16)
    requires
        width > 0,
    ensures
        final(data)@ == spec_flip_bc3(old(data)@, width as int),
{
    let blocks_wide = (width as usize + 3) / 4;
    reverse_rows(data, blocks_wide * 16);
    flip_bc3_blocks(data);
}

} // verus!
