//! Byte-exact buffer transforms: gathering a rectangle out of a strided
//! buffer, scattering one back in, and reordering the channels of every
//! pixel. The proxy-buffer blit and the color-correction swizzles are
//! built from these three primitives.

use vstd::arithmetic::div_mod::{
    lemma_fundamental_div_mod_converse_div, lemma_fundamental_div_mod_converse_mod,
};
use vstd::prelude::*;

verus! {

/// The bytes of a `rows` by `row_len` rectangle read out of a buffer
/// whose rows are `src_row` bytes wide, starting `y0` rows down and `x0`
/// bytes in: entry `k` of the result is byte `k % row_len` of rectangle
/// row `k / row_len`.
pub open spec fn spec_extract(
    data: Seq<u8>,
    src_row: int,
    y0: int,
    x0: int,
    rows: int,
    row_len: int,
) -> Seq<u8> {
    Seq::new((rows * row_len) as nat, |k: int| data[(y0 + k / row_len) * src_row + x0 + k % row_len])
}

/// The buffer `data` with the tightly packed rectangle `rect` (of `rows`
/// rows, each `row_len` bytes) written `y0` rows down and `x0` bytes in;
/// every byte outside the rectangle keeps its old value.
pub open spec fn spec_implant(
    data: Seq<u8>,
    dst_row: int,
    y0: int,
    x0: int,
    rect: Seq<u8>,
    rows: int,
    row_len: int,
) -> Seq<u8> {
    Seq::new(
        data.len(),
        |i: int|
            {
                let y = i / dst_row;
                let r = i % dst_row;
                if y0 <= y < y0 + rows && x0 <= r < x0 + row_len {
                    rect[(y - y0) * row_len + (r - x0)]
                } else {
                    data[i]
                }
            },
    )
}

/// Which stored channel the rewritten channel `c` takes its bytes from.
/// Toward ARGB the alpha channel moves to the front; toward RGBA it moves
/// to the back.
pub open spec fn spec_src_channel(c: int, to_argb: bool) -> int {
    if to_argb {
        (c + 3) % 4
    } else {
        (c + 1) % 4
    }
}

/// A tightly packed buffer of four-channel pixels (`bpp` bytes each,
/// `e` bytes per channel) with every pixel's channels reordered by
/// [`spec_src_channel`].
pub open spec fn spec_swizzle_tight(data: Seq<u8>, bpp: int, e: int, to_argb: bool) -> Seq<u8> {
    Seq::new(
        data.len(),
        |i: int|
            {
                let p = i / bpp;
                let c = (i % bpp) / e;
                let b = (i % bpp) % e;
                data[p * bpp + spec_src_channel(c, to_argb) * e + b]
            },
    )
}

/// Bounds for the buffer index of rectangle row `rr`, offset `j`: it
/// stays under `(y0 + rows) * row`, and hence under the buffer length.
proof fn lemma_rect_index(y0: int, rr: int, x0: int, j: int, rows: int, row_len: int, row: int, len: int)
    by (nonlinear_arith)
    requires
        0 <= y0,
        0 <= x0,
        0 <= rr < rows,
        0 <= j < row_len,
        x0 + row_len <= row,
        0 < row,
        (y0 + rows) * row <= len,
    ensures
        y0 + rr <= len,
        (y0 + rr) * row + x0 + j < (y0 + rows) * row,
        (y0 + rr) * row + x0 + j < len,
{
}

/// Copies a rectangle out of a strided buffer into a tightly packed one.
pub fn extract_rect(
    src: &Vec<u8>,
    src_row: usize,
    y0: usize,
    x0: usize,
    rows: usize,
    row_len: usize,
) -> (r: Vec<u8>)
    requires
        src_row > 0,
        row_len > 0,
        x0 + row_len <= src_row,
        (y0 + rows) * src_row <= src@.len(),
        rows * row_len <= usize::MAX,
    ensures
        r@ == spec_extract(src@, src_row as int, y0 as int, x0 as int, rows as int, row_len as int),
{
    let ghost target = spec_extract(
        src@,
        src_row as int,
        y0 as int,
        x0 as int,
        rows as int,
        row_len as int,
    );
    let total = rows * row_len;
    let src_len: usize = src.len();
    let mut out: Vec<u8> = Vec::new();
    let mut k: usize = 0;
    while k < total
        invariant
            total == rows * row_len,
            total <= usize::MAX,
            src_len == src@.len(),
            src_row > 0,
            row_len > 0,
            x0 + row_len <= src_row,
            (y0 + rows) * src_row <= src@.len(),
            0 <= k <= total,
            out@.len() == k,
            target == spec_extract(
                src@,
                src_row as int,
                y0 as int,
                x0 as int,
                rows as int,
                row_len as int,
            ),
            forall|kk: int| 0 <= kk < k ==> out@[kk] == target[kk],
        decreases total - k,
    {
        let rr = k / row_len;
        let j = k % row_len;
        proof {
            assert(rr < rows) by (nonlinear_arith)
                requires
                    k < rows * row_len,
                    row_len > 0,
                    rr == k as int / row_len as int,
            ;
            lemma_rect_index(
                y0 as int,
                rr as int,
                x0 as int,
                j as int,
                rows as int,
                row_len as int,
                src_row as int,
                src@.len() as int,
            );
        }
        let idx = (y0 + rr) * src_row + x0 + j;
        let b = src[idx];
        out.push(b);
        k = k + 1;
    }
    proof {
        assert(out@ =~= target);
    }
    out
}

/// Scatters a tightly packed rectangle into a strided buffer, leaving
/// every byte outside the rectangle untouched.
pub fn implant_rect(
    dst: &mut Vec<u8>,
    dst_row: usize,
    y0: usize,
    x0: usize,
    rect: &Vec<u8>,
    rows: usize,
    row_len: usize,
)
    requires
        dst_row > 0,
        row_len > 0,
        x0 + row_len <= dst_row,
        (y0 + rows) * dst_row <= old(dst)@.len(),
        rect@.len() == rows * row_len,
    ensures
        final(dst)@ == spec_implant(
            old(dst)@,
            dst_row as int,
            y0 as int,
            x0 as int,
            rect@,
            rows as int,
            row_len as int,
        ),
{
    let ghost dst0 = dst@;
    let ghost target = spec_implant(
        dst0,
        dst_row as int,
        y0 as int,
        x0 as int,
        rect@,
        rows as int,
        row_len as int,
    );
    let total = rect.len();
    let dst_len: usize = dst.len();
    let mut k: usize = 0;
    while k < total
        invariant
            total == rect@.len(),
            rect@.len() == rows * row_len,
            dst_len == dst@.len(),
            dst_row > 0,
            row_len > 0,
            x0 + row_len <= dst_row,
            (y0 + rows) * dst_row <= dst0.len(),
            0 <= k <= total,
            dst@.len() == dst0.len(),
            target == spec_implant(
                dst0,
                dst_row as int,
                y0 as int,
                x0 as int,
                rect@,
                rows as int,
                row_len as int,
            ),
            forall|i: int|
                0 <= i < dst@.len() ==> dst@[i] == (if spec_rect_pos(
                    i,
                    dst_row as int,
                    y0 as int,
                    x0 as int,
                    rows as int,
                    row_len as int,
                ) is Some && spec_rect_pos(
                    i,
                    dst_row as int,
                    y0 as int,
                    x0 as int,
                    rows as int,
                    row_len as int,
                )->0 < k {
                    rect@[spec_rect_pos(
                        i,
                        dst_row as int,
                        y0 as int,
                        x0 as int,
                        rows as int,
                        row_len as int,
                    )->0]
                } else {
                    dst0[i]
                }),
        decreases total - k,
    {
        let rr = k / row_len;
        let j = k % row_len;
        proof {
            assert(rr < rows) by (nonlinear_arith)
                requires
                    k < rows * row_len,
                    row_len > 0,
                    rr == k as int / row_len as int,
            ;
            lemma_rect_index(
                y0 as int,
                rr as int,
                x0 as int,
                j as int,
                rows as int,
                row_len as int,
                dst_row as int,
                dst0.len() as int,
            );
        }
        let idx = (y0 + rr) * dst_row + x0 + j;
        let b = rect[k];
        dst[idx] = b;
        proof {
            lemma_rect_pos_of_index(
                dst_row as int,
                y0 as int,
                x0 as int,
                rows as int,
                row_len as int,
                rr as int,
                j as int,
            );
            assert(rr * row_len + j == k) by (nonlinear_arith)
                requires
                    rr == k as int / row_len as int,
                    j == k as int % row_len as int,
                    row_len > 0,
            ;
            assert(spec_rect_pos(
                idx as int,
                dst_row as int,
                y0 as int,
                x0 as int,
                rows as int,
                row_len as int,
            ) == Some(k as int));
            assert forall|i: int|
                0 <= i < dst@.len() implies dst@[i] == (if spec_rect_pos(
                i,
                dst_row as int,
                y0 as int,
                x0 as int,
                rows as int,
                row_len as int,
            ) is Some && spec_rect_pos(
                i,
                dst_row as int,
                y0 as int,
                x0 as int,
                rows as int,
                row_len as int,
            )->0 < k + 1 {
                rect@[spec_rect_pos(
                    i,
                    dst_row as int,
                    y0 as int,
                    x0 as int,
                    rows as int,
                    row_len as int,
                )->0]
            } else {
                dst0[i]
            }) by {
                let pos = spec_rect_pos(
                    i,
                    dst_row as int,
                    y0 as int,
                    x0 as int,
                    rows as int,
                    row_len as int,
                );
                if i != idx && pos is Some && pos->0 == k {
                    let y = i / (dst_row as int);
                    let r = i % (dst_row as int);
                    lemma_fundamental_div_mod_converse_div(k as int, row_len as int, y - y0, r - x0);
                    lemma_fundamental_div_mod_converse_mod(k as int, row_len as int, y - y0, r - x0);
                    assert(y == y0 + rr);
                    assert(r == x0 + j);
                    vstd::arithmetic::div_mod::lemma_fundamental_div_mod(i, dst_row as int);
                    assert((dst_row as int) * (y0 + rr) == (y0 + rr) * (dst_row as int))
                        by (nonlinear_arith);
                    assert(i == (y0 + rr) * (dst_row as int) + x0 + j);
                    assert(false);
                }
            }
        }
        k = k + 1;
    }
    proof {
        assert forall|i: int| 0 <= i < dst@.len() implies dst@[i] == target[i] by {
            lemma_rect_pos_bound(
                i,
                dst_row as int,
                y0 as int,
                x0 as int,
                rows as int,
                row_len as int,
            );
        }
        assert(dst@ =~= target);
    }
}

/// The rectangle-relative position that byte `i` of a strided buffer
/// corresponds to, if it lies inside the rectangle.
pub open spec fn spec_rect_pos(
    i: int,
    dst_row: int,
    y0: int,
    x0: int,
    rows: int,
    row_len: int,
) -> Option<int> {
    let y = i / dst_row;
    let r = i % dst_row;
    if y0 <= y < y0 + rows && x0 <= r < x0 + row_len {
        Some((y - y0) * row_len + (r - x0))
    } else {
        None
    }
}

/// The byte at rectangle row `rr`, offset `j` sits at buffer index
/// `(y0 + rr) * dst_row + x0 + j` and at rectangle position
/// `rr * row_len + j`.
proof fn lemma_rect_pos_of_index(
    dst_row: int,
    y0: int,
    x0: int,
    rows: int,
    row_len: int,
    rr: int,
    j: int,
)
    requires
        dst_row > 0,
        row_len > 0,
        x0 + row_len <= dst_row,
        0 <= rr < rows,
        0 <= j < row_len,
        x0 >= 0,
        y0 >= 0,
    ensures
        spec_rect_pos((y0 + rr) * dst_row + x0 + j, dst_row, y0, x0, rows, row_len) == Some(
            rr * row_len + j,
        ),
{
    let i = (y0 + rr) * dst_row + x0 + j;
    lemma_fundamental_div_mod_converse_div(i, dst_row, y0 + rr, x0 + j);
    lemma_fundamental_div_mod_converse_mod(i, dst_row, y0 + rr, x0 + j);
    assert(i / dst_row == y0 + rr);
    assert(i % dst_row == x0 + j);
}

/// Every rectangle position reachable from a buffer index is below
/// `rows * row_len`.
proof fn lemma_rect_pos_bound(i: int, dst_row: int, y0: int, x0: int, rows: int, row_len: int)
    requires
        dst_row > 0,
        row_len > 0,
    ensures
        match spec_rect_pos(i, dst_row, y0, x0, rows, row_len) {
            Some(p) => 0 <= p < rows * row_len,
            None => true,
        },
{
    let y = i / dst_row;
    let r = i % dst_row;
    if y0 <= y < y0 + rows && x0 <= r < x0 + row_len {
        assert(0 <= (y - y0) * row_len + (r - x0) < rows * row_len) by (nonlinear_arith)
            requires
                0 <= y - y0 < rows,
                0 <= r - x0 < row_len,
                row_len > 0,
        ;
    }
}

/// Reorders the four channels of every pixel of a tightly packed buffer
/// in place, toward ARGB order or toward RGBA order.
pub fn swizzle_tight(data: &mut Vec<u8>, pixels: usize, bpp: usize, e: usize, to_argb: bool)
    requires
        e == 1 || e == 2 || e == 4,
        bpp == 4 * e,
        old(data)@.len() == pixels * bpp,
    ensures
        final(data)@ == spec_swizzle_tight(old(data)@, bpp as int, e as int, to_argb),
{
    let ghost data0 = data@;
    let data_len: usize = data.len();
    let mut p: usize = 0;
    while p < pixels
        invariant
            e == 1 || e == 2 || e == 4,
            bpp == 4 * e,
            data_len == data@.len(),
            data@.len() == data0.len(),
            data0.len() == pixels * bpp,
            0 <= p <= pixels,
            forall|i: int|
                0 <= i < data@.len() ==> data@[i] == (if i < p * bpp {
                    spec_swizzle_tight(data0, bpp as int, e as int, to_argb)[i]
                } else {
                    data0[i]
                }),
        decreases pixels - p,
    {
        proof {
            assert((p + 1) * bpp <= pixels * bpp && p * bpp + bpp == (p + 1) * bpp && p * bpp <= (p
                + 1) * bpp) by (nonlinear_arith)
                requires
                    0 <= p < pixels,
                    bpp > 0,
            ;
        }
        let base = p * bpp;
        let temp = extract_rect(data, bpp, p, 0, 1, bpp);
        proof {
            assert forall|tt: int| 0 <= tt < bpp implies temp@[tt] == data0[base + tt] by {
                lemma_fundamental_div_mod_converse_div(tt, bpp as int, 0, tt);
                lemma_fundamental_div_mod_converse_mod(tt, bpp as int, 0, tt);
                assert((p as int + tt / (bpp as int)) * (bpp as int) + 0 + tt % (bpp as int) == p
                    * bpp + tt);
                assert(base + tt >= p * bpp);
            }
        }
        let mut t: usize = 0;
        while t < bpp
            invariant
                e == 1 || e == 2 || e == 4,
                bpp == 4 * e,
                data_len == data@.len(),
                data@.len() == data0.len(),
                data0.len() == pixels * bpp,
                0 <= p < pixels,
                base == p * bpp,
                base + bpp <= data0.len(),
                0 <= t <= bpp,
                temp@.len() == bpp,
                forall|tt: int| 0 <= tt < bpp ==> temp@[tt] == data0[base + tt],
                forall|i: int|
                    0 <= i < data@.len() ==> data@[i] == (if i < base + t {
                        spec_swizzle_tight(data0, bpp as int, e as int, to_argb)[i]
                    } else {
                        data0[i]
                    }),
            decreases bpp - t,
        {
            let c = t / e;
            let b = t % e;
            let sc = if to_argb {
                (c + 3) % 4
            } else {
                (c + 1) % 4
            };
            proof {
                assert(c < 4 && b < e && sc < 4 && sc * e + b < bpp) by (nonlinear_arith)
                    requires
                        t < bpp,
                        bpp == 4 * e,
                        e > 0,
                        c == t as int / e as int,
                        b == t as int % e as int,
                        sc == (if to_argb {
                            (c + 3) % 4
                        } else {
                            (c + 1) % 4
                        }),
                ;
                assert(p * bpp + bpp == (p + 1) * bpp) by (nonlinear_arith);
                lemma_swizzle_index(data0, bpp as int, e as int, to_argb, p as int, t as int);
            }
            let v = temp[sc * e + b];
            data[base + t] = v;
            proof {
                assert(sc == spec_src_channel(t as int / (e as int), to_argb));
                assert(data@[base + t] == data0[p * bpp + spec_src_channel(
                    t as int / (e as int),
                    to_argb,
                ) * e + (t as int % (e as int))]);
                assert(data@[base + t] == spec_swizzle_tight(data0, bpp as int, e as int, to_argb)[p
                    * bpp + t]);
            }
            t = t + 1;
        }
        p = p + 1;
        proof {
            assert forall|i: int|
                0 <= i < data@.len() implies data@[i] == (if i < p * bpp {
                spec_swizzle_tight(data0, bpp as int, e as int, to_argb)[i]
            } else {
                data0[i]
            }) by {
                assert(p * bpp == base + bpp);
            }
        }
    }
    proof {
        assert(p * bpp == data0.len() ==> true);
        assert forall|i: int|
            0 <= i < data@.len() implies data@[i] == spec_swizzle_tight(
            data0,
            bpp as int,
            e as int,
            to_argb,
        )[i] by {
            assert(p == pixels);
            assert(i < pixels * bpp);
        }
        assert(data@ =~= spec_swizzle_tight(data0, bpp as int, e as int, to_argb));
    }
}

/// The smaller of two quantities.
pub open spec fn spec_min(a: int, b: int) -> int {
    if a <= b {
        a
    } else {
        b
    }
}

/// The centered blit: the largest rectangle shared by the source and the
/// destination, centered in both, is copied; every destination byte
/// outside it keeps its old value. The source is tightly packed; the
/// destination may be strided.
pub open spec fn spec_blit(
    src: Seq<u8>,
    sw: int,
    sh: int,
    dst: Seq<u8>,
    dw: int,
    dh: int,
    dst_row: int,
    bpp: int,
) -> Seq<u8> {
    let shared_w = spec_min(sw, dw);
    let shared_h = spec_min(sh, dh);
    let sx0 = (sw - shared_w) / 2;
    let sy0 = (sh - shared_h) / 2;
    let dx0 = (dw - shared_w) / 2;
    let dy0 = (dh - shared_h) / 2;
    spec_implant(
        dst,
        dst_row,
        dy0,
        dx0 * bpp,
        spec_extract(src, sw * bpp, sy0, sx0 * bpp, shared_h, shared_w * bpp),
        shared_h,
        shared_w * bpp,
    )
}

/// Copies the source image into the destination, centering the shared
/// rectangle in both; destination bytes outside it are left as they were.
pub fn blit_centered(
    src: &Vec<u8>,
    sw: usize,
    sh: usize,
    dst: &mut Vec<u8>,
    dw: usize,
    dh: usize,
    dst_row: usize,
    bpp: usize,
)
    requires
        bpp > 0,
        sw > 0,
        sh > 0,
        dw > 0,
        dh > 0,
        dst_row >= dw * bpp,
        src@.len() == sh * (sw * bpp),
        old(dst)@.len() == dh * dst_row,
    ensures
        final(dst)@ == spec_blit(
            src@,
            sw as int,
            sh as int,
            old(dst)@,
            dw as int,
            dh as int,
            dst_row as int,
            bpp as int,
        ),
{
    let src_len: usize = src.len();
    let dst_len: usize = dst.len();
    let shared_w = if sw <= dw {
        sw
    } else {
        dw
    };
    let shared_h = if sh <= dh {
        sh
    } else {
        dh
    };
    proof {
        assert(sw * bpp <= src@.len() && sw * bpp >= bpp && dw * bpp >= bpp) by (nonlinear_arith)
            requires
                src@.len() == sh * (sw * bpp),
                sh >= 1,
                sw >= 1,
                dw >= 1,
                bpp > 0,
        ;
    }
    let src_row = sw * bpp;
    let sx0 = (sw - shared_w) / 2;
    let sy0 = (sh - shared_h) / 2;
    let dx0 = (dw - shared_w) / 2;
    let dy0 = (dh - shared_h) / 2;
    proof {
        assert(sx0 * bpp + shared_w * bpp <= sw * bpp && (sy0 + shared_h) * (sw * bpp) <= sh * (sw
            * bpp) && shared_h * (shared_w * bpp) <= sh * (sw * bpp) && shared_w * bpp > 0)
            by (nonlinear_arith)
            requires
                0 < shared_w <= sw,
                0 < shared_h <= sh,
                sx0 == (sw - shared_w) as int / 2,
                sy0 == (sh - shared_h) as int / 2,
                bpp > 0,
        ;
        assert(sx0 * bpp <= sw * bpp) by (nonlinear_arith)
            requires
                0 <= sx0,
                sx0 * bpp + shared_w * bpp <= sw * bpp,
                shared_w * bpp > 0,
        ;
    }
    let rect = extract_rect(src, src_row, sy0, sx0 * bpp, shared_h, shared_w * bpp);
    proof {
        assert(dx0 * bpp + shared_w * bpp <= dw * bpp && (dy0 + shared_h) * dst_row <= dh * dst_row
            && dx0 * bpp <= dw * bpp) by (nonlinear_arith)
            requires
                0 < shared_w <= dw,
                0 < shared_h <= dh,
                dx0 == (dw - shared_w) as int / 2,
                dy0 == (dh - shared_h) as int / 2,
                bpp > 0,
                dst_row >= dw * bpp,
        ;
        assert(dw * bpp <= dst_len) by (nonlinear_arith)
            requires
                dst_len == dh * dst_row,
                dh >= 1,
                dst_row >= dw * bpp,
                dw * bpp >= 0,
        ;
    }
    implant_rect(dst, dst_row, dy0, dx0 * bpp, &rect, shared_h, shared_w * bpp);
}

/// Byte `b` of image row `y` in a buffer with `row` bytes per row.
pub open spec fn spec_image_byte(data: Seq<u8>, row: int, y: int, b: int) -> u8 {
    data[y * row + b]
}

/// The blit writes the same pixel bytes wherever the destination's rows
/// happen to sit in memory: two destinations of the same dimensions whose
/// in-image bytes agree, one perhaps tightly packed and one a strided
/// sub-region, agree on every in-image byte after blitting the same
/// source into both.
pub proof fn lemma_blit_stride_agnostic(
    src: Seq<u8>,
    sw: int,
    sh: int,
    dst1: Seq<u8>,
    dst2: Seq<u8>,
    dw: int,
    dh: int,
    row1: int,
    row2: int,
    bpp: int,
)
    requires
        bpp > 0,
        sw > 0,
        sh > 0,
        dw > 0,
        dh > 0,
        row1 >= dw * bpp,
        row2 >= dw * bpp,
        dst1.len() == dh * row1,
        dst2.len() == dh * row2,
        forall|y: int, b: int|
            0 <= y < dh && 0 <= b < dw * bpp ==> #[trigger] spec_image_byte(dst1, row1, y, b)
                == spec_image_byte(dst2, row2, y, b),
    ensures
        forall|y: int, b: int|
            0 <= y < dh && 0 <= b < dw * bpp ==> #[trigger] spec_image_byte(
                spec_blit(src, sw, sh, dst1, dw, dh, row1, bpp),
                row1,
                y,
                b,
            ) == spec_image_byte(spec_blit(src, sw, sh, dst2, dw, dh, row2, bpp), row2, y, b),
{
    let shared_w = spec_min(sw, dw);
    let shared_h = spec_min(sh, dh);
    let rect = spec_extract(
        src,
        sw * bpp,
        (sh - shared_h) / 2,
        ((sw - shared_w) / 2) * bpp,
        shared_h,
        shared_w * bpp,
    );
    assert forall|y: int, b: int| 0 <= y < dh && 0 <= b < dw * bpp implies #[trigger] spec_image_byte(
        spec_blit(src, sw, sh, dst1, dw, dh, row1, bpp),
        row1,
        y,
        b,
    ) == spec_image_byte(spec_blit(src, sw, sh, dst2, dw, dh, row2, bpp), row2, y, b) by {
        let i1 = y * row1 + b;
        let i2 = y * row2 + b;
        assert(0 <= i1 < dst1.len() && 0 <= i2 < dst2.len()) by (nonlinear_arith)
            requires
                0 <= y < dh,
                0 <= b < dw * bpp,
                row1 >= dw * bpp,
                row2 >= dw * bpp,
                dst1.len() == dh * row1,
                dst2.len() == dh * row2,
                i1 == y * row1 + b,
                i2 == y * row2 + b,
        ;
        lemma_fundamental_div_mod_converse_div(i1, row1, y, b);
        lemma_fundamental_div_mod_converse_mod(i1, row1, y, b);
        lemma_fundamental_div_mod_converse_div(i2, row2, y, b);
        lemma_fundamental_div_mod_converse_mod(i2, row2, y, b);
        assert(i1 / row1 == y && i1 % row1 == b);
        assert(i2 / row2 == y && i2 % row2 == b);
        assert(spec_image_byte(dst1, row1, y, b) == dst1[i1]);
        assert(spec_image_byte(dst2, row2, y, b) == dst2[i2]);
    }
}

/// Byte `t` of pixel `p` decomposes into channel `t / e`, channel byte
/// `t % e`, and the swizzled value at `p * bpp + t` reads from the source
/// channel at the same channel byte.
proof fn lemma_swizzle_index(data0: Seq<u8>, bpp: int, e: int, to_argb: bool, p: int, t: int)
    requires
        e > 0,
        bpp == 4 * e,
        0 <= t < bpp,
        p >= 0,
        (p + 1) * bpp <= data0.len(),
    ensures
        spec_swizzle_tight(data0, bpp, e, to_argb)[p * bpp + t] == data0[p * bpp + spec_src_channel(
            t / e,
            to_argb,
        ) * e + t % e],
{
    let i = p * bpp + t;
    lemma_fundamental_div_mod_converse_div(i, bpp, p, t);
    lemma_fundamental_div_mod_converse_mod(i, bpp, p, t);
    assert(i / bpp == p);
    assert(i % bpp == t);
    assert(0 <= i < data0.len()) by (nonlinear_arith)
        requires
            i == p * bpp + t,
            0 <= t < bpp,
            p >= 0,
            (p + 1) * bpp <= data0.len(),
    ;
}

} // verus!
