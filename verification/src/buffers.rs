//! Input-buffer layouts for the encoder subgraphs.
//!
//! The word encoder takes a one-hot vector over the raw-token space.
//! The image encoder takes the pixel grid in planar channel order with
//! the channel order reversed: an interleaved RGB grid becomes three
//! whole planes, blue first. Both layouts are built here over plain
//! integer samples; scaling the samples to the engine's element type
//! and the per-channel mean subtraction are the caller's float work.

use vstd::prelude::*;

verus! {

/// One-hot encoding of token `t` over a token space of size `n`:
/// a single `1` at position `t`, `0` everywhere else.
pub fn one_hot(t: usize, n: usize) -> (r: Vec<u8>)
    requires
        t < n,
    ensures
        r@.len() == n,
        forall|k: int| 0 <= k < n ==> r@[k] == (if k == t {
            1u8
        } else {
            0u8
        }),
{
    let mut r: Vec<u8> = Vec::new();
    let mut k: usize = 0;
    while k < n
        invariant
            k <= n,
            r@.len() == k,
            forall|j: int| 0 <= j < k ==> r@[j] == (if j == t {
                1u8
            } else {
                0u8
            }),
        decreases n - k,
    {
        if k == t {
            r.push(1);
        } else {
            r.push(0);
        }
        k = k + 1;
    }
    r
}

/// Position of channel `c`, row `y`, column `x` in a planar grid of
/// side `size`: three whole planes, one per channel.
pub open spec fn planar_index(c: int, y: int, x: int, size: int) -> int {
    (c * size + y) * size + x
}

/// Position, in an interleaved RGB grid of side `size`, of the sample
/// that planar channel `c` reads at row `y`, column `x`: the channel
/// order is reversed, so plane `0` reads the blue sample `2`, plane
/// `1` the green sample `1`, plane `2` the red sample `0`.
pub open spec fn interleaved_index(c: int, y: int, x: int, size: int) -> int {
    3 * (y * size + x) + (2 - c)
}

/// Positions in the planar grid follow the channel-row-column order:
/// a triple that comes earlier lands strictly before a later one.
proof fn lemma_planar_index_increases(
    c1: int,
    y1: int,
    x1: int,
    c2: int,
    y2: int,
    x2: int,
    size: int,
)
    requires
        0 <= c1,
        0 <= y1 < size,
        0 <= x1 < size,
        0 <= c2,
        0 <= y2 < size,
        0 <= x2 < size,
        c1 < c2 || (c1 == c2 && y1 < y2) || (c1 == c2 && y1 == y2 && x1 < x2),
    ensures
        planar_index(c1, y1, x1, size) < planar_index(c2, y2, x2, size),
{
    assert((c1 * size + y1) * size + x1 < (c2 * size + y2) * size + x2) by (nonlinear_arith)
        requires
            0 <= c1,
            0 <= y1 < size,
            0 <= x1 < size,
            0 <= c2,
            0 <= y2 < size,
            0 <= x2 < size,
            c1 < c2 || (c1 == c2 && y1 < y2) || (c1 == c2 && y1 == y2 && x1 < x2),
    ;
}

/// Rewrite an interleaved RGB pixel grid of side `size` into the
/// planar reversed-channel layout the image encoder expects: the
/// sample at planar position `(c, y, x)` is the interleaved sample of
/// channel `2 - c` at row `y`, column `x`.
pub fn planar_bgr(pix: &Vec<u8>, size: usize) -> (r: Vec<u8>)
    requires
        pix@.len() == 3 * size * size,
    ensures
        r@.len() == 3 * size * size,
        forall|c: int, y: int, x: int|
            0 <= c < 3 && 0 <= y < size && 0 <= x < size ==> r@[#[trigger] planar_index(
                c,
                y,
                x,
                size as int,
            )] == pix@[interleaved_index(c, y, x, size as int)],
{
    let mut r: Vec<u8> = Vec::new();
    let mut c: usize = 0;
    while c < 3
        invariant
            pix@.len() == 3 * size * size,
            c <= 3,
            r@.len() == planar_index(c as int, 0, 0, size as int),
            forall|ci: int, yi: int, xi: int|
                0 <= ci < c && 0 <= yi < size && 0 <= xi < size ==> r@[#[trigger] planar_index(
                    ci,
                    yi,
                    xi,
                    size as int,
                )] == pix@[interleaved_index(ci, yi, xi, size as int)],
        decreases 3 - c,
    {
        let mut y: usize = 0;
        while y < size
            invariant
                pix@.len() == 3 * size * size,
                c < 3,
                y <= size,
                r@.len() == planar_index(c as int, y as int, 0, size as int),
                forall|ci: int, yi: int, xi: int|
                    0 <= ci < 3 && 0 <= yi < size && 0 <= xi < size && (ci < c || (ci == c && yi
                        < y)) ==> r@[#[trigger] planar_index(ci, yi, xi, size as int)]
                        == pix@[interleaved_index(ci, yi, xi, size as int)],
            decreases size - y,
        {
            let mut x: usize = 0;
            while x < size
                invariant
                    pix@.len() == 3 * size * size,
                    c < 3,
                    y < size,
                    x <= size,
                    r@.len() == planar_index(c as int, y as int, x as int, size as int),
                    forall|ci: int, yi: int, xi: int|
                        0 <= ci < 3 && 0 <= yi < size && 0 <= xi < size && (ci < c || (ci == c && yi
                            < y) || (ci == c && yi == y && xi < x)) ==> r@[
                        #[trigger] planar_index(ci, yi, xi, size as int)] == pix@[interleaved_index(
                            ci,
                            yi,
                            xi,
                            size as int,
                        )],
                decreases size - x,
            {
                proof {
                    assert(y * size + x < size * size) by (nonlinear_arith)
                        requires
                            0 <= y < size,
                            0 <= x < size,
                    ;
                    assert(size * size <= 3 * size * size && 3 * (size * size) == 3 * size * size)
                        by (nonlinear_arith)
                        requires
                            0 <= size,
                    ;
                }
                let total: usize = pix.len();
                proof {
                    assert(y * size + x < total && 3 * (y * size + x) + 2 < total);
                }
                let base: usize = y * size + x;
                let src: usize = 3 * base + (2 - c);
                let ghost old_r = r@;
                r.push(pix[src]);
                proof {
                    assert(src == interleaved_index(c as int, y as int, x as int, size as int));
                    assert(r@[planar_index(c as int, y as int, x as int, size as int)] == pix@[
                    interleaved_index(c as int, y as int, x as int, size as int)]);
                    assert forall|ci: int, yi: int, xi: int|
                        0 <= ci < 3 && 0 <= yi < size && 0 <= xi < size && (ci < c || (ci == c && yi
                            < y) || (ci == c && yi == y && xi < x + 1)) implies r@[
                    #[trigger] planar_index(ci, yi, xi, size as int)] == pix@[interleaved_index(
                        ci,
                        yi,
                        xi,
                        size as int,
                    )] by {
                        if ci == c && yi == y && xi == x {
                        } else {
                            lemma_planar_index_increases(
                                ci,
                                yi,
                                xi,
                                c as int,
                                y as int,
                                x as int,
                                size as int,
                            );
                            assert(r@[planar_index(ci, yi, xi, size as int)] == old_r[planar_index(
                                ci,
                                yi,
                                xi,
                                size as int,
                            )]);
                        }
                    }
                }
                x = x + 1;
            }
            proof {
                assert((c * size + y) * size + size == (c * size + y + 1) * size)
                    by (nonlinear_arith);
            }
            y = y + 1;
        }
        proof {
            assert((c * size + size) * size == ((c + 1) * size) * size) by (nonlinear_arith);
        }
        c = c + 1;
    }
    proof {
        assert((3 * size) * size == 3 * size * size) by (nonlinear_arith);
    }
    r
}

} // verus!
