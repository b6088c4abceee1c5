use vstd::prelude::*;

verus! {

/// Row `r` of an image whose rows are `rs` bytes long.
pub open spec fn row(s: Seq<u8>, r: int, rs: int) -> Seq<u8> {
    s.subrange(r * rs, r * rs + rs)
}

/// `s` is `old` with its first `h` rows of `rs` bytes in reverse order and
/// every byte after them unchanged.
pub open spec fn is_flipped(s: Seq<u8>, old: Seq<u8>, rs: int, h: int) -> bool {
    &&& s.len() == old.len()
    &&& forall|r: int| 0 <= r < h ==> #[trigger] row(s, r, rs) == row(old, h - 1 - r, rs)
    &&& s.subrange(h * rs, s.len() as int) == old.subrange(h * rs, old.len() as int)
}

/// The four bytes of pixel `i`.
pub open spec fn pixel(s: Seq<u8>, i: int) -> (u8, u8, u8, u8) {
    (s[4 * i], s[4 * i + 1], s[4 * i + 2], s[4 * i + 3])
}

/// The test pattern of the software read-back: red is the column, green
/// the row (both truncated to a byte), blue 128, alpha opaque.
pub open spec fn pattern_pixel(i: int, width: int) -> (u8, u8, u8, u8) {
    ((i % width) as u8, (i / width) as u8, 128u8, 255u8)
}

/// Byte `j` of a buffer after swapping bytes 0 and 2 of every 4-byte chunk.
pub open spec fn swapped_byte(s: Seq<u8>, j: int) -> u8 {
    let b = j - j % 4;
    if j % 4 == 0 && b + 2 < s.len() {
        s[b + 2]
    } else if j % 4 == 2 {
        s[b]
    } else {
        s[j]
    }
}

proof fn lemma_rows_apart(a: int, b: int, rs: int)
    requires
        0 <= a < b,
        rs >= 0,
    ensures
        a * rs + rs <= b * rs,
{
    assert(a * rs + rs <= b * rs) by (nonlinear_arith)
        requires
            0 <= a < b,
            rs >= 0,
    ;
}

proof fn lemma_row_in(r: int, h: int, rs: int)
    requires
        0 <= r < h,
        rs >= 0,
    ensures
        0 <= r * rs,
        r * rs + rs <= h * rs,
{
    assert(0 <= r * rs) by (nonlinear_arith)
        requires
            0 <= r,
            rs >= 0,
    ;
    lemma_rows_apart(r, h, rs);
}

/// Byte `i` of row `r`, at offset `k`, is the byte at `r * rs + k`.
proof fn lemma_row_byte(s: Seq<u8>, r: int, rs: int, k: int)
    requires
        0 <= r,
        0 <= k < rs,
        r * rs + rs <= s.len(),
    ensures
        row(s, r, rs)[k] == s[r * rs + k],
{
    assert(0 <= r * rs) by (nonlinear_arith)
        requires
            0 <= r,
            0 <= k < rs,
    ;
}

/// Flipping an image twice gives it back.
pub proof fn law_flip_twice(a: Seq<u8>, b: Seq<u8>, c: Seq<u8>, rs: int, h: int)
    requires
        rs >= 0,
        h >= 0,
        h * rs <= a.len(),
        is_flipped(b, a, rs, h),
        is_flipped(c, b, rs, h),
    ensures
        c == a,
{
    assert forall|i: int| 0 <= i < a.len() implies c[i] == a[i] by {
        if i < h * rs {
            assert(rs > 0) by (nonlinear_arith)
                requires
                    0 <= i < h * rs,
                    rs >= 0,
                    h >= 0,
            ;
            let q = i / rs;
            let k = i % rs;
            vstd::arithmetic::div_mod::lemma_fundamental_div_mod(i, rs);
            vstd::arithmetic::div_mod::lemma_mod_pos_bound(i, rs);
            assert(0 <= q < h && q * rs + k == i) by (nonlinear_arith)
                requires
                    i == rs * q + k,
                    0 <= k < rs,
                    0 <= i < h * rs,
            ;
            lemma_row_in(q, h, rs);
            lemma_row_in(h - 1 - q, h, rs);
            assert(row(c, q, rs) == row(b, h - 1 - q, rs));
            assert(row(b, h - 1 - q, rs) == row(a, h - 1 - (h - 1 - q), rs));
            lemma_row_byte(c, q, rs, k);
            lemma_row_byte(a, q, rs, k);
        } else {
            assert(c.subrange(h * rs, c.len() as int)[i - h * rs] == c[i]);
            assert(a.subrange(h * rs, a.len() as int)[i - h * rs] == a[i]);
        }
    }
    assert(c =~= a);
}

/// The buffer after swapping bytes 0 and 2 of every 4-byte chunk.
pub open spec fn swapped(s: Seq<u8>) -> Seq<u8> {
    Seq::new(s.len(), |j: int| swapped_byte(s, j))
}

/// Converting RGBA to BGRA twice gives the buffer back.
pub proof fn law_rgba_swap_twice(s: Seq<u8>)
    requires
        s.len() % 4 != 1,
        s.len() % 4 != 2,
    ensures
        swapped(swapped(s)) == s,
{
    let t = swapped(s);
    assert forall|j: int| 0 <= j < s.len() implies swapped(t)[j] == s[j] by {
        let b = j - j % 4;
        if j % 4 == 0 && b + 2 < s.len() {
            assert((b + 2) - (b + 2) % 4 == b);
            assert((b + 2) % 4 == 2);
        } else if j % 4 == 2 {
            assert(b - b % 4 == b);
            assert(b % 4 == 0);
        }
    }
    assert(swapped(t) =~= s);
}

/// Swap the bytes of the two rows starting at `top` and `bot`.
fn swap_rows(buffer: &mut [u8], top: usize, bot: usize, rs: usize)
    requires
        top + rs <= bot,
        bot + rs <= old(buffer)@.len(),
    ensures
        final(buffer)@.len() == old(buffer)@.len(),
        final(buffer)@.subrange(top as int, top + rs) == old(buffer)@.subrange(bot as int, bot + rs),
        final(buffer)@.subrange(bot as int, bot + rs) == old(buffer)@.subrange(top as int, top + rs),
        forall|i: int|
            0 <= i < old(buffer)@.len() && !(top <= i < top + rs) && !(bot <= i < bot + rs) ==> final(buffer)@[i] == old(
                buffer,
            )@[i],
{
    let ghost ob = buffer@;
    let mut k: usize = 0;
    while k < rs
        invariant
            top + rs <= bot,
            bot + rs <= ob.len(),
            buffer@.len() == ob.len(),
            k <= rs,
            forall|i: int| top <= i < top + rs ==> #[trigger] buffer@[i] == if i < top + k { ob[i - top + bot] } else { ob[i] },
            forall|i: int| bot <= i < bot + rs ==> #[trigger] buffer@[i] == if i < bot + k { ob[i - bot + top] } else { ob[i] },
            forall|i: int| 0 <= i < ob.len() && !(top <= i < top + rs) && !(bot <= i < bot + rs) ==> buffer@[i] == ob[i],
        decreases rs - k,
    {
        let a = buffer[top + k];
        let b = buffer[bot + k];
        buffer[top + k] = b;
        buffer[bot + k] = a;
        k = k + 1;
    }
    assert(buffer@.subrange(top as int, top + rs) =~= ob.subrange(bot as int, bot + rs));
    assert(buffer@.subrange(bot as int, bot + rs) =~= ob.subrange(top as int, top + rs));
}

/// Reverse the order of the first `height` rows of a `width`-pixel RGBA
/// image (OpenGL puts the origin at the bottom left).
pub fn flip_pixels_vertical(buffer: &mut [u8], width: u32, height: u32)
    requires
        width * 4 <= u32::MAX,
        height < 2 || height * (width * 4) <= old(buffer)@.len(),
    ensures
        is_flipped(final(buffer)@, old(buffer)@, width * 4, height as int),
{
    let ghost old_b = buffer@;
    let rs: usize = (width * 4) as usize;
    let h: usize = height as usize;
    if h < 2 {
        assert(buffer@.subrange(h * rs, buffer@.len() as int) =~= old_b.subrange(h * rs, old_b.len() as int));
        return;
    }
    let ghost n = old_b.len();
    let blen = buffer.len();
    assert(n == blen);
    let mut r: usize = 0;
    while r < h / 2
        invariant
            rs == width * 4,
            h == height,
            h >= 2,
            h * rs <= n,
            n <= usize::MAX,
            n == old_b.len(),
            buffer@.len() == n,
            r <= h / 2,
            forall|q: int| 0 <= q < r ==> #[trigger] row(buffer@, q, rs as int) == row(old_b, h - 1 - q, rs as int),
            forall|q: int| 0 <= q < r ==> #[trigger] row(buffer@, h - 1 - q, rs as int) == row(old_b, q, rs as int),
            forall|q: int| r <= q < h - r ==> #[trigger] row(buffer@, q, rs as int) == row(old_b, q, rs as int),
            buffer@.subrange(h * rs, n as int) == old_b.subrange(h * rs, n as int),
        decreases h / 2 - r,
    {
        let ghost b0 = buffer@;
        let ghost lo = r as int;
        let ghost hi = (h - 1 - r) as int;
        proof {
            lemma_row_in(lo, h as int, rs as int);
            lemma_row_in(hi, h as int, rs as int);
            lemma_rows_apart(lo, hi, rs as int);
        }
        let top = r * rs;
        let bot = (h - 1 - r) * rs;
        swap_rows(buffer, top, bot, rs);
        let ghost b1 = buffer@;
        assert(row(b1, lo, rs as int) == row(b0, hi, rs as int));
        assert(row(b1, hi, rs as int) == row(b0, lo, rs as int));
        assert forall|q: int| 0 <= q < h && q != lo && q != hi implies #[trigger] row(b1, q, rs as int) == row(b0, q, rs as int) by {
            lemma_row_in(q, h as int, rs as int);
            if q < lo {
                lemma_rows_apart(q, lo, rs as int);
                lemma_rows_apart(q, hi, rs as int);
            } else if q < hi {
                lemma_rows_apart(lo, q, rs as int);
                lemma_rows_apart(q, hi, rs as int);
            } else {
                lemma_rows_apart(lo, q, rs as int);
                lemma_rows_apart(hi, q, rs as int);
            }
            assert(row(b1, q, rs as int) =~= row(b0, q, rs as int));
        }
        assert(buffer@.subrange(h * rs, n as int) =~= b0.subrange(h * rs, n as int));
        r = r + 1;
    }
    proof {
        assert forall|q: int| 0 <= q < h implies #[trigger] row(buffer@, q, rs as int) == row(old_b, h - 1 - q, rs as int) by {
            if q < r {
            } else if q >= h - r {
                let p = h - 1 - q;
                assert(row(buffer@, h - 1 - p, rs as int) == row(old_b, p, rs as int));
            } else {
                assert(q == h - 1 - q);
            }
        }
    }
}

/// Swap red and blue in every 4-byte chunk (RGBA to BGRA); a last chunk
/// of three bytes has its first and third swapped.
pub fn convert_rgba_to_bgra(buffer: &mut [u8])
    requires
        old(buffer)@.len() % 4 != 1,
        old(buffer)@.len() % 4 != 2,
    ensures
        final(buffer)@ == swapped(old(buffer)@),
{
    let ghost ob = buffer@;
    let n = buffer.len();
    let mut i: usize = 0;
    while i + 3 < n
        invariant
            n == ob.len(),
            buffer@.len() == n,
            i <= n,
            i % 4 == 0,
            forall|j: int| 0 <= j < i ==> buffer@[j] == #[trigger] swapped_byte(ob, j),
            forall|j: int| i <= j < n ==> buffer@[j] == ob[j],
        decreases n - i,
    {
        let a = buffer[i];
        let c = buffer[i + 2];
        buffer[i] = c;
        buffer[i + 2] = a;
        assert forall|j: int| i <= j < i + 4 implies buffer@[j] == #[trigger] swapped_byte(ob, j) by {
            assert(j - j % 4 == i);
        }
        i = i + 4;
    }
    if i + 2 < n {
        let a = buffer[i];
        let c = buffer[i + 2];
        buffer[i] = c;
        buffer[i + 2] = a;
    }
    assert forall|j: int| i <= j < n implies buffer@[j] == #[trigger] swapped_byte(ob, j) by {
        assert(j - j % 4 == i);
    }
    assert(buffer@ =~= swapped(ob));
}

/// Fill a `width` x `height` RGBA buffer with the software read-back test
/// pattern.
pub fn read_pixels_gl(width: u32, height: u32, buffer: &mut [u8])
    requires
        width * height * 4 <= u32::MAX,
        old(buffer)@.len() == width * height * 4,
    ensures
        final(buffer)@.len() == old(buffer)@.len(),
        forall|i: int| 0 <= i < width * height ==> #[trigger] pixel(final(buffer)@, i) == pattern_pixel(i, width as int),
{
    let n: usize = (width * height) as usize;
    let w: usize = width as usize;
    assert(buffer@.len() == 4 * n) by (nonlinear_arith)
        requires
            buffer@.len() == width * height * 4,
            n == width * height,
    ;
    let blen = buffer.len();
    let mut i: usize = 0;
    while i < n
        invariant
            n == width * height,
            w == width,
            blen == buffer@.len(),
            buffer@.len() == 4 * n,
            i <= n,
            forall|j: int| 0 <= j < i ==> #[trigger] pixel(buffer@, j) == pattern_pixel(j, width as int),
        decreases n - i,
    {
        assert(w > 0) by (nonlinear_arith)
            requires
                i < n,
                n == width * height,
                w == width,
        ;
        let x = (i % w) as u8;
        let y = (i / w) as u8;
        let base = 4 * i;
        let ghost b0 = buffer@;
        buffer[base] = x;
        buffer[base + 1] = y;
        buffer[base + 2] = 128;
        buffer[base + 3] = 255;
        assert forall|j: int| 0 <= j < i implies #[trigger] pixel(buffer@, j) == pixel(b0, j) by {}
        assert(pixel(buffer@, i as int) == pattern_pixel(i as int, width as int));
        i = i + 1;
    }
}

} // verus!
