//! The 64x32 one-bit display with XOR sprite drawing and collision reporting.
use vstd::prelude::*;

verus! {

/// Width of the display in pixels.
pub const BUFFER_WIDTH: usize = 64;

/// Height of the display in pixels.
pub const BUFFER_HEIGHT: usize = 32;

/// Number of pixels.
pub const BUFFER_LEN: usize = 2048;

/// Whether column `col` (0 = leftmost) of sprite row `byte` is set.
pub open spec fn sprite_bit(byte: u8, col: int) -> bool {
    (byte >> ((7 - col) as u8)) & 1u8 == 1u8
}

/// The pixel index hit by sprite row `row`, column `col` drawn at `(x, y)`,
/// wrapping around both edges.
pub open spec fn target(x: u8, y: u8, row: int, col: int) -> int {
    ((y + row) % (BUFFER_HEIGHT as int)) * (BUFFER_WIDTH as int) + (x + col) % (BUFFER_WIDTH as int)
}

/// Whether sprite bit `k` (row `k / 8`, column `k % 8`) is set.
pub open spec fn bit_at(data: Seq<u8>, k: int) -> bool {
    sprite_bit(data[k / 8], k % 8)
}

/// The pixel index hit by sprite bit `k`.
pub open spec fn target_of(x: u8, y: u8, k: int) -> int {
    target(x, y, k / 8, k % 8)
}

/// The pixels and the collision flag after the first `k` sprite bits have been
/// drawn over `p`, one after the other: a set bit toggles its pixel and notes a
/// collision where that pixel was 1.
pub open spec fn draw_upto(p: Seq<u8>, x: u8, y: u8, data: Seq<u8>, k: nat) -> (Seq<u8>, bool)
    decreases k,
{
    if k == 0 {
        (p, false)
    } else {
        let (q, hit) = draw_upto(p, x, y, data, (k - 1) as nat);
        let j = k - 1;
        if bit_at(data, j) {
            let t = target_of(x, y, j);
            (q.update(t, 1u8 ^ q[t]), hit || q[t] == 1u8)
        } else {
            (q, hit)
        }
    }
}

/// The pixels and the collision flag after drawing sprite `data` at `(x, y)` over `p`.
pub open spec fn draw_spec(p: Seq<u8>, x: u8, y: u8, data: Seq<u8>) -> (Seq<u8>, bool) {
    draw_upto(p, x, y, data, (8 * data.len()) as nat)
}

/// Every pixel is 0 or 1.
pub open spec fn binary(p: Seq<u8>) -> bool {
    forall|i: int| 0 <= i < p.len() ==> #[trigger] p[i] == 0u8 || p[i] == 1u8
}

/// What a frame buffer holds: its pixels, row-major, and whether it changed
/// since the host last rendered it.
pub struct Screen {
    pub pixels: Seq<u8>,
    pub changed: bool,
}

/// The display surface.
pub struct FrameBuffer {
    buffer: [u8; BUFFER_LEN],
    has_changed: bool,
}

impl View for FrameBuffer {
    type V = Screen;

    closed spec fn view(&self) -> Screen {
        Screen { pixels: self.buffer@, changed: self.has_changed }
    }
}

impl Default for FrameBuffer {
    /// A blank, unchanged display.
    fn default() -> (r: Self)
        ensures
            r.wf(),
            r@.pixels == Seq::new(BUFFER_LEN as nat, |i: int| 0u8),
            !r@.changed,
    {
        let r = FrameBuffer { buffer: [0u8; BUFFER_LEN], has_changed: false };
        assert(r@.pixels =~= Seq::new(BUFFER_LEN as nat, |i: int| 0u8));
        r
    }
}

proof fn lemma_target_in_range(x: u8, y: u8, k: int)
    requires
        0 <= k,
    ensures
        0 <= target_of(x, y, k) < BUFFER_LEN,
{
    assert(0 <= k / 8);
    assert(0 <= k % 8 < 8);
}

proof fn lemma_toggle_binary(b: u8)
    requires
        b == 0u8 || b == 1u8,
    ensures
        (1u8 ^ b) == 1u8 - b,
{
    assert(b == 0u8 ==> (1u8 ^ b) == 1u8) by (bit_vector);
    assert(b == 1u8 ==> (1u8 ^ b) == 0u8) by (bit_vector);
}

proof fn lemma_draw_upto_len(p: Seq<u8>, x: u8, y: u8, data: Seq<u8>, k: nat)
    requires
        p.len() == BUFFER_LEN,
    ensures
        draw_upto(p, x, y, data, k).0.len() == BUFFER_LEN,
    decreases k,
{
    if k > 0 {
        lemma_draw_upto_len(p, x, y, data, (k - 1) as nat);
        lemma_target_in_range(x, y, k - 1);
    }
}

proof fn lemma_split_index(r: int, c: int)
    requires
        0 <= r,
        0 <= c < 8,
    ensures
        (8 * r + c) / 8 == r,
        (8 * r + c) % 8 == c,
{
    vstd::arithmetic::div_mod::lemma_fundamental_div_mod_converse(8 * r + c, 8, r, c);
}

proof fn lemma_toggles_independent(p: Seq<u8>, q: Seq<u8>, x: u8, y: u8, data: Seq<u8>, k: nat)
    requires
        p.len() == BUFFER_LEN,
        q.len() == BUFFER_LEN,
    ensures
        forall|i: int|
            0 <= i < BUFFER_LEN ==> (#[trigger] draw_upto(p, x, y, data, k).0[i] ^ p[i]) == (
            draw_upto(q, x, y, data, k).0[i] ^ q[i]),
    decreases k,
{
    if k > 0 {
        let j = k - 1;
        lemma_toggles_independent(p, q, x, y, data, j as nat);
        lemma_draw_upto_len(p, x, y, data, j as nat);
        lemma_draw_upto_len(q, x, y, data, j as nat);
        lemma_target_in_range(x, y, j);
        let a = draw_upto(p, x, y, data, j as nat).0;
        let b = draw_upto(q, x, y, data, j as nat).0;
        let t = target_of(x, y, j);
        assert forall|i: int| 0 <= i < BUFFER_LEN implies (#[trigger] draw_upto(
            p,
            x,
            y,
            data,
            k,
        ).0[i] ^ p[i]) == (draw_upto(q, x, y, data, k).0[i] ^ q[i]) by {
            assert((a[i] ^ p[i]) == (b[i] ^ q[i]));
            if bit_at(data, j) && i == t {
                let (at, pt, bt, qt) = (a[t], p[t], b[t], q[t]);
                assert(((1u8 ^ at) ^ pt) == (1u8 ^ (at ^ pt))) by (bit_vector);
                assert(((1u8 ^ bt) ^ qt) == (1u8 ^ (bt ^ qt))) by (bit_vector);
            }
        }
    } else {
        assert forall|i: int| 0 <= i < BUFFER_LEN implies (#[trigger] draw_upto(
            p,
            x,
            y,
            data,
            k,
        ).0[i] ^ p[i]) == (draw_upto(q, x, y, data, k).0[i] ^ q[i]) by {
            let (pi, qi) = (p[i], q[i]);
            assert((pi ^ pi) == (qi ^ qi)) by (bit_vector);
        }
    }
}

/// Drawing the same sprite twice at the same position leaves the pixels as
/// they were before the first draw.
pub proof fn lemma_draw_twice_restores(p: Seq<u8>, x: u8, y: u8, data: Seq<u8>)
    requires
        p.len() == BUFFER_LEN,
    ensures
        draw_spec(draw_spec(p, x, y, data).0, x, y, data).0 == p,
{
    let n = (8 * data.len()) as nat;
    let p1 = draw_spec(p, x, y, data).0;
    lemma_draw_upto_len(p, x, y, data, n);
    let p2 = draw_spec(p1, x, y, data).0;
    lemma_draw_upto_len(p1, x, y, data, n);
    lemma_toggles_independent(p, p1, x, y, data, n);
    assert forall|i: int| 0 <= i < BUFFER_LEN implies p2[i] == p[i] by {
        let (a, b, c) = (p1[i], p[i], p2[i]);
        assert(draw_upto(p, x, y, data, n).0[i] ^ p[i] == draw_upto(p1, x, y, data, n).0[i]
            ^ p1[i]);
        assert((a ^ b) == (c ^ a) ==> c == b) by (bit_vector);
    }
    assert(p2 =~= p);
}

/// Whether a set bit among the first `k` bits of the sprite lands on pixel `i`.
pub open spec fn covered(x: u8, y: u8, data: Seq<u8>, k: int, i: int) -> bool {
    exists|j: int| 0 <= j < k && bit_at(data, j) && #[trigger] target_of(x, y, j) == i
}

/// Whether a set bit among the first `k` bits of the sprite lands on a pixel
/// that is on in `p`.
pub open spec fn hits_lit(p: Seq<u8>, x: u8, y: u8, data: Seq<u8>, k: int) -> bool {
    exists|j: int| 0 <= j < k && bit_at(data, j) && p[#[trigger] target_of(x, y, j)] == 1u8
}

proof fn lemma_mod_close(a: int, b: int, m: int)
    requires
        0 <= a,
        0 <= b,
        m == 32 || m == 64,
        a - m < b < a + m,
        a % m == b % m,
    ensures
        a == b,
{
    vstd::arithmetic::div_mod::lemma_fundamental_div_mod(a, m);
    vstd::arithmetic::div_mod::lemma_fundamental_div_mod(b, m);
}

proof fn lemma_targets_distinct(x: u8, y: u8, j: int, k: int)
    requires
        0 <= j < k < 8 * BUFFER_HEIGHT,
    ensures
        target_of(x, y, j) != target_of(x, y, k),
{
    let (rj, cj, rk, ck) = (j / 8, j % 8, k / 8, k % 8);
    vstd::arithmetic::div_mod::lemma_fundamental_div_mod(j, 8);
    vstd::arithmetic::div_mod::lemma_fundamental_div_mod(k, 8);
    assert(0 <= rj < 32 && 0 <= rk < 32);
    if target_of(x, y, j) == target_of(x, y, k) {
        let (a, b, c, d) = ((y + rj) % 32, (x + cj) % 64, (y + rk) % 32, (x + ck) % 64);
        assert(a * 64 + b == c * 64 + d);
        assert(a == c && b == d);
        lemma_mod_close(y + rj, y + rk, 32);
        lemma_mod_close(x + cj, x + ck, 64);
        assert(j == k);
    }
}

proof fn lemma_collision_upto(p: Seq<u8>, x: u8, y: u8, data: Seq<u8>, k: nat)
    requires
        p.len() == BUFFER_LEN,
        data.len() <= BUFFER_HEIGHT,
        k <= 8 * data.len(),
    ensures
        forall|i: int|
            0 <= i < BUFFER_LEN && !covered(x, y, data, k as int, i) ==> #[trigger] draw_upto(
                p,
                x,
                y,
                data,
                k,
            ).0[i] == p[i],
        draw_upto(p, x, y, data, k).1 == hits_lit(p, x, y, data, k as int),
    decreases k,
{
    if k > 0 {
        let j = k - 1;
        lemma_collision_upto(p, x, y, data, j as nat);
        lemma_draw_upto_len(p, x, y, data, j as nat);
        lemma_target_in_range(x, y, j);
        let (q, hit) = draw_upto(p, x, y, data, j as nat);
        let t = target_of(x, y, j);
        assert forall|i: int|
            0 <= i < BUFFER_LEN && !covered(x, y, data, k as int, i) implies #[trigger] draw_upto(
            p,
            x,
            y,
            data,
            k,
        ).0[i] == p[i] by {
            if covered(x, y, data, j, i) {
                let w = choose|w: int| 0 <= w < j && bit_at(data, w) && #[trigger] target_of(x, y, w) == i;
                assert(0 <= w < k && bit_at(data, w) && target_of(x, y, w) == i);
            }
            if bit_at(data, j) {
                assert(0 <= j < k && bit_at(data, j) && target_of(x, y, j) == t);
            }
        }
        if bit_at(data, j) {
            if covered(x, y, data, j, t) {
                let w = choose|w: int| 0 <= w < j && bit_at(data, w) && #[trigger] target_of(x, y, w) == t;
                lemma_targets_distinct(x, y, w, j);
            }
            assert(q[t] == p[t]);
            if hits_lit(p, x, y, data, k as int) && !hit {
                let w = choose|w: int| 0 <= w < k && bit_at(data, w) && p[#[trigger] target_of(x, y, w)] == 1u8;
                assert(w == j);
            }
            if hit {
                let w = choose|w: int| 0 <= w < j && bit_at(data, w) && p[#[trigger] target_of(x, y, w)] == 1u8;
                assert(0 <= w < k && bit_at(data, w) && p[target_of(x, y, w)] == 1u8);
            }
            if p[t] == 1u8 {
                assert(0 <= j < k && bit_at(data, j) && p[target_of(x, y, j)] == 1u8);
            }
        } else {
            if hits_lit(p, x, y, data, k as int) {
                let w = choose|w: int| 0 <= w < k && bit_at(data, w) && p[#[trigger] target_of(x, y, w)] == 1u8;
                assert(w != j);
                assert(0 <= w < j && bit_at(data, w) && p[target_of(x, y, w)] == 1u8);
            }
            if hit {
                let w = choose|w: int| 0 <= w < j && bit_at(data, w) && p[#[trigger] target_of(x, y, w)] == 1u8;
                assert(0 <= w < k && bit_at(data, w) && p[target_of(x, y, w)] == 1u8);
            }
        }
    }
}

/// For a sprite of at most `BUFFER_HEIGHT` rows, drawing reports a collision
/// exactly when some set bit of the sprite lands on a pixel that was on
/// before the draw, wherever the sprite is placed and however it wraps.
pub proof fn lemma_draw_collision(p: Seq<u8>, x: u8, y: u8, data: Seq<u8>)
    requires
        p.len() == BUFFER_LEN,
        data.len() <= BUFFER_HEIGHT,
    ensures
        draw_spec(p, x, y, data).1 == hits_lit(p, x, y, data, 8 * data.len() as int),
{
    lemma_collision_upto(p, x, y, data, (8 * data.len()) as nat);
}

impl FrameBuffer {
    /// The display holds `BUFFER_LEN` pixels, each 0 or 1.
    pub open spec fn wf(&self) -> bool {
        self@.pixels.len() == BUFFER_LEN && binary(self@.pixels)
    }

    /// The pixels, row-major, one byte (0 or 1) each.
    pub fn get_buffer(&self) -> (r: &[u8])
        ensures
            r@ == self@.pixels,
    {
        self.buffer.as_slice()
    }

    /// Whether the display changed since the flag was last cleared.
    pub fn has_changed(&self) -> (r: bool)
        ensures
            r == self@.changed,
    {
        self.has_changed
    }

    /// Sets the changed flag.
    pub fn set_changed(&mut self, changed: bool)
        requires
            old(self).wf(),
        ensures
            final(self).wf(),
            final(self)@ == (Screen { pixels: old(self)@.pixels, changed }),
    {
        self.has_changed = changed;
    }

    /// Turns every pixel off and marks the display changed.
    pub fn clear(&mut self)
        requires
            old(self).wf(),
        ensures
            final(self).wf(),
            final(self)@ == (Screen {
                pixels: Seq::new(BUFFER_LEN as nat, |i: int| 0u8),
                changed: true,
            }),
    {
        let mut i: usize = 0;
        while i < BUFFER_LEN
            invariant
                i <= BUFFER_LEN,
                self.has_changed == old(self)@.changed,
                self@.pixels.len() == BUFFER_LEN,
                forall|j: int| 0 <= j < i ==> self@.pixels[j] == 0u8,
                forall|j: int| i <= j < BUFFER_LEN ==> self@.pixels[j] == old(self)@.pixels[j],
            decreases BUFFER_LEN - i,
        {
            self.buffer[i] = 0;
            i += 1;
        }
        self.has_changed = true;
        assert(self@.pixels =~= Seq::new(BUFFER_LEN as nat, |i: int| 0u8));
    }

    /// The pixel at column `x`, row `y`.
    pub fn get_pixel(&self, x: usize, y: usize) -> (r: u8)
        requires
            x < BUFFER_WIDTH,
            y < BUFFER_HEIGHT,
            self.wf(),
        ensures
            r == self@.pixels[y * BUFFER_WIDTH + x],
    {
        self.buffer[y * BUFFER_WIDTH + x]
    }

    /// Sets the pixel at column `x`, row `y` to `v`.
    pub fn set_pixel(&mut self, x: usize, y: usize, v: u8)
        requires
            x < BUFFER_WIDTH,
            y < BUFFER_HEIGHT,
            v == 0 || v == 1,
            old(self).wf(),
        ensures
            final(self).wf(),
            final(self)@ == (Screen {
                pixels: old(self)@.pixels.update(y * BUFFER_WIDTH + x, v),
                changed: old(self)@.changed,
            }),
    {
        self.buffer[y * BUFFER_WIDTH + x] = v;
    }

    /// The pixel values to show: `color1` for each pixel that is off,
    /// `color2` for each that is on.
    pub fn render(&self, color1: u32, color2: u32) -> (r: Vec<u32>)
        requires
            self.wf(),
        ensures
            r@.len() == BUFFER_LEN,
            forall|i: int|
                0 <= i < BUFFER_LEN ==> #[trigger] r@[i] == if self@.pixels[i] == 0u8 {
                    color1
                } else {
                    color2
                },
    {
        let mut out: Vec<u32> = Vec::new();
        let mut i: usize = 0;
        while i < BUFFER_LEN
            invariant
                i <= BUFFER_LEN,
                self.wf(),
                out@.len() == i,
                forall|j: int|
                    0 <= j < i ==> #[trigger] out@[j] == if self@.pixels[j] == 0u8 {
                        color1
                    } else {
                        color2
                    },
            decreases BUFFER_LEN - i,
        {
            if self.buffer[i] == 0 {
                out.push(color1);
            } else {
                out.push(color2);
            }
            i += 1;
        }
        out
    }

    /// Draws sprite `data` (one byte per row, most significant bit leftmost)
    /// at `(x, y)`, toggling the pixels under its set bits and wrapping around
    /// the edges. Returns whether a set bit landed on a pixel that was on.
    pub fn draw(&mut self, x: u8, y: u8, data: &[u8]) -> (collided: bool)
        requires
            old(self).wf(),
        ensures
            final(self).wf(),
            final(self)@.pixels == draw_spec(old(self)@.pixels, x, y, data@).0,
            collided == draw_spec(old(self)@.pixels, x, y, data@).1,
            final(self)@.changed == old(self)@.changed,
    {
        let mut collided = false;
        let mut row: usize = 0;
        while row < data.len()
            invariant
                row <= data@.len(),
                self.wf(),
                self.has_changed == old(self)@.changed,
                (self@.pixels, collided) == draw_upto(old(self)@.pixels, x, y, data@, (8 * row) as nat),
            decreases data@.len() - row,
        {
            let byte = data[row];
            let mut col: usize = 0;
            while col < 8
                invariant
                    row < data@.len(),
                    byte == data@[row as int],
                    col <= 8,
                    self.wf(),
                    self.has_changed == old(self)@.changed,
                    (self@.pixels, collided) == draw_upto(
                        old(self)@.pixels,
                        x,
                        y,
                        data@,
                        (8 * row + col) as nat,
                    ),
                decreases 8 - col,
            {
                let ghost k = 8 * row + col;
                proof {
                    lemma_split_index(row as int, col as int);
                    lemma_target_in_range(x, y, k);
                }
                let new_val = (byte >> (7 - col as u8)) & 0x01;
                if new_val == 1 {
                    let x_idx = (x as usize + col) % BUFFER_WIDTH;
                    let y_idx = (y as usize % BUFFER_HEIGHT + row % BUFFER_HEIGHT) % BUFFER_HEIGHT;
                    proof {
                        vstd::arithmetic::div_mod::lemma_add_mod_noop(
                            y as int,
                            row as int,
                            BUFFER_HEIGHT as int,
                        );
                    }
                    let old_val = self.get_pixel(x_idx, y_idx);
                    if old_val == 1 {
                        collided = true;
                    }
                    proof {
                        lemma_toggle_binary(old_val);
                    }
                    self.set_pixel(x_idx, y_idx, new_val ^ old_val);
                }
                col += 1;
            }
            row += 1;
        }
        collided
    }
}

} // verus!
