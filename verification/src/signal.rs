//! Integer signal handling of the level meter: reordering of spectrum bins,
//! the sliding window of samples, the roughness measure of the window and the
//! picture the meter shows.
use vstd::prelude::*;

verus! {

/// `s` with its first half (the first `s.len() / 2` items) in reverse order
/// and its second half unchanged.
pub open spec fn first_half_reversed<T>(s: Seq<T>) -> Seq<T> {
    let mid = s.len() / 2;
    Seq::new(s.len(), |i: int| if i < mid { s[mid - 1 - i] } else { s[i] })
}

/// The items of the reversed first half of `s` and of the second half of `s`,
/// taken in turn: `s[mid - 1], s[mid], s[mid - 2], s[mid + 1], ...`, where
/// `mid` is `s.len() / 2`, for `mid` rounds.
pub open spec fn interleaved_halves<T>(s: Seq<T>) -> Seq<T> {
    let mid = s.len() / 2;
    Seq::new(
        (2 * mid) as nat,
        |j: int| if j % 2 == 0 { s[mid - 1 - j / 2] } else { s[mid + j / 2] },
    )
}

/// Reverses the first half of `vec` in place, then returns the items of that
/// reversed half and of the second half, taken in turn. An odd last item of
/// the second half is left out of the result.
pub fn interleave_reversed_halves<T: Copy>(vec: &mut Vec<T>) -> (res: Vec<T>)
    ensures
        final(vec)@ == first_half_reversed(old(vec)@),
        res@ == interleaved_halves(old(vec)@),
        final(vec)@.len() == old(vec)@.len(),
        res@.len() == 2 * (old(vec)@.len() / 2),
        forall|k: int|
            0 <= k < old(vec)@.len() / 2 ==> #[trigger] final(vec)@[k] == old(vec)@[old(vec)@.len()
                / 2 - 1 - k],
        forall|k: int|
            old(vec)@.len() / 2 <= k < old(vec)@.len() ==> #[trigger] final(vec)@[k] == old(
                vec,
            )@[k],
        forall|k: int|
            0 <= k < old(vec)@.len() / 2 ==> #[trigger] res@[2 * k] == old(vec)@[old(vec)@.len()
                / 2 - 1 - k] && res@[2 * k + 1] == old(vec)@[old(vec)@.len() / 2 + k],
{
    let ghost orig = vec@;
    let len = vec.len();
    let mid = len / 2;

    let mut i: usize = 0;
    while i < mid / 2
        invariant
            len == orig.len(),
            mid == len / 2,
            i <= mid / 2,
            vec@.len() == len,
            forall|j: int| 0 <= j < i ==> #[trigger] vec@[j] == orig[mid - 1 - j],
            forall|j: int| mid - i <= j < mid ==> #[trigger] vec@[j] == orig[mid - 1 - j],
            forall|j: int| i <= j < mid - i ==> #[trigger] vec@[j] == orig[j],
            forall|j: int| mid <= j < len ==> #[trigger] vec@[j] == orig[j],
        decreases mid / 2 - i,
    {
        let k = mid - 1 - i;
        let front = vec[i];
        let back = vec[k];
        vec.set(i, back);
        vec.set(k, front);
        i = i + 1;
    }
    assert(vec@ =~= first_half_reversed(orig));

    let mut result: Vec<T> = Vec::with_capacity(len);
    let mut n: usize = 0;
    while n < mid
        invariant
            len == orig.len(),
            mid == len / 2,
            n <= mid,
            vec@ == first_half_reversed(orig),
            result@.len() == 2 * n,
            forall|j: int|
                0 <= j < 2 * n ==> #[trigger] result@[j] == (if j % 2 == 0 {
                    orig[mid - 1 - j / 2]
                } else {
                    orig[mid + j / 2]
                }),
        decreases mid - n,
    {
        result.push(vec[n]);
        result.push(vec[mid + n]);
        n = n + 1;
    }
    assert(result@ =~= interleaved_halves(orig));
    proof {
        lemma_halves_reordered(orig);
    }
    result
}

/// The result of [`interleave_reversed_halves`] takes the items of the
/// vector it leaves behind in turn from its two halves: item `2k` is item `k`
/// of the reordered vector, item `2k + 1` is item `mid + k`.
pub proof fn lemma_interleave_reads_reordered_halves<T>(s: Seq<T>, k: int)
    requires
        0 <= k < s.len() / 2,
    ensures
        interleaved_halves(s)[2 * k] == first_half_reversed(s)[k],
        interleaved_halves(s)[2 * k + 1] == first_half_reversed(s)[s.len() / 2 + k],
{
}

/// What the reordering does to each position: the first half is read
/// backwards, the second half stays where it was, and the interleaving takes
/// item `mid - 1 - k` of the original, then item `mid + k`, for each `k`
/// below `mid`.
pub proof fn lemma_halves_reordered<T>(s: Seq<T>)
    ensures
        first_half_reversed(s).len() == s.len(),
        interleaved_halves(s).len() == 2 * (s.len() / 2),
        forall|k: int|
            0 <= k < s.len() / 2 ==> #[trigger] first_half_reversed(s)[k] == s[s.len() / 2 - 1
                - k],
        forall|k: int| s.len() / 2 <= k < s.len() ==> #[trigger] first_half_reversed(s)[k] == s[k],
        forall|k: int|
            0 <= k < s.len() / 2 ==> #[trigger] interleaved_halves(s)[2 * k] == s[s.len() / 2 - 1
                - k] && interleaved_halves(s)[2 * k + 1] == s[s.len() / 2 + k],
{
    assert forall|k: int| 0 <= k < s.len() / 2 implies #[trigger] interleaved_halves(s)[2 * k]
        == s[s.len() / 2 - 1 - k] && interleaved_halves(s)[2 * k + 1] == s[s.len() / 2 + k] by {
        assert((2 * k) / 2 == k && (2 * k) % 2 == 0);
        assert((2 * k + 1) / 2 == k && (2 * k + 1) % 2 == 1);
    }
}

/// The distance between two samples.
pub open spec fn sample_distance(a: u8, b: u8) -> int {
    if a < b {
        b - a
    } else {
        a - b
    }
}

/// The measure of two samples is their distance, and each sample appended
/// adds its distance to the last one: the measure adds `|x - y|` over every
/// pair of neighbours, in either order.
pub proof fn lemma_total_variation_adds_distances(s: Seq<u8>, x: u8, y: u8)
    ensures
        total_variation(seq![x]) == 0,
        total_variation(seq![x, y]) == sample_distance(x, y),
        sample_distance(x, y) == sample_distance(y, x),
        0 <= sample_distance(x, y) <= 255,
        s.len() >= 1 ==> total_variation(s.push(y)) == total_variation(s) + sample_distance(
            s[s.len() - 1],
            y,
        ),
        total_variation(Seq::new(s.len(), |i: int| x)) == 0,
{
    let pair = seq![x, y];
    assert(pair.drop_last() =~= seq![x]);
    assert(pair.len() == 2 && pair[0] == x && pair[1] == y);
    assert(total_variation(seq![x]) == 0);
    if s.len() >= 1 {
        assert(s.push(y).drop_last() =~= s);
    }
    lemma_constant_has_no_variation(x, s.len());
}

proof fn lemma_constant_has_no_variation(x: u8, n: nat)
    ensures
        total_variation(Seq::new(n, |i: int| x)) == 0,
    decreases n,
{
    if n >= 2 {
        assert(Seq::new(n, |i: int| x).drop_last() =~= Seq::new((n - 1) as nat, |i: int| x));
        lemma_constant_has_no_variation(x, (n - 1) as nat);
    }
}

/// Number of samples that one spectrum is computed over.
pub const WINDOW_LEN: usize = 4096;

/// Number of new samples that move the window on by one step.
pub const HOP_LEN: usize = 512;

/// Width of the meter's picture, in pixels.
pub const WIDTH: usize = 16;

/// Height of the meter's picture, in pixels.
pub const HEIGHT: usize = 16;

/// Number of pixels of the meter's picture.
pub const AREA: usize = 256;

/// Sum of the absolute differences between neighbouring samples of `s`.
pub open spec fn total_variation(s: Seq<u8>) -> int
    decreases s.len(),
{
    if s.len() < 2 {
        0
    } else {
        let a = s[s.len() - 2] as int;
        let b = s[s.len() - 1] as int;
        total_variation(s.drop_last()) + if a < b { b - a } else { a - b }
    }
}

/// The last samples heard, and the samples that came since the window last
/// moved on.
pub struct SampleWindow {
    values: Vec<u8>,
    block: Vec<u8>,
}

impl SampleWindow {
    /// The samples of the window, oldest first.
    pub closed spec fn samples(&self) -> Seq<u8> {
        self.values@
    }

    /// The samples received since the window last moved on.
    pub closed spec fn pending(&self) -> Seq<u8> {
        self.block@
    }

    /// The window always holds `WINDOW_LEN` samples, and no more than
    /// `HOP_LEN` samples wait between two calls of `feed`.
    pub open spec fn wf(&self) -> bool {
        &&& self.samples().len() == WINDOW_LEN
        &&& self.pending().len() <= HOP_LEN
    }

    /// A window of silence (all samples zero) with nothing pending.
    pub fn new() -> (w: SampleWindow)
        ensures
            w.wf(),
            w.samples() == Seq::new(WINDOW_LEN as nat, |i: int| 0u8),
            w.pending() == Seq::<u8>::empty(),
    {
        let mut values: Vec<u8> = Vec::with_capacity(WINDOW_LEN);
        let mut i: usize = 0;
        while i < WINDOW_LEN
            invariant
                i <= WINDOW_LEN,
                values@ == Seq::new(i as nat, |j: int| 0u8),
            decreases WINDOW_LEN - i,
        {
            values.push(0u8);
            i = i + 1;
        }
        SampleWindow { values, block: Vec::new() }
    }

    /// The samples of the window, oldest first.
    pub fn values(&self) -> (v: &[u8])
        ensures
            v@ == self.samples(),
    {
        self.values.as_slice()
    }

    /// The samples received since the window last moved on.
    pub fn block(&self) -> (b: &[u8])
        ensures
            b@ == self.pending(),
    {
        self.block.as_slice()
    }

    /// Appends a frame of samples to the pending ones. Once more than
    /// `HOP_LEN` samples are pending, the window drops its `HOP_LEN` oldest
    /// samples, takes the first `HOP_LEN` pending ones, and the rest of the
    /// pending samples are dropped. Returns whether the window moved on.
    pub fn feed(&mut self, data: &[u8]) -> (moved: bool)
        requires
            old(self).wf(),
        ensures
            final(self).wf(),
            moved == (old(self).pending().len() + data@.len() > HOP_LEN),
            moved ==> final(self).samples() == old(self).samples().skip(HOP_LEN as int) + (
            old(self).pending() + data@).take(HOP_LEN as int),
            moved ==> final(self).pending() == Seq::<u8>::empty(),
            !moved ==> final(self).samples() == old(self).samples(),
            !moved ==> final(self).pending() == old(self).pending() + data@,
    {
        let ghost old_block = self.block@;
        let ghost old_values = self.values@;
        let mut i: usize = 0;
        while i < data.len()
            invariant
                i <= data@.len(),
                self.values@ == old_values,
                self.block@ == old_block + data@.take(i as int),
            decreases data@.len() - i,
        {
            self.block.push(data[i]);
            i = i + 1;
            assert(data@.take(i as int) =~= data@.take(i - 1).push(data@[i - 1]));
        }
        assert(data@.take(data@.len() as int) =~= data@);
        if self.block.len() > HOP_LEN {
            let mut next: Vec<u8> = Vec::with_capacity(WINDOW_LEN);
            let mut j: usize = HOP_LEN;
            while j < WINDOW_LEN
                invariant
                    HOP_LEN <= j <= WINDOW_LEN,
                    self.values@ == old_values,
                    self.block@ == old_block + data@,
                    old_values.len() == WINDOW_LEN,
                    next@ == old_values.subrange(HOP_LEN as int, j as int),
                decreases WINDOW_LEN - j,
            {
                next.push(self.values[j]);
                j = j + 1;
                assert(old_values.subrange(HOP_LEN as int, j as int) =~= old_values.subrange(
                    HOP_LEN as int,
                    j - 1,
                ).push(old_values[j - 1]));
            }
            let mut k: usize = 0;
            while k < HOP_LEN
                invariant
                    k <= HOP_LEN,
                    HOP_LEN < self.block@.len(),
                    self.block@ == old_block + data@,
                    old_values.len() == WINDOW_LEN,
                    next@ == old_values.skip(HOP_LEN as int) + self.block@.take(k as int),
                decreases HOP_LEN - k,
            {
                next.push(self.block[k]);
                k = k + 1;
                assert(self.block@.take(k as int) =~= self.block@.take(k - 1).push(
                    self.block@[k - 1],
                ));
            }
            self.values = next;
            self.block.clear();
            true
        } else {
            false
        }
    }

    /// Sum of the absolute differences between neighbouring samples of the
    /// window: how much the signal moves.
    pub fn total_variation(&self) -> (t: u32)
        requires
            self.wf(),
        ensures
            t == total_variation(self.samples()),
    {
        let n = self.values.len();
        let mut acc: u32 = 0;
        let mut i: usize = 1;
        proof {
            assert(self.values@.take(1).len() == 1);
        }
        while i < n
            invariant
                n == WINDOW_LEN,
                self.values@.len() == n,
                1 <= i <= n,
                acc == total_variation(self.values@.take(i as int)),
                acc <= 255 * i,
            decreases n - i,
        {
            let a = self.values[i - 1];
            let b = self.values[i];
            let d: u32 = if a < b { (b - a) as u32 } else { (a - b) as u32 };
            proof {
                let t = self.values@.take(i + 1);
                assert(t.drop_last() =~= self.values@.take(i as int));
                assert(t[t.len() - 2] == a && t[t.len() - 1] == b);
            }
            acc = acc + d;
            i = i + 1;
        }
        assert(self.values@.take(n as int) =~= self.values@);
        acc
    }
}

/// The meter's picture: the upper half of its rows in `top`, the lower half in
/// the colour whose green channel is `bottom`.
pub fn render_levels(top: u32, bottom: u8) -> (buf: Vec<u32>)
    ensures
        buf@.len() == AREA,
        forall|i: int|
            0 <= i < AREA ==> #[trigger] buf@[i] == if i / (WIDTH as int) < (HEIGHT / 2) as int {
                top as int
            } else {
                bottom as int * 256
            },
{
    let green: u32 = (bottom as u32) << 8;
    assert(green == bottom as int * 256) by (bit_vector)
        requires
            green == (bottom as u32) << 8,
    ;
    let mut buf: Vec<u32> = Vec::with_capacity(AREA);
    let mut y: usize = 0;
    while y < HEIGHT
        invariant
            y <= HEIGHT,
            green == bottom as int * 256,
            buf@.len() == y * WIDTH,
            forall|i: int|
                0 <= i < y * WIDTH ==> #[trigger] buf@[i] == if i / (WIDTH as int) < (HEIGHT
                    / 2) as int {
                    top
                } else {
                    green
                },
        decreases HEIGHT - y,
    {
        let colour = if y < HEIGHT / 2 { top } else { green };
        let mut x: usize = 0;
        while x < WIDTH
            invariant
                y < HEIGHT,
                x <= WIDTH,
                colour == if y < HEIGHT / 2 { top } else { green },
                buf@.len() == y * WIDTH + x,
                forall|i: int|
                    0 <= i < y * WIDTH + x ==> #[trigger] buf@[i] == if i / (WIDTH as int) < (
                    HEIGHT / 2) as int {
                        top
                    } else {
                        green
                    },
            decreases WIDTH - x,
        {
            buf.push(colour);
            x = x + 1;
        }
        y = y + 1;
    }
    buf
}

} // verus!
