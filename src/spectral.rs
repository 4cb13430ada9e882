use vstd::prelude::*;

verus! {

/// The factor by which one frequency bin of a spectral envelope is scaled.
///
/// The rising curve and the ramp are kept as exact ratios of integers, so the
/// choice of curve and the point on it are decided without rounding; turning
/// a weight into a sample value is left to the caller's scaling function.
#[derive(Clone, Copy, Debug, PartialEq, Eq, Structural)]
pub enum Weight {
    /// The bin is silenced.
    Zero,
    /// The bin is left as it is.
    One,
    /// The bin is doubled.
    Two,
    /// The bin is scaled by `(num / den)` raised to Euler's number.
    Rising { num: u128, den: u128 },
    /// The bin is scaled by `1 + num / den`.
    Ramp { num: u128, den: u128 },
}

/// Frequency of bin `bin` (0-based) in a frame of `bins` bins at sample rate
/// `sr` is `freq_num(bin, sr) / freq_den(bins)` Hz, that is
/// `(bin + 1) * (sr / 2 / bins)`.
pub open spec fn freq_num(bin: int, sr: int) -> int {
    (bin + 1) * sr
}

pub open spec fn freq_den(bins: int) -> int {
    2 * bins
}

/// Low-frequency suppression: weight 1 above 1350 Hz, `((f - 550) / 800)^e`
/// above 550 Hz up to 1350 Hz, and 0 at or below 550 Hz.
pub open spec fn suppression_of(bin: int, bins: int, sr: int) -> Weight {
    let n = freq_num(bin, sr);
    let d = freq_den(bins);
    if n > 1350 * d {
        Weight::One
    } else if n > 550 * d {
        Weight::Rising { num: (n - 550 * d) as u128, den: (800 * d) as u128 }
    } else {
        Weight::Zero
    }
}

/// High-frequency emphasis: weight 1 below 1000 Hz, `1 + (f - 1000) / 9000`
/// from 1000 Hz up to 10000 Hz, and 2 from 10000 Hz on.
pub open spec fn emphasis_of(bin: int, bins: int, sr: int) -> Weight {
    let n = freq_num(bin, sr);
    let d = freq_den(bins);
    if n < 1000 * d {
        Weight::One
    } else if n < 10000 * d {
        Weight::Ramp { num: (n - 1000 * d) as u128, den: (9000 * d) as u128 }
    } else {
        Weight::Two
    }
}

/// The weight leaves a bin unchanged: it is 1, or a curve taken at the point
/// where it equals 1.
pub open spec fn is_unit(w: Weight) -> bool {
    match w {
        Weight::One => true,
        Weight::Rising { num, den } => num == den && den > 0,
        Weight::Ramp { num, den } => num == 0 && den > 0,
        _ => false,
    }
}

proof fn lemma_freq_bounds(bin: int, bins: int, sr: int)
    requires
        0 <= bin < bins <= usize::MAX,
        0 <= sr <= usize::MAX,
    ensures
        0 <= freq_num(bin, sr) <= usize::MAX * usize::MAX,
        0 < freq_den(bins) <= 2 * usize::MAX,
{
    assert(0 <= (bin + 1) * sr <= usize::MAX * usize::MAX) by (nonlinear_arith)
        requires
            0 <= bin + 1 <= usize::MAX,
            0 <= sr <= usize::MAX,
    ;
}

/// The suppression weight of one bin.
pub fn suppression_weight(bin: usize, bins: usize, sr: usize) -> (w: Weight)
    requires
        bin < bins,
    ensures
        w == suppression_of(bin as int, bins as int, sr as int),
{
    proof {
        lemma_freq_bounds(bin as int, bins as int, sr as int);
    }
    let n: u128 = (bin as u128 + 1) * (sr as u128);
    let d: u128 = 2 * (bins as u128);
    if n > 1350 * d {
        Weight::One
    } else if n > 550 * d {
        Weight::Rising { num: n - 550 * d, den: 800 * d }
    } else {
        Weight::Zero
    }
}

/// The emphasis weight of one bin.
pub fn emphasis_weight(bin: usize, bins: usize, sr: usize) -> (w: Weight)
    requires
        bin < bins,
    ensures
        w == emphasis_of(bin as int, bins as int, sr as int),
{
    proof {
        lemma_freq_bounds(bin as int, bins as int, sr as int);
    }
    let n: u128 = (bin as u128 + 1) * (sr as u128);
    let d: u128 = 2 * (bins as u128);
    if n < 1000 * d {
        Weight::One
    } else if n < 10000 * d {
        Weight::Ramp { num: n - 1000 * d, den: 9000 * d }
    } else {
        Weight::Two
    }
}

/// The number of bins per frame: that of the first frame, or 0 when there is
/// no frame.
pub open spec fn bins_of<T>(sp: Seq<Vec<T>>) -> nat {
    if sp.len() == 0 {
        0
    } else {
        sp[0]@.len()
    }
}

/// Every frame of the envelope has `bins` bins.
pub open spec fn uniform<T>(sp: Seq<Vec<T>>, bins: nat) -> bool {
    forall|r: int| 0 <= r < sp.len() ==> (#[trigger] sp[r])@.len() == bins
}

/// `out` has the shape of `sp`, and each bin of it is what `scale` made of the
/// same bin of `sp` and the weight that `weight` gives its index.
pub open spec fn scaled_by<T, F: Fn(T, Weight) -> T>(
    sp: Seq<Vec<T>>,
    out: Seq<Vec<T>>,
    scale: F,
    weight: spec_fn(int) -> Weight,
) -> bool {
    &&& out.len() == sp.len()
    &&& forall|r: int| 0 <= r < sp.len() ==> (#[trigger] out[r])@.len() == sp[r]@.len()
    &&& forall|r: int, c: int|
        0 <= r < sp.len() && 0 <= c < sp[r]@.len() ==> scale.ensures(
            (sp[r]@[c], weight(c)),
            #[trigger] out[r]@[c],
        )
}

/// The suppression weights of a frame of `bins` bins.
pub fn suppression_profile(bins: usize, sr: usize) -> (p: Vec<Weight>)
    ensures
        p@.len() == bins,
        forall|c: int| 0 <= c < bins ==> #[trigger] p@[c] == suppression_of(c, bins as int, sr as int),
{
    let mut p: Vec<Weight> = Vec::new();
    let mut c: usize = 0;
    while c < bins
        invariant
            c <= bins,
            p@.len() == c,
            forall|k: int| 0 <= k < c ==> #[trigger] p@[k] == suppression_of(k, bins as int, sr as int),
        decreases bins - c,
    {
        p.push(suppression_weight(c, bins, sr));
        c = c + 1;
    }
    p
}

/// The emphasis weights of a frame of `bins` bins.
pub fn emphasis_profile(bins: usize, sr: usize) -> (p: Vec<Weight>)
    ensures
        p@.len() == bins,
        forall|c: int| 0 <= c < bins ==> #[trigger] p@[c] == emphasis_of(c, bins as int, sr as int),
{
    let mut p: Vec<Weight> = Vec::new();
    let mut c: usize = 0;
    while c < bins
        invariant
            c <= bins,
            p@.len() == c,
            forall|k: int| 0 <= k < c ==> #[trigger] p@[k] == emphasis_of(k, bins as int, sr as int),
        decreases bins - c,
    {
        p.push(emphasis_weight(c, bins, sr));
        c = c + 1;
    }
    p
}

/// Scales every bin of every frame by the weight that `profile` gives its
/// index.
pub(crate) fn apply_profile<T: Copy, F: Fn(T, Weight) -> T>(
    sp: &Vec<Vec<T>>,
    profile: &Vec<Weight>,
    scale: &F,
) -> (out: Vec<Vec<T>>)
    requires
        uniform(sp@, profile@.len()),
        forall|x: T, w: Weight| scale.requires((x, w)),
    ensures
        scaled_by(sp@, out@, *scale, |c: int| profile@[c]),
{
    let mut out: Vec<Vec<T>> = Vec::new();
    let mut r: usize = 0;
    while r < sp.len()
        invariant
            r <= sp@.len(),
            out@.len() == r,
            uniform(sp@, profile@.len()),
            forall|x: T, w: Weight| scale.requires((x, w)),
            forall|k: int| 0 <= k < r ==> (#[trigger] out@[k])@.len() == sp@[k]@.len(),
            forall|k: int, c: int|
                0 <= k < r && 0 <= c < sp@[k]@.len() ==> scale.ensures(
                    (sp@[k]@[c], profile@[c]),
                    #[trigger] out@[k]@[c],
                ),
        decreases sp@.len() - r,
    {
        let frame = &sp[r];
        let mut row: Vec<T> = Vec::new();
        let mut c: usize = 0;
        while c < frame.len()
            invariant
                c <= frame@.len(),
                frame@.len() == profile@.len(),
                row@.len() == c,
                forall|x: T, w: Weight| scale.requires((x, w)),
                forall|j: int| 0 <= j < c ==> scale.ensures((frame@[j], profile@[j]), #[trigger] row@[j]),
            decreases frame@.len() - c,
        {
            row.push(scale(frame[c], profile[c]));
            c = c + 1;
        }
        out.push(row);
        r = r + 1;
    }
    out
}

/// Suppresses the low frequencies of every frame: each bin is scaled by its
/// suppression weight. The envelope keeps its shape.
pub fn low_frequency_suppression<T: Copy, F: Fn(T, Weight) -> T>(
    sp: Vec<Vec<T>>,
    sr: usize,
    scale: &F,
) -> (out: Vec<Vec<T>>)
    requires
        uniform(sp@, bins_of(sp@)),
        forall|x: T, w: Weight| scale.requires((x, w)),
    ensures
        scaled_by(sp@, out@, *scale, |c: int| suppression_of(c, bins_of(sp@) as int, sr as int)),
{
    let bins: usize = if sp.len() == 0 { 0 } else { sp[0].len() };
    let profile = suppression_profile(bins, sr);
    let out = apply_profile(&sp, &profile, scale);
    assert forall|r: int, c: int| 0 <= r < sp@.len() && 0 <= c < sp@[r]@.len() implies scale.ensures(
        (sp@[r]@[c], suppression_of(c, bins as int, sr as int)),
        #[trigger] out@[r]@[c],
    ) by {
        assert(profile@[c] == suppression_of(c, bins as int, sr as int));
    }
    out
}

/// Emphasises the high frequencies of every frame: each bin is scaled by its
/// emphasis weight. The envelope keeps its shape.
pub fn high_frequency_emphasis<T: Copy, F: Fn(T, Weight) -> T>(
    sp: Vec<Vec<T>>,
    sr: usize,
    scale: &F,
) -> (out: Vec<Vec<T>>)
    requires
        uniform(sp@, bins_of(sp@)),
        forall|x: T, w: Weight| scale.requires((x, w)),
    ensures
        scaled_by(sp@, out@, *scale, |c: int| emphasis_of(c, bins_of(sp@) as int, sr as int)),
{
    let bins: usize = if sp.len() == 0 { 0 } else { sp[0].len() };
    let profile = emphasis_profile(bins, sr);
    let out = apply_profile(&sp, &profile, scale);
    assert forall|r: int, c: int| 0 <= r < sp@.len() && 0 <= c < sp@[r]@.len() implies scale.ensures(
        (sp@[r]@[c], emphasis_of(c, bins as int, sr as int)),
        #[trigger] out@[r]@[c],
    ) by {
        assert(profile@[c] == emphasis_of(c, bins as int, sr as int));
    }
    out
}

/// The weight curves meet their neighbours at the corner frequencies: at
/// 1350 Hz suppression leaves a bin unchanged and at 550 Hz it silences it; at
/// 1000 Hz emphasis leaves a bin unchanged and at 10000 Hz it doubles it.
pub proof fn lemma_weight_boundaries(bin: int, bins: int, sr: int)
    requires
        0 <= bin < bins <= usize::MAX,
        0 <= sr <= usize::MAX,
    ensures
        freq_num(bin, sr) == 1350 * freq_den(bins) ==> is_unit(suppression_of(bin, bins, sr)),
        freq_num(bin, sr) == 550 * freq_den(bins) ==> suppression_of(bin, bins, sr) == Weight::Zero,
        freq_num(bin, sr) == 1000 * freq_den(bins) ==> is_unit(emphasis_of(bin, bins, sr)),
        freq_num(bin, sr) == 10000 * freq_den(bins) ==> emphasis_of(bin, bins, sr) == Weight::Two,
{
    lemma_freq_bounds(bin, bins, sr);
}

/// Reshaping keeps the shape: an envelope of `f` frames of `b` bins comes
/// back as `f` frames of `b` bins, whatever the weights.
pub proof fn lemma_shape_preserved<T, F: Fn(T, Weight) -> T>(
    sp: Seq<Vec<T>>,
    out: Seq<Vec<T>>,
    scale: F,
    weight: spec_fn(int) -> Weight,
    b: nat,
)
    requires
        uniform(sp, b),
        scaled_by(sp, out, scale, weight),
    ensures
        out.len() == sp.len(),
        uniform(out, b),
{
    assert forall|r: int| 0 <= r < out.len() implies (#[trigger] out[r])@.len() == b by {
        assert(sp[r]@.len() == b);
    }
}

} // verus!
