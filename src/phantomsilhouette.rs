use vstd::prelude::*;
use crate::spectral::{
    Weight, apply_profile, bins_of, emphasis_of, emphasis_profile, suppression_of,
    suppression_profile, uniform,
};

verus! {

/// `y` is what scaling `x` by `first` and then by `second` can give.
pub open spec fn scaled_twice<T, F: Fn(T, Weight) -> T>(
    scale: F,
    x: T,
    first: Weight,
    second: Weight,
    y: T,
) -> bool {
    exists|m: T| #[trigger] scale.ensures((x, first), m) && scale.ensures((m, second), y)
}

/// `out` is the envelope `sp` reshaped for a whisper at sample rate `sr`: each
/// bin scaled by its suppression weight and then by its emphasis weight.
pub open spec fn reshaped<T, F: Fn(T, Weight) -> T>(
    sp: Seq<Vec<T>>,
    out: Seq<Vec<T>>,
    sr: int,
    scale: F,
) -> bool {
    &&& out.len() == sp.len()
    &&& forall|r: int| 0 <= r < sp.len() ==> (#[trigger] out[r])@.len() == sp[r]@.len()
    &&& forall|r: int, c: int|
        0 <= r < sp.len() && 0 <= c < sp[r]@.len() ==> scaled_twice(
            scale,
            sp[r]@[c],
            suppression_of(c, bins_of(sp) as int, sr),
            emphasis_of(c, bins_of(sp) as int, sr),
            #[trigger] out[r]@[c],
        )
}

/// Suppression followed by emphasis, on a copy of `sp`.
fn reshape<T: Copy, F: Fn(T, Weight) -> T>(sp: &Vec<Vec<T>>, sr: usize, scale: &F) -> (out: Vec<
    Vec<T>,
>)
    requires
        uniform(sp@, bins_of(sp@)),
        forall|x: T, w: Weight| scale.requires((x, w)),
    ensures
        reshaped(sp@, out@, sr as int, *scale),
{
    let bins: usize = if sp.len() == 0 { 0 } else { sp[0].len() };
    let low = suppression_profile(bins, sr);
    let high = emphasis_profile(bins, sr);
    let mid = apply_profile(sp, &low, scale);
    assert(uniform(mid@, bins as nat));
    let out = apply_profile(&mid, &high, scale);
    assert forall|r: int, c: int| 0 <= r < sp@.len() && 0 <= c < sp@[r]@.len() implies scaled_twice(
        *scale,
        sp@[r]@[c],
        suppression_of(c, bins_of(sp@) as int, sr as int),
        emphasis_of(c, bins_of(sp@) as int, sr as int),
        #[trigger] out@[r]@[c],
    ) by {
        let m = mid@[r]@[c];
        assert(low@[c] == suppression_of(c, bins as int, sr as int));
        assert(high@[c] == emphasis_of(c, bins as int, sr as int));
        assert(scale.ensures((sp@[r]@[c], low@[c]), m));
        assert(scale.ensures((m, high@[c]), out@[r]@[c]));
    }
    out
}

/// The whisper transform with white noise: a new excitation of one sample
/// drawn by `draw` per pitch frame, and the envelope reshaped.
pub fn phantom_silhouette<T: Copy, D: Fn() -> T, F: Fn(T, Weight) -> T>(
    f0: &Vec<T>,
    sp: &Vec<Vec<T>>,
    sr: usize,
    draw: &D,
    scale: &F,
) -> (out: (Vec<T>, Vec<Vec<T>>))
    requires
        uniform(sp@, bins_of(sp@)),
        draw.requires(()),
        forall|x: T, w: Weight| scale.requires((x, w)),
    ensures
        out.0@.len() == f0@.len(),
        forall|i: int| 0 <= i < f0@.len() ==> draw.ensures((), #[trigger] out.0@[i]),
        reshaped(sp@, out.1@, sr as int, *scale),
{
    let mut excitation: Vec<T> = Vec::new();
    let mut i: usize = 0;
    while i < f0.len()
        invariant
            i <= f0@.len(),
            excitation@.len() == i,
            draw.requires(()),
            forall|k: int| 0 <= k < i ==> draw.ensures((), #[trigger] excitation@[k]),
        decreases f0@.len() - i,
    {
        excitation.push(draw());
        i = i + 1;
    }
    (excitation, reshape(sp, sr, scale))
}

/// The whisper transform with pink noise: `excitation`, one sample per pitch
/// frame, replaces the pitch contour, and the envelope is reshaped.
pub fn phantom_silhouette_pink<T: Copy, F: Fn(T, Weight) -> T>(
    f0: &Vec<T>,
    sp: &Vec<Vec<T>>,
    sr: usize,
    excitation: Vec<T>,
    scale: &F,
) -> (out: (Vec<T>, Vec<Vec<T>>))
    requires
        excitation@.len() == f0@.len(),
        uniform(sp@, bins_of(sp@)),
        forall|x: T, w: Weight| scale.requires((x, w)),
    ensures
        out.0@ == excitation@,
        out.0@.len() == f0@.len(),
        reshaped(sp@, out.1@, sr as int, *scale),
{
    (excitation, reshape(sp, sr, scale))
}

/// The transform of an empty pitch contour and an empty envelope is an empty
/// excitation and an empty envelope.
pub proof fn lemma_empty_transform<T, F: Fn(T, Weight) -> T>(
    f0: Seq<T>,
    sp: Seq<Vec<T>>,
    sr: int,
    scale: F,
    excitation: Seq<T>,
    out: Seq<Vec<T>>,
)
    requires
        f0.len() == 0,
        sp.len() == 0,
        excitation.len() == f0.len(),
        reshaped(sp, out, sr, scale),
    ensures
        excitation.len() == 0,
        out.len() == 0,
{
}

} // verus!
