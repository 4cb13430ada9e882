use vstd::prelude::*;

verus! {

/// Where the processing of one audio block stands.
#[derive(Clone, Copy, Debug, PartialEq, Eq, Structural)]
pub enum Stage {
    /// Waiting for a block.
    Idle,
    /// The block is being decomposed into pitch, envelope and aperiodicity.
    Analyzing,
    /// The excitation is being replaced and the envelope reshaped.
    Transforming,
    /// A waveform is being resynthesised from the transformed parameters.
    Synthesizing,
}

/// The stage that follows `stage` for a block of `block_len` samples: an
/// empty block leaves the processor idle; otherwise analysis, transform and
/// synthesis follow each other and synthesis returns to idle.
pub open spec fn stage_after(stage: Stage, block_len: nat) -> Stage {
    match stage {
        Stage::Idle => if block_len == 0 {
            Stage::Idle
        } else {
            Stage::Analyzing
        },
        Stage::Analyzing => Stage::Transforming,
        Stage::Transforming => Stage::Synthesizing,
        Stage::Synthesizing => Stage::Idle,
    }
}

/// Advances the processing of a block of `block_len` samples by one stage.
pub fn next_stage(stage: Stage, block_len: usize) -> (next: Stage)
    ensures
        next == stage_after(stage, block_len as nat),
{
    match stage {
        Stage::Idle => {
            if block_len == 0 {
                Stage::Idle
            } else {
                Stage::Analyzing
            }
        },
        Stage::Analyzing => Stage::Transforming,
        Stage::Transforming => Stage::Synthesizing,
        Stage::Synthesizing => Stage::Idle,
    }
}

/// `out` is the resynthesised signal `y` made to fill a block of `n` samples:
/// cut after `n` samples when longer, and padded with `fill` when shorter.
pub open spec fn fitted<T>(y: Seq<T>, n: nat, fill: T, out: Seq<T>) -> bool {
    &&& out.len() == n
    &&& forall|i: int| 0 <= i < n && i < y.len() ==> #[trigger] out[i] == y[i]
    &&& forall|i: int| y.len() <= i < n ==> #[trigger] out[i] == fill
}

/// Makes the resynthesised signal `y` exactly as long as the input block of
/// `n` samples: the samples past `n` are dropped, and a missing tail is filled
/// with `fill` (silence, for audio).
pub fn fit_to_block<T: Copy>(y: &Vec<T>, n: usize, fill: T) -> (out: Vec<T>)
    ensures
        fitted(y@, n as nat, fill, out@),
{
    let mut out: Vec<T> = Vec::new();
    let mut i: usize = 0;
    while i < n
        invariant
            i <= n,
            out@.len() == i,
            forall|k: int| 0 <= k < i && k < y@.len() ==> #[trigger] out@[k] == y@[k],
            forall|k: int| y@.len() <= k < i ==> #[trigger] out@[k] == fill,
        decreases n - i,
    {
        if i < y.len() {
            out.push(y[i]);
        } else {
            out.push(fill);
        }
        i = i + 1;
    }
    out
}

} // verus!
