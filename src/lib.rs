//! Voice-to-whisper transformation rules: the frequency weights that reshape a
//! spectral envelope, the transform that swaps the pitch contour for a noise
//! excitation, and the per-block processing stages. Sample values are generic;
//! the caller supplies how a sample is scaled by a weight.
use vstd::prelude::*;

pub mod block;
pub mod phantomsilhouette;
pub mod spectral;

verus! {

} // verus!
