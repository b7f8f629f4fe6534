//! Liveness verification of a motion trajectory.
//!
//! A trajectory is a time-ordered run of accelerometer readings. The sensor
//! front end measures it: it quantizes each axis to tenths, sorts each
//! magnitude into a bin, and compares the entropy and the clustering of the
//! magnitudes with its thresholds. Everything discrete is decided here: how
//! the bins are counted, whether the trajectory is long enough, which
//! rejection a failed measurement gives, and which bytes the commitment
//! hashes.

use vstd::prelude::*;
use crate::error::AeonError;
use crate::identity::hasher::{
    blake3_hash, hasher_finalize, hasher_input, hasher_is_regular, hasher_new, hasher_update,
};

verus! {

/// The fewest samples a trajectory may hold.
pub const MIN_SAMPLES: usize = 10;

/// The number of bins of the magnitude histogram.
pub const BIN_COUNT: usize = 10;

/// One accelerometer reading in fixed point: each axis times ten, truncated
/// toward zero.
#[derive(Debug, Clone, Copy, PartialEq, Eq, Structural)]
pub struct QuantizedSample {
    pub x: i32,
    pub y: i32,
    pub z: i32,
}

/// The little-endian bytes of the two's complement word of `v`.
pub open spec fn le_bytes(v: i32) -> Seq<u8> {
    let w = (v as int) % 0x1_0000_0000;
    seq![
        (w % 256) as u8,
        (w / 0x100 % 256) as u8,
        (w / 0x1_0000 % 256) as u8,
        (w / 0x100_0000 % 256) as u8,
    ]
}

/// Encodes one axis for the commitment.
pub fn encode_axis(v: i32) -> (out: [u8; 4])
    ensures
        out@ == le_bytes(v),
{
    let w: u32 = #[verifier::truncate] (v as u32);
    let b0: u8 = #[verifier::truncate] ((w & 0xff) as u8);
    let b1: u8 = #[verifier::truncate] (((w >> 8) & 0xff) as u8);
    let b2: u8 = #[verifier::truncate] (((w >> 16) & 0xff) as u8);
    let b3: u8 = #[verifier::truncate] (((w >> 24) & 0xff) as u8);
    let out = [b0, b1, b2, b3];
    proof {
        assert(v >= 0 ==> w == v) by (bit_vector)
            requires
                w == v as u32,
        ;
        assert(v < 0 ==> w == v + 0x1_0000_0000) by (bit_vector)
            requires
                w == v as u32,
        ;
        assert(b0 == w % 256 && b1 == w / 0x100 % 256) by (bit_vector)
            requires
                b0 == (w & 0xff) as u8,
                b1 == ((w >> 8) & 0xff) as u8,
        ;
        assert(b2 == w / 0x1_0000 % 256 && b3 == w / 0x100_0000 % 256) by (bit_vector)
            requires
                b2 == ((w >> 16) & 0xff) as u8,
                b3 == ((w >> 24) & 0xff) as u8,
        ;
        assert(w as int == (v as int) % 0x1_0000_0000);
        assert(out@ =~= le_bytes(v));
    }
    out
}

/// The twelve bytes that one sample contributes to the commitment: its three
/// axes, each little-endian, x first.
pub open spec fn sample_bytes(s: QuantizedSample) -> Seq<u8> {
    le_bytes(s.x) + le_bytes(s.y) + le_bytes(s.z)
}

/// The bytes that the commitment hashes: the bytes of each sample, in sample
/// order.
pub open spec fn trajectory_bytes(samples: Seq<QuantizedSample>) -> Seq<u8>
    decreases samples.len(),
{
    if samples.len() == 0 {
        Seq::empty()
    } else {
        trajectory_bytes(samples.drop_last()) + sample_bytes(samples.last())
    }
}

/// How many entries of `bins` name bin `b`.
pub open spec fn bin_occurrences(bins: Seq<usize>, b: int) -> nat
    decreases bins.len(),
{
    if bins.len() == 0 {
        0
    } else {
        bin_occurrences(bins.drop_last(), b) + if bins.last() == b { 1nat } else { 0nat }
    }
}

/// No bin is named more often than there are entries.
pub proof fn lemma_bin_occurrences_bounded(bins: Seq<usize>, b: int)
    ensures
        bin_occurrences(bins, b) <= bins.len(),
    decreases bins.len(),
{
    if bins.len() > 0 {
        lemma_bin_occurrences_bounded(bins.drop_last(), b);
    }
}

/// Counts the magnitudes per bin. `bins` holds, for each sample, the bin that
/// its magnitude modulo ten falls into; an entry outside the ten bins is
/// dropped.
pub fn magnitude_histogram(bins: &[usize]) -> (histogram: [usize; 10])
    ensures
        forall|b: int| 0 <= b < BIN_COUNT ==> histogram@[b] == bin_occurrences(bins@, b),
{
    let mut histogram: [usize; 10] = [0; 10];
    let mut i: usize = 0;
    while i < bins.len()
        invariant
            i <= bins.len(),
            forall|b: int|
                0 <= b < BIN_COUNT ==> histogram@[b] == bin_occurrences(bins@.take(i as int), b),
        decreases bins.len() - i,
    {
        let idx: usize = bins[i];
        proof {
            assert(bins@.take(i as int + 1).drop_last() =~= bins@.take(i as int));
            assert(bins@.take(i as int + 1).last() == idx);
        }
        if idx < BIN_COUNT {
            proof {
                lemma_bin_occurrences_bounded(bins@.take(i as int), idx as int);
            }
            histogram[idx] = histogram[idx] + 1;
        }
        i += 1;
    }
    proof {
        assert(bins@.take(i as int) =~= bins@);
    }
    histogram
}

/// The commitment to a trajectory: the BLAKE3 digest of its bytes, absorbed
/// axis by axis.
pub fn hash_trajectory(samples: &[QuantizedSample]) -> (digest: [u8; 32])
    ensures
        digest@ == blake3_hash(trajectory_bytes(samples@)),
{
    let mut hasher = hasher_new();
    let mut i: usize = 0;
    while i < samples.len()
        invariant
            i <= samples.len(),
            hasher_is_regular(hasher),
            hasher_input(hasher) == trajectory_bytes(samples@.take(i as int)),
        decreases samples.len() - i,
    {
        let s = samples[i];
        let qx = encode_axis(s.x);
        let qy = encode_axis(s.y);
        let qz = encode_axis(s.z);
        hasher_update(&mut hasher, qx.as_slice());
        hasher_update(&mut hasher, qy.as_slice());
        hasher_update(&mut hasher, qz.as_slice());
        proof {
            assert(samples@.take(i as int + 1).drop_last() =~= samples@.take(i as int));
            assert(samples@.take(i as int + 1).last() == s);
            assert(hasher_input(hasher) =~= trajectory_bytes(samples@.take(i as int))
                + sample_bytes(s));
        }
        i += 1;
    }
    proof {
        assert(samples@.take(i as int) =~= samples@);
    }
    hasher_finalize(&hasher)
}

/// What `MotionVerifier::verify` returns, as a function of what it is given.
pub open spec fn verify_outcome(
    samples: Seq<QuantizedSample>,
    entropy_sufficient: bool,
    clustering_acceptable: bool,
) -> Result<Seq<u8>, AeonError> {
    if samples.len() < MIN_SAMPLES {
        Err(AeonError::InsufficientData)
    } else if !entropy_sufficient {
        Err(AeonError::InvalidInput)
    } else if !clustering_acceptable {
        Err(AeonError::InvalidInput)
    } else {
        Ok(blake3_hash(trajectory_bytes(samples)))
    }
}

/// Decides whether a measured trajectory is admitted. It holds nothing between
/// calls.
#[derive(Debug, Clone, Copy)]
pub struct MotionVerifier {}

impl MotionVerifier {
    /// A verifier ready for its first trajectory.
    pub fn new() -> (verifier: Self) {
        MotionVerifier {}
    }

    /// Admits or rejects one trajectory.
    ///
    /// `samples` are the readings in fixed point. `entropy_sufficient` says
    /// that the entropy of the magnitude histogram is not below the minimum,
    /// `clustering_acceptable` that the clustering of the magnitudes does not
    /// exceed the maximum. A trajectory of fewer than ten samples is refused
    /// as `InsufficientData` whatever was measured; a failed measurement is
    /// refused as `InvalidInput`; otherwise the commitment is returned.
    pub fn verify(
        &self,
        samples: &[QuantizedSample],
        entropy_sufficient: bool,
        clustering_acceptable: bool,
    ) -> (result: Result<[u8; 32], AeonError>)
        ensures
            samples@.len() < MIN_SAMPLES ==> result == Err::<[u8; 32], AeonError>(
                AeonError::InsufficientData,
            ),
            match result {
                Ok(digest) => verify_outcome(samples@, entropy_sufficient, clustering_acceptable)
                    == Ok::<Seq<u8>, AeonError>(digest@),
                Err(e) => verify_outcome(samples@, entropy_sufficient, clustering_acceptable)
                    == Err::<Seq<u8>, AeonError>(e),
            },
    {
        if samples.len() < MIN_SAMPLES {
            return Err(AeonError::InsufficientData);
        }
        if !entropy_sufficient {
            return Err(AeonError::InvalidInput);
        }
        if !clustering_acceptable {
            return Err(AeonError::InvalidInput);
        }
        Ok(hash_trajectory(samples))
    }
}

/// Verification is deterministic: the outcome depends on nothing but the
/// samples and the two measurements, so equal trajectories that were measured
/// alike are refused alike or get the same commitment.
pub proof fn lemma_verify_deterministic(
    a: Seq<QuantizedSample>,
    b: Seq<QuantizedSample>,
    entropy_sufficient: bool,
    clustering_acceptable: bool,
)
    requires
        a =~= b,
    ensures
        verify_outcome(a, entropy_sufficient, clustering_acceptable) == verify_outcome(
            b,
            entropy_sufficient,
            clustering_acceptable,
        ),
{
}

/// A trajectory of fewer than ten samples is refused for its length, whatever
/// was measured of it.
pub proof fn lemma_short_trajectory_refused(
    samples: Seq<QuantizedSample>,
    entropy_sufficient: bool,
    clustering_acceptable: bool,
)
    requires
        samples.len() < MIN_SAMPLES,
    ensures
        verify_outcome(samples, entropy_sufficient, clustering_acceptable) == Err::<
            Seq<u8>,
            AeonError,
        >(AeonError::InsufficientData),
{
}

} // verus!
