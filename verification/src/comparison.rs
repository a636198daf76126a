//! The two-stage comparison engine: a structural pre-check on the declared
//! pixel dimensions, then — only for images of equal dimensions — a verdict
//! drawn from the perceptual dissimilarity score.
//!
//! The score itself is a perceptual measurement taken at the boundary; the
//! engine's decisions depend on it only through whether it is exactly zero,
//! and that bit is what they take.

use vstd::prelude::*;

use crate::imgmeta::{blob_dimensions, header_dims};

verus! {

/// What a comparison decided for one matched pair.
#[derive(Clone, Copy, Debug, PartialEq, Eq, Structural)]
pub enum Verdict {
    /// Equal dimensions and a dissimilarity score of exactly zero.
    Identical,
    /// The pixel dimensions differ: the pair is settled as maximally
    /// different, with the sentinel score, and never scored perceptually.
    SizeMismatch,
    /// Equal dimensions but a nonzero score, however small.
    ContentMismatch,
}

/// What the structural pre-check decided for one matched pair.
#[derive(Clone, Copy, Debug, PartialEq, Eq, Structural)]
pub enum Precheck {
    /// A file of the pair is not a readable image: the pair is abandoned,
    /// and no other pair is affected.
    Undecodable,
    /// The declared dimensions differ: the pair is settled without ever
    /// decoding the pixels.
    Mismatched,
    /// Equal dimensions: only the perceptual score can settle the pair.
    Comparable,
}

/// A settled comparison of one matched pair of capture files. The numeric
/// dissimilarity score behind a verdict is a perceptual measurement taken at
/// the boundary; what it decides is all here: identical means the score was
/// exactly zero, a content mismatch means it was positive, and a size
/// mismatch stands for the fixed maximal sentinel, the pixels never having
/// been scored.
pub struct ComparisonResult {
    /// The filename the pair was matched under, the sole correlation key
    /// between the two capture runs.
    pub filename: String,
    /// What the comparison decided.
    pub verdict: Verdict,
}

/// The structural pre-check on two encoded images: undecodable where either
/// header is unreadable, mismatched where the declared dimensions differ,
/// comparable otherwise.
pub open spec fn precheck_spec(old_bytes: Seq<u8>, new_bytes: Seq<u8>) -> Precheck {
    if header_dims(old_bytes) is None || header_dims(new_bytes) is None {
        Precheck::Undecodable
    } else if header_dims(old_bytes) != header_dims(new_bytes) {
        Precheck::Mismatched
    } else {
        Precheck::Comparable
    }
}

/// The verdict a pre-check outcome settles on, given whether the perceptual
/// score is exactly zero. A mismatch in size is settled regardless of the
/// score; an undecodable pair is settled by nothing.
pub open spec fn settle_spec(pre: Precheck, score_is_zero: bool) -> Option<Verdict> {
    match pre {
        Precheck::Undecodable => None,
        Precheck::Mismatched => Some(Verdict::SizeMismatch),
        Precheck::Comparable => if score_is_zero {
            Some(Verdict::Identical)
        } else {
            Some(Verdict::ContentMismatch)
        },
    }
}

/// The whole comparison of two encoded images, as a function of their bytes
/// and of whether their perceptual score is exactly zero.
pub open spec fn verdict_spec(old_bytes: Seq<u8>, new_bytes: Seq<u8>, score_is_zero: bool) -> Option<
    Verdict,
> {
    settle_spec(precheck_spec(old_bytes, new_bytes), score_is_zero)
}

/// Run the structural pre-check on two encoded images: read the declared
/// pixel dimensions of both and compare them, deciding whether the pair is
/// settled already or must be scored perceptually.
pub fn pair_precheck(old_bytes: &Vec<u8>, new_bytes: &Vec<u8>) -> (r: Precheck)
    ensures
        r == precheck_spec(old_bytes@, new_bytes@),
{
    let old_dims = blob_dimensions(old_bytes);
    let new_dims = blob_dimensions(new_bytes);
    match (old_dims, new_dims) {
        (Some(od), Some(nd)) => {
            if od.width == nd.width && od.height == nd.height {
                Precheck::Comparable
            } else {
                Precheck::Mismatched
            }
        },
        _ => Precheck::Undecodable,
    }
}

/// Settle one matched pair: turn the pre-check outcome, and for comparable
/// images whether the perceptual score was exactly zero, into the pair's
/// recorded result; an undecodable pair yields none.
pub fn settle_pair(filename: String, pre: Precheck, score_is_zero: bool) -> (r: Option<
    ComparisonResult,
>)
    ensures
        match r {
            Some(res) => settle_spec(pre, score_is_zero) == Some(res.verdict) && res.filename@
                == filename@,
            None => settle_spec(pre, score_is_zero) is None,
        },
{
    match pre {
        Precheck::Undecodable => None,
        Precheck::Mismatched => Some(
            ComparisonResult { filename, verdict: Verdict::SizeMismatch },
        ),
        Precheck::Comparable => {
            if score_is_zero {
                Some(ComparisonResult { filename, verdict: Verdict::Identical })
            } else {
                Some(ComparisonResult { filename, verdict: Verdict::ContentMismatch })
            }
        },
    }
}

/// A diff artifact is rendered for a pair if and only if its verdict is a
/// content mismatch: never for identical images, and never for a size
/// mismatch, whose pixels were not comparable in the first place.
pub fn should_render_diff(verdict: &Verdict) -> (r: bool)
    ensures
        r == (verdict is ContentMismatch),
{
    match verdict {
        Verdict::ContentMismatch => true,
        _ => false,
    }
}

/// An image compared with itself is never a size mismatch: where its header
/// is readable, the pre-check finds the dimensions equal, and a zero score
/// then settles the pair as identical.
pub proof fn lemma_compare_self(bytes: Seq<u8>)
    requires
        header_dims(bytes) is Some,
    ensures
        precheck_spec(bytes, bytes) == Precheck::Comparable,
        verdict_spec(bytes, bytes, true) == Some(Verdict::Identical),
{
}

/// Images whose declared dimensions differ are settled as a size mismatch
/// regardless of their pixel content: the perceptual score, whatever it
/// would have been, does not enter the verdict.
pub proof fn lemma_size_mismatch(old_bytes: Seq<u8>, new_bytes: Seq<u8>, score_is_zero: bool)
    requires
        header_dims(old_bytes) is Some,
        header_dims(new_bytes) is Some,
        header_dims(old_bytes) != header_dims(new_bytes),
    ensures
        verdict_spec(old_bytes, new_bytes, score_is_zero) == Some(Verdict::SizeMismatch),
{
}

} // verus!
