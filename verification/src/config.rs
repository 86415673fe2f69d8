//! Pre-flight validation of a run's configuration.
//!
//! A bad quality or scale value is fatal: it stops the run before any file
//! is processed. Quality must lie in 0..=100 and every scale percentage in
//! 10..=100.

use crate::errors::ValidationError;
use vstd::prelude::*;

verus! {

/// Whether a quality setting is acceptable.
pub open spec fn quality_ok(quality: u8) -> bool {
    quality <= 100
}

/// Whether every scale percentage is acceptable.
pub open spec fn scales_ok(scales: Seq<u32>) -> bool {
    forall|i: int| 0 <= i < scales.len() ==> 10 <= #[trigger] scales[i] <= 100
}

/// The first scale percentage outside 10..=100, in declared order.
pub open spec fn first_bad_scale(scales: Seq<u32>) -> Option<u32>
    decreases scales.len(),
{
    if scales.len() == 0 {
        None
    } else if !(10 <= scales.first() <= 100) {
        Some(scales.first())
    } else {
        first_bad_scale(scales.drop_first())
    }
}

/// Accepts a configuration exactly when the quality and every scale are in
/// range; a bad quality is reported before a bad scale, and the first bad
/// scale is the one reported.
pub fn validate_config(quality: u8, scales: &Vec<u32>) -> (r: Result<(), ValidationError>)
    ensures
        r is Ok <==> quality_ok(quality) && scales_ok(scales@),
        !quality_ok(quality) ==> r == Err::<(), ValidationError>(
            (ValidationError::QualityOutOfRange { quality }),
        ),
        quality_ok(quality) && !scales_ok(scales@) ==> (first_bad_scale(scales@) matches Some(s)
            && r == Err::<(), ValidationError>((ValidationError::ScaleOutOfRange { scale: s }))),
{
    if quality > 100 {
        return Err(ValidationError::QualityOutOfRange { quality });
    }
    let mut i: usize = 0;
    proof {
        assert(scales@.skip(0) =~= scales@);
    }
    while i < scales.len()
        invariant
            quality_ok(quality),
            i <= scales@.len(),
            forall|k: int| 0 <= k < i ==> 10 <= #[trigger] scales@[k] <= 100,
            first_bad_scale(scales@) == first_bad_scale(scales@.skip(i as int)),
        decreases scales@.len() - i,
    {
        let s = scales[i];
        proof {
            assert(scales@.skip(i as int).first() == scales@[i as int]);
            assert(scales@.skip(i as int).drop_first() =~= scales@.skip(i + 1));
        }
        if s < 10 || s > 100 {
            proof {
                assert(first_bad_scale(scales@) == Some(s));
                assert(!(10 <= scales@[i as int] <= 100));
            }
            return Err(ValidationError::ScaleOutOfRange { scale: s });
        }
        i += 1;
    }
    proof {
        assert(scales@.skip(scales@.len() as int) =~= Seq::<u32>::empty());
    }
    Ok(())
}

} // verus!
