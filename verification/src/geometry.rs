//! Output dimensions of a resize task.
//!
//! A task scales both axes of an image by `scale` percent, rounding
//! `dim * scale / 100` to the nearest integer (halves round up). A scale of
//! 100 is an identity resize and leaves the dimensions untouched. A
//! non-identity scale whose rounding sends either axis to zero is
//! degenerate: no image can be produced for it.

use vstd::prelude::*;

verus! {

/// The scaled value of one pixel dimension: `dim * scale / 100`, rounded to
/// the nearest integer with halves rounding up.
pub open spec fn scaled_dim_spec(dim: u32, scale: u32) -> int {
    (dim * scale + 50) / 100
}

/// A task is degenerate when a non-identity scale rounds either axis to zero.
pub open spec fn degenerate_spec(width: u32, height: u32, scale: u32) -> bool {
    scale != 100 && (scaled_dim_spec(width, scale) == 0 || scaled_dim_spec(height, scale) == 0)
}

/// The dimensions a task must produce: the input dimensions at 100%, the
/// rounded scaling otherwise.
pub open spec fn planned_dims_spec(width: u32, height: u32, scale: u32) -> (int, int) {
    if scale == 100 {
        (width as int, height as int)
    } else {
        (scaled_dim_spec(width, scale), scaled_dim_spec(height, scale))
    }
}

/// Rounds one dimension to its scaled value.
pub fn scaled_dim(dim: u32, scale: u32) -> (r: u32)
    requires
        10 <= scale <= 100,
    ensures
        r == scaled_dim_spec(dim, scale),
{
    proof {
        assert(dim * scale <= dim * 100) by (nonlinear_arith)
            requires
                scale <= 100,
        ;
    }
    (((dim as u64) * (scale as u64) + 50) / 100) as u32
}

/// The dimensions for one task, or `None` when the task is degenerate.
pub fn planned_dims(width: u32, height: u32, scale: u32) -> (r: Option<(u32, u32)>)
    requires
        10 <= scale <= 100,
    ensures
        r is None <==> degenerate_spec(width, height, scale),
        r matches Some(d) ==> (d.0 as int, d.1 as int) == planned_dims_spec(width, height, scale),
{
    if scale == 100 {
        return Some((width, height));
    }
    let w = scaled_dim(width, scale);
    let h = scaled_dim(height, scale);
    if w == 0 || h == 0 {
        None
    } else {
        Some((w, h))
    }
}

/// An identity resize preserves pixel dimensions: at scale 100 the planned
/// dimensions are exactly the input dimensions.
pub proof fn lemma_identity_scale(width: u32, height: u32)
    ensures
        planned_dims_spec(width, height, 100) == (width as int, height as int),
{
}

/// A scaled dimension rounds to zero exactly when `dim * scale` falls below
/// half of one percent unit, i.e. `dim * scale < 50`.
pub proof fn lemma_degenerate_condition(dim: u32, scale: u32)
    ensures
        (scaled_dim_spec(dim, scale) == 0) <==> (dim * scale < 50),
{
}

} // verus!
