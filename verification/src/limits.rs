//! Bounding of counts, through `egui`'s numeric helpers.

use vstd::prelude::*;
use egui::emath::NumExt;

verus! {

/// `egui::emath::NumExt::at_most` on `usize`: the smaller of `value` and
/// `upper_limit`. The source forwards to `usize::min`.
#[verifier::external_body]
pub(crate) fn at_most(value: usize, upper_limit: usize) -> (r: usize)
    ensures
        r == if value <= upper_limit { value } else { upper_limit },
{
    value.at_most(upper_limit)
}

/// `egui::emath::NumExt::at_least` on `usize`: the larger of `value` and
/// `lower_limit`. The source forwards to `usize::max`.
#[verifier::external_body]
pub(crate) fn at_least(value: usize, lower_limit: usize) -> (r: usize)
    ensures
        r == if value >= lower_limit { value } else { lower_limit },
{
    value.at_least(lower_limit)
}

} // verus!
