//! Overlaying a partial value on a full one.
//!
//! A patch names, field by field, what is to change: a field that is present
//! in the patch replaces the one below it, and a field that is absent leaves
//! it as it was.

use vstd::prelude::*;

verus! {

/// `base`, unless the patch holds a value: then that value.
pub open spec fn spec_overlay<T>(base: T, patch: Option<T>) -> T {
    match patch {
        Some(value) => value,
        None => base,
    }
}

/// The same for a field that may itself be absent: the patch wins where it
/// holds a value, and never removes one.
pub open spec fn spec_overlay_opt<T>(base: Option<T>, patch: Option<T>) -> Option<T> {
    match patch {
        Some(value) => Some(value),
        None => base,
    }
}

/// Overlays a patch on a field that is always present.
pub fn overlay<T>(base: T, patch: Option<T>) -> (merged: T)
    ensures
        merged == spec_overlay(base, patch),
{
    match patch {
        Some(value) => value,
        None => base,
    }
}

/// Overlaying nothing changes nothing, and overlaying a value twice is
/// overlaying it once.
pub proof fn lemma_overlay_laws<T>(base: T, patch: Option<T>)
    ensures
        spec_overlay(base, None::<T>) == base,
        spec_overlay(spec_overlay(base, patch), patch) == spec_overlay(base, patch),
        spec_overlay_opt(Some(base), None::<T>) == Some(base),
        spec_overlay_opt(spec_overlay_opt(Some(base), patch), patch) == spec_overlay_opt(
            Some(base),
            patch,
        ),
{
}

} // verus!
