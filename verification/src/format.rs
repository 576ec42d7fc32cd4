//! Pixel formats and modifiers, and their numeric codes.
//!
//! Formats and modifiers are the enumerations of the `drm_fourcc` crate. This
//! crate only carries them; it goes to `drm_fourcc` for the number behind a
//! value and for the value behind a number.

use drm_fourcc::DrmFourcc;
use drm_fourcc::DrmModifier;
use vstd::prelude::*;

verus! {

/// `drm_fourcc::DrmFourcc`, the enumeration of pixel formats. Nothing is
/// claimed of what a value holds.
#[verifier::external_type_specification]
#[verifier::external_body]
pub struct ExDrmFourcc(DrmFourcc);

/// `drm_fourcc::DrmModifier`, the enumeration of format modifiers. Nothing is
/// claimed of what a value holds.
#[verifier::external_type_specification]
#[verifier::external_body]
pub struct ExDrmModifier(DrmModifier);

/// The number `drm_fourcc` gives a format when it is cast to `u32`.
pub uninterp spec fn fourcc_code(format: DrmFourcc) -> u32;

/// The format `drm_fourcc` recognises in a number, if it recognises one.
pub uninterp spec fn fourcc_of_code(code: u32) -> Option<DrmFourcc>;

/// The number `drm_fourcc` converts a modifier into.
pub uninterp spec fn modifier_code(modifier: DrmModifier) -> u64;

/// The modifier `drm_fourcc` converts a number into.
pub uninterp spec fn modifier_of_code(code: u64) -> DrmModifier;

/// Casts a `drm_fourcc::DrmFourcc` to `u32`.
///
/// Trusted: the result is the format's code, and `DrmFourcc::try_from` finds the
/// format again in that code (the enumeration's discriminants are the codes it
/// looks for, one variant each).
#[verifier::external_body]
pub(crate) fn format_to_code(format: DrmFourcc) -> (code: u32)
    ensures
        code == fourcc_code(format),
        fourcc_of_code(code) == Some(format),
{
    format as u32
}

/// Calls `DrmFourcc::try_from` on a `u32`.
///
/// Trusted: the result is what `drm_fourcc` recognises in the number, and a
/// recognised format has that number as its code.
#[verifier::external_body]
pub(crate) fn format_from_code(code: u32) -> (format: Option<DrmFourcc>)
    ensures
        format == fourcc_of_code(code),
        format matches Some(f) ==> fourcc_code(f) == code,
{
    DrmFourcc::try_from(code).ok()
}

/// Calls `u64::from` on a `drm_fourcc::DrmModifier`.
///
/// Trusted: the result is the modifier's code.
#[verifier::external_body]
pub(crate) fn modifier_to_code(modifier: DrmModifier) -> (code: u64)
    ensures
        code == modifier_code(modifier),
{
    u64::from(modifier)
}

/// Calls `DrmModifier::from` on a `u64`.
///
/// Trusted: the result is the modifier `drm_fourcc` puts for the number, and
/// its code is that number again.
#[verifier::external_body]
pub(crate) fn modifier_from_code(code: u64) -> (modifier: DrmModifier)
    ensures
        modifier == modifier_of_code(code),
        modifier_code(modifier) == code,
{
    DrmModifier::from(code)
}

/// The codes of a list of modifiers, in order.
pub open spec fn modifier_codes_of(modifiers: Seq<DrmModifier>) -> Seq<u64> {
    Seq::new(modifiers.len(), |i: int| modifier_code(modifiers[i]))
}

/// The codes of `modifiers`, in order, as the native library takes them.
pub fn modifier_codes(modifiers: &[DrmModifier]) -> (codes: Vec<u64>)
    ensures
        codes@ == modifier_codes_of(modifiers@),
{
    let mut codes: Vec<u64> = Vec::new();
    let mut i: usize = 0;
    while i < modifiers.len()
        invariant
            i <= modifiers.len(),
            codes@.len() == i,
            forall|k: int| 0 <= k < i ==> codes@[k] == modifier_code(#[trigger] modifiers@[k]),
        decreases modifiers.len() - i,
    {
        codes.push(modifier_to_code(modifiers[i]));
        i = i + 1;
    }
    assert(codes@ =~= modifier_codes_of(modifiers@));
    codes
}

} // verus!
