//! Choice of the surface's texture format among those the adapter offers:
//! the first format with gamma-correct (sRGB) encoding, and where there is
//! none, the first format offered.

use vstd::prelude::*;
use wgpu::TextureFormat;

verus! {

/// `wgpu::TextureFormat`, the enum that `wgpu` takes over from `wgpu-types`.
/// Nothing is known of a value of it here; it is carried through.
#[verifier::external_type_specification]
#[verifier::external_body]
pub struct ExTextureFormat(wgpu::TextureFormat);

/// What `wgpu::TextureFormat::is_srgb` answers for a format.
pub uninterp spec fn is_srgb_format(format: wgpu::TextureFormat) -> bool;

/// `wgpu::TextureFormat::is_srgb` compares the format with itself stripped of
/// its sRGB suffix. Trusted, not proved: it returns, and its answer depends
/// on the format alone. Which formats it says yes to is not stated.
pub assume_specification[ wgpu::TextureFormat::is_srgb ](format: &wgpu::TextureFormat) -> (srgb:
    bool)
    ensures
        srgb == is_srgb_format(*format),
;

/// For each format, whether it is an sRGB format.
pub open spec fn srgb_flags_of(formats: Seq<TextureFormat>) -> Seq<bool> {
    Seq::new(formats.len(), |i: int| is_srgb_format(formats[i]))
}

/// Whether `index` is the choice among candidates flagged as `flags` says:
/// the first flagged one, or the very first where none is flagged.
pub open spec fn is_preferred(flags: Seq<bool>, index: int) -> bool {
    &&& 0 <= index < flags.len()
    &&& forall|j: int| 0 <= j < index ==> !flags[j]
    &&& flags[index] || (index == 0 && forall|j: int| 0 <= j < flags.len() ==> !flags[j])
}

/// Whether `format` is the one to present in among `formats`: the first sRGB
/// format, or the very first format where none is an sRGB format.
pub open spec fn is_selected(formats: Seq<TextureFormat>, format: TextureFormat) -> bool {
    exists|index: int|
        is_preferred(srgb_flags_of(formats), index) && format == #[trigger] formats[index]
}

/// At most one index is the preferred one.
pub proof fn lemma_preferred_is_unique(flags: Seq<bool>, i: int, j: int)
    requires
        is_preferred(flags, i),
        is_preferred(flags, j),
    ensures
        i == j,
{
}

/// The index of the preferred candidate: the first that is flagged, else
/// index 0. `None` exactly where there is no candidate at all.
pub fn preferred_index(flags: &Vec<bool>) -> (chosen: Option<usize>)
    ensures
        chosen.is_none() <==> flags@.len() == 0,
        chosen matches Some(index) ==> is_preferred(flags@, index as int),
{
    if flags.len() == 0 {
        return None;
    }
    let mut i: usize = 0;
    while i < flags.len()
        invariant
            i <= flags.len(),
            forall|j: int| 0 <= j < i ==> !flags@[j],
        decreases flags.len() - i,
    {
        if flags[i] {
            return Some(i);
        }
        i = i + 1;
    }
    Some(0)
}

/// Asks each format whether it is an sRGB format.
pub fn srgb_flags(formats: &Vec<TextureFormat>) -> (flags: Vec<bool>)
    ensures
        flags@ == srgb_flags_of(formats@),
{
    let mut flags: Vec<bool> = Vec::new();
    let mut i: usize = 0;
    while i < formats.len()
        invariant
            i <= formats.len(),
            flags@.len() == i,
            forall|j: int| 0 <= j < i ==> flags@[j] == is_srgb_format(formats@[j]),
        decreases formats.len() - i,
    {
        let srgb: bool = formats[i].is_srgb();
        flags.push(srgb);
        i = i + 1;
    }
    assert(flags@ =~= srgb_flags_of(formats@));
    flags
}

/// The format to present in: the first sRGB format offered, else the first
/// format offered. `None` exactly where no format is offered.
pub fn select_surface_format(formats: &Vec<TextureFormat>) -> (chosen: Option<TextureFormat>)
    ensures
        chosen.is_none() <==> formats@.len() == 0,
        chosen matches Some(format) ==> is_selected(formats@, format),
{
    let flags: Vec<bool> = srgb_flags(formats);
    match preferred_index(&flags) {
        Some(index) => {
            let format: TextureFormat = formats[index];
            assert(is_preferred(srgb_flags_of(formats@), index as int));
            Some(format)
        },
        None => None,
    }
}

} // verus!
