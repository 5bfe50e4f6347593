//! Choice of the surface format among those a surface supports.

use vstd::prelude::*;
use wgpu::{AstcChannel, TextureFormat};

verus! {

/// The formats whose colour channels are sRGB-encoded.
pub open spec fn is_srgb_format(format: TextureFormat) -> bool {
    match format {
        TextureFormat::Rgba8UnormSrgb => true,
        TextureFormat::Bgra8UnormSrgb => true,
        TextureFormat::Bc1RgbaUnormSrgb => true,
        TextureFormat::Bc2RgbaUnormSrgb => true,
        TextureFormat::Bc3RgbaUnormSrgb => true,
        TextureFormat::Bc7RgbaUnormSrgb => true,
        TextureFormat::Etc2Rgb8UnormSrgb => true,
        TextureFormat::Etc2Rgb8A1UnormSrgb => true,
        TextureFormat::Etc2Rgba8UnormSrgb => true,
        TextureFormat::Astc { block: _, channel } => channel == AstcChannel::UnormSrgb,
        _ => false,
    }
}

/// Assumed of `wgpu::TextureFormat::is_srgb`, not proved: it answers whether
/// removing the sRGB suffix changes the format, which is true of the nine
/// `..UnormSrgb` variants and of an ASTC format whose channel is `UnormSrgb`,
/// and false of every other format.
pub assume_specification[ wgpu::TextureFormat::is_srgb ](format: &wgpu::TextureFormat) -> (srgb:
    bool)
    ensures
        srgb == is_srgb_format(*format),
;

/// No format before position `end` is sRGB-encoded.
pub open spec fn no_srgb_before(formats: Seq<TextureFormat>, end: int) -> bool {
    forall|j: int| 0 <= j < end && j < formats.len() ==> !is_srgb_format(#[trigger] formats[j])
}

/// Position `i` holds the format to present in: the first sRGB-encoded one,
/// or the very first where the list has none.
pub open spec fn is_preferred_index(formats: Seq<TextureFormat>, i: int) -> bool {
    &&& 0 <= i < formats.len()
    &&& no_srgb_before(formats, i)
    &&& is_srgb_format(formats[i]) || (i == 0 && no_srgb_before(formats, formats.len() as int))
}

/// The position of the preferred format of a non-empty list.
pub open spec fn preferred_index(formats: Seq<TextureFormat>) -> int {
    choose|i: int| is_preferred_index(formats, i)
}

/// The preferred format of a non-empty list.
pub open spec fn preferred_format(formats: Seq<TextureFormat>) -> TextureFormat {
    formats[preferred_index(formats)]
}

/// At most one position of a list is preferred.
pub proof fn lemma_preferred_index_unique(formats: Seq<TextureFormat>, i: int, j: int)
    requires
        is_preferred_index(formats, i),
        is_preferred_index(formats, j),
    ensures
        i == j,
{
    if i < j {
        assert(!is_srgb_format(formats[i]));
    } else if j < i {
        assert(!is_srgb_format(formats[j]));
    }
}

proof fn lemma_preferred_index_from(formats: Seq<TextureFormat>, start: int)
    requires
        0 <= start <= formats.len(),
        formats.len() > 0,
        no_srgb_before(formats, start),
    ensures
        exists|i: int| is_preferred_index(formats, i),
    decreases formats.len() - start,
{
    if start == formats.len() {
        assert(is_preferred_index(formats, 0));
    } else if is_srgb_format(formats[start]) {
        assert(is_preferred_index(formats, start));
    } else {
        lemma_preferred_index_from(formats, start + 1);
    }
}

/// Every non-empty list has a preferred position, and `preferred_index` is
/// that position.
pub proof fn lemma_preferred_index_exists(formats: Seq<TextureFormat>)
    requires
        formats.len() > 0,
    ensures
        is_preferred_index(formats, preferred_index(formats)),
{
    lemma_preferred_index_from(formats, 0);
}

/// In a list that holds no sRGB-encoded format, the preferred format is the
/// first entry.
pub proof fn lemma_preferred_format_without_srgb(formats: Seq<TextureFormat>)
    requires
        formats.len() > 0,
        forall|j: int| 0 <= j < formats.len() ==> !is_srgb_format(#[trigger] formats[j]),
    ensures
        preferred_index(formats) == 0,
        preferred_format(formats) == formats[0],
{
    assert(is_preferred_index(formats, 0));
    lemma_preferred_index_unique(formats, 0, preferred_index(formats));
}

/// In a list that holds an sRGB-encoded format, the preferred format is the
/// first such entry in the order of the list.
pub proof fn lemma_preferred_format_with_srgb(formats: Seq<TextureFormat>, i: int)
    requires
        0 <= i < formats.len(),
        is_srgb_format(formats[i]),
        forall|j: int| 0 <= j < i ==> !is_srgb_format(#[trigger] formats[j]),
    ensures
        preferred_index(formats) == i,
        preferred_format(formats) == formats[i],
{
    assert(is_preferred_index(formats, i));
    lemma_preferred_index_unique(formats, i, preferred_index(formats));
}

/// Finds the position of the preferred format: the least position of an
/// sRGB-encoded format, or zero where no format is sRGB-encoded.
pub fn preferred_format_index(formats: &Vec<TextureFormat>) -> (index: usize)
    requires
        formats@.len() > 0,
    ensures
        is_preferred_index(formats@, index as int),
        index as int == preferred_index(formats@),
{
    let mut i: usize = 0;
    while i < formats.len()
        invariant
            i <= formats@.len(),
            no_srgb_before(formats@, i as int),
        decreases formats@.len() - i,
    {
        if formats[i].is_srgb() {
            proof {
                lemma_preferred_format_with_srgb(formats@, i as int);
            }
            return i;
        }
        i += 1;
    }
    proof {
        lemma_preferred_format_without_srgb(formats@);
    }
    0
}

/// Selects the format a surface is presented in: the first sRGB-encoded
/// format the surface supports, or its first format if none is sRGB-encoded.
pub fn select_surface_format(formats: &Vec<TextureFormat>) -> (format: TextureFormat)
    requires
        formats@.len() > 0,
    ensures
        format == preferred_format(formats@),
{
    let index = preferred_format_index(formats);
    formats[index]
}

} // verus!
