//! Presentation settings of a surface, and how they are chosen from what the
//! adapter supports.

use vstd::prelude::*;

verus! {

/// `wgpu::TextureFormat`, carried as an opaque value.
#[verifier::external_type_specification]
#[verifier::external_body]
pub struct ExTextureFormat(wgpu::TextureFormat);

/// `wgpu::PresentMode`, carried as an opaque value.
#[verifier::external_type_specification]
#[verifier::external_body]
pub struct ExPresentMode(wgpu::PresentMode);

/// `wgpu::CompositeAlphaMode`, carried as an opaque value.
#[verifier::external_type_specification]
#[verifier::external_body]
pub struct ExCompositeAlphaMode(wgpu::CompositeAlphaMode);

/// `wgpu::TextureUsages`, carried as an opaque value.
#[verifier::external_type_specification]
#[verifier::external_body]
pub struct ExTextureUsages(wgpu::TextureUsages);

/// The bits of the one usage that a presented surface has.
pub const RENDER_ATTACHMENT_BITS: u32 = 16;

/// How many frames the presentation engine is asked to queue at most.
pub const FRAME_LATENCY: u32 = 2;

/// A size in physical pixels.
#[derive(Clone, Copy, Debug, PartialEq, Eq, Structural)]
pub struct PhysicalSize {
    pub width: u32,
    pub height: u32,
}

impl PhysicalSize {
    /// A surface can be configured to this size: neither side is zero.
    pub open spec fn is_drawable(self) -> bool {
        self.width > 0 && self.height > 0
    }
}

/// What an adapter supports on a surface, each list in the adapter's order of
/// preference.
#[derive(Debug)]
pub struct SurfaceCapabilities {
    pub formats: Vec<wgpu::TextureFormat>,
    pub present_modes: Vec<wgpu::PresentMode>,
    pub alpha_modes: Vec<wgpu::CompositeAlphaMode>,
}

impl SurfaceCapabilities {
    /// Every list offers at least one choice.
    pub open spec fn is_usable(self) -> bool {
        &&& self.formats@.len() > 0
        &&& self.present_modes@.len() > 0
        &&& self.alpha_modes@.len() > 0
    }
}

/// What `wgpu::TextureFormat::is_srgb` answers for a format.
pub uninterp spec fn format_is_srgb(format: wgpu::TextureFormat) -> bool;

/// Calls `wgpu::TextureFormat::is_srgb`. The answer depends on the format alone, and
/// is all that the contract names.
#[verifier::external_body]
fn is_srgb(format: &wgpu::TextureFormat) -> (r: bool)
    ensures
        r == format_is_srgb(*format),
{
    format.is_srgb()
}

/// No format before `index` is sRGB.
pub open spec fn no_srgb_before(formats: Seq<wgpu::TextureFormat>, index: int) -> bool {
    forall|j: int| 0 <= j < index && j < formats.len() ==> !format_is_srgb(#[trigger] formats[j])
}

/// `index` is where the preferred format stands: at the first sRGB format, or at the
/// head of the list when no format is sRGB.
pub open spec fn is_preferred(formats: Seq<wgpu::TextureFormat>, index: int) -> bool {
    &&& 0 <= index < formats.len()
    &&& no_srgb_before(formats, index)
    &&& format_is_srgb(formats[index]) || (index == 0 && no_srgb_before(
        formats,
        formats.len() as int,
    ))
}

/// The position of the preferred format in a non-empty list.
pub open spec fn preferred_index(formats: Seq<wgpu::TextureFormat>) -> int {
    choose|index: int| is_preferred(formats, index)
}

/// Two positions that are both preferred are the same position.
pub proof fn lemma_preferred_unique(formats: Seq<wgpu::TextureFormat>, a: int, b: int)
    requires
        is_preferred(formats, a),
        is_preferred(formats, b),
    ensures
        a == b,
{
    if a < b {
        assert(!format_is_srgb(formats[a]));
    } else if b < a {
        assert(!format_is_srgb(formats[b]));
    }
}

/// The preferred format is one of the formats on offer, and it is sRGB whenever any
/// format on offer is.
pub proof fn lemma_preferred_format(formats: Seq<wgpu::TextureFormat>)
    requires
        formats.len() > 0,
    ensures
        0 <= preferred_index(formats) < formats.len(),
        is_preferred(formats, preferred_index(formats)),
        (exists|j: int| 0 <= j < formats.len() && format_is_srgb(#[trigger] formats[j]))
            ==> format_is_srgb(formats[preferred_index(formats)]),
{
    lemma_preferred_exists(formats, 0);
    if exists|j: int| 0 <= j < formats.len() && format_is_srgb(#[trigger] formats[j]) {
        let j = choose|j: int| 0 <= j < formats.len() && format_is_srgb(#[trigger] formats[j]);
        assert(format_is_srgb(formats[j]));
    }
}

/// Some position at or after `from` is preferred, when none before `from` is sRGB.
proof fn lemma_preferred_exists(formats: Seq<wgpu::TextureFormat>, from: int)
    requires
        formats.len() > 0,
        0 <= from <= formats.len(),
        no_srgb_before(formats, from),
    ensures
        is_preferred(formats, preferred_index(formats)),
    decreases formats.len() - from,
{
    if from == formats.len() {
        assert(is_preferred(formats, 0));
    } else if format_is_srgb(formats[from]) {
        assert(is_preferred(formats, from));
    } else {
        lemma_preferred_exists(formats, from + 1);
    }
}

/// Picks the format to present in: the first sRGB format of the list, and the first
/// format of all when none is sRGB.
pub fn choose_format(formats: &Vec<wgpu::TextureFormat>) -> (r: wgpu::TextureFormat)
    requires
        formats.len() > 0,
    ensures
        is_preferred(formats@, preferred_index(formats@)),
        r == formats@[preferred_index(formats@)],
{
    let mut i: usize = 0;
    while i < formats.len()
        invariant
            i <= formats.len(),
            no_srgb_before(formats@, i as int),
        decreases formats.len() - i,
    {
        if is_srgb(&formats[i]) {
            assert(is_preferred(formats@, i as int));
            proof {
                lemma_preferred_unique(formats@, i as int, preferred_index(formats@));
            }
            return formats[i];
        }
        i += 1;
    }
    assert(is_preferred(formats@, 0));
    proof {
        lemma_preferred_unique(formats@, 0, preferred_index(formats@));
    }
    formats[0]
}

/// The bits of a set of texture usages: what `wgpu::TextureUsages::bits` returns.
pub uninterp spec fn usage_bits(usage: wgpu::TextureUsages) -> u32;

/// Hands out `wgpu::TextureUsages::RENDER_ATTACHMENT`, the usage of a texture that a
/// render pass writes to. wgpu defines that flag as bit 4, which is what the contract
/// says of it.
#[verifier::external_body]
fn render_attachment() -> (r: wgpu::TextureUsages)
    ensures
        usage_bits(r) == RENDER_ATTACHMENT_BITS,
{
    wgpu::TextureUsages::RENDER_ATTACHMENT
}

/// The presentation settings of a surface.
#[derive(Debug)]
pub struct SurfaceConfiguration {
    pub usage: wgpu::TextureUsages,
    pub format: wgpu::TextureFormat,
    pub width: u32,
    pub height: u32,
    pub present_mode: wgpu::PresentMode,
    pub desired_maximum_frame_latency: u32,
    pub alpha_mode: wgpu::CompositeAlphaMode,
    pub view_formats: Vec<wgpu::TextureFormat>,
}

impl SurfaceConfiguration {
    /// These are the settings chosen from `capabilities` for a surface of `size`: the
    /// preferred format, the first present mode and the first alpha mode on offer, the
    /// given extent, render-attachment usage, no further view formats, and a frame
    /// latency of two.
    pub open spec fn is_negotiated(
        self,
        capabilities: SurfaceCapabilities,
        size: PhysicalSize,
    ) -> bool {
        &&& usage_bits(self.usage) == RENDER_ATTACHMENT_BITS
        &&& self.format == capabilities.formats@[preferred_index(capabilities.formats@)]
        &&& self.width == size.width
        &&& self.height == size.height
        &&& self.present_mode == capabilities.present_modes@[0]
        &&& self.desired_maximum_frame_latency == FRAME_LATENCY
        &&& self.alpha_mode == capabilities.alpha_modes@[0]
        &&& self.view_formats@.len() == 0
    }

    /// The same settings with the extent replaced by `size`.
    pub open spec fn with_extent(self, size: PhysicalSize) -> SurfaceConfiguration {
        SurfaceConfiguration { width: size.width, height: size.height, ..self }
    }

    /// Chooses the settings of a surface of `size` from what the adapter supports.
    pub fn negotiate(capabilities: &SurfaceCapabilities, size: PhysicalSize) -> (r: Self)
        requires
            capabilities.is_usable(),
        ensures
            r.is_negotiated(*capabilities, size),
    {
        SurfaceConfiguration {
            usage: render_attachment(),
            format: choose_format(&capabilities.formats),
            width: size.width,
            height: size.height,
            present_mode: capabilities.present_modes[0],
            desired_maximum_frame_latency: FRAME_LATENCY,
            alpha_mode: capabilities.alpha_modes[0],
            view_formats: Vec::new(),
        }
    }
}

} // verus!
