//! Configuration of the swapchain: the surface format and the image extent.

use gfx_hal::format::Format;
use gfx_hal::image::Usage;
use gfx_hal::window::{CompositeAlpha, Extent2D, SurfaceCapabilities, SwapchainConfig};
use vstd::prelude::*;

verus! {

/// The composition mode in which the alpha channel is ignored.
pub const ALPHA_OPAQUE: u32 = 0x1;

/// The composition mode that is left to the window system.
pub const ALPHA_INHERIT: u32 = 0x8;

/// The size of a surface or of an image, in pixels.
#[derive(Clone, Copy, Debug, PartialEq, Eq, Structural)]
pub struct Extent {
    pub width: u32,
    pub height: u32,
}

/// What a surface reports of the swapchains it can carry.
#[derive(Clone, Copy, Debug, PartialEq, Eq, Structural)]
pub struct SurfaceCaps {
    /// The least number of images in a swapchain.
    pub min_images: u32,
    /// One more than the greatest number of images in a swapchain.
    pub end_images: u32,
    /// The surface's own extent, where it has one.
    pub current_extent: Option<Extent>,
    /// The least extent of a swapchain image.
    pub min_extent: Extent,
    /// One more, in each direction, than the greatest extent of an image.
    pub end_extent: Extent,
    /// The greatest number of layers of an image.
    pub max_image_layers: u16,
    /// The image usage flags that the surface supports.
    pub usage: u32,
    /// The alpha composition modes that the surface supports, as a bit set.
    pub composite_alpha: u32,
}

/// The settings with which the swapchain is created.
#[derive(Clone, Copy, Debug, PartialEq, Eq, Structural)]
pub struct SwapchainSettings {
    pub extent: Extent,
    pub image_count: u32,
    pub composite_alpha: u32,
}

/// `value` brought into the range from `least` to `greatest`, where the upper
/// bound wins if the range is empty.
pub open spec fn clamp(value: u32, least: u32, greatest: u32) -> u32 {
    let raised = if value < least {
        least
    } else {
        value
    };
    if raised > greatest {
        greatest
    } else {
        raised
    }
}

impl SurfaceCaps {
    /// Whether settings can be derived from these capabilities: the surface
    /// supports the inherited or the opaque composition mode, and, where it
    /// has no extent of its own, the range of extents has an upper end.
    pub open spec fn spec_configurable(self) -> bool {
        &&& (self.composite_alpha & ALPHA_INHERIT != 0 || self.composite_alpha & ALPHA_OPAQUE != 0)
        &&& self.current_extent is None ==> self.end_extent.width >= 1 && self.end_extent.height
            >= 1
    }

    /// Whether settings can be derived from these capabilities.
    pub fn configurable(&self) -> (b: bool)
        ensures
            b == self.spec_configurable(),
    {
        (self.composite_alpha & ALPHA_INHERIT != 0 || self.composite_alpha & ALPHA_OPAQUE != 0) && (
        self.current_extent.is_some() || (self.end_extent.width >= 1 && self.end_extent.height
            >= 1))
    }

    /// The extent of the swapchain images: the surface's own where it has
    /// one, else `default_extent` clamped to the supported range.
    pub open spec fn spec_extent(self, default_extent: Extent) -> Extent {
        match self.current_extent {
            Some(current) => current,
            None => Extent {
                width: clamp(
                    default_extent.width,
                    self.min_extent.width,
                    (self.end_extent.width - 1) as u32,
                ),
                height: clamp(
                    default_extent.height,
                    self.min_extent.height,
                    (self.end_extent.height - 1) as u32,
                ),
            },
        }
    }

    /// The settings that follow from these capabilities: the extent of
    /// `spec_extent`, the least number of images, and the inherited
    /// composition mode where the surface supports it, else the opaque one.
    pub open spec fn spec_settings(self, default_extent: Extent) -> SwapchainSettings {
        SwapchainSettings {
            extent: self.spec_extent(default_extent),
            image_count: self.min_images,
            composite_alpha: if self.composite_alpha & ALPHA_INHERIT != 0 {
                ALPHA_INHERIT
            } else {
                ALPHA_OPAQUE
            },
        }
    }
}

/// Calls `gfx_hal::window::SwapchainConfig::from_caps` on the capabilities and
/// hands back, of the configuration it made, the width and the height of the
/// extent, the image count and the composition mode, in this order.
///
/// Trusted: the contract restates what `from_caps` computes. It takes the
/// surface's current extent where there is one and otherwise clamps the
/// default extent between the start of the extent range and one below its
/// end; it takes the start of the image-count range; and it picks the
/// inherited composition mode before the opaque one. The inputs on which
/// `from_caps` stops (neither mode supported, or an extent range ending at
/// zero) are excluded.
#[verifier::external_body]
fn config_from_caps(caps: &SurfaceCaps, default_extent: Extent) -> (made: (u32, u32, u32, u32))
    requires
        caps.spec_configurable(),
    ensures
        made.0 == caps.spec_settings(default_extent).extent.width,
        made.1 == caps.spec_settings(default_extent).extent.height,
        made.2 == caps.spec_settings(default_extent).image_count,
        made.3 == caps.spec_settings(default_extent).composite_alpha,
{
    let current = caps.current_extent.map(|e| Extent2D { width: e.width, height: e.height });
    let least = Extent2D { width: caps.min_extent.width, height: caps.min_extent.height };
    let end = Extent2D { width: caps.end_extent.width, height: caps.end_extent.height };
    let hal_caps = SurfaceCapabilities {
        image_count: caps.min_images..caps.end_images,
        current_extent: current,
        extents: least..end,
        max_image_layers: caps.max_image_layers,
        usage: Usage::from_bits_truncate(caps.usage),
        composite_alpha: CompositeAlpha::from_bits_truncate(caps.composite_alpha),
    };
    let default_2d = Extent2D { width: default_extent.width, height: default_extent.height };
    let config = SwapchainConfig::from_caps(&hal_caps, Format::Rgba8Srgb, default_2d);
    (config.extent.width, config.extent.height, config.image_count, config.composite_alpha.bits())
}

/// Derives the swapchain settings from the surface's capabilities, or `None`
/// where the capabilities allow none.
pub fn configure_swapchain(caps: &SurfaceCaps, default_extent: Extent) -> (settings: Option<
    SwapchainSettings,
>)
    ensures
        settings is Some <==> caps.spec_configurable(),
        settings matches Some(s) ==> s == caps.spec_settings(default_extent),
{
    if caps.configurable() {
        let (width, height, image_count, composite_alpha) = config_from_caps(caps, default_extent);
        Some(SwapchainSettings { extent: Extent { width, height }, image_count, composite_alpha })
    } else {
        None
    }
}

/// A surface format as far as the choice among formats reads it.
#[derive(Clone, Copy, Debug, PartialEq, Eq, Structural)]
pub struct SurfaceFormat {
    /// The format's number in the device's numbering.
    pub code: u32,
    /// Whether the channels are sRGB-encoded.
    pub srgb: bool,
}

/// The format that is chosen for the swapchain images.
#[derive(Clone, Copy, Debug, PartialEq, Eq, Structural)]
pub enum FormatChoice {
    /// The surface prefers no format: 8-bit RGBA with sRGB encoding is used.
    Rgba8Srgb,
    /// The listed format with this index.
    Listed(usize),
}

/// The first index of `formats` with an sRGB format, or the length where
/// there is none.
pub open spec fn first_srgb(formats: Seq<SurfaceFormat>) -> int
    decreases formats.len(),
{
    if formats.len() == 0 {
        0
    } else if formats[0].srgb {
        0
    } else {
        1 + first_srgb(formats.skip(1))
    }
}

/// `first_srgb` is the least index of an sRGB format.
pub proof fn first_srgb_is_least(formats: Seq<SurfaceFormat>)
    ensures
        0 <= first_srgb(formats) <= formats.len(),
        first_srgb(formats) < formats.len() ==> formats[first_srgb(formats)].srgb,
        forall|j: int| 0 <= j < first_srgb(formats) ==> !formats[j].srgb,
    decreases formats.len(),
{
    if formats.len() > 0 && !formats[0].srgb {
        let rest = formats.skip(1);
        first_srgb_is_least(rest);
        assert forall|j: int| 0 <= j < first_srgb(formats) implies !formats[j].srgb by {
            if j > 0 {
                assert(rest[j - 1] == formats[j]);
            }
        }
    }
}

/// The choice among the formats that a surface lists: the first sRGB format,
/// else the first format; with no list, 8-bit sRGB RGBA.
pub open spec fn spec_choose_format(formats: Option<Seq<SurfaceFormat>>) -> FormatChoice {
    match formats {
        None => FormatChoice::Rgba8Srgb,
        Some(list) => if first_srgb(list) < list.len() {
            FormatChoice::Listed(first_srgb(list) as usize)
        } else {
            FormatChoice::Listed(0)
        },
    }
}

/// The first index of `formats` with an sRGB format, or the length where
/// there is none.
pub fn first_srgb_index(formats: &Vec<SurfaceFormat>) -> (index: usize)
    ensures
        index == first_srgb(formats@),
{
    let mut index: usize = 0;
    while index < formats.len()
        invariant
            index <= formats.len(),
            forall|j: int| 0 <= j < index ==> !formats@[j].srgb,
        decreases formats.len() - index,
    {
        if formats[index].srgb {
            proof {
                first_srgb_is_least(formats@);
                assert(first_srgb(formats@) == index);
            }
            return index;
        }
        index += 1;
    }
    proof {
        first_srgb_is_least(formats@);
        assert(first_srgb(formats@) == formats.len());
    }
    index
}

/// Chooses the format of the swapchain images among those the surface lists.
/// An empty list allows no choice.
pub fn choose_format(formats: &Option<Vec<SurfaceFormat>>) -> (choice: Option<FormatChoice>)
    ensures
        choice is None <==> (formats matches Some(list) && list.len() == 0),
        choice matches Some(c) ==> c == spec_choose_format(
            match formats {
                Some(list) => Some(list@),
                None => None,
            },
        ),
        choice matches Some(FormatChoice::Listed(i)) ==> formats matches Some(list) && i
            < list.len(),
{
    match formats {
        None => Some(FormatChoice::Rgba8Srgb),
        Some(list) => {
            if list.len() == 0 {
                None
            } else {
                let index = first_srgb_index(list);
                if index < list.len() {
                    Some(FormatChoice::Listed(index))
                } else {
                    Some(FormatChoice::Listed(0))
                }
            }
        },
    }
}

} // verus!
