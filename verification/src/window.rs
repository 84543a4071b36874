//! # Output windows
//!
//! Which output an output window shows, and the sizes and modes its surface
//! is configured with.

use vstd::prelude::*;

verus! {

/// Identifies which output type a window displays.
#[derive(Debug, Clone, Copy, PartialEq, Eq, Structural)]
pub enum OutputType {
    Mapping,
    Matrix,
}

/// How frames are presented on a window surface.
#[derive(Debug, Clone, Copy, PartialEq, Eq, Structural)]
pub enum PresentChoice {
    AutoVsync,
    AutoNoVsync,
}

/// The present mode for a window configured with or without vsync.
pub fn present_choice(vsync: bool) -> (p: PresentChoice)
    ensures
        p == (if vsync {
            PresentChoice::AutoVsync
        } else {
            PresentChoice::AutoNoVsync
        }),
{
    if vsync {
        PresentChoice::AutoVsync
    } else {
        PresentChoice::AutoNoVsync
    }
}

/// A size with each side raised to at least 1 (surfaces and NDI senders
/// cannot be empty).
pub fn nonzero_extent(width: u32, height: u32) -> (size: (u32, u32))
    ensures
        size.0 == (if width >= 1 {
            width
        } else {
            1
        }),
        size.1 == (if height >= 1 {
            height
        } else {
            1
        }),
{
    let w = if width >= 1 {
        width
    } else {
        1
    };
    let h = if height >= 1 {
        height
    } else {
        1
    };
    (w, h)
}

/// The size a surface is reconfigured to when its window is resized: none
/// when either side is zero (a minimised window keeps its surface).
pub fn resize_target(width: u32, height: u32) -> (t: Option<(u32, u32)>)
    ensures
        t == (if width == 0 || height == 0 {
            None
        } else {
            Some((width, height))
        }),
{
    if width == 0 || height == 0 {
        None
    } else {
        Some((width, height))
    }
}

/// Makes wgpu's texture format type usable in signatures; its value is not
/// looked into.
#[verifier::external_type_specification]
#[verifier::external_body]
pub struct ExTextureFormat(wgpu::TextureFormat);

/// Whether a texture format is an sRGB format, as
/// `wgpu::TextureFormat::is_srgb` decides (a function of the format alone).
pub uninterp spec fn srgb_format(format: wgpu::TextureFormat) -> bool;

/// Wraps `wgpu::TextureFormat::is_srgb`; its result is named
/// [`srgb_format`] of the format.
#[verifier::external_body]
fn is_srgb(format: wgpu::TextureFormat) -> (b: bool)
    ensures
        b == srgb_format(format),
{
    format.is_srgb()
}

/// The index of the first sRGB format among the first `n` of `formats`, or
/// `n` when there is none.
pub open spec fn first_srgb(formats: Seq<wgpu::TextureFormat>, n: int) -> int
    decreases n,
{
    if n <= 0 {
        0
    } else if first_srgb(formats, n - 1) < n - 1 {
        first_srgb(formats, n - 1)
    } else if srgb_format(formats[n - 1]) {
        n - 1
    } else {
        n
    }
}

/// The surface format of an output window: the first sRGB format the
/// surface supports, or else the first format it supports.
pub fn choose_surface_format(formats: &[wgpu::TextureFormat]) -> (f: wgpu::TextureFormat)
    requires
        formats@.len() > 0,
    ensures
        f == (if first_srgb(formats@, formats@.len() as int) < formats@.len() {
            formats@[first_srgb(formats@, formats@.len() as int)]
        } else {
            formats@[0]
        }),
{
    let mut i: usize = 0;
    while i < formats.len()
        invariant
            i <= formats@.len(),
            first_srgb(formats@, i as int) == i,
        decreases formats@.len() - i,
    {
        if is_srgb(formats[i]) {
            proof {
                lemma_prefix_first_srgb(formats@, i as int + 1, formats@.len() as int);
            }
            return formats[i];
        }
        i = i + 1;
    }
    formats[0]
}

/// Once an sRGB format appears in a prefix, longer prefixes find the same.
proof fn lemma_prefix_first_srgb(formats: Seq<wgpu::TextureFormat>, m: int, n: int)
    requires
        0 < m <= n,
        first_srgb(formats, m) < m,
    ensures
        first_srgb(formats, n) == first_srgb(formats, m),
    decreases n - m,
{
    if n > m {
        lemma_prefix_first_srgb(formats, m, n - 1);
    }
}

} // verus!
