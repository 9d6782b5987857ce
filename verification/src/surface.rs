//! The drawable target bound to a window: its size, the configuration it is
//! given at startup and the choice of its pixel format.

use vstd::prelude::*;

verus! {

/// `wgpu::TextureFormat`, a pixel format. Opaque here: the library carries a
/// format from the surface's capabilities into its configuration and asks
/// only whether it is sRGB.
#[verifier::external_type_specification]
#[verifier::external_body]
pub struct ExTextureFormat(wgpu::TextureFormat);

/// `wgpu::CompositeAlphaMode`, how the compositor treats the alpha channel.
/// Opaque here: the library carries it through and asks nothing of it.
#[verifier::external_type_specification]
#[verifier::external_body]
pub struct ExCompositeAlphaMode(wgpu::CompositeAlphaMode);

/// What `wgpu::TextureFormat::is_srgb` answers for `format`: whether the
/// format stores its colours sRGB-encoded.
pub uninterp spec fn format_is_srgb(format: wgpu::TextureFormat) -> bool;

/// Calls `wgpu::TextureFormat::is_srgb`. The answer depends on the format
/// alone, which is all that the contract claims: it gives the answer its name.
#[verifier::external_body]
fn is_srgb(format: &wgpu::TextureFormat) -> (srgb: bool)
    ensures
        srgb == format_is_srgb(*format),
{
    format.is_srgb()
}

/// Frames that the presentation engine may queue in advance.
pub const FRAME_LATENCY: u32 = 2;

/// Last known size of the window in physical pixels.
#[derive(Clone, Copy, Debug, PartialEq, Eq, Structural)]
pub struct WindowSize {
    pub width: u32,
    pub height: u32,
}

impl WindowSize {
    /// A surface can be configured to this size: neither dimension is zero.
    pub open spec fn drawable(self) -> bool {
        self.width > 0 && self.height > 0
    }

    /// The size `width` by `height`.
    pub fn new(width: u32, height: u32) -> (size: WindowSize)
        ensures
            size == (WindowSize { width, height }),
    {
        WindowSize { width, height }
    }

    /// Whether a surface can be configured to this size.
    pub fn is_drawable(&self) -> (yes: bool)
        ensures
            yes == self.drawable(),
    {
        self.width > 0 && self.height > 0
    }
}

/// How finished frames reach the screen.
#[derive(Clone, Copy, Debug, PartialEq, Eq, Structural)]
pub enum PresentMode {
    AutoVsync,
    AutoNoVsync,
    Fifo,
    FifoRelaxed,
    Immediate,
    Mailbox,
}

/// Why no surface configuration could be made at startup.
#[derive(Clone, Copy, Debug, PartialEq, Eq, Structural)]
pub enum StartupFailure {
    /// The surface offers no pixel format: it cannot be used with the adapter.
    NoSurfaceFormat,
    /// The surface offers no alpha mode.
    NoAlphaMode,
}

/// What the surface is configured with.
#[derive(Clone, Copy, Debug, PartialEq, Eq)]
pub struct SurfaceConfig {
    pub width: u32,
    pub height: u32,
    pub format: wgpu::TextureFormat,
    pub present_mode: PresentMode,
    pub alpha_mode: wgpu::CompositeAlphaMode,
    pub desired_maximum_frame_latency: u32,
}

/// `index` is the place of the first sRGB entry of `srgb`.
pub open spec fn is_first_srgb(srgb: Seq<bool>, index: int) -> bool {
    &&& 0 <= index < srgb.len()
    &&& srgb[index]
    &&& forall|earlier: int| 0 <= earlier < index ==> !srgb[earlier]
}

/// The place of the preferred format, given for each offered format whether
/// it is sRGB: the first sRGB one, or the very first where none is sRGB.
pub open spec fn preferred_index(srgb: Seq<bool>) -> int {
    if exists|index: int| is_first_srgb(srgb, index) {
        choose|index: int| is_first_srgb(srgb, index)
    } else {
        0
    }
}

/// For each format, in order, whether it is sRGB.
pub open spec fn srgb_flags(formats: Seq<wgpu::TextureFormat>) -> Seq<bool> {
    Seq::new(formats.len(), |i: int| format_is_srgb(formats[i]))
}

/// The format that a surface offering `formats` is configured with.
pub open spec fn preferred_format(formats: Seq<wgpu::TextureFormat>) -> wgpu::TextureFormat
    recommends
        formats.len() > 0,
{
    formats[preferred_index(srgb_flags(formats))]
}

/// At most one place is that of the first sRGB entry.
proof fn lemma_first_srgb_unique(srgb: Seq<bool>, a: int, b: int)
    requires
        is_first_srgb(srgb, a),
        is_first_srgb(srgb, b),
    ensures
        a == b,
{
}

/// Picks the place of the preferred format from the formats' sRGB flags.
/// `None` exactly when nothing is offered.
pub fn preferred_format_index(srgb: &Vec<bool>) -> (index: Option<usize>)
    ensures
        index is None <==> srgb.len() == 0,
        index matches Some(i) ==> i == preferred_index(srgb@),
{
    if srgb.len() == 0 {
        return None;
    }
    let mut i: usize = 0;
    while i < srgb.len()
        invariant
            i <= srgb.len(),
            forall|earlier: int| 0 <= earlier < i ==> !srgb@[earlier],
        decreases srgb.len() - i,
    {
        if srgb[i] {
            proof {
                assert(is_first_srgb(srgb@, i as int));
                lemma_first_srgb_unique(srgb@, i as int, preferred_index(srgb@));
            }
            return Some(i);
        }
        i += 1;
    }
    Some(0)
}

/// Asks each offered format whether it is sRGB.
pub fn srgb_flags_of(formats: &Vec<wgpu::TextureFormat>) -> (flags: Vec<bool>)
    ensures
        flags@ == srgb_flags(formats@),
{
    let mut flags: Vec<bool> = Vec::new();
    let mut i: usize = 0;
    while i < formats.len()
        invariant
            i <= formats.len(),
            flags@.len() == i,
            forall|k: int| 0 <= k < i ==> flags@[k] == format_is_srgb(formats@[k]),
        decreases formats.len() - i,
    {
        let srgb = is_srgb(&formats[i]);
        flags.push(srgb);
        i += 1;
    }
    assert(flags@ =~= srgb_flags(formats@));
    flags
}

/// Chooses the surface's pixel format among those its capabilities list: the
/// first sRGB format, or the first format where none is sRGB. `None` exactly
/// when the list is empty.
pub fn select_format(formats: &Vec<wgpu::TextureFormat>) -> (chosen: Option<wgpu::TextureFormat>)
    ensures
        chosen is None <==> formats.len() == 0,
        chosen matches Some(format) ==> format == preferred_format(formats@),
{
    let flags = srgb_flags_of(formats);
    match preferred_format_index(&flags) {
        Some(index) => {
            proof {
                if exists|i: int| is_first_srgb(flags@, i) {
                    assert(is_first_srgb(flags@, preferred_index(flags@)));
                }
            }
            Some(formats[index])
        },
        None => None,
    }
}

impl SurfaceConfig {
    /// This configuration at another size.
    pub open spec fn with_size(self, width: u32, height: u32) -> SurfaceConfig {
        SurfaceConfig { width, height, ..self }
    }

    /// The size of the target.
    pub open spec fn size(self) -> WindowSize {
        WindowSize { width: self.width, height: self.height }
    }

    /// The configuration for a window of `size` on a surface whose
    /// capabilities list `formats` and `alpha_modes`: the preferred format,
    /// the first alpha mode, vsync. There is none exactly when one of the
    /// lists is empty; the formats are looked at first.
    pub open spec fn negotiated(
        size: WindowSize,
        formats: Seq<wgpu::TextureFormat>,
        alpha_modes: Seq<wgpu::CompositeAlphaMode>,
    ) -> Result<SurfaceConfig, StartupFailure> {
        if formats.len() == 0 {
            Err(StartupFailure::NoSurfaceFormat)
        } else if alpha_modes.len() == 0 {
            Err(StartupFailure::NoAlphaMode)
        } else {
            Ok(
                SurfaceConfig {
                    width: size.width,
                    height: size.height,
                    format: preferred_format(formats),
                    present_mode: PresentMode::AutoVsync,
                    alpha_mode: alpha_modes[0],
                    desired_maximum_frame_latency: FRAME_LATENCY,
                },
            )
        }
    }

    /// Makes the configuration that the surface starts with.
    pub fn negotiate(
        size: WindowSize,
        formats: &Vec<wgpu::TextureFormat>,
        alpha_modes: &Vec<wgpu::CompositeAlphaMode>,
    ) -> (config: Result<SurfaceConfig, StartupFailure>)
        ensures
            config == SurfaceConfig::negotiated(size, formats@, alpha_modes@),
    {
        match select_format(formats) {
            None => Err(StartupFailure::NoSurfaceFormat),
            Some(format) => {
                if alpha_modes.len() == 0 {
                    Err(StartupFailure::NoAlphaMode)
                } else {
                    Ok(
                        SurfaceConfig {
                            width: size.width,
                            height: size.height,
                            format,
                            present_mode: PresentMode::AutoVsync,
                            alpha_mode: alpha_modes[0],
                            desired_maximum_frame_latency: FRAME_LATENCY,
                        },
                    )
                }
            },
        }
    }
}

} // verus!
