use vstd::prelude::*;

verus! {

/// HDR framebuffer format
#[derive(Clone, Copy, Debug, PartialEq, Eq, Structural)]
pub enum HdrFormat {
    /// 16-bit float (half precision)
    R16G16B16A16Float,
    /// 32-bit float (full precision)
    R32G32B32A32Float,
    /// 11-bit float (RGB, no alpha)
    R11G11B10Float,
    /// 10-bit unsigned (RGB, 2-bit alpha)
    R10G10B10A2Unorm,
}

impl Default for HdrFormat {
    fn default() -> (r: Self)
        ensures
            r == HdrFormat::R10G10B10A2Unorm,
    {
        HdrFormat::R10G10B10A2Unorm
    }
}

/// Bits per pixel of a format.
pub open spec fn format_bits(f: HdrFormat) -> u32 {
    match f {
        HdrFormat::R16G16B16A16Float => 64,
        HdrFormat::R32G32B32A32Float => 128,
        HdrFormat::R11G11B10Float => 32,
        HdrFormat::R10G10B10A2Unorm => 32,
    }
}

impl HdrFormat {
    /// The number of bits per pixel
    pub fn bits_per_pixel(&self) -> (r: u32)
        ensures
            r == format_bits(*self),
    {
        match self {
            HdrFormat::R16G16B16A16Float => 64,
            HdrFormat::R32G32B32A32Float => 128,
            HdrFormat::R11G11B10Float => 32,
            HdrFormat::R10G10B10A2Unorm => 32,
        }
    }

    /// Whether the format has an alpha channel (all but R11G11B10)
    pub fn has_alpha(&self) -> (r: bool)
        ensures
            r == (*self != HdrFormat::R11G11B10Float),
    {
        matches!(
            self,
            HdrFormat::R16G16B16A16Float | HdrFormat::R32G32B32A32Float | HdrFormat::R10G10B10A2Unorm
        )
    }

    /// Whether the format stores floating-point values (all but R10G10B10A2)
    pub fn is_float(&self) -> (r: bool)
        ensures
            r == (*self != HdrFormat::R10G10B10A2Unorm),
    {
        matches!(
            self,
            HdrFormat::R16G16B16A16Float | HdrFormat::R32G32B32A32Float | HdrFormat::R11G11B10Float
        )
    }
}

/// The integer part of an HDR framebuffer's configuration: its size,
/// format, sample count and whether it gets mipmaps. (Exposure and tone
/// mapping are floating point and kept beside it.)
#[derive(Clone, Copy, Debug, PartialEq, Eq, Structural)]
pub struct FramebufferLayout {
    /// Width in pixels
    pub width: u32,
    /// Height in pixels
    pub height: u32,
    /// HDR texture format
    pub format: HdrFormat,
    /// Multisample count
    pub samples: u32,
    /// Whether mipmaps are generated for the buffer
    pub generate_mipmaps: bool,
}

impl Default for FramebufferLayout {
    fn default() -> (r: Self)
        ensures
            r == (FramebufferLayout {
                width: 1920,
                height: 1080,
                format: HdrFormat::R16G16B16A16Float,
                samples: 1,
                generate_mipmaps: false,
            }),
    {
        FramebufferLayout {
            width: 1920,
            height: 1080,
            format: HdrFormat::R16G16B16A16Float,
            samples: 1,
            generate_mipmaps: false,
        }
    }
}

impl FramebufferLayout {
    /// The default layout at the given size
    pub fn new(width: u32, height: u32) -> (r: Self)
        ensures
            r == (FramebufferLayout { width, height, ..FramebufferLayout::default_spec() }),
    {
        FramebufferLayout { width, height, ..Self::default() }
    }

    /// The default layout at the given size and format
    pub fn with_format(width: u32, height: u32, format: HdrFormat) -> (r: Self)
        ensures
            r == (FramebufferLayout { width, height, format, ..FramebufferLayout::default_spec() }),
    {
        FramebufferLayout { width, height, format, ..Self::default() }
    }

    /// The default layout
    pub open spec fn default_spec() -> Self {
        FramebufferLayout {
            width: 1920,
            height: 1080,
            format: HdrFormat::R16G16B16A16Float,
            samples: 1,
            generate_mipmaps: false,
        }
    }

    /// Change the size
    pub fn resize(&mut self, width: u32, height: u32)
        ensures
            *final(self) == (FramebufferLayout { width, height, ..*old(self) }),
    {
        self.width = width;
        self.height = height;
    }

    /// The number of pixels (which must fit in a `u32`)
    pub fn pixel_count(&self) -> (r: u32)
        requires
            self.width * self.height <= u32::MAX,
        ensures
            r == self.width * self.height,
    {
        self.width * self.height
    }

    /// The size of the buffer in bytes: pixels times bits per pixel, over 8
    pub fn memory_size_bytes(&self) -> (r: u64)
        requires
            self.width * self.height <= u32::MAX,
        ensures
            r == self.width * self.height * format_bits(self.format) / 8,
    {
        let pixels = self.pixel_count() as u64;
        let bits = self.format.bits_per_pixel() as u64;
        proof {
            assert(pixels * bits <= 0xFFFF_FFFFu64 * 128) by (nonlinear_arith)
                requires
                    pixels <= 0xFFFF_FFFFu64,
                    bits <= 128,
            ;
        }
        (pixels * bits) / 8
    }
}

/// Every format packs whole bytes per pixel, full-precision float pixels are
/// twice as large as half-precision ones and four times as large as the
/// packed 32-bit formats, so a buffer's size in bytes is its pixel count
/// times the bytes of one pixel.
pub proof fn lemma_format_sizes(l: FramebufferLayout)
    ensures
        format_bits(l.format) % 8 == 0,
        format_bits(HdrFormat::R32G32B32A32Float) == 2 * format_bits(HdrFormat::R16G16B16A16Float),
        format_bits(HdrFormat::R16G16B16A16Float) == 2 * format_bits(HdrFormat::R11G11B10Float),
        format_bits(HdrFormat::R11G11B10Float) == format_bits(HdrFormat::R10G10B10A2Unorm),
        l.width * l.height * format_bits(l.format) / 8 == l.width * l.height * (format_bits(l.format)
            / 8),
{
    let b = format_bits(l.format);
    let px = l.width * l.height;
    assert(px * b / 8 == px * (b / 8)) by (nonlinear_arith)
        requires
            b % 8 == 0,
            b >= 0,
            px >= 0,
    ;
}

} // verus!
