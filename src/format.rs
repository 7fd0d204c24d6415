use vstd::prelude::*;

verus! {

/// Number of pixel formats that gfx-hal defines; codes run from 1 to this.
pub const FORMAT_COUNT: u32 = 184;

/// Bit of the color aspect in gfx-hal's `Aspects`.
pub const ASPECT_COLOR: u8 = 1;

/// Code of gfx-hal's `Format::Rgba8Srgb`.
pub const RGBA8_SRGB: u32 = 43;

/// A pixel format, by the numeric code of gfx-hal's `Format` enum.
#[derive(Clone, Copy, Debug, PartialEq, Eq, Structural)]
pub struct Format {
    pub code: u32,
}

/// Total bits and aspect bits of the surface description at an index of
/// gfx-hal's table of base formats.
pub uninterp spec fn surface_desc_of(index: nat) -> (u16, u8);

/// Relies on gfx_hal::format::BASE_FORMATS and SurfaceType::desc: the
/// surface of the format at `index`, its total bits and its aspects.
#[verifier::external_body]
fn surface_desc(index: usize) -> (r: (u16, u8))
    requires
        index < FORMAT_COUNT,
    ensures
        r == surface_desc_of(index as nat),
{
    let desc = gfx_hal::format::BASE_FORMATS[index].0.desc();
    (desc.bits, desc.aspects.bits())
}

/// Whether a code names one of gfx-hal's formats.
pub open spec fn format_known(f: Format) -> bool {
    1 <= f.code <= FORMAT_COUNT
}

/// The aspect bits of a known format.
pub open spec fn format_aspects(f: Format) -> u8 {
    surface_desc_of((f.code - 1) as nat).1
}

/// The bits that one pixel of a known format takes.
pub open spec fn format_bits(f: Format) -> nat {
    surface_desc_of((f.code - 1) as nat).0 as nat
}

/// A format fit for a texture: known, with the color aspect and nothing else.
pub open spec fn format_is_color(f: Format) -> bool {
    format_known(f) && format_aspects(f) == ASPECT_COLOR
}

impl Format {
    pub open spec fn rgba8_srgb_spec() -> Format {
        Format { code: RGBA8_SRGB }
    }

    /// The default texture format: 8-bit RGBA in sRGB, 32 bits a pixel.
    pub fn rgba8_srgb() -> (r: Format)
        ensures
            r == Format::rgba8_srgb_spec(),
    {
        Format { code: RGBA8_SRGB }
    }

    /// Whether the format is known and exactly of the color aspect.
    pub fn is_color(&self) -> (r: bool)
        ensures
            r == format_is_color(*self),
    {
        if self.code < 1 || self.code > FORMAT_COUNT {
            return false;
        }
        let desc = surface_desc((self.code - 1) as usize);
        desc.1 == ASPECT_COLOR
    }

    /// Bits a pixel of a known format takes.
    pub fn bits(&self) -> (r: u16)
        requires
            format_known(*self),
        ensures
            r as nat == format_bits(*self),
    {
        let desc = surface_desc((self.code - 1) as usize);
        desc.0
    }
}

} // verus!
