use vstd::prelude::*;

use crate::format::{format_bits, format_is_color, format_known, Format};
use crate::kind::{Extent, Kind, ViewKind};
use crate::texel::{bytes_of, cast_cow, Texel, TexelData};

verus! {

/// Why a texture configuration was refused.
#[derive(Clone, Copy, Debug, PartialEq, Eq, Structural)]
pub enum TextureError {
    /// The format is unknown or its aspect is not exactly color.
    FormatNotColor,
    /// The row stride is smaller than the image width.
    DataWidthTooSmall,
    /// The layer stride is smaller than the image height.
    DataHeightTooSmall,
    /// The buffer holds fewer bits than the shape, format and stride need.
    DataTooShort,
}

/// Configuration of a texture: shape, format, source stride and pixel data.
#[derive(Clone, Debug)]
pub struct TextureBuilder {
    kind: Kind,
    format: Format,
    data_width: u32,
    data_height: u32,
    data: Vec<u8>,
}

/// Everything the device needs to create, view and fill the image of a
/// texture whose configuration was found valid.
#[derive(Clone, Copy, Debug, PartialEq, Eq, Structural)]
pub struct TextureParams {
    pub kind: Kind,
    pub format: Format,
    pub view_kind: ViewKind,
    pub extent: Extent,
    pub data_width: u32,
    pub data_height: u32,
}

/// A sampled image on the device with its view, shape and format.
#[derive(Debug)]
pub struct Texture<I, V> {
    kind: Kind,
    format: Format,
    image: I,
    view: V,
}

impl TextureBuilder {
    pub closed spec fn kind_spec(&self) -> Kind {
        self.kind
    }

    pub closed spec fn format_spec(&self) -> Format {
        self.format
    }

    pub closed spec fn data_width_spec(&self) -> u32 {
        self.data_width
    }

    pub closed spec fn data_height_spec(&self) -> u32 {
        self.data_height
    }

    pub closed spec fn data_spec(&self) -> Seq<u8> {
        self.data@
    }

    /// The format is known and the strides cover the image's extent.
    pub open spec fn wf(&self) -> bool {
        &&& format_known(self.format_spec())
        &&& self.data_width_spec() >= self.kind_spec().extent_spec().width
        &&& self.data_height_spec() >= self.kind_spec().extent_spec().height
    }

    /// Bits the buffer must hold: one stride-wide row of pixels for each
    /// row of each layer of the image.
    pub open spec fn required_bits(&self) -> nat {
        let e = self.kind_spec().extent_spec();
        self.data_width_spec() as nat * e.height as nat * e.depth as nat * format_bits(
            self.format_spec(),
        )
    }

    /// The least number of bytes that holds the required bits.
    pub open spec fn min_data_len(&self) -> nat {
        (self.required_bits() + 7) / 8
    }

    /// The error `build` reports, if any.
    pub open spec fn build_error(&self) -> Option<TextureError> {
        if self.data_width_spec() < self.kind_spec().extent_spec().width {
            Some(TextureError::DataWidthTooSmall)
        } else if self.data_spec().len() * 8 < self.required_bits() {
            Some(TextureError::DataTooShort)
        } else {
            None
        }
    }

    /// The device parameters that `build` hands out.
    pub open spec fn params_spec(&self) -> TextureParams {
        TextureParams {
            kind: self.kind_spec(),
            format: self.format_spec(),
            view_kind: self.kind_spec().view_kind_spec(),
            extent: self.kind_spec().extent_spec(),
            data_width: self.data_width_spec(),
            data_height: self.data_height_spec(),
        }
    }

    /// A builder for an image of shape `kind`, in 8-bit RGBA sRGB, with
    /// strides equal to the extent and no data.
    pub fn new(kind: Kind) -> (r: TextureBuilder)
        ensures
            r.wf(),
            r.kind_spec() == kind,
            r.format_spec() == Format::rgba8_srgb_spec(),
            r.data_width_spec() == kind.extent_spec().width,
            r.data_height_spec() == kind.extent_spec().height,
            r.data_spec().len() == 0,
    {
        let extent = kind.extent();
        TextureBuilder {
            kind,
            format: Format::rgba8_srgb(),
            data_width: extent.width,
            data_height: extent.height,
            data: Vec::new(),
        }
    }

    /// Sets the format; refused unless it is known and of the color aspect
    /// alone, in which case the builder is left as it was.
    pub fn set_format(&mut self, format: Format) -> (r: Result<(), TextureError>)
        requires
            old(self).wf(),
        ensures
            final(self).wf(),
            format_is_color(format) ==> r is Ok && final(self).format_spec() == format,
            !format_is_color(format) ==> r == Err::<(), _>(TextureError::FormatNotColor)
                && final(self).format_spec() == old(self).format_spec(),
            final(self).kind_spec() == old(self).kind_spec(),
            final(self).data_width_spec() == old(self).data_width_spec(),
            final(self).data_height_spec() == old(self).data_height_spec(),
            final(self).data_spec() == old(self).data_spec(),
    {
        if !format.is_color() {
            return Err(TextureError::FormatNotColor);
        }
        self.format = format;
        Ok(())
    }

    /// Consuming form of `set_format`.
    pub fn with_format(self, format: Format) -> (r: Result<TextureBuilder, TextureError>)
        requires
            self.wf(),
        ensures
            format_is_color(format) <==> r is Ok,
            !format_is_color(format) ==> r == Err::<TextureBuilder, _>(
                TextureError::FormatNotColor,
            ),
            r matches Ok(b) ==> b.wf() && b.format_spec() == format && b.kind_spec()
                == self.kind_spec() && b.data_width_spec() == self.data_width_spec()
                && b.data_height_spec() == self.data_height_spec() && b.data_spec()
                == self.data_spec(),
    {
        let mut b = self;
        match b.set_format(format) {
            Ok(()) => Ok(b),
            Err(e) => Err(e),
        }
    }

    /// Sets the row stride of the data, in pixels; refused when smaller
    /// than the image width, in which case the builder is left as it was.
    pub fn set_data_width(&mut self, data_width: u32) -> (r: Result<(), TextureError>)
        requires
            old(self).wf(),
        ensures
            final(self).wf(),
            data_width >= old(self).kind_spec().extent_spec().width ==> r is Ok
                && final(self).data_width_spec() == data_width,
            data_width < old(self).kind_spec().extent_spec().width ==> r == Err::<(), _>(
                TextureError::DataWidthTooSmall,
            ) && final(self).data_width_spec() == old(self).data_width_spec(),
            final(self).kind_spec() == old(self).kind_spec(),
            final(self).format_spec() == old(self).format_spec(),
            final(self).data_height_spec() == old(self).data_height_spec(),
            final(self).data_spec() == old(self).data_spec(),
    {
        if data_width < self.kind.extent().width {
            return Err(TextureError::DataWidthTooSmall);
        }
        self.data_width = data_width;
        Ok(())
    }

    /// Consuming form of `set_data_width`.
    pub fn with_data_width(self, data_width: u32) -> (r: Result<TextureBuilder, TextureError>)
        requires
            self.wf(),
        ensures
            data_width >= self.kind_spec().extent_spec().width <==> r is Ok,
            data_width < self.kind_spec().extent_spec().width ==> r == Err::<TextureBuilder, _>(
                TextureError::DataWidthTooSmall,
            ),
            r matches Ok(b) ==> b.wf() && b.data_width_spec() == data_width && b.kind_spec()
                == self.kind_spec() && b.format_spec() == self.format_spec()
                && b.data_height_spec() == self.data_height_spec() && b.data_spec()
                == self.data_spec(),
    {
        let mut b = self;
        match b.set_data_width(data_width) {
            Ok(()) => Ok(b),
            Err(e) => Err(e),
        }
    }

    /// Sets the layer stride of the data, in rows; refused when smaller
    /// than the image height, in which case the builder is left as it was.
    pub fn set_data_height(&mut self, data_height: u32) -> (r: Result<(), TextureError>)
        requires
            old(self).wf(),
        ensures
            final(self).wf(),
            data_height >= old(self).kind_spec().extent_spec().height ==> r is Ok
                && final(self).data_height_spec() == data_height,
            data_height < old(self).kind_spec().extent_spec().height ==> r == Err::<(), _>(
                TextureError::DataHeightTooSmall,
            ) && final(self).data_height_spec() == old(self).data_height_spec(),
            final(self).kind_spec() == old(self).kind_spec(),
            final(self).format_spec() == old(self).format_spec(),
            final(self).data_width_spec() == old(self).data_width_spec(),
            final(self).data_spec() == old(self).data_spec(),
    {
        if data_height < self.kind.extent().height {
            return Err(TextureError::DataHeightTooSmall);
        }
        self.data_height = data_height;
        Ok(())
    }

    /// Consuming form of `set_data_height`.
    pub fn with_data_height(self, data_height: u32) -> (r: Result<TextureBuilder, TextureError>)
        requires
            self.wf(),
        ensures
            data_height >= self.kind_spec().extent_spec().height <==> r is Ok,
            data_height < self.kind_spec().extent_spec().height ==> r
                == Err::<TextureBuilder, _>(TextureError::DataHeightTooSmall),
            r matches Ok(b) ==> b.wf() && b.data_height_spec() == data_height && b.kind_spec()
                == self.kind_spec() && b.format_spec() == self.format_spec()
                && b.data_width_spec() == self.data_width_spec() && b.data_spec()
                == self.data_spec(),
    {
        let mut b = self;
        match b.set_data_height(data_height) {
            Ok(()) => Ok(b),
            Err(e) => Err(e),
        }
    }

    /// Replaces the pixel data by the bytes of `data`; its size is checked
    /// by `build`.
    pub fn set_data<P: Texel>(&mut self, data: TexelData<'_, P>)
        requires
            old(self).wf(),
        ensures
            final(self).wf(),
            final(self).data_spec() == bytes_of(data.view()),
            final(self).kind_spec() == old(self).kind_spec(),
            final(self).format_spec() == old(self).format_spec(),
            final(self).data_width_spec() == old(self).data_width_spec(),
            final(self).data_height_spec() == old(self).data_height_spec(),
    {
        self.data = cast_cow(data);
    }

    /// Consuming form of `set_data`.
    pub fn with_data<P: Texel>(self, data: TexelData<'_, P>) -> (r: TextureBuilder)
        requires
            self.wf(),
        ensures
            r.wf(),
            r.data_spec() == bytes_of(data.view()),
            r.kind_spec() == self.kind_spec(),
            r.format_spec() == self.format_spec(),
            r.data_width_spec() == self.data_width_spec(),
            r.data_height_spec() == self.data_height_spec(),
    {
        let mut b = self;
        b.set_data(data);
        b
    }

    pub fn kind(&self) -> (r: Kind)
        ensures
            r == self.kind_spec(),
    {
        self.kind
    }

    pub fn format(&self) -> (r: Format)
        ensures
            r == self.format_spec(),
    {
        self.format
    }

    pub fn data_width(&self) -> (r: u32)
        ensures
            r == self.data_width_spec(),
    {
        self.data_width
    }

    pub fn data_height(&self) -> (r: u32)
        ensures
            r == self.data_height_spec(),
    {
        self.data_height
    }

    /// The pixel data, as bytes.
    pub fn data(&self) -> (r: &[u8])
        ensures
            r@ == self.data_spec(),
    {
        self.data.as_slice()
    }

    /// Checks that the stride covers the image width and that the buffer
    /// holds enough bits, and gives the parameters of the device calls.
    pub fn build(&self) -> (r: Result<TextureParams, TextureError>)
        requires
            self.wf(),
        ensures
            r matches Ok(p) ==> self.build_error() is None && p == self.params_spec(),
            r matches Err(e) ==> self.build_error() == Some(e),
    {
        let extent = self.kind.extent();
        if self.data_width < extent.width {
            return Err(TextureError::DataWidthTooSmall);
        }
        let bits = self.format.bits();
        let w = self.data_width as u128;
        let h = extent.height as u128;
        let d = extent.depth as u128;
        let b = bits as u128;
        assert(w * h <= 0xffff_ffff_ffff_ffffu128) by (nonlinear_arith)
            requires
                w <= 0xffff_ffffu128,
                h <= 0xffff_ffffu128,
        ;
        let wh = w * h;
        assert(wh * d <= 0xffff_ffff_ffff_ffff_ffff_ffffu128) by (nonlinear_arith)
            requires
                wh <= 0xffff_ffff_ffff_ffffu128,
                d <= 0xffff_ffffu128,
        ;
        let whd = wh * d;
        assert(whd * b <= 0xffff_ffff_ffff_ffff_ffff_ffff_ffffu128) by (nonlinear_arith)
            requires
                whd <= 0xffff_ffff_ffff_ffff_ffff_ffffu128,
                b <= 0xffffu128,
        ;
        let required = whd * b;
        let have = self.data.len() as u128 * 8;
        if have < required {
            return Err(TextureError::DataTooShort);
        }
        Ok(
            TextureParams {
                kind: self.kind,
                format: self.format,
                view_kind: self.kind.view_kind(),
                extent,
                data_width: self.data_width,
                data_height: self.data_height,
            },
        )
    }
}

/// A well-formed builder whose buffer holds at least the least number of
/// bytes its shape, format and stride need builds, and the texture keeps
/// the builder's shape and format.
pub proof fn lemma_enough_data_builds(b: TextureBuilder)
    requires
        b.wf(),
        b.data_spec().len() >= b.min_data_len(),
    ensures
        b.build_error() is None,
        b.params_spec().kind == b.kind_spec(),
        b.params_spec().format == b.format_spec(),
{
    let req = b.required_bits();
    let len = b.data_spec().len();
    assert(len * 8 >= req) by (nonlinear_arith)
        requires
            len >= (req + 7) / 8,
    ;
}

/// A well-formed builder whose buffer is one byte short of the least number
/// of bytes its shape, format and stride need fails to build, for want of
/// data.
pub proof fn lemma_one_byte_short_fails(b: TextureBuilder)
    requires
        b.wf(),
        b.data_spec().len() + 1 == b.min_data_len(),
    ensures
        b.build_error() == Some(TextureError::DataTooShort),
{
    let req = b.required_bits();
    let len = b.data_spec().len();
    assert(len * 8 < req) by (nonlinear_arith)
        requires
            len + 1 == (req + 7) / 8,
    ;
}

impl TextureParams {
    /// The texture made of these parameters and the device's image and view.
    pub fn finish<I, V>(self, image: I, view: V) -> (r: Texture<I, V>)
        ensures
            r.kind_spec() == self.kind,
            r.format_spec() == self.format,
            r.image_spec() == image,
            r.view_spec() == view,
    {
        Texture { kind: self.kind, format: self.format, image, view }
    }
}

impl<I, V> Texture<I, V> {
    pub closed spec fn kind_spec(&self) -> Kind {
        self.kind
    }

    pub closed spec fn format_spec(&self) -> Format {
        self.format
    }

    pub closed spec fn image_spec(&self) -> I {
        self.image
    }

    pub closed spec fn view_spec(&self) -> V {
        self.view
    }

    /// A builder for a texture of shape `kind`.
    pub fn new(kind: Kind) -> (r: TextureBuilder)
        ensures
            r.wf(),
            r.kind_spec() == kind,
            r.format_spec() == Format::rgba8_srgb_spec(),
            r.data_width_spec() == kind.extent_spec().width,
            r.data_height_spec() == kind.extent_spec().height,
            r.data_spec().len() == 0,
    {
        TextureBuilder::new(kind)
    }

    pub fn image(&self) -> (r: &I)
        ensures
            *r == self.image_spec(),
    {
        &self.image
    }

    pub fn view(&self) -> (r: &V)
        ensures
            *r == self.view_spec(),
    {
        &self.view
    }

    pub fn format(&self) -> (r: Format)
        ensures
            r == self.format_spec(),
    {
        self.format
    }

    pub fn kind(&self) -> (r: Kind)
        ensures
            r == self.kind_spec(),
    {
        self.kind
    }
}

} // verus!
