//! Sampled GPU textures built from raw CPU-side pixel buffers.
//!
//! The library checks that a declared image shape, a pixel format, a
//! source stride and a byte buffer fit together, reinterprets typed
//! buffers as bytes, and describes the device work (image allocation,
//! view creation, upload) that turns a valid configuration into a texture.
mod builder;
mod format;
mod kind;
mod texel;

pub use builder::{
    lemma_enough_data_builds, lemma_one_byte_short_fails, Texture, TextureBuilder, TextureError,
    TextureParams,
};
pub use format::{
    format_aspects, format_bits, format_is_color, format_known, surface_desc_of, Format,
    ASPECT_COLOR, FORMAT_COUNT, RGBA8_SRGB,
};
pub use kind::{Extent, Kind, ViewKind};
pub use texel::{
    bytes_of, cast_back, cast_cow, cast_slice, cast_vec, lemma_bytes_of_len, lemma_cast_round_trip,
    texels_of, Texel, TexelData,
};
