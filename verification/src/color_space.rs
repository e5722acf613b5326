use crate::image_buffer::ImageBuffer;
use crate::pixel::PixelComponent;
use vstd::prelude::*;

verus! {

/// A pixel buffer together with the color space that its channels are read in.
/// Each color space fixes the layout of the buffer that it wraps.
pub enum ColorSpace<T: PixelComponent> {
    Rgba(ImageBuffer<T, 4, true>),
    Rgb(ImageBuffer<T, 3, false>),
    Hsv(ImageBuffer<T, 3, false>),
    Cielab(ImageBuffer<T, 3, false>),
}

impl<T: PixelComponent> ColorSpace<T> {
    /// The width of the wrapped buffer.
    pub open spec fn spec_width(&self) -> usize {
        match self {
            ColorSpace::Rgba(buf) => buf.width,
            ColorSpace::Rgb(buf) => buf.width,
            ColorSpace::Hsv(buf) => buf.width,
            ColorSpace::Cielab(buf) => buf.width,
        }
    }

    /// The height of the wrapped buffer.
    pub open spec fn spec_height(&self) -> usize {
        match self {
            ColorSpace::Rgba(buf) => buf.height,
            ColorSpace::Rgb(buf) => buf.height,
            ColorSpace::Hsv(buf) => buf.height,
            ColorSpace::Cielab(buf) => buf.height,
        }
    }
}

} // verus!
