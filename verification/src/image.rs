use crate::color_space::ColorSpace;
use crate::pixel::PixelComponent;
use vstd::prelude::*;

verus! {

/// A component type that an `Image` can hold.
pub trait ImageFactory: PixelComponent {
    /// The image that holds `data` under this component type's own variant.
    spec fn wrapped(data: ColorSpace<Self>) -> Image;

    /// Wraps `data` in the variant of this component type.
    fn create(data: ColorSpace<Self>) -> (r: Image)
        ensures
            r == Self::wrapped(data),
    ;
}

impl ImageFactory for u8 {
    open spec fn wrapped(data: ColorSpace<u8>) -> Image {
        Image { imp: Implementation::U8(ImageImpl { data }) }
    }

    fn create(data: ColorSpace<u8>) -> (r: Image) {
        Image::new_u8(data)
    }
}

impl ImageFactory for u16 {
    open spec fn wrapped(data: ColorSpace<u16>) -> Image {
        Image { imp: Implementation::U16(ImageImpl { data }) }
    }

    fn create(data: ColorSpace<u16>) -> (r: Image) {
        Image::new_u16(data)
    }
}

impl ImageFactory for u32 {
    open spec fn wrapped(data: ColorSpace<u32>) -> Image {
        Image { imp: Implementation::U32(ImageImpl { data }) }
    }

    fn create(data: ColorSpace<u32>) -> (r: Image) {
        Image::new_u32(data)
    }
}

/// A color-space buffer of one component type.
pub struct ImageImpl<T: PixelComponent> {
    pub data: ColorSpace<T>,
}

impl<T: PixelComponent> ImageImpl<T> {
    /// The width of the wrapped buffer, whatever its color space.
    pub fn width(&self) -> (r: usize)
        ensures
            r == self.data.spec_width(),
    {
        match &self.data {
            ColorSpace::Rgba(buf) => buf.width,
            ColorSpace::Rgb(buf) => buf.width,
            ColorSpace::Hsv(buf) => buf.width,
            ColorSpace::Cielab(buf) => buf.width,
        }
    }

    /// The height of the wrapped buffer, whatever its color space.
    pub fn height(&self) -> (r: usize)
        ensures
            r == self.data.spec_height(),
    {
        match &self.data {
            ColorSpace::Rgba(buf) => buf.height,
            ColorSpace::Rgb(buf) => buf.height,
            ColorSpace::Hsv(buf) => buf.height,
            ColorSpace::Cielab(buf) => buf.height,
        }
    }
}

/// The component types that an image can be held in, one variant each.
pub enum Implementation {
    U8(ImageImpl<u8>),
    U16(ImageImpl<u16>),
    U32(ImageImpl<u32>),
}

impl Implementation {
    /// The width of the wrapped buffer.
    pub open spec fn spec_width(&self) -> usize {
        match self {
            Implementation::U8(imp) => imp.data.spec_width(),
            Implementation::U16(imp) => imp.data.spec_width(),
            Implementation::U32(imp) => imp.data.spec_width(),
        }
    }

    /// The height of the wrapped buffer.
    pub open spec fn spec_height(&self) -> usize {
        match self {
            Implementation::U8(imp) => imp.data.spec_height(),
            Implementation::U16(imp) => imp.data.spec_height(),
            Implementation::U32(imp) => imp.data.spec_height(),
        }
    }

    /// The width of the wrapped buffer, whatever its component type.
    pub fn width(&self) -> (r: usize)
        ensures
            r == self.spec_width(),
    {
        match self {
            Implementation::U8(imp) => imp.width(),
            Implementation::U16(imp) => imp.width(),
            Implementation::U32(imp) => imp.width(),
        }
    }

    /// The height of the wrapped buffer, whatever its component type.
    pub fn height(&self) -> (r: usize)
        ensures
            r == self.spec_height(),
    {
        match self {
            Implementation::U8(imp) => imp.height(),
            Implementation::U16(imp) => imp.height(),
            Implementation::U32(imp) => imp.height(),
        }
    }
}

/// An image whose component type is chosen at run time.
pub struct Image {
    pub imp: Implementation,
}

impl Image {
    /// Wraps `data` in the variant of its component type.
    pub fn new<T: ImageFactory>(data: ColorSpace<T>) -> (r: Self)
        ensures
            r == T::wrapped(data),
    {
        T::create(data)
    }

    /// An image of `u8` components.
    pub fn new_u8(data: ColorSpace<u8>) -> (r: Self)
        ensures
            r == (Image { imp: Implementation::U8(ImageImpl { data }) }),
    {
        Self { imp: Implementation::U8(ImageImpl { data }) }
    }

    /// An image of `u16` components.
    pub fn new_u16(data: ColorSpace<u16>) -> (r: Self)
        ensures
            r == (Image { imp: Implementation::U16(ImageImpl { data }) }),
    {
        Self { imp: Implementation::U16(ImageImpl { data }) }
    }

    /// An image of `u32` components.
    pub fn new_u32(data: ColorSpace<u32>) -> (r: Self)
        ensures
            r == (Image { imp: Implementation::U32(ImageImpl { data }) }),
    {
        Self { imp: Implementation::U32(ImageImpl { data }) }
    }

    /// The width of the image in pixels.
    pub fn width(&self) -> (r: usize)
        ensures
            r == self.imp.spec_width(),
    {
        self.imp.width()
    }

    /// The height of the image in pixels.
    pub fn height(&self) -> (r: usize)
        ensures
            r == self.imp.spec_height(),
    {
        self.imp.height()
    }
}

} // verus!
