pub mod color_space;
pub mod image;
pub mod image_buffer;
pub mod iteration;
pub mod layout;
pub mod lemmas;
pub mod pixel;
mod sealed;

pub use image::Image;
pub use image::ImageFactory;
pub use image_buffer::ImageBuffer;
pub use pixel::PixelContainer;
