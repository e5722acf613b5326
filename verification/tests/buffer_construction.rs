use pixelbuf::image_buffer::ImageBuffer;
use pixelbuf::pixel::PixelContainer;

#[test]
fn new_rgba_u8_with_data() {
    const WIDTH: usize = 4;
    const HEIGHT: usize = 4;
    const RGBA_CPP: usize = 4;
    let data = vec![0u8; WIDTH * HEIGHT * RGBA_CPP];
    let image = ImageBuffer::<u8, 4, true>::with_data(data, WIDTH, HEIGHT);
    assert!(image.is_ok());
    assert_eq!(image.unwrap().data.len(), 4 * 4 * 4);
}

#[test]
fn new_rgba_u8_empty() {
    const WIDTH: usize = 4;
    const HEIGHT: usize = 4;
    let image = ImageBuffer::<u8, 4, true>::empty(WIDTH, HEIGHT);
    assert_eq!(image.data.len(), 4 * 4 * 4);
    let mut seen = 0;
    let mut pixels = image.iter_with_alpha();
    while let Some(pel) = pixels.next() {
        assert_eq!(pel, &[0u8, 0u8, 0u8, 0u8]);
        seen += 1;
    }
    assert_eq!(seen, WIDTH * HEIGHT);
}

#[test]
fn new_rgba_u8_with_val() {
    const WIDTH: usize = 4;
    const HEIGHT: usize = 4;
    let one_pel = [1u8, 2u8, 3u8, 255];
    let image = ImageBuffer::<u8, 4, true>::with_val(&one_pel, WIDTH, HEIGHT);
    assert_eq!(image.data.len(), 4 * 4 * 4);
    let mut seen = 0;
    let mut pixels = image.iter_with_alpha();
    while let Some(pel) = pixels.next() {
        assert_eq!(pel, &[1u8, 2u8, 3u8, 255]);
        seen += 1;
    }
    assert_eq!(seen, WIDTH * HEIGHT);
}

#[test]
fn new_rgb_u8_with_data() {
    const WIDTH: usize = 4;
    const HEIGHT: usize = 4;
    const RGB_CPP: usize = 3;
    let data = vec![0u8; WIDTH * HEIGHT * RGB_CPP];
    let image = ImageBuffer::<u8, 3, false>::with_data(data, WIDTH, HEIGHT);
    assert!(image.is_ok());
    assert_eq!(image.unwrap().data.len(), 4 * 4 * 3);
}

#[test]
fn new_rgb_u8_empty() {
    const WIDTH: usize = 4;
    const HEIGHT: usize = 4;
    let image = ImageBuffer::<u8, 3, false>::empty(WIDTH, HEIGHT);
    assert_eq!(image.data.len(), 4 * 4 * 3);
    let mut seen = 0;
    let mut pixels = image.iter_no_alpha();
    while let Some(pel) = pixels.next() {
        assert_eq!(pel, &[0u8, 0u8, 0u8]);
        seen += 1;
    }
    assert_eq!(seen, WIDTH * HEIGHT);
}

#[test]
fn new_rgb_u8_with_val() {
    const WIDTH: usize = 4;
    const HEIGHT: usize = 4;
    let one_pel = [1u8, 2u8, 3u8];
    let image = ImageBuffer::<u8, 3, false>::with_val(&one_pel, WIDTH, HEIGHT);
    assert_eq!(image.data.len(), 4 * 4 * 3);
    let mut seen = 0;
    let mut pixels = image.iter_no_alpha();
    while let Some(pel) = pixels.next() {
        assert_eq!(pel, &[1u8, 2u8, 3u8]);
        seen += 1;
    }
    assert_eq!(seen, WIDTH * HEIGHT);
}

#[test]
fn with_data_one_component_short_is_rejected() {
    let data = vec![0u8; 4 * 4 * 4 - 1];
    let image = ImageBuffer::<u8, 4, true>::with_data(data, 4, 4);
    assert_eq!(
        image.err(),
        Some("Data vector length does not match width, height, and number of components per pixel")
    );
}

#[test]
fn with_data_one_component_long_is_rejected() {
    let data = vec![0u16; 2 * 3 * 3 + 1];
    let image = ImageBuffer::<u16, 3, false>::with_data(data, 2, 3);
    assert!(image.is_err());
}

#[test]
fn with_data_rejects_dimensions_that_overflow() {
    let data = vec![0u8; 8];
    let image = ImageBuffer::<u8, 4, true>::with_data(data, usize::MAX, 2);
    assert!(image.is_err());
    let data = vec![0u8; 8];
    let image = ImageBuffer::<u8, 4, true>::with_data(data, usize::MAX / 2, 2);
    assert!(image.is_err());
}

#[test]
fn with_data_keeps_the_components_and_dimensions() {
    let data: Vec<u32> = (0..24).collect();
    let image = ImageBuffer::<u32, 4, true>::with_data(data.clone(), 3, 2).unwrap();
    assert_eq!(image.width, 3);
    assert_eq!(image.height, 2);
    assert_eq!(image.width(), 3);
    assert_eq!(image.height(), 2);
    assert_eq!(image.pixels(), &data);
}

#[test]
fn zero_sized_buffers_are_empty_not_errors() {
    let image = ImageBuffer::<u8, 3, false>::empty(0, 7);
    assert_eq!(image.data.len(), 0);
    assert_eq!(image.width, 0);
    assert_eq!(image.height, 7);
    assert!(image.iter().next().is_none());
    let image = ImageBuffer::<u8, 3, false>::with_data(Vec::new(), 5, 0);
    assert!(image.is_ok());
    let image = ImageBuffer::<u64, 2, true>::with_val(&[1, 2], 0, 0);
    assert_eq!(image.data.len(), 0);
}

#[test]
fn empty_is_zero_for_every_component_type() {
    assert_eq!(ImageBuffer::<u8, 1, false>::empty(2, 1).data, vec![0u8, 0]);
    assert_eq!(ImageBuffer::<u16, 1, false>::empty(2, 1).data, vec![0u16, 0]);
    assert_eq!(ImageBuffer::<u32, 1, false>::empty(2, 1).data, vec![0u32, 0]);
    assert_eq!(ImageBuffer::<u64, 1, false>::empty(2, 1).data, vec![0u64, 0]);
    assert_eq!(ImageBuffer::<u128, 1, false>::empty(2, 1).data, vec![0u128, 0]);
}

#[test]
fn uniform_fill_reads_back_through_both_views() {
    let image = ImageBuffer::<u8, 4, true>::with_val(&[1, 2, 3, 255], 3, 5);
    let mut with_alpha = image.iter_with_alpha();
    let mut count = 0;
    while let Some(pel) = with_alpha.next() {
        assert_eq!(pel, &[1u8, 2, 3, 255]);
        count += 1;
    }
    assert_eq!(count, 15);
    let mut no_alpha = image.iter_no_alpha();
    count = 0;
    while let Some(pel) = no_alpha.next() {
        assert_eq!(pel, &[1u8, 2, 3]);
        count += 1;
    }
    assert_eq!(count, 15);
    let mut default_view = image.iter();
    assert_eq!(default_view.next(), Some(&[1u8, 2, 3][..]));
}

#[test]
fn layout_facts_of_a_container() {
    assert!(<ImageBuffer<u8, 4, true> as PixelContainer>::HAS_ALPHA);
    assert!(!<ImageBuffer<u8, 3, false> as PixelContainer>::HAS_ALPHA);
    assert_eq!(<ImageBuffer<u8, 4, true> as PixelContainer>::NUM_COMPONENTS, 4);
    assert_eq!(<ImageBuffer<u8, 4, true> as PixelContainer>::alpha_idx(), Some(3));
    assert_eq!(<ImageBuffer<u8, 3, false> as PixelContainer>::alpha_idx(), None);
    assert_eq!(<ImageBuffer<u8, 4, true> as PixelContainer>::num_nonalpha_components(), 3);
    assert_eq!(<ImageBuffer<u8, 3, false> as PixelContainer>::num_nonalpha_components(), 3);
}

#[test]
fn raw_storage_can_be_read_and_written() {
    let mut image = ImageBuffer::<u8, 3, false>::empty(2, 1);
    assert_eq!(image.pixels(), &vec![0u8; 6]);
    image.pixels_mut()[4] = 9;
    assert_eq!(image.pixels(), &vec![0u8, 0, 0, 0, 9, 0]);
    assert_eq!(image.width, 2);
    assert_eq!(image.height, 1);
}

#[test]
fn default_buffer_has_no_pixels() {
    let image = ImageBuffer::<u16, 3, false>::default();
    assert_eq!(image.width, 0);
    assert_eq!(image.height, 0);
    assert!(image.data.is_empty());
}

#[test]
fn clone_copies_storage_and_dimensions() {
    let data: Vec<u8> = (0..12).collect();
    let image = ImageBuffer::<u8, 3, false>::with_data(data.clone(), 2, 2).unwrap();
    let mut copy = image.clone();
    assert_eq!(copy.data, data);
    assert_eq!(copy.width, 2);
    assert_eq!(copy.height, 2);
    copy.pixels_mut()[0] = 100;
    assert_eq!(image.data, data);
}
