use pixelbuf::image_buffer::ImageBuffer;
use pixelbuf::pixel::{cast, cast_or_default, PixelComponent};

fn sample() -> ImageBuffer<u8, 3, false> {
    let data: Vec<u8> = (1..=12).collect();
    ImageBuffer::<u8, 3, false>::with_data(data, 2, 2).unwrap()
}

#[test]
fn map_with_identity_returns_an_equal_buffer() {
    let image = sample();
    let mapped = image.map(&mut |pel: &[u8; 3]| *pel);
    assert_eq!(mapped.data, image.data);
    assert_eq!(mapped.width, 2);
    assert_eq!(mapped.height, 2);
}

#[test]
fn map_applies_the_function_to_each_pixel_alone() {
    let image = sample();
    let mapped = image.map(&mut |pel: &[u8; 3]| [pel[2], pel[1], pel[0] * 2]);
    assert_eq!(mapped.data, vec![3, 2, 2, 6, 5, 8, 9, 8, 14, 12, 11, 20]);
    assert_eq!(image.data, (1..=12).collect::<Vec<u8>>());
}

#[test]
fn map_then_its_inverse_returns_the_source() {
    let image = sample();
    let doubled = image.map(&mut |pel: &[u8; 3]| [pel[0] * 2, pel[1] * 2, pel[2] * 2]);
    assert_eq!(doubled.data, vec![2, 4, 6, 8, 10, 12, 14, 16, 18, 20, 22, 24]);
    let halved = doubled.map(&mut |pel: &[u8; 3]| [pel[0] / 2, pel[1] / 2, pel[2] / 2]);
    assert_eq!(halved.data, image.data);
}

#[test]
fn map_into_changes_component_type_and_layout() {
    let image = sample();
    let sums: ImageBuffer<u16, 1, false> =
        image.map_into(&mut |pel: &[u8; 3]| [pel[0] as u16 + pel[1] as u16 + pel[2] as u16]);
    assert_eq!(sums.data, vec![6u16, 15, 24, 33]);
    assert_eq!(sums.width, 2);
    assert_eq!(sums.height, 2);
    let with_alpha: ImageBuffer<u32, 4, true> =
        image.map_into(&mut |pel: &[u8; 3]| [pel[0] as u32, pel[1] as u32, pel[2] as u32, 255]);
    assert_eq!(&with_alpha.data[..8], &[1, 2, 3, 255, 4, 5, 6, 255]);
}

#[test]
fn apply_maps_in_place() {
    let mut image = sample();
    image.apply(&mut |pel: &[u8; 3]| [pel[0] + 100, pel[1], 0]);
    assert_eq!(image.data, vec![101, 2, 0, 104, 5, 0, 107, 8, 0, 110, 11, 0]);
    assert_eq!(image.width, 2);
    assert_eq!(image.height, 2);
}

#[test]
fn as_other_keeps_numbers_that_the_new_type_can_hold() {
    let image = ImageBuffer::<u8, 3, false>::with_val(&[255, 0, 128], 2, 1);
    let wide: ImageBuffer<u32, 3, false> = image.as_other();
    assert_eq!(wide.data, vec![255u32, 0, 128, 255, 0, 128]);
    assert_eq!(wide.width, 2);
    assert_eq!(wide.height, 1);
    let widest: ImageBuffer<u128, 3, false> = image.as_other();
    assert_eq!(widest.data, vec![255u128, 0, 128, 255, 0, 128]);
}

#[test]
fn as_other_falls_back_to_zero_and_does_not_clamp() {
    let image = ImageBuffer::<u16, 1, false>::with_val(&[300], 1, 1);
    let narrow: ImageBuffer<u8, 1, false> = image.as_other();
    assert_eq!(narrow.data, vec![0u8]);
    let image = ImageBuffer::<u16, 2, false>::with_val(&[255, 256], 1, 1);
    let narrow: ImageBuffer<u8, 2, false> = image.as_other();
    assert_eq!(narrow.data, vec![255u8, 0]);
    let image = ImageBuffer::<u128, 1, false>::with_val(&[u64::MAX as u128 + 1], 1, 1);
    let narrow: ImageBuffer<u64, 1, false> = image.as_other();
    assert_eq!(narrow.data, vec![0u64]);
}

#[test]
fn as_other_aligns_channels_by_index() {
    let image = sample();
    let more: ImageBuffer<u16, 4, true> = image.as_other();
    assert_eq!(more.data, vec![1u16, 2, 3, 0, 4, 5, 6, 0, 7, 8, 9, 0, 10, 11, 12, 0]);
    let fewer: ImageBuffer<u8, 2, false> = image.as_other();
    assert_eq!(fewer.data, vec![1u8, 2, 4, 5, 7, 8, 10, 11]);
    let rgba = ImageBuffer::<u8, 4, true>::with_val(&[1, 2, 3, 255], 1, 1);
    let copy: ImageBuffer<u8, 4, true> = rgba.as_other();
    assert_eq!(copy.data, vec![1u8, 2, 3, 255]);
}

#[test]
fn casts_between_component_types() {
    assert_eq!(cast::<u16, u8>(255), Some(255u8));
    assert_eq!(cast::<u16, u8>(256), None);
    assert_eq!(cast::<u8, u128>(7), Some(7u128));
    assert_eq!(cast::<u64, u32>(u32::MAX as u64), Some(u32::MAX));
    assert_eq!(cast::<u64, u32>(u32::MAX as u64 + 1), None);
    assert_eq!(cast::<u128, u64>(u128::MAX), None);
    assert_eq!(cast::<u32, u16>(65535), Some(65535u16));
    assert_eq!(cast_or_default::<u32, u16>(65536), 0u16);
    assert_eq!(cast_or_default::<u32, u16>(12), 12u16);
}

#[test]
fn component_capabilities() {
    assert_eq!(<u8 as PixelComponent>::zero(), 0u8);
    assert_eq!(<u128 as PixelComponent>::zero(), 0u128);
    assert_eq!(<u32 as PixelComponent>::fallback(), 0u32);
    assert_eq!(200u8.widest(), 200u128);
    assert_eq!(<u8 as PixelComponent>::narrowed(200), Some(200u8));
    assert_eq!(<u8 as PixelComponent>::narrowed(256), None);
    assert_eq!(<u16 as PixelComponent>::narrowed(65535), Some(65535u16));
    assert_eq!(<u64 as PixelComponent>::narrowed(u128::MAX), None);
    assert_eq!(<u128 as PixelComponent>::narrowed(u128::MAX), Some(u128::MAX));
}

#[test]
fn plane_round_trip_reproduces_the_channel() {
    let image = sample();
    let plane = image.get_plane(1).unwrap();
    assert_eq!(plane.data, vec![2u8, 5, 8, 11]);
    assert_eq!(plane.width, 2);
    assert_eq!(plane.height, 2);
    let mut target = ImageBuffer::<u8, 3, false>::empty(2, 2);
    target.put_plane(1, &plane);
    assert_eq!(target.data, vec![0, 2, 0, 0, 5, 0, 0, 8, 0, 0, 11, 0]);
    assert_eq!(target.get_plane(1).unwrap().data, plane.data);
}

#[test]
fn get_plane_rejects_an_index_out_of_range() {
    let image = sample();
    assert_eq!(image.get_plane(3).err(), Some("Plane index out of bounds"));
    assert!(image.get_plane(usize::MAX).is_err());
    assert!(image.get_plane(2).is_ok());
}

#[test]
fn const_indexed_planes() {
    let image = sample();
    let plane = image.get_plane_const::<2>();
    assert_eq!(plane.data, vec![3u8, 6, 9, 12]);
    let mut target = ImageBuffer::<u8, 3, false>::with_val(&[9, 9, 9], 2, 2);
    target.put_plane_const::<0>(&plane);
    assert_eq!(target.data, vec![3, 9, 9, 6, 9, 9, 9, 9, 9, 12, 9, 9]);
}

#[test]
fn get_alpha_is_the_last_channel_or_nothing() {
    let image = sample();
    assert!(image.get_alpha().is_none());
    let data: Vec<u8> = vec![1, 2, 3, 40, 5, 6, 7, 80];
    let rgba = ImageBuffer::<u8, 4, true>::with_data(data, 1, 2).unwrap();
    let alpha = rgba.get_alpha().unwrap();
    assert_eq!(alpha.data, vec![40u8, 80]);
    assert_eq!(alpha.width, 1);
    assert_eq!(alpha.height, 2);
}

#[test]
fn put_plane_stops_at_the_shorter_of_buffer_and_plane() {
    let mut image = ImageBuffer::<u8, 2, false>::empty(2, 2);
    let short = ImageBuffer::<u8, 1, false>::with_data(vec![7, 8], 2, 1).unwrap();
    image.put_plane(0, &short);
    assert_eq!(image.data, vec![7, 0, 8, 0, 0, 0, 0, 0]);
    let mut small = ImageBuffer::<u8, 2, false>::empty(1, 1);
    let long = ImageBuffer::<u8, 1, false>::with_data(vec![1, 2, 3], 3, 1).unwrap();
    small.put_plane(1, &long);
    assert_eq!(small.data, vec![0, 1]);
}
