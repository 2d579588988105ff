use rasterwave::SstvMode;
use rasterwave_node::codec::{fax_image, sstv_image, sstv_mode_image};
use rasterwave_node::modes::JsSstvMode;
use rasterwave_node::error::LibError;

#[test]
fn gray_page_needs_one_byte_per_pixel() {
    let pixels: Vec<u8> = (0..12u8).collect();
    let page = fax_image(4, 3, pixels.clone()).expect("a full page is accepted");
    assert_eq!(page.pixels(), &pixels[..]);
    assert_eq!(page.width(), 4);
    assert_eq!(page.height(), 3);
    assert!(matches!(fax_image(4, 3, vec![0u8; 11]), Err(LibError::ImageRejected(_))));
    assert!(matches!(fax_image(4, 3, vec![0u8; 13]), Err(LibError::ImageRejected(_))));
}

#[test]
fn rgb_image_needs_three_bytes_per_pixel() {
    let bytes: Vec<u8> = (0..24u8).collect();
    let image = sstv_image(4, 2, &bytes).expect("interleaved RGB is accepted");
    assert_eq!(image.width(), 4);
    assert_eq!(image.height(), 2);
    assert_eq!(image.to_rgb8(), bytes);
    assert!(matches!(sstv_image(4, 2, &bytes[..23]), Err(LibError::ImageRejected(_))));
    assert!(matches!(sstv_image(4, 2, &bytes[..8]), Err(LibError::ImageRejected(_))));
}

#[test]
fn mode_image_is_sized_by_the_mode() {
    let spec = SstvMode::Robot36.spec();
    let bytes = vec![7u8; (spec.width * spec.height * 3) as usize];
    let image = sstv_mode_image(JsSstvMode::Robot36, &bytes).expect("a full frame is accepted");
    assert_eq!((image.width(), image.height()), (spec.width, spec.height));
    assert_eq!(image.to_rgb8(), bytes);
    assert!(matches!(sstv_mode_image(JsSstvMode::Robot36, &bytes[1..]), Err(LibError::ImageRejected(_))));
    let martin = SstvMode::Martin1.spec();
    assert_ne!((martin.width, martin.height), (0, 0));
    assert!(matches!(sstv_mode_image(JsSstvMode::Martin1, &bytes), Err(_)) == (martin.width * martin.height != spec.width * spec.height));
}
