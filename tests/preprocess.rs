use image_classifier::chat::{begin_chat_message, ChatMessage, ChatStep};
use image_classifier::diagnosis::screenshot_tensor;
use image_classifier::preprocess::{
    preprocess, tensor_from_grid, InputError, RgbGrid, GENERAL_SIDE, SCREENSHOT_SIDE,
};

fn png_bytes(width: u32, height: u32, f: impl Fn(u32, u32) -> [u8; 3]) -> Vec<u8> {
    let img = image::RgbImage::from_fn(width, height, |x, y| image::Rgb(f(x, y)));
    let mut out = std::io::Cursor::new(Vec::new());
    img.write_to(&mut out, image::ImageFormat::Png).unwrap();
    out.into_inner()
}

fn base64_of(bytes: &[u8]) -> String {
    base64::Engine::encode(&base64::engine::general_purpose::STANDARD, bytes)
}

#[test]
fn grid_layout_is_row_major_and_interleaved() {
    let grid = RgbGrid { width: 2, height: 2, samples: (0u8..12).collect() };
    let t = tensor_from_grid(&grid);
    assert_eq!(t, (0u8..12).collect::<Vec<u8>>());
    // pixel (x = 1, y = 0) comes second, pixel (x = 0, y = 1) third
    assert_eq!(&t[3..6], &[3, 4, 5]);
    assert_eq!(&t[6..9], &[6, 7, 8]);
}

#[test]
fn grid_layout_ignores_trailing_samples() {
    let grid = RgbGrid { width: 1, height: 1, samples: vec![9, 8, 7, 6, 5] };
    assert_eq!(tensor_from_grid(&grid), vec![9, 8, 7]);
    let empty = RgbGrid { width: 0, height: 5, samples: vec![] };
    assert!(tensor_from_grid(&empty).is_empty());
}

#[test]
fn uniform_image_keeps_its_colour() {
    let bytes = png_bytes(5, 3, |_, _| [200, 100, 50]);
    let t = preprocess(&bytes, GENERAL_SIDE).unwrap();
    assert_eq!(t.len(), 3 * 32 * 32);
    for px in t.chunks(3) {
        assert_eq!(px, &[200, 100, 50]);
    }
}

#[test]
fn tensor_length_matches_resolution() {
    let bytes = png_bytes(7, 11, |x, y| [(x * 30) as u8, (y * 20) as u8, 255]);
    assert_eq!(preprocess(&bytes, GENERAL_SIDE).unwrap().len(), 3 * 32 * 32);
    assert_eq!(preprocess(&bytes, SCREENSHOT_SIDE).unwrap().len(), 3 * 128 * 128);
}

#[test]
fn resizing_keeps_left_and_right_apart() {
    let bytes = png_bytes(2, 2, |x, _| if x == 0 { [0, 0, 0] } else { [255, 255, 255] });
    let t = preprocess(&bytes, GENERAL_SIDE).unwrap();
    // top-left pixel stays dark, top-right stays bright
    assert!(t[0] < 64);
    assert!(t[3 * 31] > 191);
}

#[test]
fn preprocessing_is_repeatable() {
    let bytes = png_bytes(9, 4, |x, y| [(x * 17 + y) as u8, (y * 50) as u8, (x * y) as u8]);
    let a = preprocess(&bytes, SCREENSHOT_SIDE).unwrap();
    let b = preprocess(&bytes, SCREENSHOT_SIDE).unwrap();
    assert_eq!(a, b);
}

#[test]
fn malformed_bytes_are_rejected() {
    assert_eq!(preprocess(b"definitely not an image", GENERAL_SIDE), Err(InputError::Image));
    assert_eq!(preprocess(&[], SCREENSHOT_SIDE), Err(InputError::Image));
    let mut truncated = png_bytes(4, 4, |_, _| [1, 2, 3]);
    truncated.truncate(20);
    assert_eq!(preprocess(&truncated, GENERAL_SIDE), Err(InputError::Image));
}

#[test]
fn screenshot_data_is_base64_decoded() {
    let bytes = png_bytes(3, 3, |_, _| [10, 20, 30]);
    let t = screenshot_tensor(&base64_of(&bytes)).unwrap();
    assert_eq!(t.len(), 3 * 128 * 128);
    assert_eq!(&t[..3], &[10, 20, 30]);
}

#[test]
fn screenshot_data_errors() {
    assert_eq!(screenshot_tensor("%%%"), Err(InputError::Base64));
    assert_eq!(screenshot_tensor(&base64_of(b"plain text")), Err(InputError::Image));
}

#[test]
fn image_message_asks_for_classification() {
    let bytes = png_bytes(6, 6, |_, _| [0, 0, 0]);
    let msg = ChatMessage { message: String::new(), image_data: Some(base64_of(&bytes)) };
    match begin_chat_message(&msg) {
        ChatStep::Classify(t) => {
            assert_eq!(t.len(), 3 * 128 * 128);
            assert!(t.iter().all(|&v| v == 0));
        }
        ChatStep::Reply(_) => panic!("a valid screenshot must be classified"),
    }
}
