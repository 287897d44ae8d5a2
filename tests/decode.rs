use sck_rs::decode::{decode_frame, PixelFormat, RawFrame, RowOrder};
use sck_rs::error::ErrorKind;

fn frame(width: u32, height: u32, stride: usize, format: PixelFormat, order: RowOrder, data: Vec<u8>) -> RawFrame {
    RawFrame { width, height, bytes_per_row: stride, format, row_order: order, data }
}

#[test]
fn bgra_red_decodes_to_rgba_red() {
    let (w, h, stride) = (3u32, 2u32, 16usize);
    let mut data = Vec::new();
    for _ in 0..h {
        for _ in 0..w {
            data.extend_from_slice(&[0, 0, 255, 255]);
        }
        data.extend_from_slice(&[9, 9, 9, 9]);
    }
    let img = decode_frame(&frame(w, h, stride, PixelFormat::Bgra8, RowOrder::TopDown, data)).unwrap();
    assert_eq!(img.width, 3);
    assert_eq!(img.height, 2);
    assert_eq!(img.pixels.len(), 3 * 2 * 4);
    for px in img.pixels.chunks(4) {
        assert_eq!(px, &[255, 0, 0, 255]);
    }
}

#[test]
fn rgba_frame_keeps_channel_order_and_drops_padding() {
    let data = vec![1, 2, 3, 4, 0, 0, 5, 6, 7, 8, 0, 0];
    let img = decode_frame(&frame(1, 2, 6, PixelFormat::Rgba8, RowOrder::TopDown, data)).unwrap();
    assert_eq!(img.pixels, vec![1, 2, 3, 4, 5, 6, 7, 8]);
}

#[test]
fn bottom_up_frame_is_flipped() {
    let data = vec![10, 20, 30, 40, 50, 60, 70, 80];
    let img = decode_frame(&frame(1, 2, 4, PixelFormat::Bgra8, RowOrder::BottomUp, data)).unwrap();
    assert_eq!(img.pixels, vec![70, 60, 50, 80, 30, 20, 10, 40]);
}

#[test]
fn pixel_order_is_row_major() {
    let data = vec![1, 1, 1, 1, 2, 2, 2, 2, 3, 3, 3, 3, 4, 4, 4, 4];
    let img = decode_frame(&frame(2, 2, 8, PixelFormat::Rgba8, RowOrder::TopDown, data)).unwrap();
    assert_eq!(img.pixels, vec![1, 1, 1, 1, 2, 2, 2, 2, 3, 3, 3, 3, 4, 4, 4, 4]);
}

#[test]
fn unsupported_format_fails_to_decode() {
    let f = frame(1, 1, 4, PixelFormat::Unsupported(0x34323076), RowOrder::TopDown, vec![0; 4]);
    assert_eq!(decode_frame(&f).unwrap_err().kind(), ErrorKind::DecodeFailed);
}

#[test]
fn short_buffer_fails_to_decode() {
    let f = frame(2, 2, 8, PixelFormat::Bgra8, RowOrder::TopDown, vec![0; 15]);
    assert_eq!(decode_frame(&f).unwrap_err().kind(), ErrorKind::DecodeFailed);
}

#[test]
fn narrow_stride_fails_to_decode() {
    let f = frame(2, 1, 7, PixelFormat::Bgra8, RowOrder::TopDown, vec![0; 16]);
    assert_eq!(decode_frame(&f).unwrap_err().kind(), ErrorKind::DecodeFailed);
}

#[test]
fn empty_frame_decodes_to_empty_raster() {
    let img = decode_frame(&frame(0, 0, 0, PixelFormat::Rgba8, RowOrder::TopDown, Vec::new())).unwrap();
    assert!(img.pixels.is_empty());
}
