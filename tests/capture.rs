use base64::Engine;
use overlay_capture::encode::{
    capture_rgba, data_uri_from_base64, encode_capture_png, encode_capture_raw, png_data_uri,
};
use overlay_capture::error::CaptureError;
use overlay_capture::geometry::{crop_region, display_containing, resolve_target, select_display, CropRect, Rect};
use overlay_capture::pixels::{bgra_to_rgba, crop_pixels, pack_raw_frame};

fn rect(x: i32, y: i32, width: u32, height: u32) -> Rect {
    Rect { x, y, width, height }
}

fn full_hd() -> Rect {
    rect(0, 0, 1920, 1080)
}

fn frame_of(width: u32, height: u32) -> Vec<[u8; 4]> {
    let mut frame = Vec::new();
    for y in 0..height {
        for x in 0..width {
            frame.push([(x % 256) as u8, (y % 256) as u8, 7, 255]);
        }
    }
    frame
}

fn decoded_dimensions(uri: &str) -> (u32, u32) {
    let b64 = uri.strip_prefix("data:image/png;base64,").expect("data URI prefix");
    let png = base64::engine::general_purpose::STANDARD.decode(b64).expect("valid base64");
    let img = image::load_from_memory(&png).expect("valid PNG");
    (img.width(), img.height())
}

#[test]
fn window_inside_display_keeps_its_size() {
    let c = crop_region(&rect(100, 100, 400, 300), &full_hd(), 1920, 1080);
    assert_eq!(c, Ok(CropRect { x: 100, y: 100, width: 400, height: 300 }));
}

#[test]
fn window_inside_display_encodes_full_size_png() {
    let frame = frame_of(1920, 1080);
    let uri = encode_capture_png(&rect(100, 100, 400, 300), &full_hd(), &frame, 1920, 1080).unwrap();
    assert_eq!(decoded_dimensions(&uri), (400, 300));
}

#[test]
fn window_past_right_edge_is_clamped() {
    let c = crop_region(&rect(1900, 100, 400, 300), &full_hd(), 1920, 1080);
    assert_eq!(c, Ok(CropRect { x: 1900, y: 100, width: 20, height: 300 }));
}

#[test]
fn window_past_right_edge_encodes_clamped_png() {
    let frame = frame_of(1920, 1080);
    let uri = encode_capture_png(&rect(1900, 100, 400, 300), &full_hd(), &frame, 1920, 1080).unwrap();
    assert_eq!(decoded_dimensions(&uri), (20, 300));
}

#[test]
fn window_past_left_edge_keeps_visible_part() {
    let c = crop_region(&rect(-50, 10, 100, 100), &full_hd(), 1920, 1080);
    assert_eq!(c, Ok(CropRect { x: 0, y: 10, width: 50, height: 100 }));
}

#[test]
fn crop_never_exceeds_smaller_frame() {
    let c = crop_region(&rect(100, 100, 400, 300), &full_hd(), 300, 200);
    assert_eq!(c, Ok(CropRect { x: 100, y: 100, width: 200, height: 100 }));
}

#[test]
fn window_off_every_display_fails() {
    let displays = vec![full_hd(), rect(1920, 0, 1280, 1024)];
    let target = rect(5000, 3000, 400, 300);
    let chosen = select_display(&target, &displays).unwrap();
    assert_eq!(chosen, 0);
    let frame = frame_of(1920, 1080);
    let r = encode_capture_png(&target, &displays[chosen], &frame, 1920, 1080);
    assert_eq!(r, Err(CaptureError::OutsideVisibleArea));
    assert_eq!(
        encode_capture_raw(&target, &displays[chosen], &frame, 1920, 1080),
        Err(CaptureError::OutsideVisibleArea)
    );
}

#[test]
fn display_holding_center_is_selected() {
    let displays = vec![full_hd(), rect(1920, 0, 1280, 1024)];
    assert_eq!(select_display(&rect(1800, 100, 400, 300), &displays), Ok(1));
    assert_eq!(select_display(&rect(100, 100, 400, 300), &displays), Ok(0));
    assert_eq!(display_containing(1920, 0, &displays), Some(1));
    assert_eq!(display_containing(-1, 0, &displays), None);
}

#[test]
fn no_display_means_no_monitor() {
    let displays: Vec<Rect> = Vec::new();
    assert_eq!(select_display(&rect(0, 0, 10, 10), &displays), Err(CaptureError::NoMonitor));
    assert_eq!(resolve_target(None, &displays), Err(CaptureError::NoMonitor));
}

#[test]
fn missing_window_target_is_first_display() {
    let displays = vec![rect(-1280, 0, 1280, 1024), full_hd()];
    assert_eq!(resolve_target(None, &displays), Ok(rect(-1280, 0, 1280, 1024)));
    assert_eq!(resolve_target(Some(rect(1, 2, 3, 4)), &displays), Ok(rect(1, 2, 3, 4)));
}

#[test]
fn frame_of_wrong_size_is_invalid() {
    let frame = frame_of(10, 10);
    assert_eq!(
        encode_capture_png(&rect(0, 0, 5, 5), &rect(0, 0, 10, 10), &frame, 10, 11),
        Err(CaptureError::InvalidFrame)
    );
}

#[test]
fn crop_copies_rows_in_order() {
    let frame: Vec<[u8; 4]> = (0..12u8).map(|i| [i, 0, 0, 0]).collect();
    let c = CropRect { x: 1, y: 1, width: 2, height: 2 };
    let out: Vec<u8> = crop_pixels(&frame, 4, 3, &c).iter().map(|p| p[0]).collect();
    assert_eq!(out, vec![5, 6, 9, 10]);
}

#[test]
fn bgra_is_reordered_to_rgba() {
    assert_eq!(bgra_to_rgba(&vec![[1, 2, 3, 4], [10, 20, 30, 40]]), vec![3, 2, 1, 4, 30, 20, 10, 40]);
}

#[test]
fn raw_frame_has_little_endian_header() {
    assert_eq!(pack_raw_frame(0x0102_0304, 2, &vec![9, 8]), vec![4, 3, 2, 1, 2, 0, 0, 0, 9, 8]);
}

#[test]
fn raw_capture_reports_crop_size() {
    let frame = frame_of(4, 3);
    let raw = encode_capture_raw(&rect(3, 1, 5, 5), &rect(0, 0, 4, 3), &frame, 4, 3).unwrap();
    assert_eq!(&raw[0..8], &[1, 0, 0, 0, 2, 0, 0, 0]);
    assert_eq!(&raw[8..], &[7, 1, 3, 255, 7, 2, 3, 255]);
    let (c, rgba) = capture_rgba(&rect(3, 1, 5, 5), &rect(0, 0, 4, 3), &frame, 4, 3).unwrap();
    assert_eq!(c, CropRect { x: 3, y: 1, width: 1, height: 2 });
    assert_eq!(rgba, vec![7, 1, 3, 255, 7, 2, 3, 255]);
}

#[test]
fn data_uri_wraps_base64_text() {
    assert_eq!(data_uri_from_base64("QUJD"), "data:image/png;base64,QUJD");
}

#[test]
fn png_data_uri_encodes_bytes_as_base64() {
    assert_eq!(png_data_uri(&vec![1, 2, 3]), "data:image/png;base64,AQID");
    assert_eq!(png_data_uri(&vec![0xff]), "data:image/png;base64,/w==");
}

#[test]
fn png_round_trip_matches_crop() {
    let frame = frame_of(64, 48);
    let display = rect(-64, 0, 64, 48);
    let target = rect(-70, 40, 20, 20);
    let (c, _) = capture_rgba(&target, &display, &frame, 64, 48).unwrap();
    let uri = encode_capture_png(&target, &display, &frame, 64, 48).unwrap();
    assert_eq!(decoded_dimensions(&uri), (c.width, c.height));
    assert_eq!((c.width, c.height), (14, 8));
}
