use sck_rs::content::{
    list_shareable_content, primary_display_id, resolve_target, CaptureTarget, DisplayRecord,
    ShareableContent,
};
use sck_rs::decode::{PixelFormat, RawFrame, RowOrder};
use sck_rs::error::{ErrorKind, XCapError};
use sck_rs::session::{CaptureSession, NextAction, Phase, TeardownStep};

fn display(id: u32, x: i32, y: i32) -> DisplayRecord {
    DisplayRecord { id, x, y, width: 4, height: 2 }
}

fn snapshot() -> ShareableContent {
    ShareableContent { displays: vec![display(7, 0, 0), display(8, 1920, 0)], windows: Vec::new() }
}

fn solid(width: u32, height: u32, bgra: [u8; 4]) -> RawFrame {
    let mut data = Vec::new();
    for _ in 0..(width * height) {
        data.extend_from_slice(&bgra);
    }
    RawFrame {
        width,
        height,
        bytes_per_row: width as usize * 4,
        format: PixelFormat::Bgra8,
        row_order: RowOrder::TopDown,
        data,
    }
}

fn started(stream_id: u64, target: CaptureTarget) -> CaptureSession {
    let mut s = CaptureSession::open(stream_id, &snapshot(), target, 4, 2).unwrap();
    assert_eq!(s.next_action(), NextAction::StartStream);
    s.on_start_result(true);
    assert_eq!(s.next_action(), NextAction::AwaitFrame);
    s
}

#[test]
fn capture_returns_first_frame_as_rgba() {
    let mut s = started(1, CaptureTarget::Display(7));
    assert!(s.on_frame(1, solid(4, 2, [0, 0, 255, 255])));
    assert!(!s.on_frame(1, solid(4, 2, [255, 0, 0, 255])));
    assert_eq!(s.next_action(), NextAction::TearDown);
    let steps = s.stop();
    assert_eq!(steps, vec![TeardownStep::UnregisterCallback, TeardownStep::StopStream]);
    assert_eq!(s.next_action(), NextAction::Finish);
    let img = s.finish().unwrap();
    assert_eq!((img.width, img.height), (4, 2));
    assert_eq!(img.pixels.len(), 4 * 2 * 4);
    for px in img.pixels.chunks(4) {
        assert_eq!(px, &[255, 0, 0, 255]);
    }
}

#[test]
fn wait_without_frame_times_out_and_late_frames_are_ignored() {
    let mut s = started(1, CaptureTarget::Display(7));
    s.on_wait_elapsed();
    assert_eq!(s.phase, Phase::TimedOut);
    s.stop();
    assert!(!s.callback_registered);
    assert!(!s.stream_running);
    assert!(!s.on_frame(1, solid(4, 2, [0, 0, 255, 255])));
    assert!(s.slot.is_none());
    assert_eq!(s.finish().unwrap_err().kind(), ErrorKind::CaptureTimedOut);
}

#[test]
fn stop_twice_releases_nothing_the_second_time() {
    let mut s = started(1, CaptureTarget::Display(7));
    assert_eq!(s.stop().len(), 2);
    assert!(s.stop().is_empty());
    assert!(s.stop().is_empty());
    assert!(s.stopped);

    let mut idle = CaptureSession::open(2, &snapshot(), CaptureTarget::Display(8), 4, 2).unwrap();
    assert!(idle.stop().is_empty());
    assert_eq!(idle.finish().unwrap_err().kind(), ErrorKind::Other);
}

#[test]
fn concurrent_sessions_keep_their_own_frames() {
    let mut a = started(1, CaptureTarget::Display(7));
    let mut b = started(2, CaptureTarget::Display(8));
    assert!(!b.on_frame(1, solid(4, 2, [0, 0, 255, 255])));
    assert!(!a.on_frame(2, solid(4, 2, [255, 0, 0, 255])));
    assert!(a.on_frame(1, solid(4, 2, [0, 0, 255, 255])));
    assert!(b.on_frame(2, solid(4, 2, [255, 0, 0, 255])));
    a.stop();
    b.stop();
    assert_eq!(&a.finish().unwrap().pixels[0..4], &[255, 0, 0, 255]);
    assert_eq!(&b.finish().unwrap().pixels[0..4], &[0, 0, 255, 255]);
}

#[test]
fn zero_size_request_fails_to_start() {
    let e = CaptureSession::open(1, &snapshot(), CaptureTarget::Display(7), 0, 2).unwrap_err();
    assert_eq!(e.kind(), ErrorKind::StartFailed);
    let e = CaptureSession::open(1, &snapshot(), CaptureTarget::Display(7), 4, 0).unwrap_err();
    assert_eq!(e.kind(), ErrorKind::StartFailed);
}

#[test]
fn stale_id_is_target_not_found() {
    let e = CaptureSession::open(1, &snapshot(), CaptureTarget::Window(7), 4, 2).unwrap_err();
    assert_eq!(e.kind(), ErrorKind::TargetNotFound);
    let e = CaptureSession::open(1, &ShareableContent::empty(), CaptureTarget::Display(7), 4, 2)
        .unwrap_err();
    assert_eq!(e.kind(), ErrorKind::TargetNotFound);
    assert!(resolve_target(&snapshot(), CaptureTarget::Display(8)).is_ok());
}

#[test]
fn empty_or_unauthorized_listing_fails() {
    let e = list_shareable_content(true, ShareableContent::empty()).unwrap_err();
    assert_eq!(e.kind(), ErrorKind::NoContent);
    let e = list_shareable_content(false, snapshot()).unwrap_err();
    assert_eq!(e.kind(), ErrorKind::PermissionDenied);
    let c = list_shareable_content(true, snapshot()).unwrap();
    assert_eq!(c.displays.len(), 2);
}

#[test]
fn rejected_stream_is_start_failed() {
    let mut s = CaptureSession::open(1, &snapshot(), CaptureTarget::Display(7), 4, 2).unwrap();
    s.on_start_result(false);
    assert!(!s.on_frame(1, solid(4, 2, [0, 0, 0, 0])));
    assert!(s.stop().is_empty());
    assert_eq!(s.finish().unwrap_err().kind(), ErrorKind::StartFailed);
}

#[test]
fn stream_error_is_delivery_error() {
    let mut s = started(1, CaptureTarget::Display(7));
    s.on_stream_error();
    s.stop();
    assert_eq!(s.finish().unwrap_err().kind(), ErrorKind::DeliveryError);
}

#[test]
fn frame_of_wrong_size_is_decode_failed() {
    let mut s = started(1, CaptureTarget::Display(7));
    assert!(s.on_frame(1, solid(3, 2, [0, 0, 0, 0])));
    s.stop();
    assert_eq!(s.finish().unwrap_err().kind(), ErrorKind::DecodeFailed);
}

#[test]
fn primary_display_is_first_at_origin() {
    assert_eq!(primary_display_id(&vec![display(3, 1920, 0), display(5, 0, 0), display(6, 0, 0)]), 5);
    assert_eq!(primary_display_id(&vec![display(3, 1920, 0), display(4, -1920, 0)]), 3);
    assert_eq!(primary_display_id(&Vec::new()), 0);
}

#[test]
fn error_constructors_set_kind_and_message() {
    let e = XCapError::new("boom");
    assert_eq!(e.kind(), ErrorKind::Other);
    assert_eq!(e.message(), "boom");
    assert_eq!(XCapError::no_monitors().kind(), ErrorKind::NoContent);
    assert_eq!(XCapError::no_windows().kind(), ErrorKind::NoContent);
}
