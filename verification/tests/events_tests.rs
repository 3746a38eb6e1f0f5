use camera_app::events::{
    photo_saved_event, recording_failed_event, recording_started_event, recording_stopped_event,
    CameraEvent, Frame,
};

fn notice(e: CameraEvent) -> String {
    match e {
        CameraEvent::Error(m) => m,
        other => panic!("not a notice: {:?}", other),
    }
}

#[test]
fn notices() {
    assert_eq!(notice(recording_started_event("/home/u/Pictures/video_1.mp4")), "Recording to /home/u/Pictures/video_1.mp4");
    assert_eq!(notice(recording_failed_event("no element x264enc")), "Rec error: no element x264enc");
    assert_eq!(notice(recording_stopped_event()), "Recording stopped");
    assert_eq!(notice(photo_saved_event("./photo_1.jpg")), "Saved ./photo_1.jpg");
}

#[test]
fn photo_drops_alpha() {
    let frame = Frame { width: 2, height: 1, pixels: vec![10, 20, 30, 255, 40, 50, 60, 128] };
    let rgb = frame.photo_rgb().unwrap();
    assert_eq!(rgb, vec![10, 20, 30, 40, 50, 60]);
}

#[test]
fn photo_of_a_longer_buffer_uses_the_image_part() {
    let frame = Frame { width: 1, height: 1, pixels: vec![1, 2, 3, 4, 9, 9, 9, 9] };
    assert_eq!(frame.photo_rgb().unwrap(), vec![1, 2, 3]);
}

#[test]
fn photo_of_a_short_buffer_is_refused() {
    let frame = Frame { width: 2, height: 2, pixels: vec![0; 15] };
    assert!(frame.photo_rgb().is_none());
    let huge = Frame { width: u32::MAX, height: u32::MAX, pixels: vec![0; 16] };
    assert!(huge.photo_rgb().is_none());
}

#[test]
fn empty_photo() {
    let frame = Frame { width: 0, height: 3, pixels: vec![] };
    assert_eq!(frame.photo_rgb().unwrap(), Vec::<u8>::new());
}

#[test]
fn photo_of_a_two_by_two_frame() {
    let pixels: Vec<u8> = (0u8..16).collect();
    let frame = Frame { width: 2, height: 2, pixels };
    assert_eq!(frame.photo_rgb().unwrap(), vec![0, 1, 2, 4, 5, 6, 8, 9, 10, 12, 13, 14]);
}

#[test]
fn photo_of_an_empty_frame_with_a_huge_width() {
    let frame = Frame { width: 0x4000_0000, height: 0, pixels: vec![] };
    assert_eq!(frame.photo_rgb().unwrap(), Vec::<u8>::new());
    let tall = Frame { width: 0, height: u32::MAX, pixels: vec![] };
    assert_eq!(tall.photo_rgb().unwrap(), Vec::<u8>::new());
}
