use camera_app::files::{photo_file_name, video_file_name};

#[test]
fn names_from_stamps() {
    assert_eq!(photo_file_name("20240131_235959"), "photo_20240131_235959.jpg");
    assert_eq!(video_file_name("20240131_235959"), "video_20240131_235959.mp4");
    assert_eq!(photo_file_name(""), "photo_.jpg");
    assert_eq!(video_file_name("x"), "video_x.mp4");
}
