use vstd::prelude::*;
use crate::text::joined;

verus! {

/// The file name of a photo taken at the time `stamp` (the application
/// writes the local time as `%Y%m%d_%H%M%S`).
pub fn photo_file_name(stamp: &str) -> (name: String)
    ensures
        name@ == "photo_"@ + stamp@ + ".jpg"@,
{
    let mut name = joined("photo_", stamp);
    name.append(".jpg");
    name
}

/// The file name of a recording started at the time `stamp`.
pub fn video_file_name(stamp: &str) -> (name: String)
    ensures
        name@ == "video_"@ + stamp@ + ".mp4"@,
{
    let mut name = joined("video_", stamp);
    name.append(".mp4");
    name
}

} // verus!
