# camera_app

The decision logic of a Linux webcam application (preview, photos, MP4
recording), written in Verus and verified.

- `src/` is the verified library:
  - `capabilities`: the resolution and frame-rate presets, which of them are
    offered after probing a camera, and which size or rate a chosen label selects;
  - `commands`: the camera thread as a state machine from commands to actions;
  - `frames`: what happens with each preview frame, and the recording clock;
  - `events`: the reports sent to the user interface, and the RGB pixels of a photo;
  - `files`: the names of photo and video files;
  - `power`: the reaction to the system's sleep and wake signals;
  - `text`: decimal formatting and the `MM:SS` recording label.
- `app/` is the program around it: the Slint window, the GStreamer pipelines,
  the threads and channels, file saving and the D-Bus power monitor.
- `tests/` exercises the library.
