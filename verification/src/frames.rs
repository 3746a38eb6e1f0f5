use vstd::prelude::*;
use crate::text::{recording_label, recording_time_label};

verus! {

/// The clock's count after a frame: one more when a recorder runs and a
/// second or more has passed, unchanged when less has passed, zero when no
/// recorder runs.
pub open spec fn clock_after(seconds: nat, recording: bool, elapsed_secs: nat) -> nat {
    if !recording {
        0
    } else if elapsed_secs >= 1 {
        seconds + 1
    } else {
        seconds
    }
}

/// The clock's count after a sequence of frames, each given as whether a
/// recorder ran and the whole seconds elapsed on the timer.
pub open spec fn clock_after_frames(seconds: nat, frames: Seq<(bool, nat)>) -> nat
    decreases frames.len(),
{
    if frames.len() == 0 {
        seconds
    } else {
        clock_after_frames(clock_after(seconds, frames[0].0, frames[0].1), frames.drop_first())
    }
}

/// What to do with one preview frame.
pub struct FrameStep {
    /// Save this frame as a photo.
    pub save_photo: bool,
    /// Hand a copy of this frame to the running recorder.
    pub forward_to_recorder: bool,
    /// Restart the one-second timer of the recording clock from now.
    pub restart_timer: bool,
    /// The recording time to show, when it advanced with this frame.
    pub time_label: Option<String>,
}

/// Counts the whole seconds of the running recording, advancing by one on
/// each frame that arrives at least a second after the last advance.
pub struct RecordingClock {
    seconds: u64,
}

impl RecordingClock {
    /// The seconds counted so far.
    pub closed spec fn spec_seconds(&self) -> nat {
        self.seconds as nat
    }

    /// A clock at zero.
    pub fn new() -> (c: Self)
        ensures
            c.spec_seconds() == 0,
    {
        RecordingClock { seconds: 0 }
    }

    /// The seconds counted so far.
    pub fn seconds(&self) -> (s: u64)
        ensures
            s as nat == self.spec_seconds(),
    {
        self.seconds
    }

    /// Decides what happens with a frame. `photo_requested` tells whether a
    /// photo was asked for since the last frame, `recording` whether a
    /// recorder runs, `elapsed_secs` the whole seconds since the timer was
    /// last restarted. While recording, a frame a second or more after the
    /// last advance advances the clock by one and shows its time; without a
    /// recorder the clock goes back to zero and the timer restarts.
    pub fn on_frame(&mut self, photo_requested: bool, recording: bool, elapsed_secs: u64) -> (step:
        FrameStep)
        requires
            recording && elapsed_secs >= 1 ==> old(self).spec_seconds() < u64::MAX,
        ensures
            step.save_photo == photo_requested,
            step.forward_to_recorder == recording,
            step.restart_timer == (!recording || elapsed_secs >= 1),
            recording && elapsed_secs >= 1 ==> final(self).spec_seconds() == old(self).spec_seconds() + 1,
            recording && elapsed_secs < 1 ==> final(self).spec_seconds() == old(self).spec_seconds(),
            !recording ==> final(self).spec_seconds() == 0,
            final(self).spec_seconds() == clock_after(
                old(self).spec_seconds(),
                recording,
                elapsed_secs as nat,
            ),
            step.time_label is Some <==> (recording && elapsed_secs >= 1),
            step.time_label matches Some(label) ==> label@ == recording_label(
                final(self).spec_seconds(),
            ),
    {
        if recording {
            if elapsed_secs >= 1 {
                self.seconds = self.seconds + 1;
                let label = recording_time_label(self.seconds);
                FrameStep {
                    save_photo: photo_requested,
                    forward_to_recorder: true,
                    restart_timer: true,
                    time_label: Some(label),
                }
            } else {
                FrameStep {
                    save_photo: photo_requested,
                    forward_to_recorder: true,
                    restart_timer: false,
                    time_label: None,
                }
            }
        } else {
            self.seconds = 0;
            FrameStep {
                save_photo: photo_requested,
                forward_to_recorder: false,
                restart_timer: true,
                time_label: None,
            }
        }
    }
}

/// The counts the clock shows during a sequence of frames, in order: one for
/// each frame that advances it, none for the others.
pub open spec fn counts_shown(seconds: nat, frames: Seq<(bool, nat)>) -> Seq<nat>
    decreases frames.len(),
{
    if frames.len() == 0 {
        seq![]
    } else {
        let next = clock_after(seconds, frames[0].0, frames[0].1);
        let rest = counts_shown(next, frames.drop_first());
        if frames[0].0 && frames[0].1 >= 1 {
            seq![next] + rest
        } else {
            rest
        }
    }
}

proof fn lemma_recording_counts_up(seconds: nat, frames: Seq<(bool, nat)>)
    requires
        forall|i: int| 0 <= i < frames.len() ==> #[trigger] frames[i].0,
    ensures
        counts_shown(seconds, frames) =~= Seq::new(
            counts_shown(seconds, frames).len(),
            |i: int| (seconds + i + 1) as nat,
        ),
        clock_after_frames(seconds, frames) == seconds + counts_shown(seconds, frames).len(),
    decreases frames.len(),
{
    if frames.len() > 0 {
        let rest = frames.drop_first();
        assert forall|i: int| 0 <= i < rest.len() implies #[trigger] rest[i].0 by {
            assert(rest[i] == frames[i + 1]);
        }
        assert(frames[0].0);
        let next = clock_after(seconds, frames[0].0, frames[0].1);
        lemma_recording_counts_up(next, rest);
    }
}

/// Whatever the clock showed before, after a frame without a recorder the
/// frames of a recording show the counts 1, 2, 3, ... in order, one for each
/// frame that comes a second or more after the last advance, however many
/// quicker frames come in between; the clock ends at the number shown, and
/// the first label shown is `00:01`.
pub proof fn lemma_recording_counts_from_zero(seconds: nat, frames: Seq<(bool, nat)>)
    requires
        frames.len() >= 1,
        !frames[0].0,
        forall|i: int| 1 <= i < frames.len() ==> #[trigger] frames[i].0,
    ensures
        counts_shown(seconds, frames) =~= Seq::new(
            counts_shown(seconds, frames).len(),
            |i: int| (i + 1) as nat,
        ),
        clock_after_frames(seconds, frames) == counts_shown(seconds, frames).len(),
        counts_shown(seconds, frames).len() >= 1 ==> recording_label(counts_shown(seconds, frames)[0])
            == "00:01"@,
{
    let rest = frames.drop_first();
    assert forall|i: int| 0 <= i < rest.len() implies #[trigger] rest[i].0 by {
        assert(rest[i] == frames[i + 1]);
    }
    assert(clock_after(seconds, frames[0].0, frames[0].1) == 0);
    lemma_recording_counts_up(0, rest);
    assert(counts_shown(seconds, frames) == counts_shown(0, rest));
    if counts_shown(seconds, frames).len() >= 1 {
        assert(counts_shown(0, rest)[0] == 1);
        reveal_strlit("00:01");
        assert(recording_label(1) =~= "00:01"@);
    }
}

/// Remembers whether a photo was asked for and no frame has taken it yet.
pub struct PhotoLatch {
    pending: bool,
}

/// Which frames save a photo when photo requests (`true`) and frames
/// (`false`) arrive in the order of `events`, starting with a request
/// pending or not: a frame saves one if a request came since the last frame
/// that saved one.
pub open spec fn frames_saving(pending: bool, events: Seq<bool>) -> Seq<bool>
    decreases events.len(),
{
    if events.len() == 0 {
        seq![]
    } else if events[0] {
        frames_saving(true, events.drop_first())
    } else {
        seq![pending] + frames_saving(false, events.drop_first())
    }
}

impl PhotoLatch {
    /// Whether a photo was asked for and not yet taken.
    pub closed spec fn is_pending(&self) -> bool {
        self.pending
    }

    /// A latch with no photo asked for.
    pub fn new() -> (l: Self)
        ensures
            !l.is_pending(),
    {
        PhotoLatch { pending: false }
    }

    /// Asks for a photo of the next frame.
    pub fn request(&mut self)
        ensures
            final(self).is_pending(),
    {
        self.pending = true;
    }

    /// For a frame: whether it is to be saved as a photo; the request, if
    /// any, is used up.
    pub fn take(&mut self) -> (save: bool)
        ensures
            save == old(self).is_pending(),
            !final(self).is_pending(),
    {
        let save = self.pending;
        self.pending = false;
        save
    }
}

proof fn lemma_frames_only(pending: bool, n: nat)
    ensures
        frames_saving(pending, Seq::new(n, |i: int| false)) =~= Seq::new(n, |i: int| i == 0 && pending),
    decreases n,
{
    if n > 0 {
        let events = Seq::new(n, |i: int| false);
        assert(events.drop_first() =~= Seq::new((n - 1) as nat, |i: int| false));
        lemma_frames_only(false, (n - 1) as nat);
    }
}

/// Several photo requests before a frame act as one: after `k >= 1`
/// requests, of the `n` frames that follow only the first saves a photo.
pub proof fn lemma_photo_requests_merge(pending: bool, k: nat, n: nat)
    requires
        k >= 1,
    ensures
        frames_saving(pending, Seq::new(k, |i: int| true) + Seq::new(n, |i: int| false))
            =~= Seq::new(n, |i: int| i == 0),
    decreases k,
{
    let events = Seq::new(k, |i: int| true) + Seq::new(n, |i: int| false);
    assert(events[0]);
    if k == 1 {
        assert(events.drop_first() =~= Seq::new(n, |i: int| false));
        lemma_frames_only(true, n);
    } else {
        assert(events.drop_first() =~= Seq::new((k - 1) as nat, |i: int| true) + Seq::new(
            n,
            |i: int| false,
        ));
        lemma_photo_requests_merge(true, (k - 1) as nat, n);
    }
}

} // verus!
