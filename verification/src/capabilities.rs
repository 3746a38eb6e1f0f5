use vstd::prelude::*;
use crate::text::same_text;
use crate::commands::initial_settings;

verus! {

/// A capture resolution that the application offers when the camera supports it.
pub struct ResolutionPreset {
    pub width: i32,
    pub height: i32,
    pub label: String,
}

/// A frame rate that the application offers when the camera supports it.
pub struct FpsPreset {
    pub fps: i32,
    pub label: String,
}

impl View for ResolutionPreset {
    type V = (int, int, Seq<char>);

    open spec fn view(&self) -> (int, int, Seq<char>) {
        (self.width as int, self.height as int, self.label@)
    }
}

impl View for FpsPreset {
    type V = (int, Seq<char>);

    open spec fn view(&self) -> (int, Seq<char>) {
        (self.fps as int, self.label@)
    }
}

/// What the first video source that reported its capabilities accepts:
/// entry `i` of `resolutions` tells whether it can produce resolution preset
/// `i`, entry `i` of `frame_rates` whether it can produce frame-rate preset `i`.
/// A missing entry counts as "not supported".
pub struct CapsSupport {
    pub resolutions: Vec<bool>,
    pub frame_rates: Vec<bool>,
}

/// The resolution presets, in the order in which they are tried and offered.
pub open spec fn resolution_table() -> Seq<(int, int, Seq<char>)> {
    seq![
        (640, 480, "480p"@),
        (1280, 720, "720p"@),
        (1920, 1080, "1080p"@),
        (2560, 1440, "2K"@),
        (3840, 2160, "4K"@),
    ]
}

/// The frame-rate presets, in the order in which they are tried and offered.
pub open spec fn fps_table() -> Seq<(int, Seq<char>)> {
    seq![(30, "30 FPS"@), (60, "60 FPS"@)]
}

pub open spec fn resolution_labels() -> Seq<Seq<char>> {
    resolution_table().map_values(|p: (int, int, Seq<char>)| p.2)
}

pub open spec fn fps_labels() -> Seq<Seq<char>> {
    fps_table().map_values(|p: (int, Seq<char>)| p.1)
}

/// The labels whose flag is set, in their order; a label without a flag is skipped.
pub open spec fn supported_labels(labels: Seq<Seq<char>>, flags: Seq<bool>) -> Seq<Seq<char>>
    decreases labels.len(),
{
    if labels.len() == 0 {
        seq![]
    } else {
        let i: int = labels.len() - 1;
        let rest = supported_labels(labels.drop_last(), flags);
        if i < flags.len() && flags[i] {
            rest.push(labels[i])
        } else {
            rest
        }
    }
}

/// The texts held by a vector of strings.
pub open spec fn texts(v: Seq<String>) -> Seq<Seq<char>> {
    v.map_values(|s: String| s@)
}

/// The resolution labels offered for a probe result. A probed camera is
/// offered exactly the presets it supports, none when it supports none.
/// When no camera could be probed (`None`), nothing is known of the hardware
/// and the label of the settings the camera starts with, 720p, is offered.
pub open spec fn offered_resolutions(device: Option<Seq<bool>>) -> Seq<Seq<char>> {
    match device {
        Some(flags) => supported_labels(resolution_labels(), flags),
        None => seq!["720p"@],
    }
}

/// The frame-rate labels offered for a probe result. A probed camera is
/// offered exactly the presets it supports, none when it supports none.
/// When no camera could be probed (`None`), the label of the starting frame
/// rate, 30 FPS, is offered.
pub open spec fn offered_frame_rates(device: Option<Seq<bool>>) -> Seq<Seq<char>> {
    match device {
        Some(flags) => supported_labels(fps_labels(), flags),
        None => seq!["30 FPS"@],
    }
}

/// The width and height that a resolution label selects; unknown labels select 1280x720.
pub open spec fn resolution_for(label: Seq<char>) -> (int, int) {
    if label == "480p"@ {
        (640, 480)
    } else if label == "720p"@ {
        (1280, 720)
    } else if label == "1080p"@ {
        (1920, 1080)
    } else if label == "2K"@ {
        (2560, 1440)
    } else if label == "4K"@ {
        (3840, 2160)
    } else {
        (1280, 720)
    }
}

/// The frame rate that a frame-rate label selects; unknown labels select 60.
pub open spec fn fps_for(label: Seq<char>) -> int {
    if label == "30 FPS"@ {
        30
    } else if label == "60 FPS"@ {
        60
    } else {
        60
    }
}

/// The resolution presets: 480p, 720p, 1080p, 2K and 4K.
pub fn resolution_presets() -> (presets: Vec<ResolutionPreset>)
    ensures
        presets@.map_values(|p: ResolutionPreset| p@) == resolution_table(),
{
    let mut presets = Vec::new();
    presets.push(ResolutionPreset { width: 640, height: 480, label: "480p".to_owned() });
    presets.push(ResolutionPreset { width: 1280, height: 720, label: "720p".to_owned() });
    presets.push(ResolutionPreset { width: 1920, height: 1080, label: "1080p".to_owned() });
    presets.push(ResolutionPreset { width: 2560, height: 1440, label: "2K".to_owned() });
    presets.push(ResolutionPreset { width: 3840, height: 2160, label: "4K".to_owned() });
    assert(presets@.map_values(|p: ResolutionPreset| p@) =~= resolution_table());
    presets
}

/// The frame-rate presets: 30 and 60 frames per second.
pub fn fps_presets() -> (presets: Vec<FpsPreset>)
    ensures
        presets@.map_values(|p: FpsPreset| p@) == fps_table(),
{
    let mut presets = Vec::new();
    presets.push(FpsPreset { fps: 30, label: "30 FPS".to_owned() });
    presets.push(FpsPreset { fps: 60, label: "60 FPS".to_owned() });
    assert(presets@.map_values(|p: FpsPreset| p@) =~= fps_table());
    presets
}

proof fn lemma_supported_labels_step(labels: Seq<Seq<char>>, flags: Seq<bool>, i: int)
    requires
        0 <= i < labels.len(),
    ensures
        supported_labels(labels.take(i + 1), flags) == if i < flags.len() && flags[i] {
            supported_labels(labels.take(i), flags).push(labels[i])
        } else {
            supported_labels(labels.take(i), flags)
        },
{
    assert(labels.take(i + 1).drop_last() =~= labels.take(i));
}

/// Keeps the labels whose flag is set, in their order.
fn select_labels(labels: &Vec<String>, flags: &Vec<bool>) -> (chosen: Vec<String>)
    ensures
        texts(chosen@) == supported_labels(texts(labels@), flags@),
{
    let mut chosen: Vec<String> = Vec::new();
    let n: usize = labels.len();
    for i in 0..n
        invariant
            n == labels@.len(),
            texts(chosen@) == supported_labels(texts(labels@).take(i as int), flags@),
    {
        proof {
            lemma_supported_labels_step(texts(labels@), flags@, i as int);
        }
        if i < flags.len() && flags[i] {
            chosen.push(labels[i].clone());
            assert(texts(chosen@) =~= supported_labels(texts(labels@).take(i as int), flags@).push(
                labels@[i as int]@,
            ));
        }
    }
    assert(texts(labels@).take(n as int) =~= texts(labels@));
    chosen
}

fn labels_of_resolutions() -> (labels: Vec<String>)
    ensures
        texts(labels@) == resolution_labels(),
{
    let mut labels: Vec<String> = Vec::new();
    labels.push("480p".to_owned());
    labels.push("720p".to_owned());
    labels.push("1080p".to_owned());
    labels.push("2K".to_owned());
    labels.push("4K".to_owned());
    assert(texts(labels@) =~= resolution_labels());
    labels
}

fn labels_of_frame_rates() -> (labels: Vec<String>)
    ensures
        texts(labels@) == fps_labels(),
{
    let mut labels: Vec<String> = Vec::new();
    labels.push("30 FPS".to_owned());
    labels.push("60 FPS".to_owned());
    assert(texts(labels@) =~= fps_labels());
    labels
}

/// The resolution and frame-rate labels to offer, from what the first video
/// source with known capabilities supports. A probed source is offered
/// exactly the presets it supports, in preset order, and nothing else. When
/// no source could be probed (`None`), 720p and 30 FPS, the settings the
/// camera starts with, are offered.
pub fn probe_capabilities(device: Option<&CapsSupport>) -> (offered: (Vec<String>, Vec<String>))
    ensures
        texts(offered.0@) == offered_resolutions(
            match device {
                Some(d) => Some(d.resolutions@),
                None => None,
            },
        ),
        texts(offered.1@) == offered_frame_rates(
            match device {
                Some(d) => Some(d.frame_rates@),
                None => None,
            },
        ),
{
    match device {
        Some(support) => {
            let resolution_names = labels_of_resolutions();
            let rate_names = labels_of_frame_rates();
            let resolutions = select_labels(&resolution_names, &support.resolutions);
            let frame_rates = select_labels(&rate_names, &support.frame_rates);
            (resolutions, frame_rates)
        },
        None => {
            let mut resolutions: Vec<String> = Vec::new();
            resolutions.push("720p".to_owned());
            let mut frame_rates: Vec<String> = Vec::new();
            frame_rates.push("30 FPS".to_owned());
            assert(texts(resolutions@) =~= seq!["720p"@]);
            assert(texts(frame_rates@) =~= seq!["30 FPS"@]);
            (resolutions, frame_rates)
        },
    }
}

/// The width and height that a resolution label selects.
pub fn resolution_for_label(label: &str) -> (size: (i32, i32))
    ensures
        (size.0 as int, size.1 as int) == resolution_for(label@),
{
    if same_text(label, "480p") {
        (640, 480)
    } else if same_text(label, "720p") {
        (1280, 720)
    } else if same_text(label, "1080p") {
        (1920, 1080)
    } else if same_text(label, "2K") {
        (2560, 1440)
    } else if same_text(label, "4K") {
        (3840, 2160)
    } else {
        (1280, 720)
    }
}

/// The frame rate that a frame-rate label selects.
pub fn fps_for_label(label: &str) -> (fps: i32)
    ensures
        fps as int == fps_for(label@),
{
    if same_text(label, "30 FPS") {
        30
    } else if same_text(label, "60 FPS") {
        60
    } else {
        60
    }
}

proof fn lemma_supported_labels_from(labels: Seq<Seq<char>>, flags: Seq<bool>, k: int)
    requires
        0 <= k < supported_labels(labels, flags).len(),
    ensures
        exists|j: int|
            0 <= j < labels.len() && j < flags.len() && flags[j] && supported_labels(labels, flags)[k]
                == labels[j],
    decreases labels.len(),
{
    let i: int = labels.len() - 1;
    let rest = supported_labels(labels.drop_last(), flags);
    if k < rest.len() {
        lemma_supported_labels_from(labels.drop_last(), flags, k);
        let j = choose|j: int|
            0 <= j < labels.drop_last().len() && j < flags.len() && flags[j] && rest[k]
                == labels.drop_last()[j];
        assert(labels[j] == labels.drop_last()[j]);
    } else {
        assert(supported_labels(labels, flags)[k] == labels[i]);
    }
}

/// Each resolution preset's label selects that preset's width and height.
pub proof fn lemma_resolution_presets_round_trip(i: int)
    requires
        0 <= i < resolution_table().len(),
    ensures
        resolution_for(resolution_table()[i].2) == (resolution_table()[i].0, resolution_table()[i].1),
{
    reveal_strlit("480p");
    reveal_strlit("720p");
    reveal_strlit("1080p");
    reveal_strlit("2K");
    reveal_strlit("4K");
    assert("480p"@.len() == 4 && "480p"@[0] == '4');
    assert("720p"@.len() == 4 && "720p"@[0] == '7');
    assert("1080p"@.len() == 5 && "1080p"@[0] == '1');
    assert("2K"@.len() == 2 && "2K"@[0] == '2');
    assert("4K"@.len() == 2 && "4K"@[0] == '4');
}

/// Each frame-rate preset's label selects that preset's frame rate.
pub proof fn lemma_fps_presets_round_trip(i: int)
    requires
        0 <= i < fps_table().len(),
    ensures
        fps_for(fps_table()[i].1) == fps_table()[i].0,
{
    reveal_strlit("30 FPS");
    reveal_strlit("60 FPS");
    assert("30 FPS"@[0] == '3' && "60 FPS"@[0] == '6');
}

/// `label` is the label of a resolution preset and selects that preset's size.
pub open spec fn selects_resolution_preset(label: Seq<char>) -> bool {
    exists|i: int|
        0 <= i < resolution_table().len() && label == #[trigger] resolution_table()[i].2
            && resolution_for(label) == (resolution_table()[i].0, resolution_table()[i].1)
}

/// `label` is the label of a frame-rate preset and selects that preset's rate.
pub open spec fn selects_fps_preset(label: Seq<char>) -> bool {
    exists|i: int|
        0 <= i < fps_table().len() && label == #[trigger] fps_table()[i].1 && fps_for(label)
            == fps_table()[i].0
}

/// A probed camera is offered only presets it supports: every offered
/// resolution or frame-rate label is the label of a preset whose flag is set.
pub proof fn lemma_only_supported_presets_offered(flags: Seq<bool>, rate_flags: Seq<bool>)
    ensures
        forall|k: int|
            0 <= k < offered_resolutions(Some(flags)).len() ==> exists|i: int|
                0 <= i < resolution_table().len() && i < flags.len() && flags[i]
                    && #[trigger] offered_resolutions(Some(flags))[k] == resolution_table()[i].2,
        forall|k: int|
            0 <= k < offered_frame_rates(Some(rate_flags)).len() ==> exists|i: int|
                0 <= i < fps_table().len() && i < rate_flags.len() && rate_flags[i]
                    && #[trigger] offered_frame_rates(Some(rate_flags))[k] == fps_table()[i].1,
{
    assert forall|k: int| 0 <= k < offered_resolutions(Some(flags)).len() implies exists|i: int|
        0 <= i < resolution_table().len() && i < flags.len() && flags[i]
            && #[trigger] offered_resolutions(Some(flags))[k] == resolution_table()[i].2 by {
        lemma_supported_labels_from(resolution_labels(), flags, k);
        let j = choose|j: int|
            0 <= j < resolution_labels().len() && j < flags.len() && flags[j]
                && offered_resolutions(Some(flags))[k] == resolution_labels()[j];
        assert(resolution_labels()[j] == resolution_table()[j].2);
    }
    assert forall|k: int| 0 <= k < offered_frame_rates(Some(rate_flags)).len() implies exists|i: int|
        0 <= i < fps_table().len() && i < rate_flags.len() && rate_flags[i]
            && #[trigger] offered_frame_rates(Some(rate_flags))[k] == fps_table()[i].1 by {
        lemma_supported_labels_from(fps_labels(), rate_flags, k);
        let j = choose|j: int|
            0 <= j < fps_labels().len() && j < rate_flags.len() && rate_flags[j]
                && offered_frame_rates(Some(rate_flags))[k] == fps_labels()[j];
        assert(fps_labels()[j] == fps_table()[j].1);
    }
}

/// Every offered label, whatever the probe found, is a preset's label that,
/// when chosen, selects exactly that preset's size or frame rate.
pub proof fn lemma_offered_labels_select_presets(device: Option<Seq<bool>>)
    ensures
        forall|k: int|
            0 <= k < offered_resolutions(device).len() ==> selects_resolution_preset(
                #[trigger] offered_resolutions(device)[k],
            ),
        forall|k: int|
            0 <= k < offered_frame_rates(device).len() ==> selects_fps_preset(
                #[trigger] offered_frame_rates(device)[k],
            ),
{
    assert forall|k: int| 0 <= k < offered_resolutions(device).len() implies selects_resolution_preset(
        #[trigger] offered_resolutions(device)[k],
    ) by {
        let label = offered_resolutions(device)[k];
        let i: int = if device is Some {
            lemma_supported_labels_from(resolution_labels(), device->0, k);
            choose|j: int|
                0 <= j < resolution_labels().len() && j < (device->0).len() && (device->0)[j]
                    && label == resolution_labels()[j]
        } else {
            1int
        };
        lemma_resolution_presets_round_trip(i);
        assert(label == resolution_table()[i].2);
    }
    assert forall|k: int| 0 <= k < offered_frame_rates(device).len() implies selects_fps_preset(
        #[trigger] offered_frame_rates(device)[k],
    ) by {
        let label = offered_frame_rates(device)[k];
        let i: int = if device is Some {
            lemma_supported_labels_from(fps_labels(), device->0, k);
            choose|j: int|
                0 <= j < fps_labels().len() && j < (device->0).len() && (device->0)[j]
                    && label == fps_labels()[j]
        } else {
            0int
        };
        lemma_fps_presets_round_trip(i);
        assert(label == fps_table()[i].1);
    }
}

/// When no camera could be probed, the offered labels, 720p and 30 FPS,
/// select exactly the settings the camera starts with.
pub proof fn lemma_unprobed_labels_select_initial_settings()
    ensures
        offered_resolutions(None) == seq!["720p"@],
        offered_frame_rates(None) == seq!["30 FPS"@],
        resolution_for("720p"@) == (initial_settings().width as int, initial_settings().height as int),
        fps_for("30 FPS"@) == initial_settings().fps as int,
{
    reveal_strlit("480p");
    reveal_strlit("720p");
    reveal_strlit("30 FPS");
    assert("480p"@[0] == '4' && "720p"@[0] == '7');
}

/// `a` can be obtained from `b` by leaving out elements, keeping the order.
pub open spec fn is_subsequence(a: Seq<Seq<char>>, b: Seq<Seq<char>>) -> bool
    decreases b.len(),
{
    if a.len() == 0 {
        true
    } else if b.len() == 0 {
        false
    } else {
        (a.last() == b.last() && is_subsequence(a.drop_last(), b.drop_last())) || is_subsequence(
            a,
            b.drop_last(),
        )
    }
}

/// Every flag set in `fewer` is also set in `more`.
pub open spec fn flags_within(fewer: Seq<bool>, more: Seq<bool>) -> bool {
    forall|i: int| 0 <= i < fewer.len() && #[trigger] fewer[i] ==> i < more.len() && more[i]
}

proof fn lemma_supported_labels_monotone(labels: Seq<Seq<char>>, fewer: Seq<bool>, more: Seq<bool>)
    requires
        flags_within(fewer, more),
    ensures
        is_subsequence(supported_labels(labels, fewer), supported_labels(labels, more)),
    decreases labels.len(),
{
    if labels.len() > 0 {
        let i: int = labels.len() - 1;
        let a0 = supported_labels(labels.drop_last(), fewer);
        let b0 = supported_labels(labels.drop_last(), more);
        lemma_supported_labels_monotone(labels.drop_last(), fewer, more);
        let a = supported_labels(labels, fewer);
        let b = supported_labels(labels, more);
        if i < fewer.len() && fewer[i] {
            assert(a == a0.push(labels[i]));
            assert(b == b0.push(labels[i]));
            assert(a.drop_last() =~= a0);
            assert(b.drop_last() =~= b0);
        } else if i < more.len() && more[i] {
            assert(a == a0);
            assert(b == b0.push(labels[i]));
            assert(b.drop_last() =~= b0);
        } else {
            assert(a == a0);
            assert(b == b0);
        }
    }
}

/// A camera that supports more presets never loses a label: when every
/// preset one camera supports is supported by another, the labels offered
/// to the first are offered to the second too, in the same order.
pub proof fn lemma_more_support_keeps_labels(
    fewer: Seq<bool>,
    more: Seq<bool>,
    fewer_rates: Seq<bool>,
    more_rates: Seq<bool>,
)
    requires
        flags_within(fewer, more),
        flags_within(fewer_rates, more_rates),
    ensures
        is_subsequence(offered_resolutions(Some(fewer)), offered_resolutions(Some(more))),
        is_subsequence(offered_frame_rates(Some(fewer_rates)), offered_frame_rates(Some(more_rates))),
{
    lemma_supported_labels_monotone(resolution_labels(), fewer, more);
    lemma_supported_labels_monotone(fps_labels(), fewer_rates, more_rates);
}

} // verus!
