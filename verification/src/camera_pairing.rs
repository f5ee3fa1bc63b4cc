//! Choosing the two Makepad video inputs that feed the stereo camera panel:
//! the per-format camera choices, their ranking, the pairing rules and the
//! Camera2 stereo plan they are bound to.
use vstd::prelude::*;
use crate::text::{
    ascii_lower_seq, ascii_lowercase, chars_of, contains_chars, contains_text, find_chars,
    chars_equal, is_ascii_alnum, is_first_occurrence, marker_token, marker_token_spec,
    normalized_word, str_equal,
};

verus! {

/// The source eye mapping of the display when nothing else is configured.
pub const DEFAULT_DISPLAY_SOURCE_EYE_MAPPING: &'static str = "display-left-from-left-source";

/// The source eye mapping of the display when nothing else is configured.
pub open spec fn default_display_source_eye_mapping() -> Seq<char> {
    "display-left-from-left-source"@
}

/// The display source eye mapping for a configured value: either of the two
/// known mappings as given, the default for anything else.
pub open spec fn display_source_eye_mapping_spec(configured: Option<Seq<char>>) -> Seq<char> {
    match configured {
        Some(v) => if v == "display-left-from-right-source"@ {
            "display-left-from-right-source"@
        } else {
            default_display_source_eye_mapping()
        },
        None => default_display_source_eye_mapping(),
    }
}

/// The display source eye mapping for the value configured at build time.
pub fn display_source_eye_mapping(configured: Option<&str>) -> (mapping: &'static str)
    ensures
        mapping@ == display_source_eye_mapping_spec(
            match configured {
                Some(v) => Some(v@),
                None => None,
            },
        ),
{
    proof {
        reveal_strlit("display-left-from-left-source");
        reveal_strlit("display-left-from-right-source");
    }
    match configured {
        Some(v) => {
            if str_equal(v, "display-left-from-right-source") {
                "display-left-from-right-source"
            } else {
                "display-left-from-left-source"
            }
        },
        None => "display-left-from-left-source",
    }
}

/// The class of a video input, read from its descriptor name.
#[derive(Clone, Copy, Debug, PartialEq, Eq, Structural)]
pub enum SourceClass {
    Back,
    External,
    Front,
    Unknown,
    Synthetic,
}

impl SourceClass {
    /// The label used in markers.
    pub open spec fn label_spec(self) -> Seq<char> {
        match self {
            SourceClass::Back => "back"@,
            SourceClass::External => "external"@,
            SourceClass::Front => "front"@,
            SourceClass::Unknown => "unknown"@,
            SourceClass::Synthetic => "synthetic"@,
        }
    }

    /// The label used in markers.
    pub fn label(&self) -> (label: &'static str)
        ensures
            label@ == self.label_spec(),
    {
        proof {
            reveal_strlit("back");
            reveal_strlit("external");
            reveal_strlit("front");
            reveal_strlit("unknown");
            reveal_strlit("synthetic");
        }
        match self {
            SourceClass::Back => "back",
            SourceClass::External => "external",
            SourceClass::Front => "front",
            SourceClass::Unknown => "unknown",
            SourceClass::Synthetic => "synthetic",
        }
    }

    /// The preference of a source class: back, external, front, then the rest.
    pub open spec fn rank_spec(self) -> i32 {
        match self {
            SourceClass::Back => 3,
            SourceClass::External => 2,
            SourceClass::Front => 1,
            _ => 0,
        }
    }
}

/// The preference of a source class: back, external, front, then the rest.
pub fn source_class_rank(source_class: SourceClass) -> (rank: i32)
    ensures
        rank == source_class.rank_spec(),
{
    match source_class {
        SourceClass::Back => 3,
        SourceClass::External => 2,
        SourceClass::Front => 1,
        _ => 0,
    }
}

/// The class named by a descriptor: the first of `back`, `external` and
/// `front` that its lower-cased name contains.
pub open spec fn camera_source_class_spec(name: Seq<char>) -> SourceClass {
    let lower = ascii_lower_seq(name);
    if contains_text(lower, "back"@) {
        SourceClass::Back
    } else if contains_text(lower, "external"@) {
        SourceClass::External
    } else if contains_text(lower, "front"@) {
        SourceClass::Front
    } else {
        SourceClass::Unknown
    }
}

/// The class named by a video input descriptor.
pub fn camera_source_class(name: &str) -> (class: SourceClass)
    ensures
        class == camera_source_class_spec(name@),
{
    let lower = ascii_lowercase(name);
    if contains_chars(&lower, "back") {
        SourceClass::Back
    } else if contains_chars(&lower, "external") {
        SourceClass::External
    } else if contains_chars(&lower, "front") {
        SourceClass::Front
    } else {
        SourceClass::Unknown
    }
}

/// Characters of a camera id token: ASCII letters and digits, `_`, `-`, `.`.
pub open spec fn is_camera_id_char(c: char) -> bool {
    is_ascii_alnum(c) || c == '_' || c == '-' || c == '.'
}

/// The longest prefix of `s` made of camera id characters.
pub open spec fn camera_id_prefix(s: Seq<char>) -> Seq<char>
    decreases s.len(),
{
    if s.len() == 0 || !is_camera_id_char(s[0]) {
        Seq::empty()
    } else {
        seq![s[0]] + camera_id_prefix(s.drop_first())
    }
}

/// The camera id that a descriptor name carries after its first
/// `cameraId=`, when that token is not empty.
pub open spec fn camera_id_from_desc_spec(name: Seq<char>) -> Option<Seq<char>> {
    if contains_text(name, "cameraId="@) {
        let start = choose|i: int| is_first_occurrence(name, "cameraId="@, i);
        let token = camera_id_prefix(name.skip(start + 9));
        if token.len() > 0 {
            Some(token)
        } else {
            None
        }
    } else {
        None
    }
}

proof fn lemma_first_occurrence_unique(hay: Seq<char>, needle: Seq<char>, i: int, j: int)
    requires
        is_first_occurrence(hay, needle, i),
        is_first_occurrence(hay, needle, j),
    ensures
        i == j,
{
}

proof fn lemma_camera_id_prefix_step(s: Seq<char>, k: int)
    requires
        0 <= k < s.len(),
        forall|m: int| 0 <= m < k ==> is_camera_id_char(#[trigger] s[m]),
    ensures
        is_camera_id_char(s[k]) ==> camera_id_prefix(s.skip(0)) == s.take(k + 1) + camera_id_prefix(
            s.skip(k + 1),
        ),
        !is_camera_id_char(s[k]) ==> camera_id_prefix(s.skip(0)) == s.take(k),
    decreases k,
{
    assert(s.skip(0) =~= s);
    if k == 0 {
        assert(s.take(1) =~= seq![s[0]]);
        assert(s.drop_first() =~= s.skip(1));
        assert(s.take(0) =~= Seq::<char>::empty());
    } else {
        let t = s.drop_first();
        assert forall|m: int| 0 <= m < k - 1 implies is_camera_id_char(#[trigger] t[m]) by {
            assert(t[m] == s[m + 1]);
        }
        assert(t[k - 1] == s[k]);
        lemma_camera_id_prefix_step(t, k - 1);
        assert(t.skip(0) =~= t);
        assert(t.skip(k) =~= s.skip(k + 1));
        assert(seq![s[0]] + t.take(k) =~= s.take(k + 1));
        assert(seq![s[0]] + t.take(k - 1) =~= s.take(k));
        assert(seq![s[0]] + (t.take(k) + camera_id_prefix(t.skip(k))) =~= s.take(k + 1)
            + camera_id_prefix(s.skip(k + 1)));
    }
}

/// The camera id of a Makepad video input descriptor name, such as `50` in
/// `Back Camera cameraId=50`.
pub fn camera_id_from_makepad_desc_name(name: &str) -> (id: Option<String>)
    ensures
        match id {
            Some(v) => camera_id_from_desc_spec(name@) == Some(v@),
            None => camera_id_from_desc_spec(name@) is None,
        },
{
    let chars = chars_of(name);
    let marker = chars_of("cameraId=");
    proof {
        reveal_strlit("cameraId=");
    }
    let start = match find_chars(&chars, &marker) {
        Some(i) => i,
        None => {
            return None;
        },
    };
    proof {
        let c = choose|i: int| is_first_occurrence(name@, "cameraId="@, i);
        lemma_first_occurrence_unique(name@, "cameraId="@, c, start as int);
    }
    assert(marker@.len() == 9);
    assert(start + 9 <= chars.len());
    let begin = start + 9;
    let ghost rest = chars@.skip(begin as int);
    let mut token: Vec<char> = Vec::new();
    let mut k: usize = begin;
    let mut done = false;
    while k < chars.len() && !done
        invariant
            begin <= k <= chars@.len(),
            rest == chars@.skip(begin as int),
            token@ == rest.take(k - begin),
            forall|m: int| 0 <= m < k - begin ==> is_camera_id_char(#[trigger] rest[m]),
            done ==> token@ == camera_id_prefix(rest),
        decreases chars.len() - k + if done { 0int } else { 1int },
    {
        let c = chars[k];
        proof {
            assert(rest[k - begin] == c);
            lemma_camera_id_prefix_step(rest, k - begin);
            assert(rest.skip(0) =~= rest);
        }
        if ('0' <= c && c <= '9') || ('a' <= c && c <= 'z') || ('A' <= c && c <= 'Z') || c == '_'
            || c == '-' || c == '.' {
            token.push(c);
            k = k + 1;
            proof {
                assert(token@ =~= rest.take(k - begin));
            }
        } else {
            done = true;
        }
    }
    proof {
        if !done {
            assert(rest.take(k - begin) =~= rest);
            lemma_camera_id_prefix_all(rest);
        }
    }
    if token.len() == 0 {
        None
    } else {
        let mut out = String::new();
        crate::text::push_chars(&mut out, &token);
        Some(out)
    }
}

proof fn lemma_camera_id_prefix_all(s: Seq<char>)
    requires
        forall|m: int| 0 <= m < s.len() ==> is_camera_id_char(#[trigger] s[m]),
    ensures
        camera_id_prefix(s) == s,
    decreases s.len(),
{
    if s.len() > 0 {
        let t = s.drop_first();
        assert forall|m: int| 0 <= m < t.len() implies is_camera_id_char(#[trigger] t[m]) by {
            assert(t[m] == s[m + 1]);
        }
        lemma_camera_id_prefix_all(t);
        assert(seq![s[0]] + t =~= s);
    }
}


/// Pixel layouts a Makepad video input can offer.
#[derive(Clone, Copy, Debug, PartialEq, Eq, Structural)]
pub enum PixelFormat {
    Rgb24,
    Yuy2,
    Nv12,
    Yuv420,
    Gray,
    Mjpeg,
    Unsupported(u32),
}

/// The marker label of a pixel format.
pub open spec fn pixel_format_label_spec(format: PixelFormat) -> Seq<char> {
    match format {
        PixelFormat::Rgb24 => "rgb24"@,
        PixelFormat::Yuy2 => "yuy2"@,
        PixelFormat::Nv12 => "nv12"@,
        PixelFormat::Yuv420 => "yuv420"@,
        PixelFormat::Gray => "gray"@,
        PixelFormat::Mjpeg => "mjpeg"@,
        PixelFormat::Unsupported(_) => "unsupported"@,
    }
}

/// The marker label of a pixel format.
pub fn pixel_format_label(format: PixelFormat) -> (label: &'static str)
    ensures
        label@ == pixel_format_label_spec(format),
{
    proof {
        reveal_strlit("rgb24");
        reveal_strlit("yuy2");
        reveal_strlit("nv12");
        reveal_strlit("yuv420");
        reveal_strlit("gray");
        reveal_strlit("mjpeg");
        reveal_strlit("unsupported");
    }
    match format {
        PixelFormat::Rgb24 => "rgb24",
        PixelFormat::Yuy2 => "yuy2",
        PixelFormat::Nv12 => "nv12",
        PixelFormat::Yuv420 => "yuv420",
        PixelFormat::Gray => "gray",
        PixelFormat::Mjpeg => "mjpeg",
        PixelFormat::Unsupported(_) => "unsupported",
    }
}

/// One format that a video input offers, as the ranking reads it.
#[derive(Clone, Copy, Debug)]
pub struct CameraFormat {
    pub width: usize,
    pub height: usize,
    /// The frame rate in thousandths of a hertz, rounded; `None` when the
    /// input reports no finite positive rate.
    pub frame_rate_milli: Option<i64>,
    pub pixel_format: PixelFormat,
}

/// One (input, format) pair that could feed an eye of the panel. `input`
/// carries the platform's handles for it; it is `None` for a stream that no
/// platform input backs.
pub struct MakepadCameraChoice<I> {
    pub source_index: usize,
    pub input: Option<I>,
    pub camera_id: Option<String>,
    pub source_class: SourceClass,
    pub width: usize,
    pub height: usize,
    pub frame_rate_milli: Option<i64>,
    pub pixel_format: PixelFormat,
}

/// The largest width or height the ranking arithmetic takes.
pub const MAX_CHOICE_DIMENSION: usize = 0x7fff_ffff;

/// Whether the ranking arithmetic of a choice stays within `i64`.
pub open spec fn choice_scorable<I>(choice: MakepadCameraChoice<I>) -> bool {
    &&& choice.width <= MAX_CHOICE_DIMENSION
    &&& choice.height <= MAX_CHOICE_DIMENSION
    &&& choice.source_index <= i64::MAX
}

/// Whether every choice of a list is scorable.
pub open spec fn choices_scorable<I>(choices: Seq<MakepadCameraChoice<I>>) -> bool {
    forall|i: int| 0 <= i < choices.len() ==> choice_scorable(#[trigger] choices[i])
}

/// `|a - b|`.
pub open spec fn distance(a: int, b: int) -> int {
    if a >= b {
        a - b
    } else {
        b - a
    }
}

/// The size score of a format: its area, less 2048 per pixel of distance
/// from 1280 x 1280 and 4096 per pixel of distance from square.
pub open spec fn format_size_score(width: int, height: int) -> int {
    width * height - (distance(width, 1280) + distance(height, 1280)) * 2048 - distance(width, height)
        * 4096
}

/// The ranking of a single choice: source class, frame rate, size score and
/// area.
pub open spec fn choice_score_spec<I>(choice: MakepadCameraChoice<I>) -> (int, int, int, int) {
    (
        choice.source_class.rank_spec() as int,
        match choice.frame_rate_milli {
            Some(m) => m as int,
            None => 0,
        },
        format_size_score(choice.width as int, choice.height as int),
        choice.width * choice.height,
    )
}

fn abs_diff_usize(a: usize, b: usize) -> (d: usize)
    ensures
        d == distance(a as int, b as int),
{
    if a >= b {
        a - b
    } else {
        b - a
    }
}

fn size_score_of(width: usize, height: usize) -> (score: (i64, i64))
    requires
        width <= MAX_CHOICE_DIMENSION,
        height <= MAX_CHOICE_DIMENSION,
    ensures
        score.0 == format_size_score(width as int, height as int),
        score.1 == width * height,
{
    let w = width as i64;
    let h = height as i64;
    assert(w * h <= 0x7fff_ffff * 0x7fff_ffff) by (nonlinear_arith)
        requires
            0 <= w <= 0x7fff_ffff,
            0 <= h <= 0x7fff_ffff,
    ;
    assert(w * h >= 0) by (nonlinear_arith)
        requires
            0 <= w,
            0 <= h,
    ;
    let area = w * h;
    let target_penalty = (abs_diff_usize(width, 1280) + abs_diff_usize(height, 1280)) as i64;
    let square_penalty = abs_diff_usize(width, height) as i64;
    (area - target_penalty * 2048 - square_penalty * 4096, area)
}

impl<I> MakepadCameraChoice<I> {
    /// The choice of format `format` of input `input`, the `source_index`-th
    /// video input.
    pub fn new(
        source_index: usize,
        input: I,
        format: CameraFormat,
        source_class: SourceClass,
        camera_id: Option<String>,
    ) -> (choice: Self)
        ensures
            choice == (MakepadCameraChoice {
                source_index,
                input: Some(input),
                camera_id,
                source_class,
                width: format.width,
                height: format.height,
                frame_rate_milli: format.frame_rate_milli,
                pixel_format: format.pixel_format,
            }),
    {
        MakepadCameraChoice {
            source_index,
            input: Some(input),
            camera_id,
            source_class,
            width: format.width,
            height: format.height,
            frame_rate_milli: format.frame_rate_milli,
            pixel_format: format.pixel_format,
        }
    }

    /// The ranking of this choice: source class, frame rate in thousandths
    /// of a hertz, size score, area.
    pub fn score(&self) -> (score: (i32, i64, i64, i64))
        requires
            choice_scorable(*self),
        ensures
            (score.0 as int, score.1 as int, score.2 as int, score.3 as int) == choice_score_spec(*self),
    {
        let rank = source_class_rank(self.source_class);
        let rate: i64 = match self.frame_rate_milli {
            Some(m) => m,
            None => 0,
        };
        let (size, area) = size_score_of(self.width, self.height);
        (rank, rate, size, area)
    }
}

impl<I: Copy> MakepadCameraChoice<I> {
    /// A copy of this choice.
    pub fn duplicate(&self) -> (copy: Self)
        ensures
            copy == *self,
    {
        let camera_id = match &self.camera_id {
            Some(id) => Some(id.clone()),
            None => None,
        };
        MakepadCameraChoice {
            source_index: self.source_index,
            input: self.input,
            camera_id,
            source_class: self.source_class,
            width: self.width,
            height: self.height,
            frame_rate_milli: self.frame_rate_milli,
            pixel_format: self.pixel_format,
        }
    }
}

/// The choice standing for one eye of a broker H.264 stream: source 1 for
/// `right`, 0 otherwise, with the camera id `broker-h264-<label>`.
pub open spec fn broker_h264_choice_spec<I>(label: Seq<char>, width: u32, height: u32) -> MakepadCameraChoice<I> {
    MakepadCameraChoice {
        source_index: if label == "right"@ {
            1
        } else {
            0
        },
        input: None,
        camera_id: None,
        source_class: SourceClass::Synthetic,
        width: width as usize,
        height: height as usize,
        frame_rate_milli: None,
        pixel_format: PixelFormat::Unsupported(0x6832_3634),
    }
}

impl<I> MakepadCameraChoice<I> {
    /// The choice standing for one eye of a broker H.264 stream.
    pub fn broker_h264(label: &str, width: u32, height: u32) -> (choice: Self)
        ensures
            choice.camera_id matches Some(id) && id@ == "broker-h264-"@ + label@,
            (MakepadCameraChoice { camera_id: None, ..choice }) == broker_h264_choice_spec::<I>(
                label@,
                width,
                height,
            ),
    {
        proof {
            reveal_strlit("right");
        }
        let source_index: usize = if str_equal(label, "right") {
            1
        } else {
            0
        };
        let mut id = String::from_str("broker-h264-");
        id.append(label);
        MakepadCameraChoice {
            source_index,
            input: None,
            camera_id: Some(id),
            source_class: SourceClass::Synthetic,
            width: width as usize,
            height: height as usize,
            frame_rate_milli: None,
            pixel_format: PixelFormat::Unsupported(0x6832_3634),
        }
    }
}


/// Which choices a lookup considers.
pub enum ChoiceMatch<'a> {
    /// Choices of the video input at this index.
    SourceIndex(usize),
    /// Choices whose camera id is exactly this one.
    CameraId(&'a str),
}

impl<'a> ChoiceMatch<'a> {
    /// The input index a lookup by index considers.
    pub open spec fn index_spec(self) -> Option<usize> {
        match self {
            ChoiceMatch::SourceIndex(index) => Some(index),
            ChoiceMatch::CameraId(_) => None,
        }
    }

    /// The camera id a lookup by id considers.
    pub open spec fn id_spec(self) -> Seq<char> {
        match self {
            ChoiceMatch::SourceIndex(_) => Seq::empty(),
            ChoiceMatch::CameraId(id) => id@,
        }
    }
}

/// Whether a lookup considers a choice: by input index when `by_index` is
/// given, else by exact camera id `id`.
pub open spec fn choice_matches<I>(choice: MakepadCameraChoice<I>, by_index: Option<usize>, id: Seq<char>) -> bool {
    match by_index {
        Some(index) => choice.source_index == index,
        None => choice.camera_id matches Some(c) && c@ == id,
    }
}

/// The ranking of a choice for a lookup that prefers one size: whether it
/// has that size, then its own score.
pub open spec fn preferred_key<I>(choice: MakepadCameraChoice<I>, preferred: (usize, usize)) -> (
    int,
    int,
    int,
    int,
    int,
) {
    let s = choice_score_spec(choice);
    (
        if choice.width == preferred.0 && choice.height == preferred.1 {
            1int
        } else {
            0int
        },
        s.0,
        s.1,
        s.2,
        s.3,
    )
}

/// Lexicographic `a < b` on five integers.
pub open spec fn key5_lt(a: (int, int, int, int, int), b: (int, int, int, int, int)) -> bool {
    a.0 < b.0 || (a.0 == b.0 && (a.1 < b.1 || (a.1 == b.1 && (a.2 < b.2 || (a.2 == b.2 && (a.3
        < b.3 || (a.3 == b.3 && a.4 < b.4)))))))
}

/// `i` is the last considered choice with the highest preferred ranking,
/// the one `Iterator::max_by_key` yields.
pub open spec fn is_last_best_choice<I>(
    choices: Seq<MakepadCameraChoice<I>>,
    by_index: Option<usize>,
    id: Seq<char>,
    preferred: (usize, usize),
    i: int,
) -> bool {
    &&& 0 <= i < choices.len()
    &&& choice_matches(choices[i], by_index, id)
    &&& forall|j: int|
        0 <= j < choices.len() && choice_matches(#[trigger] choices[j], by_index, id) ==> !key5_lt(
            preferred_key(choices[i], preferred),
            preferred_key(choices[j], preferred),
        )
    &&& forall|j: int|
        i < j < choices.len() && choice_matches(#[trigger] choices[j], by_index, id) ==> key5_lt(
            preferred_key(choices[j], preferred),
            preferred_key(choices[i], preferred),
        )
}

/// The choice a lookup yields: the last considered one with the highest
/// preferred ranking, `None` when it considers none.
pub open spec fn best_choice_spec<I>(
    choices: Seq<MakepadCameraChoice<I>>,
    by_index: Option<usize>,
    id: Seq<char>,
    preferred: (usize, usize),
) -> Option<MakepadCameraChoice<I>> {
    if exists|i: int| is_last_best_choice(choices, by_index, id, preferred, i) {
        Some(choices[choose|i: int| is_last_best_choice(choices, by_index, id, preferred, i)])
    } else {
        None
    }
}

/// At most one choice is the last best of a lookup.
pub proof fn lemma_last_best_choice_unique<I>(
    choices: Seq<MakepadCameraChoice<I>>,
    by_index: Option<usize>,
    id: Seq<char>,
    preferred: (usize, usize),
    i: int,
    j: int,
)
    requires
        is_last_best_choice(choices, by_index, id, preferred, i),
        is_last_best_choice(choices, by_index, id, preferred, j),
    ensures
        i == j,
{
    if i < j {
        assert(choice_matches(choices[j], by_index, id));
    } else if j < i {
        assert(choice_matches(choices[i], by_index, id));
    }
}

fn key5_less(a: (i32, i32, i64, i64, i64), b: (i32, i32, i64, i64, i64)) -> (r: bool)
    ensures
        r == key5_lt(
            (a.0 as int, a.1 as int, a.2 as int, a.3 as int, a.4 as int),
            (b.0 as int, b.1 as int, b.2 as int, b.3 as int, b.4 as int),
        ),
{
    a.0 < b.0 || (a.0 == b.0 && (a.1 < b.1 || (a.1 == b.1 && (a.2 < b.2 || (a.2 == b.2 && (a.3
        < b.3 || (a.3 == b.3 && a.4 < b.4)))))))
}

fn matches_exec<I>(choice: &MakepadCameraChoice<I>, m: &ChoiceMatch) -> (r: bool)
    ensures
        r == choice_matches(*choice, m.index_spec(), m.id_spec()),
{
    match m {
        ChoiceMatch::SourceIndex(index) => choice.source_index == *index,
        ChoiceMatch::CameraId(id) => match &choice.camera_id {
            Some(c) => str_equal(c.as_str(), id),
            None => false,
        },
    }
}

fn preferred_key_exec<I>(choice: &MakepadCameraChoice<I>, preferred: (usize, usize)) -> (key: (
    i32,
    i32,
    i64,
    i64,
    i64,
))
    requires
        choice_scorable(*choice),
    ensures
        (key.0 as int, key.1 as int, key.2 as int, key.3 as int, key.4 as int) == preferred_key(
            *choice,
            preferred,
        ),
{
    let pm: i32 = if choice.width == preferred.0 && choice.height == preferred.1 {
        1
    } else {
        0
    };
    let s = choice.score();
    (pm, s.0, s.1, s.2, s.3)
}

/// The index of the last considered choice with the highest preferred
/// ranking, `None` when no choice is considered.
pub fn last_best_choice_index<I>(
    choices: &Vec<MakepadCameraChoice<I>>,
    m: &ChoiceMatch,
    preferred: (usize, usize),
) -> (r: Option<usize>)
    requires
        choices_scorable(choices@),
    ensures
        match r {
            Some(i) => is_last_best_choice(choices@, m.index_spec(), m.id_spec(), preferred, i as int),
            None => forall|j: int|
                0 <= j < choices@.len() ==> !choice_matches(#[trigger] choices@[j], m.index_spec(), m.id_spec()),
        },
        match r {
            Some(i) => best_choice_spec(choices@, m.index_spec(), m.id_spec(), preferred) == Some(choices@[i as int]),
            None => best_choice_spec(choices@, m.index_spec(), m.id_spec(), preferred) is None,
        },
{
    let ghost bi = m.index_spec();
    let ghost id = m.id_spec();
    let n = choices.len();
    let mut best: Option<usize> = None;
    let mut best_key: (i32, i32, i64, i64, i64) = (0, 0, 0, 0, 0);
    let mut i: usize = 0;
    while i < n
        invariant
            i <= n == choices@.len(),
            bi == m.index_spec(),
            id == m.id_spec(),
            choices_scorable(choices@),
            match best {
                Some(b) => {
                    &&& b < i
                    &&& choice_matches(choices@[b as int], bi, id)
                    &&& (best_key.0 as int, best_key.1 as int, best_key.2 as int, best_key.3 as int, best_key.4 as int)
                        == preferred_key(choices@[b as int], preferred)
                    &&& forall|j: int|
                        0 <= j < i && choice_matches(#[trigger] choices@[j], bi, id) ==> !key5_lt(
                            preferred_key(choices@[b as int], preferred),
                            preferred_key(choices@[j], preferred),
                        )
                    &&& forall|j: int|
                        b < j < i && choice_matches(#[trigger] choices@[j], bi, id) ==> key5_lt(
                            preferred_key(choices@[j], preferred),
                            preferred_key(choices@[b as int], preferred),
                        )
                },
                None => forall|j: int| 0 <= j < i ==> !choice_matches(#[trigger] choices@[j], bi, id),
            },
        decreases n - i,
    {
        let choice = &choices[i];
        if matches_exec(choice, m) {
            let key = preferred_key_exec(choice, preferred);
            match best {
                Some(_) => {
                    if !key5_less(key, best_key) {
                        best = Some(i);
                        best_key = key;
                    }
                },
                None => {
                    best = Some(i);
                    best_key = key;
                },
            }
        }
        i = i + 1;
    }
    proof {
        match best {
            Some(b) => {
                assert(is_last_best_choice(choices@, bi, id, preferred, b as int));
                let c = choose|k: int| is_last_best_choice(choices@, bi, id, preferred, k);
                lemma_last_best_choice_unique(choices@, bi, id, preferred, c, b as int);
            },
            None => {
                if exists|k: int| is_last_best_choice(choices@, bi, id, preferred, k) {
                    let c = choose|k: int| is_last_best_choice(choices@, bi, id, preferred, k);
                    assert(!choice_matches(choices@[c], bi, id));
                }
            },
        }
    }
    best
}

/// The choice of input `source_index` that has the preferred size, else
/// the best-ranked one; among equals the last.
pub fn best_choice_for_source_index<I: Copy>(
    choices: &Vec<MakepadCameraChoice<I>>,
    source_index: usize,
    preferred_size: (usize, usize),
) -> (r: Option<MakepadCameraChoice<I>>)
    requires
        choices_scorable(choices@),
    ensures
        r == best_choice_spec(choices@, Some(source_index), Seq::empty(), preferred_size),
{
    let m = ChoiceMatch::SourceIndex(source_index);
    match last_best_choice_index(choices, &m, preferred_size) {
        Some(i) => Some(choices[i].duplicate()),
        None => None,
    }
}

/// The choice that a lookup by camera id yields: none for an empty id.
pub open spec fn camera_id_choice_spec<I>(
    choices: Seq<MakepadCameraChoice<I>>,
    camera_id: Seq<char>,
    preferred: (usize, usize),
) -> Option<MakepadCameraChoice<I>> {
    if camera_id.len() == 0 {
        None
    } else {
        best_choice_spec(choices, None, camera_id, preferred)
    }
}

/// The choice of camera `camera_id` that has the preferred size, else the
/// best-ranked one; among equals the last. An empty id matches nothing.
pub fn best_choice_for_camera_id<I: Copy>(
    choices: &Vec<MakepadCameraChoice<I>>,
    camera_id: &str,
    preferred_size: (usize, usize),
) -> (r: Option<MakepadCameraChoice<I>>)
    requires
        choices_scorable(choices@),
    ensures
        r == camera_id_choice_spec(choices@, camera_id@, preferred_size),
{
    if camera_id.unicode_len() == 0 {
        return None;
    }
    let m = ChoiceMatch::CameraId(camera_id);
    match last_best_choice_index(choices, &m, preferred_size) {
        Some(i) => Some(choices[i].duplicate()),
        None => None,
    }
}


/// A homography between projection spaces: the identity, or a measured
/// matrix that the library carries without reading it.
#[derive(Clone, Copy, Debug)]
pub enum ProjectionHomography<M> {
    Identity,
    Measured(M),
}

/// The eight homographies of a stereo projection, per eye: surface to
/// camera, surface to screen, screen to camera and screen to surface.
#[derive(Clone, Copy, Debug)]
pub struct StereoHomographies<M> {
    pub left_surface_to_camera: ProjectionHomography<M>,
    pub right_surface_to_camera: ProjectionHomography<M>,
    pub left_surface_to_screen: ProjectionHomography<M>,
    pub right_surface_to_screen: ProjectionHomography<M>,
    pub left_screen_to_camera: ProjectionHomography<M>,
    pub right_screen_to_camera: ProjectionHomography<M>,
    pub left_screen_to_surface: ProjectionHomography<M>,
    pub right_screen_to_surface: ProjectionHomography<M>,
}

impl<M> StereoHomographies<M> {
    /// Every homography the identity.
    pub open spec fn identity_spec() -> Self {
        StereoHomographies {
            left_surface_to_camera: ProjectionHomography::Identity,
            right_surface_to_camera: ProjectionHomography::Identity,
            left_surface_to_screen: ProjectionHomography::Identity,
            right_surface_to_screen: ProjectionHomography::Identity,
            left_screen_to_camera: ProjectionHomography::Identity,
            right_screen_to_camera: ProjectionHomography::Identity,
            left_screen_to_surface: ProjectionHomography::Identity,
            right_screen_to_surface: ProjectionHomography::Identity,
        }
    }

    /// Every homography the identity.
    pub fn identity() -> (h: Self)
        ensures
            h == Self::identity_spec(),
    {
        StereoHomographies {
            left_surface_to_camera: ProjectionHomography::Identity,
            right_surface_to_camera: ProjectionHomography::Identity,
            left_surface_to_screen: ProjectionHomography::Identity,
            right_surface_to_screen: ProjectionHomography::Identity,
            left_screen_to_camera: ProjectionHomography::Identity,
            right_screen_to_camera: ProjectionHomography::Identity,
            left_screen_to_surface: ProjectionHomography::Identity,
            right_screen_to_surface: ProjectionHomography::Identity,
        }
    }
}

/// The Camera2 stereo plan as the panel binds it: which sources and camera
/// ids feed which eye, at which size, and how the projection is mapped.
/// `C` is the OpenXR projection contract, carried through unread.
pub struct Camera2StereoPlan<M, C> {
    pub left_source_index: usize,
    pub right_source_index: usize,
    pub left_camera_id: String,
    pub right_camera_id: String,
    pub width: u32,
    pub height: u32,
    pub projection_metadata_ready: bool,
    pub projection_geometry_profile: String,
    pub pose_source: String,
    pub source_eye_mapping: String,
    pub coordinate_chain: String,
    pub fallback_reason: String,
    pub homographies: StereoHomographies<M>,
    pub projection_homography_ready: bool,
    pub runtime_xr_view_state_ready: bool,
    pub openxr_contract: C,
}

fn joined(prefix: &str, rest: &str) -> (out: String)
    ensures
        out@ == prefix@ + rest@,
{
    let mut out = String::from_str(prefix);
    out.append(rest);
    out
}

fn string_contains(hay: &String, needle: &str) -> (r: bool)
    ensures
        r == contains_text(hay@, needle@),
{
    let chars = chars_of(hay.as_str());
    contains_chars(&chars, needle)
}

/// The coordinate chain with `prefix/` put in front, unless it already
/// mentions `mark`.
pub open spec fn chain_with(chain: Seq<char>, mark: Seq<char>, prefix: Seq<char>) -> Seq<char> {
    if contains_text(chain, mark) {
        chain
    } else {
        prefix + "/"@ + chain
    }
}


/// What applying a (normalized) projection geometry profile does to a plan:
/// `after` is `before` with the profile applied.
pub open spec fn profile_applied<M, C>(
    before: Camera2StereoPlan<M, C>,
    profile: Seq<char>,
    after: Camera2StereoPlan<M, C>,
) -> bool {
    &&& (after.projection_geometry_profile@ == profile)
    &&& (profile == "camera-projection"@ ==> {
                &&& after.coordinate_chain@ == chain_with(
                    before.coordinate_chain@,
                    "direct-camera2-screen-to-camera-homography"@,
                    "direct-camera2-screen-to-camera-homography"@,
                )
                &&& after.fallback_reason@ == if before.fallback_reason@
                    == "unsupported_direct_camera_projection_geometry_profile"@ {
                    if before.projection_homography_ready {
                        "none"@
                    } else {
                        "waiting_for_camera2_projection_homography"@
                    }
                } else {
                    before.fallback_reason@
                }
                &&& after == (Camera2StereoPlan {
                    projection_geometry_profile: after.projection_geometry_profile,
                    coordinate_chain: after.coordinate_chain,
                    fallback_reason: after.fallback_reason,
                    ..before
                })
            })
    &&& (profile != "camera-projection"@ && profile != "full-frame-diagnostic"@ ==> {
                &&& after.fallback_reason@
                    == "unsupported_direct_camera_projection_geometry_profile:"@ + marker_token_spec(
                    profile,
                )
                &&& after.coordinate_chain@ == chain_with(
                    before.coordinate_chain@,
                    "unsupported-direct-camera-projection-geometry-profile"@,
                    "unsupported-direct-camera-projection-geometry-profile:"@ + marker_token_spec(
                        profile,
                    ),
                )
                &&& after == (Camera2StereoPlan {
                    projection_geometry_profile: after.projection_geometry_profile,
                    coordinate_chain: after.coordinate_chain,
                    fallback_reason: after.fallback_reason,
                    projection_metadata_ready: false,
                    projection_homography_ready: false,
                    ..before
                })
            })
    &&& (profile == "full-frame-diagnostic"@ ==> {
                let ready = before.runtime_xr_view_state_ready;
                &&& after.pose_source@ == "projection-surface"@
                &&& after.fallback_reason@ == if ready {
                    "none"@
                } else {
                    "waiting_for_runtime_openxr_view_state"@
                }
                &&& after.coordinate_chain@ == chain_with(
                    before.coordinate_chain@,
                    "direct-camera2-full-frame-diagnostic-projection-surface"@,
                    "direct-camera2-full-frame-diagnostic-projection-surface"@,
                )
                &&& after == (Camera2StereoPlan {
                    projection_geometry_profile: after.projection_geometry_profile,
                    coordinate_chain: after.coordinate_chain,
                    fallback_reason: after.fallback_reason,
                    pose_source: after.pose_source,
                    projection_metadata_ready: ready,
                    projection_homography_ready: ready,
                    homographies: StereoHomographies {
                        left_surface_to_camera: ProjectionHomography::Identity,
                        right_surface_to_camera: ProjectionHomography::Identity,
                        left_screen_to_camera: before.homographies.left_screen_to_surface,
                        right_screen_to_camera: before.homographies.right_screen_to_surface,
                        ..before.homographies
                    },
                    ..before
                })
            })
}

impl<M: Copy, C> Camera2StereoPlan<M, C> {
    /// The capture size as the choice lookups compare it.
    pub fn size(&self) -> (size: (usize, usize))
        ensures
            size == (self.width as usize, self.height as usize),
    {
        (self.width as usize, self.height as usize)
    }

    /// Applies a (normalized) projection geometry profile to the plan.
    ///
    /// `camera-projection` keeps the Camera2 homographies and marks the
    /// chain; `full-frame-diagnostic` maps the projection surface straight
    /// onto the camera frame once the runtime OpenXR views are known; any
    /// other profile is unsupported and drops projection readiness.
    pub fn apply_projection_geometry_profile(&mut self, profile: &str)
        ensures
            profile_applied(*old(self), profile@, *final(self)),
    {
        proof {
            reveal_strlit("camera-projection");
            reveal_strlit("full-frame-diagnostic");
            assert("camera-projection"@[0] != "full-frame-diagnostic"@[0]);
        }
        self.projection_geometry_profile = String::from_str(profile);
        if str_equal(profile, "camera-projection") {
            if !string_contains(&self.coordinate_chain, "direct-camera2-screen-to-camera-homography") {
                let prefix = joined("direct-camera2-screen-to-camera-homography", "/");
                self.coordinate_chain = joined(prefix.as_str(), self.coordinate_chain.as_str());
            }
            if str_equal(
                self.fallback_reason.as_str(),
                "unsupported_direct_camera_projection_geometry_profile",
            ) {
                self.fallback_reason = if self.projection_homography_ready {
                    String::from_str("none")
                } else {
                    String::from_str("waiting_for_camera2_projection_homography")
                };
            }
            return;
        }
        if !str_equal(profile, "full-frame-diagnostic") {
            let token = marker_token(profile);
            self.projection_metadata_ready = false;
            self.projection_homography_ready = false;
            self.fallback_reason = joined(
                "unsupported_direct_camera_projection_geometry_profile:",
                token.as_str(),
            );
            if !string_contains(
                &self.coordinate_chain,
                "unsupported-direct-camera-projection-geometry-profile",
            ) {
                let head = joined(
                    "unsupported-direct-camera-projection-geometry-profile:",
                    token.as_str(),
                );
                let prefix = joined(head.as_str(), "/");
                self.coordinate_chain = joined(prefix.as_str(), self.coordinate_chain.as_str());
            }
            return;
        }
        let ready = self.runtime_xr_view_state_ready;
        self.projection_metadata_ready = ready;
        self.pose_source = String::from_str("projection-surface");
        self.fallback_reason = if ready {
            String::from_str("none")
        } else {
            String::from_str("waiting_for_runtime_openxr_view_state")
        };
        self.homographies.left_surface_to_camera = ProjectionHomography::Identity;
        self.homographies.right_surface_to_camera = ProjectionHomography::Identity;
        self.homographies.left_screen_to_camera = self.homographies.left_screen_to_surface;
        self.homographies.right_screen_to_camera = self.homographies.right_screen_to_surface;
        self.projection_homography_ready = ready;
        if !string_contains(
            &self.coordinate_chain,
            "direct-camera2-full-frame-diagnostic-projection-surface",
        ) {
            let prefix = joined("direct-camera2-full-frame-diagnostic-projection-surface", "/");
            self.coordinate_chain = joined(prefix.as_str(), self.coordinate_chain.as_str());
        }
    }
}


/// The projection geometry profile of a pair that no Camera2 plan backs.
pub open spec fn default_projection_geometry_profile() -> Seq<char> {
    "camera-projection"@
}

/// The two video inputs bound to the panel's eyes, and how the projection is
/// mapped onto them. `openxr_contract` is `None` while no OpenXR projection
/// contract is known.
pub struct MakepadCameraPair<I, M, C> {
    pub left: MakepadCameraChoice<I>,
    pub right: MakepadCameraChoice<I>,
    pub projection_metadata_ready: bool,
    pub projection_geometry_profile: String,
    pub pose_source: String,
    pub source_eye_mapping: String,
    pub source_binding_mode: String,
    pub coordinate_chain: String,
    pub fallback_reason: String,
    pub homographies: StereoHomographies<M>,
    pub projection_homography_ready: bool,
    pub runtime_xr_view_state_ready: bool,
    pub openxr_contract: Option<C>,
}

/// The view of an optional build-time setting.
pub open spec fn opt_view(value: Option<&str>) -> Option<Seq<char>> {
    match value {
        Some(v) => Some(v@),
        None => None,
    }
}

/// The choice that feeds one eye of a Camera2 plan: the one with the plan's
/// camera id, else one of the plan's source index.
pub open spec fn plan_eye_choice<I>(
    choices: Seq<MakepadCameraChoice<I>>,
    camera_id: Seq<char>,
    source_index: usize,
    size: (usize, usize),
) -> Option<MakepadCameraChoice<I>> {
    match camera_id_choice_spec(choices, camera_id, size) {
        Some(c) => Some(c),
        None => best_choice_spec(choices, Some(source_index), Seq::empty(), size),
    }
}

/// How a pair was bound to a Camera2 plan: by camera id when both eyes
/// carry the plan's ids, else by source index; marked as a full-frame
/// diagnostic binding under that profile.
pub open spec fn plan_binding_mode<I>(
    left: MakepadCameraChoice<I>,
    right: MakepadCameraChoice<I>,
    left_id: Seq<char>,
    right_id: Seq<char>,
    profile: Seq<char>,
) -> Seq<char> {
    let base = if (left.camera_id matches Some(l) && l@ == left_id) && (right.camera_id matches Some(
        r,
    ) && r@ == right_id) {
        "camera-id"@
    } else {
        "source-index-fallback"@
    };
    if profile == "full-frame-diagnostic"@ {
        "direct-camera2-full-frame-diagnostic-"@ + base
    } else {
        base
    }
}

fn camera_id_is(choice: &Option<String>, id: &String) -> (r: bool)
    ensures
        r == (choice matches Some(c) && c@ == id@),
{
    match choice {
        Some(c) => str_equal(c.as_str(), id.as_str()),
        None => false,
    }
}

/// Whether two choices can form a pair: different inputs with the same
/// pixel format and size.
pub open spec fn pair_candidate<I>(choices: Seq<MakepadCameraChoice<I>>, l: int, r: int) -> bool {
    &&& 0 <= l < choices.len()
    &&& 0 <= r < choices.len()
    &&& choices[l].source_index != choices[r].source_index
    &&& choices[l].pixel_format == choices[r].pixel_format
    &&& choices[l].width == choices[r].width
    &&& choices[l].height == choices[r].height
}

/// The frame rate a pair runs at: the slower of the two, `0` when either
/// is unknown.
pub open spec fn pair_frame_rate(left: Option<i64>, right: Option<i64>) -> int {
    match (left, right) {
        (Some(a), Some(b)) => if a <= b {
            a as int
        } else {
            b as int
        },
        _ => 0,
    }
}

/// The ranking of candidate pair `(l, r)`: source classes, frame rate, size
/// score and area of the shared format, then closeness of the two inputs.
pub open spec fn pair_key<I>(choices: Seq<MakepadCameraChoice<I>>, l: int, r: int) -> (
    int,
    int,
    int,
    int,
    int,
) {
    let a = choices[l];
    let b = choices[r];
    (
        a.source_class.rank_spec() + b.source_class.rank_spec(),
        pair_frame_rate(a.frame_rate_milli, b.frame_rate_milli),
        format_size_score(a.width as int, a.height as int),
        a.width * a.height,
        -distance(a.source_index as int, b.source_index as int),
    )
}

/// Whether pair `(a, b)` is visited before pair `(l, r)`.
pub open spec fn pair_before(a: int, b: int, l: int, r: int) -> bool {
    a < l || (a == l && b < r)
}

/// `(l, r)` is the first visited candidate pair with the highest ranking.
pub open spec fn is_first_best_pair<I>(choices: Seq<MakepadCameraChoice<I>>, l: int, r: int) -> bool {
    &&& pair_candidate(choices, l, r)
    &&& forall|a: int, b: int|
        #[trigger] pair_candidate(choices, a, b) ==> !key5_lt(pair_key(choices, l, r), pair_key(choices, a, b))
    &&& forall|a: int, b: int|
        #[trigger] pair_candidate(choices, a, b) && pair_before(a, b, l, r) ==> key5_lt(
            pair_key(choices, a, b),
            pair_key(choices, l, r),
        )
}

fn key5_less_i64(a: (i64, i64, i64, i64, i64), b: (i64, i64, i64, i64, i64)) -> (r: bool)
    ensures
        r == key5_lt(
            (a.0 as int, a.1 as int, a.2 as int, a.3 as int, a.4 as int),
            (b.0 as int, b.1 as int, b.2 as int, b.3 as int, b.4 as int),
        ),
{
    a.0 < b.0 || (a.0 == b.0 && (a.1 < b.1 || (a.1 == b.1 && (a.2 < b.2 || (a.2 == b.2 && (a.3
        < b.3 || (a.3 == b.3 && a.4 < b.4)))))))
}

fn pair_key_exec<I>(choices: &Vec<MakepadCameraChoice<I>>, l: usize, r: usize) -> (key: (
    i64,
    i64,
    i64,
    i64,
    i64,
))
    requires
        choices_scorable(choices@),
        pair_candidate(choices@, l as int, r as int),
    ensures
        (key.0 as int, key.1 as int, key.2 as int, key.3 as int, key.4 as int) == pair_key(
            choices@,
            l as int,
            r as int,
        ),
{
    let a = &choices[l];
    let b = &choices[r];
    assert(choice_scorable(choices@[l as int]));
    assert(choice_scorable(choices@[r as int]));
    let rank = (source_class_rank(a.source_class) as i64) + (source_class_rank(b.source_class) as i64);
    let rate: i64 = match (a.frame_rate_milli, b.frame_rate_milli) {
        (Some(x), Some(y)) => if x <= y {
            x
        } else {
            y
        },
        _ => 0,
    };
    let (size, area) = size_score_of(a.width, a.height);
    let spacing = abs_diff_usize(a.source_index, b.source_index) as i64;
    (rank, rate, size, area, -spacing)
}


/// The pair a Camera2 stereo plan yields among `choices`: each eye bound to
/// the choice with the plan's camera id, else to one of its source index, at
/// the plan's size; none when an eye has no choice or both land on the same
/// input.
pub open spec fn plan_pair_spec<I, M, C>(
    choices: Seq<MakepadCameraChoice<I>>,
    plan: Camera2StereoPlan<M, C>,
    mapping: Option<Seq<char>>,
    pair: Option<MakepadCameraPair<I, M, C>>,
) -> bool {
                let size = (plan.width as usize, plan.height as usize);
                let l = plan_eye_choice(choices, plan.left_camera_id@, plan.left_source_index, size);
                let r = plan_eye_choice(choices, plan.right_camera_id@, plan.right_source_index, size);
                match (l, r) {
                    (Some(lc), Some(rc)) => if lc.source_index == rc.source_index {
                        pair is None
                    } else {
                        pair matches Some(p) && {
                            &&& p.left == lc
                            &&& p.right == rc
                            &&& p.projection_metadata_ready == plan.projection_metadata_ready
                            &&& p.projection_geometry_profile@ == plan.projection_geometry_profile@
                            &&& p.pose_source@ == plan.pose_source@
                            &&& p.source_eye_mapping@ == display_source_eye_mapping_spec(
                                mapping,
                            )
                            &&& p.source_binding_mode@ == plan_binding_mode(
                                lc,
                                rc,
                                plan.left_camera_id@,
                                plan.right_camera_id@,
                                plan.projection_geometry_profile@,
                            )
                            &&& p.coordinate_chain@ == plan.coordinate_chain@
                            &&& p.fallback_reason@ == plan.fallback_reason@
                            &&& p.homographies == plan.homographies
                            &&& p.projection_homography_ready == plan.projection_homography_ready
                            &&& p.runtime_xr_view_state_ready == plan.runtime_xr_view_state_ready
                            &&& p.openxr_contract == Some(plan.openxr_contract)
                        }
                    },
                    _ => pair is None,
                }
            }

/// The fallback pair among `choices` when no plan can be correlated: the
/// first visited candidate pair with the highest ranking, without projection
/// metadata; none when no two choices can pair.
pub open spec fn best_available_pair_spec<I, M, C>(
    choices: Seq<MakepadCameraChoice<I>>,
    mapping: Option<Seq<char>>,
    pair: Option<MakepadCameraPair<I, M, C>>,
) -> bool {
    match pair {
                Some(p) => {
                    &&& exists|l: int, r: int|
                        is_first_best_pair(choices, l, r) && p.left == choices[l] && p.right
                            == choices[r]
                    &&& !p.projection_metadata_ready
                    &&& p.projection_geometry_profile@ == default_projection_geometry_profile()
                    &&& p.pose_source@ == "missing"@
                    &&& p.source_eye_mapping@ == display_source_eye_mapping_spec(
                        mapping,
                    )
                    &&& p.source_binding_mode@ == "best-available-fallback"@
                    &&& p.coordinate_chain@ == "unresolved"@
                    &&& p.fallback_reason@ == "camera2 stereo projection metadata was not correlated"@
                    &&& p.homographies == StereoHomographies::<M>::identity_spec()
                    &&& !p.projection_homography_ready
                    &&& !p.runtime_xr_view_state_ready
                    &&& p.openxr_contract is None
                },
                None => forall|a: int, b: int| !#[trigger] pair_candidate(choices, a, b),
            }
}
impl<I: Copy, M: Copy, C: Copy> MakepadCameraPair<I, M, C> {
    /// The pair a Camera2 stereo plan asks for: each eye bound to the
    /// choice with the plan's camera id, else to one of its source index,
    /// at the plan's size; `None` when an eye has no choice or both land on
    /// the same input.
    pub fn from_camera2_plan(
        choices: &Vec<MakepadCameraChoice<I>>,
        plan: &Camera2StereoPlan<M, C>,
        eye_mapping_config: Option<&str>,
    ) -> (pair: Option<Self>)
        requires
            choices_scorable(choices@),
        ensures
            plan_pair_spec(choices@, *plan, opt_view(eye_mapping_config), pair),

    {
        let size = plan.size();
        let left = match best_choice_for_camera_id(choices, plan.left_camera_id.as_str(), size) {
            Some(c) => c,
            None => match best_choice_for_source_index(choices, plan.left_source_index, size) {
                Some(c) => c,
                None => {
                    return None;
                },
            },
        };
        let right = match best_choice_for_camera_id(choices, plan.right_camera_id.as_str(), size) {
            Some(c) => c,
            None => match best_choice_for_source_index(choices, plan.right_source_index, size) {
                Some(c) => c,
                None => {
                    return None;
                },
            },
        };
        if left.source_index == right.source_index {
            return None;
        }
        proof {
            reveal_strlit("camera-id");
            reveal_strlit("source-index-fallback");
            reveal_strlit("full-frame-diagnostic");
        }
        let base = if camera_id_is(&left.camera_id, &plan.left_camera_id) && camera_id_is(
            &right.camera_id,
            &plan.right_camera_id,
        ) {
            "camera-id"
        } else {
            "source-index-fallback"
        };
        let source_binding_mode = if str_equal(
            plan.projection_geometry_profile.as_str(),
            "full-frame-diagnostic",
        ) {
            joined("direct-camera2-full-frame-diagnostic-", base)
        } else {
            String::from_str(base)
        };
        let mapping = display_source_eye_mapping(eye_mapping_config);
        Some(MakepadCameraPair {
            left,
            right,
            projection_metadata_ready: plan.projection_metadata_ready,
            projection_geometry_profile: plan.projection_geometry_profile.clone(),
            pose_source: plan.pose_source.clone(),
            source_eye_mapping: String::from_str(mapping),
            source_binding_mode,
            coordinate_chain: plan.coordinate_chain.clone(),
            fallback_reason: plan.fallback_reason.clone(),
            homographies: plan.homographies,
            projection_homography_ready: plan.projection_homography_ready,
            runtime_xr_view_state_ready: plan.runtime_xr_view_state_ready,
            openxr_contract: Some(plan.openxr_contract),
        })
    }

    /// Whether the pair is bound to the plan's cameras, by both camera ids
    /// or by both source indices.
    pub fn matches_camera2_plan(&self, plan: &Camera2StereoPlan<M, C>) -> (r: bool)
        ensures
            r == (((self.left.camera_id matches Some(l) && l@ == plan.left_camera_id@) && (
            self.right.camera_id matches Some(rr) && rr@ == plan.right_camera_id@)) || (
            self.left.source_index == plan.left_source_index && self.right.source_index
                == plan.right_source_index)),
    {
        let camera_id_match = camera_id_is(&self.left.camera_id, &plan.left_camera_id)
            && camera_id_is(&self.right.camera_id, &plan.right_camera_id);
        let source_index_match = self.left.source_index == plan.left_source_index
            && self.right.source_index == plan.right_source_index;
        camera_id_match || source_index_match
    }
}


impl<I: Copy, M: Copy, C: Copy> MakepadCameraPair<I, M, C> {
    /// The best pair of choices when no Camera2 plan can be correlated: the
    /// first visited candidate pair with the highest ranking, with no
    /// projection metadata; `None` when no two choices can pair.
    pub fn from_best_available_pair(
        choices: &Vec<MakepadCameraChoice<I>>,
        eye_mapping_config: Option<&str>,
    ) -> (pair: Option<Self>)
        requires
            choices_scorable(choices@),
        ensures
            best_available_pair_spec(choices@, opt_view(eye_mapping_config), pair),

    {
        let n = choices.len();
        let mut best: Option<(usize, usize)> = None;
        let mut best_key: (i64, i64, i64, i64, i64) = (0, 0, 0, 0, 0);
        let mut li: usize = 0;
        while li < n
            invariant
                li <= n == choices@.len(),
                choices_scorable(choices@),
                match best {
                    Some((bl, br)) => {
                        &&& pair_candidate(choices@, bl as int, br as int)
                        &&& pair_before(bl as int, br as int, li as int, 0)
                        &&& (best_key.0 as int, best_key.1 as int, best_key.2 as int, best_key.3 as int, best_key.4 as int)
                            == pair_key(choices@, bl as int, br as int)
                        &&& forall|a: int, b: int|
                            #[trigger] pair_candidate(choices@, a, b) && pair_before(a, b, li as int, 0) ==> !key5_lt(
                                pair_key(choices@, bl as int, br as int),
                                pair_key(choices@, a, b),
                            )
                        &&& forall|a: int, b: int|
                            #[trigger] pair_candidate(choices@, a, b) && pair_before(a, b, bl as int, br as int) ==> key5_lt(
                                pair_key(choices@, a, b),
                                pair_key(choices@, bl as int, br as int),
                            )
                    },
                    None => forall|a: int, b: int|
                        #[trigger] pair_candidate(choices@, a, b) ==> !pair_before(a, b, li as int, 0),
                },
            decreases n - li,
        {
            let mut ri: usize = 0;
            while ri < n
                invariant
                    li < n == choices@.len(),
                    ri <= n,
                    choices_scorable(choices@),
                    match best {
                        Some((bl, br)) => {
                            &&& pair_candidate(choices@, bl as int, br as int)
                            &&& pair_before(bl as int, br as int, li as int, ri as int)
                            &&& (best_key.0 as int, best_key.1 as int, best_key.2 as int, best_key.3 as int, best_key.4 as int)
                                == pair_key(choices@, bl as int, br as int)
                            &&& forall|a: int, b: int|
                                #[trigger] pair_candidate(choices@, a, b) && pair_before(a, b, li as int, ri as int) ==> !key5_lt(
                                    pair_key(choices@, bl as int, br as int),
                                    pair_key(choices@, a, b),
                                )
                            &&& forall|a: int, b: int|
                                #[trigger] pair_candidate(choices@, a, b) && pair_before(a, b, bl as int, br as int) ==> key5_lt(
                                    pair_key(choices@, a, b),
                                    pair_key(choices@, bl as int, br as int),
                                )
                        },
                        None => forall|a: int, b: int|
                            #[trigger] pair_candidate(choices@, a, b) ==> !pair_before(a, b, li as int, ri as int),
                    },
                decreases n - ri,
            {
                let left = &choices[li];
                let right = &choices[ri];
                if left.source_index != right.source_index && left.pixel_format == right.pixel_format
                    && left.width == right.width && left.height == right.height {
                    assert(pair_candidate(choices@, li as int, ri as int));
                    let key = pair_key_exec(choices, li, ri);
                    let replace = match best {
                        Some(_) => key5_less_i64(best_key, key),
                        None => true,
                    };
                    if replace {
                        best = Some((li, ri));
                        best_key = key;
                    }
                }
                ri = ri + 1;
            }
            li = li + 1;
        }
        match best {
            Some((bl, br)) => {
                assert(is_first_best_pair(choices@, bl as int, br as int));
                proof {
                    reveal_strlit("missing");
                    reveal_strlit("best-available-fallback");
                    reveal_strlit("unresolved");
                    reveal_strlit("camera2 stereo projection metadata was not correlated");
                    reveal_strlit("camera-projection");
                }
                let mapping = display_source_eye_mapping(eye_mapping_config);
                Some(MakepadCameraPair {
                    left: choices[bl].duplicate(),
                    right: choices[br].duplicate(),
                    projection_metadata_ready: false,
                    projection_geometry_profile: String::from_str("camera-projection"),
                    pose_source: String::from_str("missing"),
                    source_eye_mapping: String::from_str(mapping),
                    source_binding_mode: String::from_str("best-available-fallback"),
                    coordinate_chain: String::from_str("unresolved"),
                    fallback_reason: String::from_str(
                        "camera2 stereo projection metadata was not correlated",
                    ),
                    homographies: StereoHomographies::identity(),
                    projection_homography_ready: false,
                    runtime_xr_view_state_ready: false,
                    openxr_contract: None,
                })
            },
            None => None,
        }
    }
}


/// What the pairing reads of a broker H.264 video source.
pub struct BrokerH264Source {
    pub preferred_width: u32,
    pub preferred_height: u32,
    pub source_mode: String,
    pub synthetic_projection_profile: String,
}

/// Whether a normalized broker source mode names the broker's own camera.
pub open spec fn is_camera_stream_mode(mode: Seq<char>) -> bool {
    mode == "broker-camera"@ || mode == "camera"@ || mode == "camera2"@
}

/// Whether a normalized broker source mode names a stream that already
/// exists elsewhere.
pub open spec fn is_existing_stream_mode(mode: Seq<char>) -> bool {
    ||| mode == "existing-stream"@
    ||| mode == "existing"@
    ||| mode == "remote"@
    ||| mode == "proxied"@
    ||| mode == "proxy"@
    ||| mode == "proxy-stream"@
    ||| mode == "incoming"@
    ||| mode == "incoming-stream"@
}

/// The binding mode of a broker stream pair for its source mode.
pub open spec fn broker_binding_mode(source_mode: Seq<char>) -> Seq<char> {
    let mode = normalized_word(source_mode);
    if is_camera_stream_mode(mode) {
        "broker-h264-camera-stereo-stream"@
    } else if is_existing_stream_mode(mode) {
        "broker-h264-existing-stereo-stream"@
    } else {
        "broker-h264-synthetic-stereo-stream"@
    }
}

/// The pending pose source of a broker stream pair for its source mode.
pub open spec fn broker_pending_pose_source(source_mode: Seq<char>) -> Seq<char> {
    let mode = normalized_word(source_mode);
    if is_camera_stream_mode(mode) {
        "broker-camera-h264-stream-header-pending"@
    } else if is_existing_stream_mode(mode) {
        "broker-existing-h264-stream-header-pending"@
    } else {
        "broker-synthetic-h264-stream-header-pending"@
    }
}

fn any_word(word: &Vec<char>, options: &Vec<&str>) -> (r: bool)
    ensures
        r == exists|i: int| 0 <= i < options@.len() && word@ == (#[trigger] options@[i])@,
{
    let mut i: usize = 0;
    while i < options.len()
        invariant
            i <= options@.len(),
            forall|j: int| 0 <= j < i ==> word@ != (#[trigger] options@[j])@,
        decreases options.len() - i,
    {
        if chars_equal(word, options[i]) {
            return true;
        }
        i = i + 1;
    }
    false
}

/// A dimension raised to at least one.
pub open spec fn at_least_one(v: u32) -> u32 {
    if v >= 1 {
        v
    } else {
        1
    }
}


/// The pair standing for a broker H.264 stereo stream before its stream
/// header arrives.
pub open spec fn broker_pair_spec<I, M, C>(source: BrokerH264Source, pair: MakepadCameraPair<I, M, C>) -> bool {
    &&& (({
                let w = at_least_one(source.preferred_width);
                let h = at_least_one(source.preferred_height);
                &&& pair.left.camera_id matches Some(id) && id@ =~= "broker-h264-left"@
                &&& pair.right.camera_id matches Some(id) && id@ =~= "broker-h264-right"@
                &&& (MakepadCameraChoice { camera_id: None, ..pair.left })
                    == broker_h264_choice_spec::<I>("left"@, w, h)
                &&& (MakepadCameraChoice { camera_id: None, ..pair.right })
                    == broker_h264_choice_spec::<I>("right"@, w, h)
            }))
    &&& (!pair.projection_metadata_ready)
    &&& (pair.projection_geometry_profile@ =~= source.synthetic_projection_profile@)
    &&& (pair.pose_source@ =~= broker_pending_pose_source(source.source_mode@))
    &&& (pair.source_eye_mapping@ =~= "left-right"@)
    &&& (pair.source_binding_mode@ =~= broker_binding_mode(source.source_mode@))
    &&& (pair.coordinate_chain@ =~= "broker-h264-delivered-stereo-images-to-shader-surface"@)
    &&& (pair.fallback_reason@ =~= "waiting_for_broker_h264_stream_header"@)
    &&& (pair.homographies == StereoHomographies::<M>::identity_spec())
    &&& (!pair.projection_homography_ready)
    &&& (!pair.runtime_xr_view_state_ready)
    &&& (pair.openxr_contract is None)
}

impl<I: Copy, M: Copy, C: Copy> MakepadCameraPair<I, M, C> {
    /// The pair standing for a broker H.264 stereo stream before its stream
    /// header arrives: both eyes at the preferred size (at least 1 x 1),
    /// bound and posed according to the source mode.
    pub fn from_broker_h264_source(source: &BrokerH264Source) -> (pair: Self)
        ensures
            broker_pair_spec(*source, pair),
    {
        let width = if source.preferred_width >= 1 {
            source.preferred_width
        } else {
            1
        };
        let height = if source.preferred_height >= 1 {
            source.preferred_height
        } else {
            1
        };
        proof {
            reveal_strlit("left");
            reveal_strlit("right");
            reveal_strlit("broker-h264-");
            reveal_strlit("broker-h264-left");
            reveal_strlit("broker-h264-right");
        }
        let left = MakepadCameraChoice::broker_h264("left", width, height);
        let right = MakepadCameraChoice::broker_h264("right", width, height);
        let mode = crate::text::normalize_word(source.source_mode.as_str());
        let camera_modes = vec!["broker-camera", "camera", "camera2"];
        let existing_modes = vec![
            "existing-stream",
            "existing",
            "remote",
            "proxied",
            "proxy",
            "proxy-stream",
            "incoming",
            "incoming-stream",
        ];
        let is_camera = any_word(&mode, &camera_modes);
        let is_existing = any_word(&mode, &existing_modes);
        proof {
            if is_camera_stream_mode(mode@) {
                if mode@ == "broker-camera"@ {
                    assert(mode@ == camera_modes@[0]@);
                } else if mode@ == "camera"@ {
                    assert(mode@ == camera_modes@[1]@);
                } else {
                    assert(mode@ == camera_modes@[2]@);
                }
            }
            if is_camera {
                let i = choose|i: int| 0 <= i < camera_modes@.len() && mode@ == (#[trigger] camera_modes@[i])@;
                assert(i == 0 || i == 1 || i == 2);
            }
            if is_existing_stream_mode(mode@) {
                if mode@ == "existing-stream"@ {
                    assert(mode@ == existing_modes@[0]@);
                } else if mode@ == "existing"@ {
                    assert(mode@ == existing_modes@[1]@);
                } else if mode@ == "remote"@ {
                    assert(mode@ == existing_modes@[2]@);
                } else if mode@ == "proxied"@ {
                    assert(mode@ == existing_modes@[3]@);
                } else if mode@ == "proxy"@ {
                    assert(mode@ == existing_modes@[4]@);
                } else if mode@ == "proxy-stream"@ {
                    assert(mode@ == existing_modes@[5]@);
                } else if mode@ == "incoming"@ {
                    assert(mode@ == existing_modes@[6]@);
                } else {
                    assert(mode@ == existing_modes@[7]@);
                }
            }
            if is_existing {
                let i = choose|i: int| 0 <= i < existing_modes@.len() && mode@ == (#[trigger] existing_modes@[i])@;
                assert(0 <= i < 8);
            }
        }
        let (binding, pose) = if is_camera {
            ("broker-h264-camera-stereo-stream", "broker-camera-h264-stream-header-pending")
        } else if is_existing {
            ("broker-h264-existing-stereo-stream", "broker-existing-h264-stream-header-pending")
        } else {
            ("broker-h264-synthetic-stereo-stream", "broker-synthetic-h264-stream-header-pending")
        };
        MakepadCameraPair {
            left,
            right,
            projection_metadata_ready: false,
            projection_geometry_profile: source.synthetic_projection_profile.clone(),
            pose_source: String::from_str(pose),
            source_eye_mapping: String::from_str("left-right"),
            source_binding_mode: String::from_str(binding),
            coordinate_chain: String::from_str(
                "broker-h264-delivered-stereo-images-to-shader-surface",
            ),
            fallback_reason: String::from_str("waiting_for_broker_h264_stream_header"),
            homographies: StereoHomographies::identity(),
            projection_homography_ready: false,
            runtime_xr_view_state_ready: false,
            openxr_contract: None,
        }
    }
}


proof fn lemma_prefix_contained(mark: Seq<char>, rest: Seq<char>)
    ensures
        contains_text(mark + rest, mark),
{
    assert((mark + rest).subrange(0, mark.len() as int) =~= mark);
    assert(crate::text::occurs_at(mark + rest, mark, 0));
}

proof fn lemma_chain_with_idempotent(chain: Seq<char>, mark: Seq<char>, prefix: Seq<char>, tail: Seq<char>)
    requires
        prefix == mark + tail,
    ensures
        chain_with(chain_with(chain, mark, prefix), mark, prefix) == chain_with(chain, mark, prefix),
{
    if !contains_text(chain, mark) {
        assert(prefix + "/"@ + chain =~= mark + (tail + "/"@ + chain));
        lemma_prefix_contained(mark, tail + "/"@ + chain);
    }
}

/// Applying the same projection geometry profile twice leaves the plan as
/// the first application left it: every marker in the coordinate chain is
/// added at most once, and the fallback reason and homographies settle.
pub proof fn lemma_profile_application_idempotent<M, C>(
    p0: Camera2StereoPlan<M, C>,
    profile: Seq<char>,
    p1: Camera2StereoPlan<M, C>,
    p2: Camera2StereoPlan<M, C>,
)
    requires
        profile_applied(p0, profile, p1),
        profile_applied(p1, profile, p2),
    ensures
        p2.projection_geometry_profile@ == p1.projection_geometry_profile@,
        p2.coordinate_chain@ == p1.coordinate_chain@,
        p2.fallback_reason@ == p1.fallback_reason@,
        p2.pose_source@ == p1.pose_source@,
        p2.projection_metadata_ready == p1.projection_metadata_ready,
        p2.projection_homography_ready == p1.projection_homography_ready,
        p2.runtime_xr_view_state_ready == p1.runtime_xr_view_state_ready,
        p2.homographies == p1.homographies,
        p2.left_source_index == p1.left_source_index,
        p2.right_source_index == p1.right_source_index,
        p2.left_camera_id == p1.left_camera_id,
        p2.right_camera_id == p1.right_camera_id,
        p2.width == p1.width && p2.height == p1.height,
        p2.openxr_contract == p1.openxr_contract,
{
    reveal_strlit("none");
    reveal_strlit("waiting_for_camera2_projection_homography");
    reveal_strlit("unsupported_direct_camera_projection_geometry_profile");
    reveal_strlit("waiting_for_runtime_openxr_view_state");
    if profile == "camera-projection"@ {
        lemma_chain_with_idempotent(
            p0.coordinate_chain@,
            "direct-camera2-screen-to-camera-homography"@,
            "direct-camera2-screen-to-camera-homography"@,
            Seq::empty(),
        );
        assert("direct-camera2-screen-to-camera-homography"@ =~= "direct-camera2-screen-to-camera-homography"@
            + Seq::<char>::empty());
        assert("none"@.len() != "unsupported_direct_camera_projection_geometry_profile"@.len());
        assert("waiting_for_camera2_projection_homography"@.len()
            != "unsupported_direct_camera_projection_geometry_profile"@.len());
    } else if profile == "full-frame-diagnostic"@ {
        assert("direct-camera2-full-frame-diagnostic-projection-surface"@
            =~= "direct-camera2-full-frame-diagnostic-projection-surface"@ + Seq::<char>::empty());
        lemma_chain_with_idempotent(
            p0.coordinate_chain@,
            "direct-camera2-full-frame-diagnostic-projection-surface"@,
            "direct-camera2-full-frame-diagnostic-projection-surface"@,
            Seq::empty(),
        );
    } else {
        reveal_strlit("unsupported-direct-camera-projection-geometry-profile");
        reveal_strlit("unsupported-direct-camera-projection-geometry-profile:");
        reveal_strlit(":");
        let tail = ":"@ + marker_token_spec(profile);
        assert("unsupported-direct-camera-projection-geometry-profile:"@
            =~= "unsupported-direct-camera-projection-geometry-profile"@ + ":"@);
        assert("unsupported-direct-camera-projection-geometry-profile:"@ + marker_token_spec(profile)
            =~= "unsupported-direct-camera-projection-geometry-profile"@ + tail);
        lemma_chain_with_idempotent(
            p0.coordinate_chain@,
            "unsupported-direct-camera-projection-geometry-profile"@,
            "unsupported-direct-camera-projection-geometry-profile:"@ + marker_token_spec(profile),
            tail,
        );
    }
}


/// One video input as the platform describes it: its name, its handle and
/// the formats it offers, each with the platform's handle for it.
pub struct CameraInputDesc<I, F> {
    pub name: String,
    pub input_id: I,
    pub formats: Vec<(F, CameraFormat)>,
}

/// The YUV 4:2:0 formats among `formats`, in order.
pub open spec fn yuv_formats<F>(formats: Seq<(F, CameraFormat)>) -> Seq<(F, CameraFormat)>
    decreases formats.len(),
{
    if formats.len() == 0 {
        Seq::empty()
    } else {
        let rest = yuv_formats(formats.drop_last());
        if formats.last().1.pixel_format == PixelFormat::Yuv420 {
            rest.push(formats.last())
        } else {
            rest
        }
    }
}

/// Each YUV 4:2:0 format of every input with the index of its input, input
/// by input.
pub open spec fn indexed_yuv_formats<I, F>(descs: Seq<CameraInputDesc<I, F>>) -> Seq<(int, (F, CameraFormat))>
    decreases descs.len(),
{
    if descs.len() == 0 {
        Seq::empty()
    } else {
        let i = descs.len() - 1;
        indexed_yuv_formats(descs.drop_last()) + yuv_formats(descs.last().formats@).map_values(
            |f: (F, CameraFormat)| (i, f),
        )
    }
}

/// The view of an optional string.
pub open spec fn opt_string_view(s: Option<String>) -> Option<Seq<char>> {
    match s {
        Some(v) => Some(v@),
        None => None,
    }
}

/// `choice` is the choice for format `format` of input `desc`, the
/// `index`-th input.
pub open spec fn choice_for<I, F>(
    choice: MakepadCameraChoice<(I, F)>,
    index: int,
    desc: CameraInputDesc<I, F>,
    format: (F, CameraFormat),
) -> bool {
    &&& choice.source_index == index
    &&& choice.input == Some((desc.input_id, format.0))
    &&& choice.width == format.1.width
    &&& choice.height == format.1.height
    &&& choice.frame_rate_milli == format.1.frame_rate_milli
    &&& choice.pixel_format == format.1.pixel_format
    &&& choice.source_class == camera_source_class_spec(desc.name@)
    &&& opt_string_view(choice.camera_id) == camera_id_from_desc_spec(desc.name@)
}

fn camera_id_copy(id: &Option<String>) -> (copy: Option<String>)
    ensures
        copy == *id,
{
    match id {
        Some(v) => Some(v.clone()),
        None => None,
    }
}

/// Every YUV 4:2:0 format of every video input as a camera choice, input by
/// input and in each input's format order.
pub fn collect_makepad_camera_choices<I: Copy, F: Copy>(descs: &Vec<CameraInputDesc<I, F>>) -> (choices: Vec<
    MakepadCameraChoice<(I, F)>,
>)
    ensures
        choices@.len() == indexed_yuv_formats(descs@).len(),
        forall|k: int|
            0 <= k < choices@.len() ==> {
                let (index, format) = #[trigger] indexed_yuv_formats(descs@)[k];
                choice_for(choices@[k], index, descs@[index], format)
            },
{
    let mut choices: Vec<MakepadCameraChoice<(I, F)>> = Vec::new();
    let mut i: usize = 0;
    while i < descs.len()
        invariant
            i <= descs@.len(),
            choices@.len() == indexed_yuv_formats(descs@.take(i as int)).len(),
            forall|k: int|
                0 <= k < choices@.len() ==> {
                    let (index, format) = #[trigger] indexed_yuv_formats(descs@.take(i as int))[k];
                    0 <= index < i && choice_for(choices@[k], index, descs@[index], format)
                },
        decreases descs.len() - i,
    {
        let desc = &descs[i];
        let class = camera_source_class(desc.name.as_str());
        let camera_id = camera_id_from_makepad_desc_name(desc.name.as_str());
        let ghost before = indexed_yuv_formats(descs@.take(i as int));
        let ghost base = choices@.len();
        let mut j: usize = 0;
        while j < desc.formats.len()
            invariant
                i < descs@.len(),
                *desc == descs@[i as int],
                j <= desc.formats@.len(),
                class == camera_source_class_spec(desc.name@),
                opt_string_view(camera_id) == camera_id_from_desc_spec(desc.name@),
                base == before.len(),
                choices@.len() == base + yuv_formats(desc.formats@.take(j as int)).len(),
                forall|k: int|
                    0 <= k < base ==> {
                        let (index, format) = #[trigger] before[k];
                        0 <= index < i && choice_for(choices@[k], index, descs@[index], format)
                    },
                forall|k: int|
                    0 <= k < yuv_formats(desc.formats@.take(j as int)).len() ==> choice_for(
                        #[trigger] choices@[base + k],
                        i as int,
                        *desc,
                        yuv_formats(desc.formats@.take(j as int))[k],
                    ),
            decreases desc.formats.len() - j,
        {
            let (format_id, format) = desc.formats[j];
            proof {
                assert(desc.formats@.take(j + 1).drop_last() =~= desc.formats@.take(j as int));
                assert(desc.formats@.take(j + 1).last() == desc.formats@[j as int]);
            }
            if format.pixel_format == PixelFormat::Yuv420 {
                let choice = MakepadCameraChoice {
                    source_index: i,
                    input: Some((desc.input_id, format_id)),
                    camera_id: camera_id_copy(&camera_id),
                    source_class: class,
                    width: format.width,
                    height: format.height,
                    frame_rate_milli: format.frame_rate_milli,
                    pixel_format: format.pixel_format,
                };
                choices.push(choice);
            }
            j = j + 1;
        }
        proof {
            assert(desc.formats@.take(desc.formats@.len() as int) =~= desc.formats@);
            let next = descs@.take(i + 1);
            assert(next.drop_last() =~= descs@.take(i as int));
            assert(next.last() == descs@[i as int]);
            let added = yuv_formats(desc.formats@).map_values(|f: (F, CameraFormat)| (i as int, f));
            assert(indexed_yuv_formats(next) == before + added);
            assert forall|k: int| 0 <= k < choices@.len() implies {
                let (index, format) = #[trigger] indexed_yuv_formats(next)[k];
                0 <= index < i + 1 && choice_for(choices@[k], index, descs@[index], format)
            } by {
                if k >= base {
                    assert(indexed_yuv_formats(next)[k] == added[k - base]);
                    assert(choice_for(choices@[base + (k - base)], i as int, *desc, yuv_formats(desc.formats@)[k - base]));
                } else {
                    assert(indexed_yuv_formats(next)[k] == before[k]);
                }
            }
        }
        i = i + 1;
    }
    proof {
        assert(descs@.take(descs@.len() as int) =~= descs@);
    }
    choices
}


/// Whether a Camera2 plan yields a pair among `choices`: both eyes find a
/// choice and the two lie on different inputs.
pub open spec fn plan_pair_found<I, M, C>(choices: Seq<MakepadCameraChoice<I>>, plan: Camera2StereoPlan<M, C>) -> bool {
    let size = (plan.width as usize, plan.height as usize);
    let l = plan_eye_choice(choices, plan.left_camera_id@, plan.left_source_index, size);
    let r = plan_eye_choice(choices, plan.right_camera_id@, plan.right_source_index, size);
    l is Some && r is Some && l->0.source_index != r->0.source_index
}

/// The pair the panel binds: the broker stream pair when the broker
/// transport is on, else the pair the Camera2 plan yields, else the best
/// available pair.
pub fn pick_makepad_camera_pair<I: Copy, M: Copy, C: Copy>(
    broker: Option<&BrokerH264Source>,
    choices: &Vec<MakepadCameraChoice<I>>,
    plan: Option<&Camera2StereoPlan<M, C>>,
    eye_mapping_config: Option<&str>,
) -> (pair: Option<MakepadCameraPair<I, M, C>>)
    requires
        choices_scorable(choices@),
    ensures
        broker matches Some(b) ==> (pair matches Some(p) && broker_pair_spec(*b, p)),
        broker is None && (plan matches Some(pl) && plan_pair_found(choices@, *pl)) ==> plan_pair_spec(
            choices@,
            *plan->0,
            opt_view(eye_mapping_config),
            pair,
        ),
        broker is None && !(plan matches Some(pl) && plan_pair_found(choices@, *pl))
            ==> best_available_pair_spec(choices@, opt_view(eye_mapping_config), pair),
{
    if let Some(source) = broker {
        return Some(MakepadCameraPair::from_broker_h264_source(source));
    }
    if let Some(pl) = plan {
        let from_plan = MakepadCameraPair::from_camera2_plan(choices, pl, eye_mapping_config);
        if from_plan.is_some() {
            return from_plan;
        }
    }
    MakepadCameraPair::from_best_available_pair(choices, eye_mapping_config)
}


/// The preferred size wins first: whenever a lookup considers some choice
/// of exactly the preferred size, every choice it can yield has that size,
/// however the other choices score.
pub proof fn lemma_preferred_size_wins<I>(
    choices: Seq<MakepadCameraChoice<I>>,
    by_index: Option<usize>,
    id: Seq<char>,
    preferred: (usize, usize),
    r: int,
    j: int,
)
    requires
        is_last_best_choice(choices, by_index, id, preferred, r),
        0 <= j < choices.len(),
        choice_matches(choices[j], by_index, id),
        choices[j].width == preferred.0,
        choices[j].height == preferred.1,
    ensures
        choices[r].width == preferred.0,
        choices[r].height == preferred.1,
{
    assert(choice_matches(choices[j], by_index, id));
    assert(!key5_lt(preferred_key(choices[r], preferred), preferred_key(choices[j], preferred)));
}

} // verus!
