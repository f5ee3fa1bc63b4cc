//! Camera2 sources as the probe enumerates them, and the rules that choose a
//! capture size, a probe source and an index-ordered stereo pair.
use vstd::prelude::*;
use crate::acamera::{ACAMERA_LENS_FACING_BACK, ACAMERA_LENS_FACING_EXTERNAL, ACAMERA_LENS_FACING_FRONT};

verus! {

/// Side length that capture sizes are scored towards.
pub const PREFERRED_DIMENSION: u32 = 1280;

/// Largest width or height that the probe captures when a choice exists.
pub const MAX_CAPTURE_DIMENSION: u32 = 1920;

/// One Camera2 source: its id, facing, logical multi-camera facts, the
/// private output sizes it offers and its calibration, which the selection
/// rules only test for presence (`I` intrinsics, `T` pose translation, `R`
/// pose rotation).
pub struct CameraSource<I, T, R> {
    pub camera_id: String,
    pub lens_facing: u8,
    pub logical_multi_camera: bool,
    pub physical_camera_ids: Vec<String>,
    pub sensor_sync_type: Option<u8>,
    pub private_sizes: Vec<(u32, u32)>,
    pub intrinsics: Option<I>,
    pub active_array_size: Option<(u32, u32)>,
    pub pose_translation: Option<T>,
    pub pose_rotation: Option<R>,
}

/// The marker label of a lens facing.
pub open spec fn lens_facing_label_spec(lens_facing: u8) -> Seq<char> {
    if lens_facing == ACAMERA_LENS_FACING_FRONT {
        "front"@
    } else if lens_facing == ACAMERA_LENS_FACING_BACK {
        "back"@
    } else if lens_facing == ACAMERA_LENS_FACING_EXTERNAL {
        "external"@
    } else {
        "unknown"@
    }
}

/// How strongly a lens facing is preferred: back, then external, then front.
pub open spec fn lens_facing_rank_spec(lens_facing: u8) -> i32 {
    if lens_facing == ACAMERA_LENS_FACING_BACK {
        3
    } else if lens_facing == ACAMERA_LENS_FACING_EXTERNAL {
        2
    } else if lens_facing == ACAMERA_LENS_FACING_FRONT {
        1
    } else {
        0
    }
}

impl<I, T, R> CameraSource<I, T, R> {
    /// The marker label of the source's lens facing.
    pub fn lens_facing_label(&self) -> (label: &'static str)
        ensures
            label@ == lens_facing_label_spec(self.lens_facing),
    {
        if self.lens_facing == ACAMERA_LENS_FACING_FRONT {
            "front"
        } else if self.lens_facing == ACAMERA_LENS_FACING_BACK {
            "back"
        } else if self.lens_facing == ACAMERA_LENS_FACING_EXTERNAL {
            "external"
        } else {
            "unknown"
        }
    }

    /// How strongly the source's lens facing is preferred.
    pub fn lens_facing_rank(&self) -> (rank: i32)
        ensures
            rank == lens_facing_rank_spec(self.lens_facing),
    {
        if self.lens_facing == ACAMERA_LENS_FACING_BACK {
            3
        } else if self.lens_facing == ACAMERA_LENS_FACING_EXTERNAL {
            2
        } else if self.lens_facing == ACAMERA_LENS_FACING_FRONT {
            1
        } else {
            0
        }
    }

    /// Whether intrinsics and both halves of the lens pose are known.
    pub open spec fn has_projection_metadata_spec(&self) -> bool {
        self.intrinsics is Some && self.pose_translation is Some && self.pose_rotation is Some
    }

    /// Whether intrinsics and both halves of the lens pose are known.
    pub fn has_projection_metadata(&self) -> (r: bool)
        ensures
            r == self.has_projection_metadata_spec(),
    {
        self.intrinsics.is_some() && self.pose_translation.is_some() && self.pose_rotation.is_some()
    }
}

/// `|a - b|`.
pub open spec fn abs_diff(a: int, b: int) -> int {
    if a >= b {
        a - b
    } else {
        b - a
    }
}

/// Combined distance of both sides from [`PREFERRED_DIMENSION`].
pub open spec fn target_penalty(width: u32, height: u32) -> int {
    abs_diff(width as int, PREFERRED_DIMENSION as int) + abs_diff(height as int, PREFERRED_DIMENSION as int)
}

/// The area of a size, less a penalty for straying from the preferred square
/// side and a larger one for not being square.
pub open spec fn size_score(width: u32, height: u32) -> int {
    width * height - 2048 * target_penalty(width, height) - 4096 * abs_diff(width as int, height as int)
}

/// Sizes whose score the 32-bit penalty and 64-bit area arithmetic can hold.
pub open spec fn size_scorable(width: u32, height: u32) -> bool {
    target_penalty(width, height) <= u32::MAX && width * height <= i64::MAX
}

/// Scores a capture size.
pub fn score_size(width: u32, height: u32) -> (score: i64)
    requires
        size_scorable(width, height),
    ensures
        score == size_score(width, height),
{
    let dw: u32 = if width >= PREFERRED_DIMENSION {
        width - PREFERRED_DIMENSION
    } else {
        PREFERRED_DIMENSION - width
    };
    let dh: u32 = if height >= PREFERRED_DIMENSION {
        height - PREFERRED_DIMENSION
    } else {
        PREFERRED_DIMENSION - height
    };
    let penalty: i64 = (dw + dh) as i64;
    let square: i64 = if width >= height {
        (width - height) as i64
    } else {
        (height - width) as i64
    };
    let area: i64 = (width as i64) * (height as i64);
    assert(0 <= area <= i64::MAX);
    area - penalty * 2048 - square * 4096
}

/// Whether a size fits within [`MAX_CAPTURE_DIMENSION`] on both sides.
pub open spec fn within_capture_limit(size: (u32, u32)) -> bool {
    size.0 <= MAX_CAPTURE_DIMENSION && size.1 <= MAX_CAPTURE_DIMENSION
}

/// The area of a size.
pub open spec fn size_area(size: (u32, u32)) -> int {
    size.0 * size.1
}

/// `i` is the last index holding a maximal score among the sizes within the
/// capture limit.
pub open spec fn is_last_best_within_limit(sizes: Seq<(u32, u32)>, i: int) -> bool {
    &&& 0 <= i < sizes.len()
    &&& within_capture_limit(sizes[i])
    &&& forall|j: int|
        0 <= j < sizes.len() && within_capture_limit(#[trigger] sizes[j]) ==> size_score(
            sizes[j].0,
            sizes[j].1,
        ) <= size_score(sizes[i].0, sizes[i].1)
    &&& forall|j: int|
        i < j < sizes.len() && within_capture_limit(#[trigger] sizes[j]) ==> size_score(
            sizes[j].0,
            sizes[j].1,
        ) < size_score(sizes[i].0, sizes[i].1)
}

/// `i` is the first index holding the smallest area.
pub open spec fn is_first_smallest(sizes: Seq<(u32, u32)>, i: int) -> bool {
    &&& 0 <= i < sizes.len()
    &&& forall|j: int| 0 <= j < sizes.len() ==> size_area(#[trigger] sizes[j]) >= size_area(sizes[i])
    &&& forall|j: int| 0 <= j < i ==> size_area(#[trigger] sizes[j]) > size_area(sizes[i])
}

/// Whether some size lies within the capture limit.
pub open spec fn any_within_limit(sizes: Seq<(u32, u32)>) -> bool {
    exists|j: int| 0 <= j < sizes.len() && within_capture_limit(#[trigger] sizes[j])
}

/// The capture size chosen among `sizes`: the last best-scoring size within
/// the capture limit; when none is within it, the first smallest size.
pub open spec fn picks_capture_size(sizes: Seq<(u32, u32)>, r: Option<(u32, u32)>) -> bool {
    if sizes.len() == 0 {
        r is None
    } else if any_within_limit(sizes) {
        exists|i: int| is_last_best_within_limit(sizes, i) && r == Some(sizes[i])
    } else {
        exists|i: int| is_first_smallest(sizes, i) && r == Some(sizes[i])
    }
}

fn area_u64(size: (u32, u32)) -> (area: u64)
    ensures
        area == size_area(size),
{
    let w: u64 = size.0 as u64;
    let h: u64 = size.1 as u64;
    assert(w * h <= 0xffff_ffff * 0xffff_ffff) by (nonlinear_arith)
        requires
            w <= 0xffff_ffff,
            h <= 0xffff_ffff,
    ;
    w * h
}

/// Chooses the capture size among candidate sizes.
pub fn pick_capture_size(sizes: &Vec<(u32, u32)>) -> (r: Option<(u32, u32)>)
    ensures
        picks_capture_size(sizes@, r),
{
    let n = sizes.len();
    let mut best: Option<usize> = None;
    let mut best_score: i64 = 0;
    let mut i: usize = 0;
    while i < n
        invariant
            i <= n == sizes@.len(),
            match best {
                Some(b) => {
                    &&& b < i
                    &&& within_capture_limit(sizes@[b as int])
                    &&& best_score == size_score(sizes@[b as int].0, sizes@[b as int].1)
                    &&& forall|j: int|
                        0 <= j < i && within_capture_limit(#[trigger] sizes@[j]) ==> size_score(
                            sizes@[j].0,
                            sizes@[j].1,
                        ) <= best_score
                    &&& forall|j: int|
                        b < j < i && within_capture_limit(#[trigger] sizes@[j]) ==> size_score(
                            sizes@[j].0,
                            sizes@[j].1,
                        ) < best_score
                },
                None => forall|j: int| 0 <= j < i ==> !within_capture_limit(#[trigger] sizes@[j]),
            },
        decreases n - i,
    {
        let (w, h) = sizes[i];
        if w <= MAX_CAPTURE_DIMENSION && h <= MAX_CAPTURE_DIMENSION {
            assert(w * h <= 1920 * 1920) by (nonlinear_arith)
                requires
                    w <= 1920,
                    h <= 1920,
            ;
            let s = score_size(w, h);
            match best {
                Some(_) => {
                    if s >= best_score {
                        best = Some(i);
                        best_score = s;
                    }
                },
                None => {
                    best = Some(i);
                    best_score = s;
                },
            }
        }
        i = i + 1;
    }
    if let Some(b) = best {
        assert(is_last_best_within_limit(sizes@, b as int));
        assert(within_capture_limit(sizes@[b as int]));
        return Some(sizes[b]);
    }
    if n == 0 {
        return None;
    }
    let mut smallest: usize = 0;
    let mut smallest_area: u64 = area_u64(sizes[0]);
    let mut k: usize = 1;
    while k < n
        invariant
            1 <= k <= n == sizes@.len(),
            smallest < k,
            smallest_area == size_area(sizes@[smallest as int]),
            forall|j: int| 0 <= j < k ==> size_area(#[trigger] sizes@[j]) >= smallest_area,
            forall|j: int| 0 <= j < smallest ==> size_area(#[trigger] sizes@[j]) > smallest_area,
        decreases n - k,
    {
        let area: u64 = area_u64(sizes[k]);
        if area < smallest_area {
            smallest = k;
            smallest_area = area;
        }
        k = k + 1;
    }
    assert(is_first_smallest(sizes@, smallest as int));
    Some(sizes[smallest])
}

/// The capture size for one source, chosen among its private sizes.
pub fn select_capture_size<I, T, R>(source: &CameraSource<I, T, R>) -> (r: Option<(u32, u32)>)
    ensures
        picks_capture_size(source.private_sizes@, r),
        r == capture_choice(source.private_sizes@),
{
    let r = pick_capture_size(&source.private_sizes);
    proof {
        lemma_capture_choice_is(source.private_sizes@, r);
    }
    r
}

/// The sizes of `left` that `right` offers too, in `left`'s order.
pub open spec fn common_sizes(left: Seq<(u32, u32)>, right: Seq<(u32, u32)>) -> Seq<(u32, u32)> {
    left.filter(|s: (u32, u32)| right.contains(s))
}

fn contains_size(sizes: &Vec<(u32, u32)>, size: (u32, u32)) -> (r: bool)
    ensures
        r == sizes@.contains(size),
{
    let mut i: usize = 0;
    while i < sizes.len()
        invariant
            i <= sizes@.len(),
            forall|j: int| 0 <= j < i ==> sizes@[j] != size,
        decreases sizes.len() - i,
    {
        if sizes[i].0 == size.0 && sizes[i].1 == size.1 {
            assert(sizes@[i as int] == size);
            return true;
        }
        i = i + 1;
    }
    false
}

/// A capture size that both stereo sources offer, chosen among the common
/// sizes as [`pick_capture_size`] chooses.
pub fn select_stereo_capture_size<I, T, R>(
    left: &CameraSource<I, T, R>,
    right: &CameraSource<I, T, R>,
) -> (r: Option<(u32, u32)>)
    ensures
        picks_capture_size(common_sizes(left.private_sizes@, right.private_sizes@), r),
        r matches Some(size) ==> left.private_sizes@.contains(size),
{
    let mut common: Vec<(u32, u32)> = Vec::new();
    let mut i: usize = 0;
    let ghost ls = left.private_sizes@;
    let ghost rs = right.private_sizes@;
    while i < left.private_sizes.len()
        invariant
            i <= ls.len(),
            ls == left.private_sizes@,
            rs == right.private_sizes@,
            common@ == common_sizes(ls.take(i as int), rs),
            forall|k: int| 0 <= k < common@.len() ==> ls.contains(#[trigger] common@[k]),
        decreases ls.len() - i,
    {
        let size = left.private_sizes[i];
        assert(ls.take(i as int + 1).drop_last() == ls.take(i as int));
        assert(ls.take(i as int + 1).last() == size);
        reveal_with_fuel(Seq::<_>::filter, 1);
        if contains_size(&right.private_sizes, size) {
            common.push(size);
            assert(ls[i as int] == size);
        }
        i = i + 1;
    }
    assert(ls.take(ls.len() as int) == ls);
    let r = pick_capture_size(&common);
    proof {
        if let Some(size) = r {
            if any_within_limit(common@) {
                let k = choose|k: int| is_last_best_within_limit(common@, k) && r == Some(common@[k]);
                assert(ls.contains(common@[k]));
            } else {
                let k = choose|k: int| is_first_smallest(common@, k) && r == Some(common@[k]);
                assert(ls.contains(common@[k]));
            }
        }
    }
    r
}

/// Two choices that both satisfy [`picks_capture_size`] are the same.
pub proof fn lemma_capture_choice_unique(sizes: Seq<(u32, u32)>, r1: Option<(u32, u32)>, r2: Option<
    (u32, u32),
>)
    requires
        picks_capture_size(sizes, r1),
        picks_capture_size(sizes, r2),
    ensures
        r1 == r2,
{
    if sizes.len() > 0 {
        if any_within_limit(sizes) {
            let i = choose|i: int| is_last_best_within_limit(sizes, i) && r1 == Some(sizes[i]);
            let k = choose|k: int| is_last_best_within_limit(sizes, k) && r2 == Some(sizes[k]);
            if i < k {
                assert(within_capture_limit(sizes[k]));
            } else if k < i {
                assert(within_capture_limit(sizes[i]));
            }
        } else {
            let i = choose|i: int| is_first_smallest(sizes, i) && r1 == Some(sizes[i]);
            let k = choose|k: int| is_first_smallest(sizes, k) && r2 == Some(sizes[k]);
            if i < k {
                assert(size_area(sizes[i]) >= size_area(sizes[k]));
            } else if k < i {
                assert(size_area(sizes[k]) >= size_area(sizes[i]));
            }
        }
    }
}

/// The capture size chosen among `sizes`.
pub open spec fn capture_choice(sizes: Seq<(u32, u32)>) -> Option<(u32, u32)> {
    choose|r: Option<(u32, u32)>| picks_capture_size(sizes, r)
}

proof fn lemma_capture_choice_is(sizes: Seq<(u32, u32)>, r: Option<(u32, u32)>)
    requires
        picks_capture_size(sizes, r),
    ensures
        capture_choice(sizes) == r,
{
    lemma_capture_choice_unique(sizes, capture_choice(sizes), r);
}

/// A boolean as the integer `1` or `0`.
pub open spec fn flag(b: bool) -> int {
    if b {
        1
    } else {
        0
    }
}

/// Whether every private size of every source can be scored, with room for
/// the sensor-sync bonus of the stereo pair ranking.
pub open spec fn sources_scorable<I, T, R>(sources: Seq<CameraSource<I, T, R>>) -> bool {
    forall|i: int, j: int|
        0 <= i < sources.len() && 0 <= j < sources[i].private_sizes@.len() ==> {
            let s = #[trigger] sources[i].private_sizes@[j];
            size_scorable(s.0, s.1) && size_score(s.0, s.1) <= i64::MAX - 3_000_000
        }
}

/// The probe source ranking: lens facing, logical multi-camera, physical
/// camera count, then the score of its capture size.
pub open spec fn source_key<I, T, R>(source: CameraSource<I, T, R>) -> (int, int, int, int) {
    (
        lens_facing_rank_spec(source.lens_facing) as int,
        flag(source.logical_multi_camera),
        (source.physical_camera_ids@.len() as i32) as int,
        match capture_choice(source.private_sizes@) {
            Some(s) => size_score(s.0, s.1),
            None => i64::MIN as int,
        },
    )
}

/// Lexicographic `a < b` on four integers.
pub open spec fn key4_lt(a: (int, int, int, int), b: (int, int, int, int)) -> bool {
    a.0 < b.0 || (a.0 == b.0 && (a.1 < b.1 || (a.1 == b.1 && (a.2 < b.2 || (a.2 == b.2 && a.3
        < b.3)))))
}

/// Whether a source offers any private size.
pub open spec fn source_eligible<I, T, R>(source: CameraSource<I, T, R>) -> bool {
    source.private_sizes@.len() > 0
}

/// `i` is the last eligible source holding the highest ranking.
pub open spec fn is_last_best_source<I, T, R>(sources: Seq<CameraSource<I, T, R>>, i: int) -> bool {
    &&& 0 <= i < sources.len()
    &&& source_eligible(sources[i])
    &&& forall|j: int|
        0 <= j < sources.len() && source_eligible(#[trigger] sources[j]) ==> !key4_lt(
            source_key(sources[i]),
            source_key(sources[j]),
        )
    &&& forall|j: int|
        i < j < sources.len() && source_eligible(#[trigger] sources[j]) ==> key4_lt(
            source_key(sources[j]),
            source_key(sources[i]),
        )
}

fn key4_less(a: (i32, i32, i32, i64), b: (i32, i32, i32, i64)) -> (r: bool)
    ensures
        r == key4_lt((a.0 as int, a.1 as int, a.2 as int, a.3 as int), (b.0 as int, b.1 as int, b.2 as int, b.3 as int)),
{
    a.0 < b.0 || (a.0 == b.0 && (a.1 < b.1 || (a.1 == b.1 && (a.2 < b.2 || (a.2 == b.2 && a.3
        < b.3)))))
}

/// The source the single-camera probe opens: the last eligible source with
/// the highest ranking, `None` when no source offers a private size.
pub fn select_camera_source<I, T, R>(sources: &Vec<CameraSource<I, T, R>>) -> (r: Option<usize>)
    requires
        sources_scorable(sources@),
    ensures
        match r {
            Some(i) => is_last_best_source(sources@, i as int),
            None => forall|j: int| 0 <= j < sources@.len() ==> !source_eligible(#[trigger] sources@[j]),
        },
{
    let n = sources.len();
    let mut best: Option<usize> = None;
    let mut best_key: (i32, i32, i32, i64) = (0, 0, 0, 0);
    let mut i: usize = 0;
    while i < n
        invariant
            i <= n == sources@.len(),
            sources_scorable(sources@),
            match best {
                Some(b) => {
                    &&& b < i
                    &&& source_eligible(sources@[b as int])
                    &&& (best_key.0 as int, best_key.1 as int, best_key.2 as int, best_key.3 as int)
                        == source_key(sources@[b as int])
                    &&& forall|j: int|
                        0 <= j < i && source_eligible(#[trigger] sources@[j]) ==> !key4_lt(
                            source_key(sources@[b as int]),
                            source_key(sources@[j]),
                        )
                    &&& forall|j: int|
                        b < j < i && source_eligible(#[trigger] sources@[j]) ==> key4_lt(
                            source_key(sources@[j]),
                            source_key(sources@[b as int]),
                        )
                },
                None => forall|j: int| 0 <= j < i ==> !source_eligible(#[trigger] sources@[j]),
            },
        decreases n - i,
    {
        let source = &sources[i];
        if source.private_sizes.len() > 0 {
            let size = select_capture_size(source);
            proof {
                lemma_capture_choice_is(source.private_sizes@, size);
            }
            let score: i64 = match size {
                Some((w, h)) => {
                    proof {
                        let k = choose|k: int|
                            0 <= k < source.private_sizes@.len() && source.private_sizes@[k] == (
                                w,
                                h,
                            );
                        assert(sources@[i as int].private_sizes@[k] == (w, h));
                    }
                    score_size(w, h)
                },
                None => i64::MIN,
            };
            let logical: i32 = if source.logical_multi_camera {
                1
            } else {
                0
            };
            let key: (i32, i32, i32, i64) = (
                source.lens_facing_rank(),
                logical,
                source.physical_camera_ids.len() as i32,
                score,
            );
            assert((key.0 as int, key.1 as int, key.2 as int, key.3 as int) == source_key(
                sources@[i as int],
            ));
            match best {
                Some(_) => {
                    if !key4_less(key, best_key) {
                        best = Some(i);
                        best_key = key;
                    }
                },
                None => {
                    best = Some(i);
                    best_key = key;
                },
            }
        }
        i = i + 1;
    }
    best
}

/// The sensor-sync affinity of two sources: one point each for a shared
/// sync type and for each logical multi-camera.
pub open spec fn sync_rank<I, T, R>(left: CameraSource<I, T, R>, right: CameraSource<I, T, R>) -> int {
    flag(left.sensor_sync_type == right.sensor_sync_type) + flag(left.logical_multi_camera) + flag(
        right.logical_multi_camera,
    )
}

/// Whether sources `l` and `r` form a stereo candidate: distinct, both with
/// private sizes, and sharing a capture size.
pub open spec fn pair_candidate<I, T, R>(sources: Seq<CameraSource<I, T, R>>, l: int, r: int) -> bool {
    &&& 0 <= l < sources.len()
    &&& 0 <= r < sources.len()
    &&& l != r
    &&& source_eligible(sources[l])
    &&& source_eligible(sources[r])
    &&& capture_choice(common_sizes(sources[l].private_sizes@, sources[r].private_sizes@)) is Some
}

/// The ranking of the candidate pair `(l, r)`: projection metadata count,
/// lens facing ranks, size score with the sync bonus, then closeness of the
/// two source indices.
pub open spec fn pair_key<I, T, R>(sources: Seq<CameraSource<I, T, R>>, l: int, r: int) -> (
    int,
    int,
    int,
    int,
) {
    let size = capture_choice(common_sizes(sources[l].private_sizes@, sources[r].private_sizes@))->0;
    (
        flag(sources[l].has_projection_metadata_spec()) + flag(
            sources[r].has_projection_metadata_spec(),
        ),
        lens_facing_rank_spec(sources[l].lens_facing) + lens_facing_rank_spec(sources[r].lens_facing),
        size_score(size.0, size.1) + sync_rank(sources[l], sources[r]) * 1_000_000,
        -abs_diff(l, r),
    )
}

/// Whether pair `(a, b)` is visited before pair `(l, r)`: left index first,
/// then right index.
pub open spec fn pair_before(a: int, b: int, l: int, r: int) -> bool {
    a < l || (a == l && b < r)
}

/// An index-ordered stereo pair and its common capture size.
pub struct StereoSourceChoice {
    pub left_source_index: usize,
    pub right_source_index: usize,
    pub width: u32,
    pub height: u32,
}

/// `choice` is the first visited candidate pair with the highest ranking.
pub open spec fn is_first_best_pair<I, T, R>(
    sources: Seq<CameraSource<I, T, R>>,
    choice: StereoSourceChoice,
) -> bool {
    let l = choice.left_source_index as int;
    let r = choice.right_source_index as int;
    &&& pair_candidate(sources, l, r)
    &&& capture_choice(common_sizes(sources[l].private_sizes@, sources[r].private_sizes@)) == Some(
        (choice.width, choice.height),
    )
    &&& forall|a: int, b: int|
        #[trigger] pair_candidate(sources, a, b) ==> !key4_lt(pair_key(sources, l, r), pair_key(sources, a, b))
    &&& forall|a: int, b: int|
        #[trigger] pair_candidate(sources, a, b) && pair_before(a, b, l, r) ==> key4_lt(
            pair_key(sources, a, b),
            pair_key(sources, l, r),
        )
}

fn key4_less_i64(a: (i64, i64, i64, i64), b: (i64, i64, i64, i64)) -> (r: bool)
    ensures
        r == key4_lt((a.0 as int, a.1 as int, a.2 as int, a.3 as int), (b.0 as int, b.1 as int, b.2 as int, b.3 as int)),
{
    a.0 < b.0 || (a.0 == b.0 && (a.1 < b.1 || (a.1 == b.1 && (a.2 < b.2 || (a.2 == b.2 && a.3
        < b.3)))))
}

fn same_sync_type(a: Option<u8>, b: Option<u8>) -> (r: bool)
    ensures
        r == (a == b),
{
    match (a, b) {
        (Some(x), Some(y)) => x == y,
        (None, None) => true,
        _ => false,
    }
}

/// The stereo pair chosen by index order when lens poses cannot order the
/// back cameras: the first visited candidate pair with the highest ranking.
pub fn select_best_index_ordered_stereo_projection_sources<I, T, R>(
    sources: &Vec<CameraSource<I, T, R>>,
) -> (choice: Option<StereoSourceChoice>)
    requires
        sources_scorable(sources@),
        sources@.len() <= i64::MAX,
    ensures
        match choice {
            Some(c) => is_first_best_pair(sources@, c),
            None => forall|a: int, b: int| !#[trigger] pair_candidate(sources@, a, b),
        },
{
    let n = sources.len();
    let mut best: Option<StereoSourceChoice> = None;
    let mut best_key: (i64, i64, i64, i64) = (0, 0, 0, 0);
    let mut li: usize = 0;
    while li < n
        invariant
            li <= n == sources@.len(),
            n <= i64::MAX,
            sources_scorable(sources@),
            match best {
                Some(c) => {
                    &&& pair_candidate(sources@, c.left_source_index as int, c.right_source_index as int)
                    &&& pair_before(c.left_source_index as int, c.right_source_index as int, li as int, 0)
                    &&& capture_choice(common_sizes(sources@[c.left_source_index as int].private_sizes@, sources@[c.right_source_index as int].private_sizes@)) == Some((c.width, c.height))
                    &&& (best_key.0 as int, best_key.1 as int, best_key.2 as int, best_key.3 as int)
                        == pair_key(sources@, c.left_source_index as int, c.right_source_index as int)
                    &&& forall|a: int, b: int|
                        #[trigger] pair_candidate(sources@, a, b) && pair_before(a, b, li as int, 0) ==> !key4_lt(
                            pair_key(sources@, c.left_source_index as int, c.right_source_index as int),
                            pair_key(sources@, a, b),
                        )
                    &&& forall|a: int, b: int|
                        #[trigger] pair_candidate(sources@, a, b) && pair_before(a, b, c.left_source_index as int, c.right_source_index as int) ==> key4_lt(
                            pair_key(sources@, a, b),
                            pair_key(sources@, c.left_source_index as int, c.right_source_index as int),
                        )
                },
                None => forall|a: int, b: int|
                    #[trigger] pair_candidate(sources@, a, b) ==> !pair_before(a, b, li as int, 0),
            },
        decreases n - li,
    {
        let mut ri: usize = 0;
        while ri < n
            invariant
                li < n == sources@.len(),
                n <= i64::MAX,
                ri <= n,
                sources_scorable(sources@),
                match best {
                    Some(c) => {
                        &&& pair_candidate(sources@, c.left_source_index as int, c.right_source_index as int)
                        &&& pair_before(c.left_source_index as int, c.right_source_index as int, li as int, ri as int)
                        &&& capture_choice(common_sizes(sources@[c.left_source_index as int].private_sizes@, sources@[c.right_source_index as int].private_sizes@)) == Some((c.width, c.height))
                        &&& (best_key.0 as int, best_key.1 as int, best_key.2 as int, best_key.3 as int)
                            == pair_key(sources@, c.left_source_index as int, c.right_source_index as int)
                        &&& forall|a: int, b: int|
                            #[trigger] pair_candidate(sources@, a, b) && pair_before(a, b, li as int, ri as int) ==> !key4_lt(
                                pair_key(sources@, c.left_source_index as int, c.right_source_index as int),
                                pair_key(sources@, a, b),
                            )
                        &&& forall|a: int, b: int|
                            #[trigger] pair_candidate(sources@, a, b) && pair_before(a, b, c.left_source_index as int, c.right_source_index as int) ==> key4_lt(
                                pair_key(sources@, a, b),
                                pair_key(sources@, c.left_source_index as int, c.right_source_index as int),
                            )
                    },
                    None => forall|a: int, b: int|
                        #[trigger] pair_candidate(sources@, a, b) ==> !pair_before(a, b, li as int, ri as int),
                },
            decreases n - ri,
        {
            let left = &sources[li];
            let right = &sources[ri];
            if li != ri && left.private_sizes.len() > 0 && right.private_sizes.len() > 0 {
                let size = select_stereo_capture_size(left, right);
                proof {
                    lemma_capture_choice_is(common_sizes(left.private_sizes@, right.private_sizes@), size);
                }
                if let Some((w, h)) = size {
                    proof {
                        let k = choose|k: int|
                            0 <= k < left.private_sizes@.len() && left.private_sizes@[k] == (w, h);
                        assert(sources@[li as int].private_sizes@[k] == (w, h));
                    }
                    let metadata_rank: i64 = (if left.has_projection_metadata() {
                        1i64
                    } else {
                        0i64
                    }) + (if right.has_projection_metadata() {
                        1i64
                    } else {
                        0i64
                    });
                    let source_rank: i64 = (left.lens_facing_rank() as i64) + (right.lens_facing_rank() as i64);
                    let sync_bonus: i64 = (if same_sync_type(left.sensor_sync_type, right.sensor_sync_type) {
                        1i64
                    } else {
                        0i64
                    }) + (if left.logical_multi_camera {
                        1i64
                    } else {
                        0i64
                    }) + (if right.logical_multi_camera {
                        1i64
                    } else {
                        0i64
                    });
                    let spacing: i64 = if li >= ri {
                        (li - ri) as i64
                    } else {
                        (ri - li) as i64
                    };
                    let key: (i64, i64, i64, i64) = (
                        metadata_rank,
                        source_rank,
                        score_size(w, h) + sync_bonus * 1_000_000,
                        -spacing,
                    );
                    let ghost pk = pair_key(sources@, li as int, ri as int);
                    assert(key.0 as int == pk.0);
                    assert(key.1 as int == pk.1);
                    assert(sync_bonus as int == sync_rank(sources@[li as int], sources@[ri as int]));
                    assert(key.2 as int == pk.2);
                    assert(key.3 as int == pk.3);
                    let replace = match &best {
                        Some(_) => key4_less_i64(best_key, key),
                        None => true,
                    };
                    if replace {
                        best = Some(StereoSourceChoice { left_source_index: li, right_source_index: ri, width: w, height: h });
                        best_key = key;
                    }
                }
            }
            ri = ri + 1;
        }
        li = li + 1;
    }
    best
}


/// Whether lens facing `a` is preferred to lens facing `b`: back over every
/// other facing, external over front and unknown ones, front over unknown
/// ones.
pub open spec fn facing_preferred(a: u8, b: u8) -> bool {
    ||| a == ACAMERA_LENS_FACING_BACK && b != ACAMERA_LENS_FACING_BACK
    ||| a == ACAMERA_LENS_FACING_EXTERNAL && b != ACAMERA_LENS_FACING_BACK && b != ACAMERA_LENS_FACING_EXTERNAL
    ||| a == ACAMERA_LENS_FACING_FRONT && b != ACAMERA_LENS_FACING_BACK && b != ACAMERA_LENS_FACING_EXTERNAL
        && b != ACAMERA_LENS_FACING_FRONT
}

/// Lens facing comes first and is strict: whenever an eligible source has a
/// more preferred lens facing than another source, the probe never opens
/// that other source, whatever their sizes and multi-camera facts. In
/// particular a back camera is always chosen over a front camera.
pub proof fn lemma_preferred_facing_wins<I, T, R>(sources: Seq<CameraSource<I, T, R>>, r: int, i: int, j: int)
    requires
        is_last_best_source(sources, r),
        0 <= i < sources.len(),
        0 <= j < sources.len(),
        source_eligible(sources[i]),
        facing_preferred(sources[i].lens_facing, sources[j].lens_facing),
    ensures
        r != j,
{
    if r == j {
        assert(source_eligible(sources[i]));
        assert(!key4_lt(source_key(sources[j]), source_key(sources[i])));
        assert(key4_lt(source_key(sources[j]), source_key(sources[i])));
    }
}

} // verus!
