//! Clip arithmetic: indexing and slicing a clip, repetition, and the checks
//! made before a clip is registered as an output.

use vstd::prelude::*;
use num_rational::Ratio;
use crate::format::{ColorFamily, VideoFormatInfo};

verus! {

/// What went wrong with a clip operation.
#[derive(PartialEq, Eq, Structural, Clone, Copy, Debug)]
pub enum ClipError {
    /// `clip[n]` with `n` outside the clip.
    IndexOutOfRange,
    /// `clip * n` with `n <= 0`.
    NonPositiveLoopCount,
    /// The alpha clip's width or height differs from the main clip's.
    AlphaDimensionsDiffer,
    /// The alpha clip's length differs from the main clip's.
    AlphaLengthDiffers,
    /// The alpha clip is not a gray clip of the main clip's sample type and depth.
    AlphaFormatDiffers,
    /// One of the two clips has a known format and the other has not.
    AlphaFormatKnownness,
}

/// The frame count a clip reports as its length: a negative count is empty.
pub fn clip_len(num_frames: i32) -> (len: usize)
    ensures
        len as int == if num_frames < 0 {
            0
        } else {
            num_frames as int
        },
{
    if num_frames < 0 {
        0
    } else {
        num_frames as usize
    }
}

/// The frame `clip[n]` selects in a clip of `len` frames: negative indices
/// count from the end.
pub open spec fn spec_frame_index(n: int, len: int) -> int {
    if n < 0 {
        n + len
    } else {
        n
    }
}

/// Resolves `clip[n]` to a frame number; fails unless `0 <= frame < len`.
pub fn frame_index(n: i64, len: i32) -> (r: Result<i64, ClipError>)
    requires
        n < 0 ==> n + len >= i64::MIN,
    ensures
        match r {
            Ok(f) => f == spec_frame_index(n as int, len as int) && 0 <= f < len,
            Err(e) => e == ClipError::IndexOutOfRange && !(0 <= spec_frame_index(
                n as int,
                len as int,
            ) < len),
        },
{
    let len = len as i64;
    let frame = if n < 0 {
        n + len
    } else {
        n
    };
    if frame < 0 || frame >= len {
        Err(ClipError::IndexOutOfRange)
    } else {
        Ok(frame)
    }
}

/// Checks the factor of `clip * n`: the clip is looped `n` times, `n > 0`.
pub fn loop_count(n: i64) -> (r: Result<i64, ClipError>)
    ensures
        n > 0 ==> r == Ok::<i64, ClipError>(n),
        n <= 0 ==> r == Err::<i64, ClipError>(ClipError::NonPositiveLoopCount),
{
    if n <= 0 {
        Err(ClipError::NonPositiveLoopCount)
    } else {
        Ok(n)
    }
}

/// How a Python slice of a clip is built from VapourSynth's `std` filters:
/// `Trim(first, last)` (both inclusive), then `Reverse` when `reverse`, then
/// `SelectEvery(cycle, offsets=0)` when `cycle` is set.
#[derive(PartialEq, Eq, Structural, Clone, Copy, Debug)]
pub struct SlicePlan {
    pub first: i64,
    pub last: i64,
    pub reverse: bool,
    pub cycle: Option<i64>,
}

/// The plan for a slice whose indices were already adjusted to the clip, as
/// Python's `slice.indices(len)` does.
pub open spec fn spec_slice_plan(start: int, stop: int, step: int) -> SlicePlan {
    let abs_step = if step < 0 {
        -step
    } else {
        step
    };
    SlicePlan {
        first: (if step > 0 {
            start
        } else {
            stop + 1
        }) as i64,
        last: (if step > 0 {
            stop - 1
        } else {
            start
        }) as i64,
        reverse: step < 0,
        cycle: if abs_step != 1 {
            Some(abs_step as i64)
        } else {
            None
        },
    }
}

/// Plans `clip[start:stop:step]` from the adjusted slice indices.
pub fn slice_plan(start: isize, stop: isize, step: isize) -> (plan: SlicePlan)
    requires
        step != 0,
        step != isize::MIN,
        step > 0 ==> stop > isize::MIN,
        step < 0 ==> stop < isize::MAX,
    ensures
        plan == spec_slice_plan(start as int, stop as int, step as int),
{
    let (mut first, mut last) = if step > 0 {
        (start, stop)
    } else {
        (stop, start)
    };
    if step > 0 {
        last = last - 1;
    } else {
        first = first + 1;
    }
    let abs_step: isize = if step < 0 {
        -step
    } else {
        step
    };
    SlicePlan {
        first: first as i64,
        last: last as i64,
        reverse: step < 0,
        cycle: if abs_step != 1 {
            Some(abs_step as i64)
        } else {
            None
        },
    }
}

/// Number of frames Python's slice `start:stop:step` selects from adjusted
/// indices.
pub open spec fn python_slice_len(start: int, stop: int, step: int) -> int {
    if step > 0 {
        if start < stop {
            (stop - start - 1) / step + 1
        } else {
            0
        }
    } else {
        if stop < start {
            (start - stop - 1) / (-step) + 1
        } else {
            0
        }
    }
}

/// The frame numbers Python's slice `start:stop:step` selects, in order.
pub open spec fn python_slice_frames(start: int, stop: int, step: int) -> Seq<int> {
    Seq::new(python_slice_len(start, stop, step) as nat, |k: int| start + k * step)
}

/// Frames kept by `Trim(first, last)`.
pub open spec fn trim_frames(first: int, last: int) -> Seq<int> {
    Seq::new((last - first + 1) as nat, |i: int| first + i)
}

/// Length of `SelectEvery(cycle, offsets=[0])` applied to `n` frames.
pub open spec fn select_every_len(n: int, cycle: int) -> int {
    n / cycle + if n % cycle > 0 {
        1int
    } else {
        0int
    }
}

/// Frames kept by `SelectEvery(cycle, offsets=[0])`.
pub open spec fn select_every_frames(s: Seq<int>, cycle: int) -> Seq<int> {
    Seq::new(select_every_len(s.len() as int, cycle) as nat, |k: int| s[k * cycle])
}

/// The frames of the clip a plan builds, in order.
pub open spec fn plan_frames(plan: SlicePlan) -> Seq<int> {
    let trimmed = trim_frames(plan.first as int, plan.last as int);
    let ordered = if plan.reverse {
        trimmed.reverse()
    } else {
        trimmed
    };
    match plan.cycle {
        Some(c) => select_every_frames(ordered, c as int),
        None => ordered,
    }
}

/// Whether `start:stop:step` are indices as Python's `slice.indices(len)`
/// leaves them.
pub open spec fn adjusted_slice(start: int, stop: int, step: int, len: int) -> bool {
    &&& step != 0
    &&& step > 0 ==> 0 <= start <= len && 0 <= stop <= len
    &&& step < 0 ==> -1 <= start <= len - 1 && -1 <= stop <= len - 1
}

proof fn lemma_select_every_len(n: int, c: int)
    requires
        n > 0,
        c > 0,
    ensures
        select_every_len(n, c) == (n - 1) / c + 1,
{
    assert(select_every_len(n, c) == (n - 1) / c + 1) by (nonlinear_arith)
        requires
            n > 0,
            c > 0,
    {
        let q = n / c;
        let r = n % c;
        assert(n == q * c + r);
        assert(0 <= r < c);
        if r > 0 {
            assert(n - 1 == q * c + (r - 1));
        } else {
            assert(n - 1 == (q - 1) * c + (c - 1));
        }
    }
}

proof fn lemma_index_in_range(k: int, c: int, n: int)
    requires
        c > 0,
        n > 0,
        0 <= k < (n - 1) / c + 1,
    ensures
        0 <= k * c < n,
{
    assert(0 <= k * c < n) by (nonlinear_arith)
        requires
            c > 0,
            n > 0,
            0 <= k,
            k < (n - 1) / c + 1,
    {
        let q = (n - 1) / c;
        assert(q * c <= n - 1);
        assert(k <= q);
        assert(k * c <= q * c);
    }
}

/// A non-empty slice of a clip, built as its plan says, holds exactly the
/// frames Python's slice selects, in the same order, and its `Trim` bounds
/// lie inside the clip.
pub proof fn slice_plan_selects_python_frames(start: int, stop: int, step: int, len: int)
    requires
        adjusted_slice(start, stop, step, len),
        python_slice_len(start, stop, step) > 0,
        i64::MIN < step <= i64::MAX,
        i64::MIN <= start <= i64::MAX,
        i64::MIN < stop < i64::MAX,
    ensures
        plan_frames(spec_slice_plan(start, stop, step)) == python_slice_frames(start, stop, step),
        0 <= spec_slice_plan(start, stop, step).first <= spec_slice_plan(start, stop, step).last
            < len,
{
    let plan = spec_slice_plan(start, stop, step);
    let py = python_slice_frames(start, stop, step);
    let c = if step < 0 {
        -step
    } else {
        step
    };
    if step > 0 {
        let trimmed = trim_frames(start, stop - 1);
        assert(trimmed.len() == stop - start);
        if c == 1 {
            assert(plan_frames(plan) =~= py);
        } else {
            lemma_select_every_len(stop - start, c);
            let sel = select_every_frames(trimmed, c);
            assert(sel.len() == py.len());
            assert forall|k: int| 0 <= k < sel.len() implies sel[k] == py[k] by {
                lemma_index_in_range(k, c, stop - start);
            }
            assert(plan_frames(plan) =~= py);
        }
    } else {
        let trimmed = trim_frames(stop + 1, start);
        let rev = trimmed.reverse();
        assert(rev.len() == start - stop);
        assert forall|i: int| 0 <= i < rev.len() implies rev[i] == start - i by {}
        if c == 1 {
            assert forall|k: int| 0 <= k < py.len() implies rev[k] == py[k] by {
                assert(k * step == -k) by (nonlinear_arith)
                    requires
                        step == -1,
                ;
            }
            assert(plan_frames(plan) =~= py);
        } else {
            lemma_select_every_len(start - stop, c);
            let sel = select_every_frames(rev, c);
            assert(sel.len() == py.len());
            assert forall|k: int| 0 <= k < sel.len() implies sel[k] == py[k] by {
                lemma_index_in_range(k, c, start - stop);
                assert(k * step == -(k * c)) by (nonlinear_arith)
                    requires
                        c == -step,
                ;
            }
            assert(plan_frames(plan) =~= py);
        }
    }
}

/// `clip[n]` trims the clip to the single frame Python's indexing selects.
pub proof fn index_selects_one_frame(n: int, len: int)
    requires
        0 <= spec_frame_index(n, len) < len,
        i64::MIN <= spec_frame_index(n, len) <= i64::MAX,
    ensures
        ({
            let f = spec_frame_index(n, len);
            plan_frames(SlicePlan { first: f as i64, last: f as i64, reverse: false, cycle: None })
                == seq![f]
        }),
{
    let f = spec_frame_index(n, len);
    assert(trim_frames(f, f) =~= seq![f]);
}

/// `num_rational::Ratio`, carried through as the clip's frame rate.
#[verifier::external_type_specification]
#[verifier::external_body]
#[verifier::reject_recursive_types(T)]
pub struct ExRatio<T>(Ratio<T>);

/// The numerator and denominator a `Ratio<i64>` holds, as stored.
pub uninterp spec fn ratio_parts(r: Ratio<i64>) -> (i64, i64);

/// Calls `Ratio::new_raw`, which stores `numer` and `denom` as they are:
/// it neither reduces the fraction nor checks the denominator.
#[verifier::external_body]
fn ratio_new_raw(numer: i64, denom: i64) -> (r: Ratio<i64>)
    ensures
        ratio_parts(r) == (numer, denom),
{
    Ratio::new_raw(numer, denom)
}

/// A video clip as VapourSynth describes it.
#[derive(PartialEq, Eq, Structural, Clone, Copy, Debug)]
pub struct VideoInfo {
    pub format: VideoFormatInfo,
    pub fps_num: i64,
    pub fps_den: i64,
    pub width: i32,
    pub height: i32,
    pub num_frames: i32,
}

impl VideoInfo {
    /// The frame rate as a fraction, as VapourSynth stores it; `0/1` for a
    /// variable frame rate, whose stored denominator is zero.
    pub fn fps(&self) -> (r: Ratio<i64>)
        ensures
            self.fps_den == 0 ==> ratio_parts(r) == (0i64, 1i64),
            self.fps_den != 0 ==> ratio_parts(r) == (self.fps_num, self.fps_den),
    {
        if self.fps_den == 0 {
            ratio_new_raw(0, 1)
        } else {
            ratio_new_raw(self.fps_num, self.fps_den)
        }
    }

    /// The clip's format, unless it can change between frames.
    pub fn known_format(&self) -> (r: Option<VideoFormatInfo>)
        ensures
            r == if self.format.color_family == ColorFamily::Undefined {
                None
            } else {
                Some(self.format)
            },
    {
        if self.format.color_family == ColorFamily::Undefined {
            None
        } else {
            Some(self.format)
        }
    }
}

/// Whether `alpha` may serve as the alpha clip of `main`: same dimensions and
/// length, and either both formats unknown or a gray alpha clip with the main
/// clip's sample type and depth.
pub open spec fn spec_alpha_check(main: VideoInfo, alpha: VideoInfo) -> Result<(), ClipError> {
    let main_known = main.format.color_family != ColorFamily::Undefined;
    let alpha_known = alpha.format.color_family != ColorFamily::Undefined;
    if main.width != alpha.width || main.height != alpha.height {
        Err(ClipError::AlphaDimensionsDiffer)
    } else if main.num_frames != alpha.num_frames {
        Err(ClipError::AlphaLengthDiffers)
    } else if main_known && alpha_known {
        if alpha.format.color_family != ColorFamily::Gray || alpha.format.sample_type
            != main.format.sample_type || alpha.format.bits_per_sample
            != main.format.bits_per_sample {
            Err(ClipError::AlphaFormatDiffers)
        } else {
            Ok(())
        }
    } else if main_known || alpha_known {
        Err(ClipError::AlphaFormatKnownness)
    } else {
        Ok(())
    }
}

/// Checks a clip about to be registered as an output, with its alpha clip
/// if it has one.
pub fn check_output(main: &VideoInfo, alpha: Option<&VideoInfo>) -> (r: Result<(), ClipError>)
    ensures
        r == match alpha {
            Some(a) => spec_alpha_check(*main, *a),
            None => Ok::<(), ClipError>(()),
        },
{
    let alpha = match alpha {
        Some(a) => a,
        None => return Ok(()),
    };
    if main.width != alpha.width || main.height != alpha.height {
        return Err(ClipError::AlphaDimensionsDiffer);
    }
    if main.num_frames != alpha.num_frames {
        return Err(ClipError::AlphaLengthDiffers);
    }
    let main_known = main.format.color_family != ColorFamily::Undefined;
    let alpha_known = alpha.format.color_family != ColorFamily::Undefined;
    if main_known && alpha_known {
        if alpha.format.color_family != ColorFamily::Gray || alpha.format.sample_type
            != main.format.sample_type || alpha.format.bits_per_sample
            != main.format.bits_per_sample {
            return Err(ClipError::AlphaFormatDiffers);
        }
    } else if main_known || alpha_known {
        return Err(ClipError::AlphaFormatKnownness);
    }
    Ok(())
}

/// An alpha clip is accepted only when it matches the main clip: the same
/// width, the same height and the same length, and, where both formats are
/// known, a gray format with the main clip's sample type and depth. A clip
/// of other dimensions is refused for its dimensions, whatever else holds.
pub proof fn accepted_alpha_matches_main(main: VideoInfo, alpha: VideoInfo)
    ensures
        spec_alpha_check(main, alpha) is Ok ==> {
            &&& alpha.width == main.width
            &&& alpha.height == main.height
            &&& alpha.num_frames == main.num_frames
            &&& (main.format.color_family != ColorFamily::Undefined) == (alpha.format.color_family
                != ColorFamily::Undefined)
            &&& main.format.color_family != ColorFamily::Undefined ==> {
                &&& alpha.format.color_family == ColorFamily::Gray
                &&& alpha.format.sample_type == main.format.sample_type
                &&& alpha.format.bits_per_sample == main.format.bits_per_sample
            }
        },
        (alpha.width != main.width || alpha.height != main.height) ==> spec_alpha_check(main, alpha)
            == Err::<(), ClipError>(ClipError::AlphaDimensionsDiffer),
        (alpha.width == main.width && alpha.height == main.height && alpha.num_frames
            != main.num_frames) ==> spec_alpha_check(main, alpha) == Err::<(), ClipError>(
            ClipError::AlphaLengthDiffers,
        ),
{
}

} // verus!
