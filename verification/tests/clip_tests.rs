use rynth::clip::{
    check_output, clip_len, frame_index, loop_count, slice_plan, ClipError, SlicePlan, VideoInfo,
};
use rynth::format::{ColorFamily, SampleType, VideoFormatInfo};

fn format(cf: ColorFamily, st: SampleType, bits: i32) -> VideoFormatInfo {
    VideoFormatInfo {
        color_family: cf,
        sample_type: st,
        bits_per_sample: bits,
        bytes_per_sample: if bits <= 8 { 1 } else if bits <= 16 { 2 } else { 4 },
        sub_sampling_w: 0,
        sub_sampling_h: 0,
        num_planes: if cf == ColorFamily::Gray { 1 } else { 3 },
    }
}

fn info(cf: ColorFamily, st: SampleType, bits: i32, w: i32, h: i32, n: i32) -> VideoInfo {
    VideoInfo { format: format(cf, st, bits), fps_num: 24000, fps_den: 1001, width: w, height: h, num_frames: n }
}

/// Python's `slice.indices(len)` for a slice with all three parts given.
fn adjust(start: Option<isize>, stop: Option<isize>, step: isize, len: isize) -> (isize, isize) {
    let (lower, upper) = if step < 0 { (-1, len - 1) } else { (0, len) };
    let fix = |v: Option<isize>, default: isize| match v {
        None => default,
        Some(v) if v < 0 => (v + len).max(lower),
        Some(v) => v.min(upper),
    };
    let start = fix(start, if step < 0 { upper } else { lower });
    let stop = fix(stop, if step < 0 { lower } else { upper });
    (start, stop)
}

fn python_frames(start: isize, stop: isize, step: isize) -> Vec<i64> {
    let mut out = Vec::new();
    let mut i = start;
    while (step > 0 && i < stop) || (step < 0 && i > stop) {
        out.push(i as i64);
        i += step;
    }
    out
}

fn plan_frames(p: &SlicePlan) -> Vec<i64> {
    let mut frames: Vec<i64> = (p.first..=p.last).collect();
    if p.reverse {
        frames.reverse();
    }
    if let Some(c) = p.cycle {
        frames = frames.into_iter().step_by(c as usize).collect();
    }
    frames
}

#[test]
fn clip_len_clamps_negative() {
    assert_eq!(clip_len(-5), 0);
    assert_eq!(clip_len(0), 0);
    assert_eq!(clip_len(240), 240);
}

#[test]
fn frame_index_counts_from_end() {
    assert_eq!(frame_index(0, 10), Ok(0));
    assert_eq!(frame_index(9, 10), Ok(9));
    assert_eq!(frame_index(-1, 10), Ok(9));
    assert_eq!(frame_index(-10, 10), Ok(0));
    assert_eq!(frame_index(10, 10), Err(ClipError::IndexOutOfRange));
    assert_eq!(frame_index(-11, 10), Err(ClipError::IndexOutOfRange));
    assert_eq!(frame_index(0, 0), Err(ClipError::IndexOutOfRange));
}

#[test]
fn loop_count_requires_positive() {
    assert_eq!(loop_count(3), Ok(3));
    assert_eq!(loop_count(0), Err(ClipError::NonPositiveLoopCount));
    assert_eq!(loop_count(-2), Err(ClipError::NonPositiveLoopCount));
}

#[test]
fn slice_plan_forward_step() {
    // clip[2:8:3] on 10 frames: frames 2, 5
    let p = slice_plan(2, 8, 3);
    assert_eq!(p, SlicePlan { first: 2, last: 7, reverse: false, cycle: Some(3) });
    assert_eq!(plan_frames(&p), vec![2, 5]);
}

#[test]
fn slice_plan_plain_range() {
    let p = slice_plan(1, 4, 1);
    assert_eq!(p, SlicePlan { first: 1, last: 3, reverse: false, cycle: None });
}

#[test]
fn slice_plan_reverse_whole_clip() {
    // clip[::-1] on 5 frames: indices (4, -1, -1)
    let p = slice_plan(4, -1, -1);
    assert_eq!(p, SlicePlan { first: 0, last: 4, reverse: true, cycle: None });
    assert_eq!(plan_frames(&p), vec![4, 3, 2, 1, 0]);
}

#[test]
fn slice_plan_matches_python_semantics() {
    let len = 12;
    let bounds = [None, Some(-20), Some(-5), Some(-1), Some(0), Some(1), Some(3), Some(7), Some(11), Some(12), Some(30)];
    for &step in &[1isize, 2, 3, 5, 13, -1, -2, -3, -7] {
        for &a in &bounds {
            for &b in &bounds {
                let (start, stop) = adjust(a, b, step, len);
                let expected = python_frames(start, stop, step);
                if expected.is_empty() {
                    continue;
                }
                let p = slice_plan(start, stop, step);
                assert!(0 <= p.first && p.first <= p.last && p.last < len as i64);
                assert_eq!(plan_frames(&p), expected, "slice {a:?}:{b:?}:{step}");
            }
        }
    }
}

#[test]
fn output_without_alpha_is_accepted() {
    let main = info(ColorFamily::Yuv, SampleType::Integer, 8, 640, 480, 100);
    assert_eq!(check_output(&main, None), Ok(()));
}

#[test]
fn output_alpha_checks() {
    let main = info(ColorFamily::Yuv, SampleType::Integer, 8, 640, 480, 100);
    let good = info(ColorFamily::Gray, SampleType::Integer, 8, 640, 480, 100);
    assert_eq!(check_output(&main, Some(&good)), Ok(()));
    let narrow = info(ColorFamily::Gray, SampleType::Integer, 8, 320, 480, 100);
    assert_eq!(check_output(&main, Some(&narrow)), Err(ClipError::AlphaDimensionsDiffer));
    let short = info(ColorFamily::Gray, SampleType::Integer, 8, 640, 480, 99);
    assert_eq!(check_output(&main, Some(&short)), Err(ClipError::AlphaLengthDiffers));
    let colored = info(ColorFamily::Yuv, SampleType::Integer, 8, 640, 480, 100);
    assert_eq!(check_output(&main, Some(&colored)), Err(ClipError::AlphaFormatDiffers));
    let deeper = info(ColorFamily::Gray, SampleType::Integer, 16, 640, 480, 100);
    assert_eq!(check_output(&main, Some(&deeper)), Err(ClipError::AlphaFormatDiffers));
    let float = info(ColorFamily::Gray, SampleType::Float, 8, 640, 480, 100);
    assert_eq!(check_output(&main, Some(&float)), Err(ClipError::AlphaFormatDiffers));
    let unknown = info(ColorFamily::Undefined, SampleType::Integer, 0, 640, 480, 100);
    assert_eq!(check_output(&main, Some(&unknown)), Err(ClipError::AlphaFormatKnownness));
    let unknown_main = info(ColorFamily::Undefined, SampleType::Integer, 0, 640, 480, 100);
    assert_eq!(check_output(&unknown_main, Some(&unknown)), Ok(()));
}

#[test]
fn fps_keeps_fraction_unreduced() {
    let mut i = info(ColorFamily::Yuv, SampleType::Integer, 8, 640, 480, 100);
    i.fps_num = 50;
    i.fps_den = 2;
    let r = i.fps();
    assert_eq!(*r.numer(), 50);
    assert_eq!(*r.denom(), 2);
    i.fps_num = 0;
    i.fps_den = 1;
    let r = i.fps();
    assert_eq!((*r.numer(), *r.denom()), (0, 1));
}

#[test]
fn variable_frame_rate_is_zero_over_one() {
    let mut i = info(ColorFamily::Yuv, SampleType::Integer, 8, 640, 480, 100);
    i.fps_num = 0;
    i.fps_den = 0;
    let r = i.fps();
    assert_eq!((*r.numer(), *r.denom()), (0, 1));
}

#[test]
fn known_format_hides_variable_format() {
    let i = info(ColorFamily::Undefined, SampleType::Integer, 0, 0, 0, 10);
    assert_eq!(i.known_format(), None);
    let j = info(ColorFamily::Rgb, SampleType::Integer, 8, 1, 1, 10);
    assert_eq!(j.known_format(), Some(j.format));
}
