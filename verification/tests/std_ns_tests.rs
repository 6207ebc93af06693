use rynth::convert::AppendMode;
use rynth::std_ns::{
    expect_video_node, invoke_outcome, join, repeat, reverse, select_every, slice_steps, splice,
    step_call, trim, ArgKey, ArgValue, InvokeError, SliceStep, StdArg, StdFunction,
};
use rynth::clip::slice_plan;

fn node(key: ArgKey, n: u8) -> StdArg<u8> {
    StdArg { key, value: ArgValue::Node(n), mode: AppendMode::Replace }
}

fn int_arg(key: ArgKey, i: i64) -> StdArg<u8> {
    StdArg { key, value: ArgValue::Int(i), mode: AppendMode::Replace }
}

#[test]
fn trim_arguments() {
    let c = trim(1u8, Some(3), Some(9));
    assert_eq!(c.function, StdFunction::Trim);
    assert_eq!(c.args, vec![node(ArgKey::Clip, 1), int_arg(ArgKey::First, 3), int_arg(ArgKey::Last, 9)]);
    let d = trim(1u8, None, Some(9));
    assert_eq!(d.args, vec![node(ArgKey::Clip, 1), int_arg(ArgKey::Last, 9)]);
    let e = trim(1u8, None, None);
    assert_eq!(e.args, vec![node(ArgKey::Clip, 1)]);
}

#[test]
fn other_std_calls() {
    let r = reverse(4u8);
    assert_eq!(r.function, StdFunction::Reverse);
    assert_eq!(r.args, vec![node(ArgKey::Clip, 4)]);
    let s = select_every(4u8, 3, 0);
    assert_eq!(s.function, StdFunction::SelectEvery);
    assert_eq!(s.args, vec![node(ArgKey::Clip, 4), int_arg(ArgKey::Cycle, 3), int_arg(ArgKey::Offsets, 0)]);
    let l = repeat(4u8, 5);
    assert_eq!(l.function, StdFunction::Loop);
    assert_eq!(l.args, vec![node(ArgKey::Clip, 4), int_arg(ArgKey::Times, 5)]);
}

#[test]
fn splice_appends_every_clip() {
    let c = splice(vec![1u8, 2, 3]);
    assert_eq!(c.function, StdFunction::Splice);
    let appended: Vec<StdArg<u8>> = [1u8, 2, 3]
        .iter()
        .map(|&n| StdArg { key: ArgKey::Clips, value: ArgValue::Node(n), mode: AppendMode::Append })
        .collect();
    assert_eq!(c.args, appended);
    let j = join(7u8, 8u8);
    assert_eq!(j.args.len(), 2);
    assert_eq!(j.args[1].value, ArgValue::Node(8));
}

#[test]
fn invoke_and_read_outcomes() {
    assert_eq!(invoke_outcome::<String>(false, None), Err(InvokeError::NoSuchPlugin));
    assert_eq!(invoke_outcome(true, Some("bad".to_string())), Err(InvokeError::Failed("bad".to_string())));
    assert_eq!(invoke_outcome::<String>(true, None), Ok(()));
    assert_eq!(expect_video_node::<u8, String>(Ok(Some(4))), Ok(4));
    assert_eq!(expect_video_node::<u8, String>(Ok(None)), Err(InvokeError::NotAVideoNode));
    assert_eq!(expect_video_node::<u8, String>(Err("e".to_string())), Err(InvokeError::Read("e".to_string())));
}

#[test]
fn slice_steps_follow_the_plan() {
    // clip[1:8:3]: frames 1, 4, 7.
    let forward = slice_plan(1, 8, 3);
    assert_eq!(slice_steps(&forward), vec![SliceStep::Trim(1, 7), SliceStep::SelectEvery(3)]);
    // clip[::-1] on ten frames: all, reversed.
    let backward = slice_plan(9, -1, -1);
    assert_eq!(slice_steps(&backward), vec![SliceStep::Trim(0, 9), SliceStep::Reverse]);
    // clip[2:5]: a plain trim.
    assert_eq!(slice_steps(&slice_plan(2, 5, 1)), vec![SliceStep::Trim(2, 4)]);
}

#[test]
fn step_calls() {
    let t = step_call(SliceStep::Trim(2, 4), 7u8);
    assert_eq!(t.function, StdFunction::Trim);
    assert_eq!(t.args, vec![node(ArgKey::Clip, 7), int_arg(ArgKey::First, 2), int_arg(ArgKey::Last, 4)]);
    let r = step_call(SliceStep::Reverse, 7u8);
    assert_eq!(r.function, StdFunction::Reverse);
    assert_eq!(r.args, vec![node(ArgKey::Clip, 7)]);
    let s = step_call(SliceStep::SelectEvery(3), 7u8);
    assert_eq!(s.function, StdFunction::SelectEvery);
    assert_eq!(
        s.args,
        vec![node(ArgKey::Clip, 7), int_arg(ArgKey::Cycle, 3), int_arg(ArgKey::Offsets, 0)]
    );
}
