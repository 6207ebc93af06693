//! Calls into VapourSynth's `std` plugin: which function each clip operation
//! invokes, with which arguments, and how the result is read back.

use vstd::prelude::*;
use crate::clip::{
    adjusted_slice, plan_frames, python_slice_frames, python_slice_len, select_every_frames,
    slice_plan_selects_python_frames, spec_slice_plan, trim_frames, SlicePlan,
};
use crate::convert::AppendMode;

verus! {

/// The `std` functions the clip operations use.
#[derive(PartialEq, Eq, Structural, Clone, Copy, Debug)]
pub enum StdFunction {
    Trim,
    Reverse,
    SelectEvery,
    /// `std.Loop`.
    Loop,
    Splice,
}

/// The argument keys the clip operations use.
#[derive(PartialEq, Eq, Structural, Clone, Copy, Debug)]
pub enum ArgKey {
    Clip,
    Clips,
    First,
    Last,
    Cycle,
    Offsets,
    Times,
}

/// An argument value.
#[derive(PartialEq, Eq, Debug)]
pub enum ArgValue<N> {
    Node(N),
    Int(i64),
}

/// One argument entry: written under `key` in `mode`.
#[derive(PartialEq, Eq, Debug)]
pub struct StdArg<N> {
    pub key: ArgKey,
    pub value: ArgValue<N>,
    pub mode: AppendMode,
}

/// A call of a `std` function: its argument entries in order. Every call
/// returns its clip under the key `clip`.
pub struct StdCall<N> {
    pub function: StdFunction,
    pub args: Vec<StdArg<N>>,
}

/// An entry replacing `key` with a node.
pub open spec fn node_arg<N>(key: ArgKey, n: N) -> StdArg<N> {
    StdArg { key, value: ArgValue::Node(n), mode: AppendMode::Replace }
}

/// An entry replacing `key` with an integer.
pub open spec fn int_arg<N>(key: ArgKey, i: i64) -> StdArg<N> {
    StdArg { key, value: ArgValue::Int(i), mode: AppendMode::Replace }
}

/// One `std` call of the chain that takes a slice of a clip.
#[derive(PartialEq, Eq, Structural, Clone, Copy, Debug)]
pub enum SliceStep {
    /// `std.Trim` to the frames `first..=last`.
    Trim(i64, i64),
    /// `std.Reverse`.
    Reverse,
    /// `std.SelectEvery` with this cycle and offset 0.
    SelectEvery(i64),
}

/// The calls that carry out `plan`, in order: trim to its bounds, reverse
/// when it runs backwards, then keep every `cycle`-th frame when it skips.
pub open spec fn spec_slice_steps(plan: SlicePlan) -> Seq<SliceStep> {
    seq![SliceStep::Trim(plan.first, plan.last)] + (if plan.reverse {
        seq![SliceStep::Reverse]
    } else {
        Seq::<SliceStep>::empty()
    }) + match plan.cycle {
        Some(c) => seq![SliceStep::SelectEvery(c)],
        None => Seq::<SliceStep>::empty(),
    }
}

/// The calls that carry out a slice plan, in order.
pub fn slice_steps(plan: &SlicePlan) -> (steps: Vec<SliceStep>)
    ensures
        steps@ == spec_slice_steps(*plan),
{
    let mut steps: Vec<SliceStep> = Vec::new();
    steps.push(SliceStep::Trim(plan.first, plan.last));
    if plan.reverse {
        steps.push(SliceStep::Reverse);
    }
    match plan.cycle {
        Some(c) => {
            steps.push(SliceStep::SelectEvery(c));
        },
        None => {},
    }
    assert(steps@ =~= spec_slice_steps(*plan));
    steps
}

/// The frames of a clip after one step, given the clip's frames in order:
/// `Trim` keeps positions `first..=last`, `Reverse` reverses them and
/// `SelectEvery(c)` keeps every `c`-th from the first.
pub open spec fn apply_step(frames: Seq<int>, step: SliceStep) -> Seq<int> {
    match step {
        SliceStep::Trim(first, last) => frames.subrange(first as int, last as int + 1),
        SliceStep::Reverse => frames.reverse(),
        SliceStep::SelectEvery(c) => select_every_frames(frames, c as int),
    }
}

/// The frames of a clip after the steps, applied in order.
pub open spec fn apply_steps(frames: Seq<int>, steps: Seq<SliceStep>) -> Seq<int>
    decreases steps.len(),
{
    if steps.len() == 0 {
        frames
    } else {
        apply_steps(apply_step(frames, steps[0]), steps.drop_first())
    }
}

/// The frames of a clip of `len` frames, in order.
pub open spec fn clip_frames(len: int) -> Seq<int> {
    Seq::new(len as nat, |i: int| i)
}

/// Running the steps of a non-empty slice's plan, in order, on a clip gives
/// exactly the frames Python's slice `start:stop:step` selects, in Python's
/// order.
pub proof fn slice_steps_select_python_frames(start: int, stop: int, step: int, len: int)
    requires
        adjusted_slice(start, stop, step, len),
        python_slice_len(start, stop, step) > 0,
        i64::MIN < step <= i64::MAX,
        i64::MIN <= start <= i64::MAX,
        i64::MIN < stop < i64::MAX,
    ensures
        apply_steps(clip_frames(len), spec_slice_steps(spec_slice_plan(start, stop, step)))
            == python_slice_frames(start, stop, step),
{
    let plan = spec_slice_plan(start, stop, step);
    slice_plan_selects_python_frames(start, stop, step, len);
    let steps = spec_slice_steps(plan);
    let trimmed = apply_step(clip_frames(len), SliceStep::Trim(plan.first, plan.last));
    assert(trimmed =~= trim_frames(plan.first as int, plan.last as int));
    let rest = steps.drop_first();
    assert(steps[0] == SliceStep::Trim(plan.first, plan.last));
    assert(apply_steps(clip_frames(len), steps) == apply_steps(trimmed, rest));
    let empty = Seq::<SliceStep>::empty();
    assert(apply_steps(trimmed.reverse(), empty) == trimmed.reverse());
    assert(apply_steps(trimmed, empty) == trimmed);
    if plan.reverse {
        let reversed = trimmed.reverse();
        match plan.cycle {
            Some(c) => {
                assert(rest =~= seq![SliceStep::Reverse, SliceStep::SelectEvery(c)]);
                assert(rest.drop_first() =~= seq![SliceStep::SelectEvery(c)]);
                assert(rest.drop_first().drop_first() =~= empty);
                let selected = select_every_frames(reversed, c as int);
                assert(apply_steps(selected, empty) == selected);
                assert(apply_steps(reversed, rest.drop_first()) == selected);
                assert(apply_steps(trimmed, rest) == selected);
            },
            None => {
                assert(rest =~= seq![SliceStep::Reverse]);
                assert(rest.drop_first() =~= empty);
                assert(apply_steps(trimmed, rest) == reversed);
            },
        }
    } else {
        match plan.cycle {
            Some(c) => {
                assert(rest =~= seq![SliceStep::SelectEvery(c)]);
                assert(rest.drop_first() =~= empty);
                let selected = select_every_frames(trimmed, c as int);
                assert(apply_steps(selected, empty) == selected);
                assert(apply_steps(trimmed, rest) == selected);
            },
            None => {
                assert(rest =~= empty);
            },
        }
    }
    assert(apply_steps(clip_frames(len), steps) == plan_frames(plan));
}

/// The call for one step of a slice, on `clip`.
pub fn step_call<N>(step: SliceStep, clip: N) -> (c: StdCall<N>)
    ensures
        match step {
            SliceStep::Trim(first, last) => {
                &&& c.function == StdFunction::Trim
                &&& c.args@ == seq![
                    node_arg(ArgKey::Clip, clip),
                    int_arg::<N>(ArgKey::First, first),
                    int_arg::<N>(ArgKey::Last, last),
                ]
            },
            SliceStep::Reverse => {
                &&& c.function == StdFunction::Reverse
                &&& c.args@ == seq![node_arg(ArgKey::Clip, clip)]
            },
            SliceStep::SelectEvery(cycle) => {
                &&& c.function == StdFunction::SelectEvery
                &&& c.args@ == seq![
                    node_arg(ArgKey::Clip, clip),
                    int_arg::<N>(ArgKey::Cycle, cycle),
                    int_arg::<N>(ArgKey::Offsets, 0),
                ]
            },
        },
{
    match step {
        SliceStep::Trim(first, last) => {
            let c = trim(clip, Some(first), Some(last));
            assert(c.args@ =~= seq![
                node_arg(ArgKey::Clip, clip),
                int_arg::<N>(ArgKey::First, first),
                int_arg::<N>(ArgKey::Last, last),
            ]);
            c
        },
        SliceStep::Reverse => reverse(clip),
        SliceStep::SelectEvery(cycle) => select_every(clip, cycle, 0),
    }
}

/// `std.Trim(clip, first=first, last=last)`, leaving out the bounds not given.
pub fn trim<N>(clip: N, first: Option<i64>, last: Option<i64>) -> (c: StdCall<N>)
    ensures
        c.function == StdFunction::Trim,
        c.args@ == seq![node_arg(ArgKey::Clip, clip)] + match first {
            Some(f) => seq![int_arg::<N>(ArgKey::First, f)],
            None => Seq::<StdArg<N>>::empty(),
        } + match last {
            Some(l) => seq![int_arg::<N>(ArgKey::Last, l)],
            None => Seq::<StdArg<N>>::empty(),
        },
{
    let mut args: Vec<StdArg<N>> = Vec::new();
    args.push(StdArg { key: ArgKey::Clip, value: ArgValue::Node(clip), mode: AppendMode::Replace });
    let ghost a1 = args@;
    if let Some(f) = first {
        args.push(StdArg { key: ArgKey::First, value: ArgValue::Int(f), mode: AppendMode::Replace });
    }
    let ghost a2 = args@;
    if let Some(l) = last {
        args.push(StdArg { key: ArgKey::Last, value: ArgValue::Int(l), mode: AppendMode::Replace });
    }
    proof {
        let fs = match first {
            Some(f) => seq![int_arg::<N>(ArgKey::First, f)],
            None => Seq::<StdArg<N>>::empty(),
        };
        let ls = match last {
            Some(l) => seq![int_arg::<N>(ArgKey::Last, l)],
            None => Seq::<StdArg<N>>::empty(),
        };
        assert(a2 =~= a1 + fs);
        assert(args@ =~= a2 + ls);
    }
    StdCall { function: StdFunction::Trim, args }
}

/// `std.Reverse(clip)`.
pub fn reverse<N>(clip: N) -> (c: StdCall<N>)
    ensures
        c.function == StdFunction::Reverse,
        c.args@ == seq![node_arg(ArgKey::Clip, clip)],
{
    let mut args: Vec<StdArg<N>> = Vec::new();
    args.push(StdArg { key: ArgKey::Clip, value: ArgValue::Node(clip), mode: AppendMode::Replace });
    assert(args@ =~= seq![node_arg(ArgKey::Clip, clip)]);
    StdCall { function: StdFunction::Reverse, args }
}

/// `std.SelectEvery(clip, cycle=cycle, offsets=offset)`.
pub fn select_every<N>(clip: N, cycle: i64, offset: i64) -> (c: StdCall<N>)
    ensures
        c.function == StdFunction::SelectEvery,
        c.args@ == seq![
            node_arg(ArgKey::Clip, clip),
            int_arg::<N>(ArgKey::Cycle, cycle),
            int_arg::<N>(ArgKey::Offsets, offset),
        ],
{
    let mut args: Vec<StdArg<N>> = Vec::new();
    args.push(StdArg { key: ArgKey::Clip, value: ArgValue::Node(clip), mode: AppendMode::Replace });
    args.push(StdArg { key: ArgKey::Cycle, value: ArgValue::Int(cycle), mode: AppendMode::Replace });
    args.push(
        StdArg { key: ArgKey::Offsets, value: ArgValue::Int(offset), mode: AppendMode::Replace },
    );
    assert(args@ =~= seq![
        node_arg(ArgKey::Clip, clip),
        int_arg::<N>(ArgKey::Cycle, cycle),
        int_arg::<N>(ArgKey::Offsets, offset),
    ]);
    StdCall { function: StdFunction::SelectEvery, args }
}

/// `std.Loop(clip, times=times)`.
pub fn repeat<N>(clip: N, times: i64) -> (c: StdCall<N>)
    ensures
        c.function == StdFunction::Loop,
        c.args@ == seq![node_arg(ArgKey::Clip, clip), int_arg::<N>(ArgKey::Times, times)],
{
    let mut args: Vec<StdArg<N>> = Vec::new();
    args.push(StdArg { key: ArgKey::Clip, value: ArgValue::Node(clip), mode: AppendMode::Replace });
    args.push(StdArg { key: ArgKey::Times, value: ArgValue::Int(times), mode: AppendMode::Replace });
    assert(args@ =~= seq![node_arg(ArgKey::Clip, clip), int_arg::<N>(ArgKey::Times, times)]);
    StdCall { function: StdFunction::Loop, args }
}

/// `std.Splice(clips=clips)`: every clip is appended under `clips`, in order.
pub fn splice<N>(clips: Vec<N>) -> (c: StdCall<N>)
    ensures
        c.function == StdFunction::Splice,
        c.args@.len() == clips@.len(),
        forall|i: int|
            0 <= i < clips@.len() ==> #[trigger] c.args@[i] == (StdArg {
                key: ArgKey::Clips,
                value: ArgValue::Node(clips@[i]),
                mode: AppendMode::Append,
            }),
{
    let mut args: Vec<StdArg<N>> = Vec::new();
    let mut clips = clips;
    let ghost all = clips@;
    while clips.len() > 0
        invariant
            args@.len() + clips@.len() == all.len(),
            clips@ == all.skip(args@.len() as int),
            forall|i: int|
                0 <= i < args@.len() ==> #[trigger] args@[i] == (StdArg {
                    key: ArgKey::Clips,
                    value: ArgValue::Node(all[i]),
                    mode: AppendMode::Append,
                }),
        decreases clips@.len(),
    {
        let n = clips.remove(0);
        assert(n == all[args@.len() as int]);
        args.push(StdArg { key: ArgKey::Clips, value: ArgValue::Node(n), mode: AppendMode::Append });
        assert(clips@ =~= all.skip(args@.len() as int));
    }
    StdCall { function: StdFunction::Splice, args }
}

/// `clip1 + clip2`: the two clips spliced.
pub fn join<N>(first: N, second: N) -> (c: StdCall<N>)
    ensures
        c.function == StdFunction::Splice,
        c.args@ == seq![
            StdArg { key: ArgKey::Clips, value: ArgValue::Node(first), mode: AppendMode::Append },
            StdArg { key: ArgKey::Clips, value: ArgValue::Node(second), mode: AppendMode::Append },
        ],
{
    let mut clips: Vec<N> = Vec::new();
    clips.push(first);
    clips.push(second);
    let c = splice(clips);
    assert(c.args@ =~= seq![
        StdArg { key: ArgKey::Clips, value: ArgValue::Node(first), mode: AppendMode::Append },
        StdArg { key: ArgKey::Clips, value: ArgValue::Node(second), mode: AppendMode::Append },
    ]);
    c
}

/// What went wrong invoking a plugin function or reading its result.
#[derive(PartialEq, Eq, Debug)]
pub enum InvokeError<E> {
    /// No plugin is loaded under the namespace.
    NoSuchPlugin,
    /// The function reported an error.
    Failed(E),
    /// The result key holds something other than a video node.
    NotAVideoNode,
    /// The result key could not be read.
    Read(E),
}

/// The outcome of an invocation: the plugin must have been found, and the
/// result map must carry no error.
pub fn invoke_outcome<E>(plugin_found: bool, error: Option<E>) -> (r: Result<(), InvokeError<E>>)
    ensures
        r == if !plugin_found {
            Err(InvokeError::NoSuchPlugin)
        } else {
            match error {
                Some(e) => Err(InvokeError::Failed(e)),
                None => Ok::<(), InvokeError<E>>(()),
            }
        },
{
    if !plugin_found {
        return Err(InvokeError::NoSuchPlugin);
    }
    match error {
        Some(e) => Err(InvokeError::Failed(e)),
        None => Ok(()),
    }
}

/// Reads the node a call returned: the first value under the result key
/// must be a video node (`Some`); other values and read errors fail.
pub fn expect_video_node<N, E>(first_value: Result<Option<N>, E>) -> (r: Result<N, InvokeError<E>>)
    ensures
        r == match first_value {
            Ok(Some(n)) => Ok::<N, InvokeError<E>>(n),
            Ok(None) => Err(InvokeError::NotAVideoNode),
            Err(e) => Err(InvokeError::Read(e)),
        },
{
    match first_value {
        Ok(Some(n)) => Ok(n),
        Ok(None) => Err(InvokeError::NotAVideoNode),
        Err(e) => Err(InvokeError::Read(e)),
    }
}

} // verus!
