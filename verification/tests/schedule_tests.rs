use rynth::schedule::{iter_limits, FrameWindow, NextFrame, Slot, SlotStatus};

type Window = FrameWindow<u32, &'static str, &'static str>;

/// Requests frames while allowed; the request for frame n is `100 + n`.
fn fill(w: &mut Window) -> Vec<i32> {
    let mut issued = Vec::new();
    while w.can_issue() {
        let n = w.next_frame();
        assert_eq!(w.push_request(100 + n as u32), n);
        issued.push(n);
    }
    issued
}

#[test]
fn iter_limits_defaults() {
    assert_eq!(iter_limits(None, None, 8), (8, 24));
    assert_eq!(iter_limits(Some(0), None, 0), (1, 3));
    assert_eq!(iter_limits(Some(4), Some(2), 8), (4, 4));
    assert_eq!(iter_limits(Some(4), Some(10), 8), (4, 10));
    assert_eq!(iter_limits(Some(-3), Some(-1), 2), (2, 6));
    assert_eq!(iter_limits(None, Some(0), 3), (3, 3));
}

#[test]
fn window_issues_up_to_prefetch() {
    let mut w = Window::new(10, 2, 6);
    assert_eq!(fill(&mut w), vec![0, 1]);
    assert_eq!(w.rendering(), 2);
    assert_eq!(*w.request_mut(0), 100);
    w.settle(0, Ok("f0"));
    assert_eq!(fill(&mut w), vec![2]);
    w.settle(1, Ok("f1"));
    w.settle(2, Ok("f2"));
    assert_eq!(fill(&mut w), vec![3, 4]);
    assert_eq!(w.window_len(), 5);
    w.settle(3, Ok("f3"));
    w.settle(4, Ok("f4"));
    // the backlog of 6 stops further requests
    assert_eq!(fill(&mut w), vec![5]);
    assert_eq!(w.window_len(), 6);
    assert!(!w.can_issue());
    assert_eq!(w.status(0), SlotStatus::Ready);
    assert_eq!(w.status(5), SlotStatus::Rendering);
}

#[test]
fn window_yields_in_order_and_ends() {
    let mut w = Window::new(3, 2, 6);
    let mut seen = Vec::new();
    fill(&mut w);
    while let Some((slot, frame)) = w.pop_front() {
        match slot {
            Slot::Rendering(req) => assert_eq!(req, 100 + frame as u32),
            Slot::Done(_) => panic!("nothing settled"),
        }
        seen.push(frame);
        fill(&mut w);
    }
    assert_eq!(seen, vec![0, 1, 2]);
}

#[test]
fn window_stops_after_failure() {
    let mut w = Window::new(10, 3, 9);
    assert_eq!(fill(&mut w), vec![0, 1, 2]);
    w.settle(1, Err("broken"));
    assert!(w.stopped());
    assert!(!w.can_issue());
    assert_eq!(w.status(1), SlotStatus::Failed);
    match w.pop_front() {
        Some((Slot::Rendering(100), 0)) => {}
        _ => panic!("frame 0 first"),
    }
    match w.pop_front() {
        Some((Slot::Done(Err("broken")), 1)) => {}
        _ => panic!("frame 1 failed"),
    }
    assert_eq!(w.fail(), vec![102]);
    assert_eq!(w.window_len(), 0);
    assert!(w.pop_front().is_none());
    assert!(!w.can_issue());
}

#[test]
fn window_fail_returns_pending_requests() {
    let mut w = Window::new(10, 3, 9);
    fill(&mut w);
    w.settle(1, Ok("f1"));
    assert_eq!(w.fail(), vec![100, 102]);
    assert!(w.stopped());
}

#[test]
fn window_empty_clip() {
    let mut w = Window::new(0, 1, 3);
    assert!(!w.can_issue());
    assert!(w.pop_front().is_none());
}

type Numbered = FrameWindow<u32, u32, &'static str>;

fn collect(w: &mut Numbered, fail_at: Option<u32>) -> (Vec<(i32, u32)>, Option<(&'static str, Vec<u32>)>) {
    let poll = |r: u32| Slot::Rendering(r);
    let issue = |n: i32| 100 + n as u32;
    let wait = |r: u32| if Some(r) == fail_at { Err("broken") } else { Ok(r - 100) };
    let mut frames = Vec::new();
    loop {
        match w.next(&poll, &issue, &wait) {
            NextFrame::Frame(n, f) => frames.push((n, f)),
            NextFrame::Exhausted => return (frames, None),
            NextFrame::Failed(e, pending) => return (frames, Some((e, pending))),
        }
    }
}

#[test]
fn refill_issues_up_to_the_limits() {
    let mut w: Numbered = FrameWindow::new(10, 2, 3);
    w.refill(&|r: u32| Slot::Rendering(r), &|n: i32| 100 + n as u32);
    assert_eq!(w.window_len(), 2);
    assert_eq!(w.rendering(), 2);
    assert!(!w.can_issue());
    // Both finish: the backlog now limits the window to three frames.
    w.refill(&|r: u32| Slot::Done(Ok(r - 100)), &|n: i32| 100 + n as u32);
    assert_eq!(w.window_len(), 3);
    assert_eq!(w.status(0), SlotStatus::Ready);
    assert_eq!(w.status(1), SlotStatus::Ready);
    assert_eq!(w.status(2), SlotStatus::Rendering);
    assert_eq!(w.next_frame(), 3);
    assert!(!w.stopped());
}

#[test]
fn refill_stops_after_a_failed_poll() {
    let mut w: Numbered = FrameWindow::new(10, 2, 4);
    w.refill(&|r: u32| Slot::Rendering(r), &|n: i32| 100 + n as u32);
    w.refill(
        &|r: u32| if r == 101 { Slot::Done(Err("broken")) } else { Slot::Rendering(r) },
        &|n: i32| 100 + n as u32,
    );
    assert!(w.stopped());
    assert_eq!(w.window_len(), 2);
    assert_eq!(w.status(1), SlotStatus::Failed);
    assert_eq!(w.next_frame(), 2);
    // A stopped window is left alone.
    w.refill(&|r: u32| Slot::Done(Ok(r)), &|n: i32| 100 + n as u32);
    assert_eq!(w.status(0), SlotStatus::Rendering);
}

#[test]
fn iteration_yields_every_frame_in_order() {
    let mut w: Numbered = FrameWindow::new(5, 2, 3);
    w.refill(&|r: u32| Slot::Rendering(r), &|n: i32| 100 + n as u32);
    let (frames, failure) = collect(&mut w, None);
    assert_eq!(frames, vec![(0, 0), (1, 1), (2, 2), (3, 3), (4, 4)]);
    assert!(failure.is_none());
    let (again, failure) = collect(&mut w, None);
    assert!(again.is_empty());
    assert!(failure.is_none());
}

#[test]
fn iteration_ends_after_a_failed_frame() {
    let mut w: Numbered = FrameWindow::new(10, 3, 3);
    w.refill(&|r: u32| Slot::Rendering(r), &|n: i32| 100 + n as u32);
    let (frames, failure) = collect(&mut w, Some(102));
    assert_eq!(frames, vec![(0, 0), (1, 1)]);
    assert_eq!(failure, Some(("broken", vec![103, 104])));
    assert!(w.stopped());
    let (after, failure) = collect(&mut w, None);
    assert!(after.is_empty());
    assert!(failure.is_none());
}

#[test]
fn empty_clip_is_exhausted_at_once() {
    let mut w: Numbered = FrameWindow::new(0, 1, 1);
    w.refill(&|r: u32| Slot::Rendering(r), &|n: i32| 100 + n as u32);
    assert_eq!(w.window_len(), 0);
    let (frames, failure) = collect(&mut w, None);
    assert!(frames.is_empty());
    assert!(failure.is_none());
}
