//! Concurrent, in-order frame iteration.
//!
//! A frame iterator keeps up to `prefetch` frames rendering at once and never
//! buffers more than `backlog` unconsumed frames. Its window holds, in frame
//! order, the requests still rendering and the results already settled; this
//! module decides which frame to request next, when to stop requesting and
//! which frame the consumer gets next. Requests and frames are type
//! parameters: issuing and polling them is the caller's part.

use vstd::prelude::*;

verus! {

/// The state of one requested frame in the window.
#[derive(PartialEq, Eq, Structural, Clone, Copy, Debug)]
pub enum SlotStatus {
    /// The frame is still being rendered.
    Rendering,
    /// The frame finished rendering successfully.
    Ready,
    /// Rendering the frame failed.
    Failed,
}

/// Number of slots of `s` that are still rendering.
pub open spec fn rendering_count(s: Seq<SlotStatus>) -> nat
    decreases s.len(),
{
    if s.len() == 0 {
        0
    } else {
        rendering_count(s.drop_last()) + if s.last() == SlotStatus::Rendering {
            1nat
        } else {
            0nat
        }
    }
}

/// Rendering count of a sequence whose element `i` stops rendering.
proof fn lemma_rendering_count_update(s: Seq<SlotStatus>, i: int, v: SlotStatus)
    requires
        0 <= i < s.len(),
        s[i] == SlotStatus::Rendering,
        v != SlotStatus::Rendering,
    ensures
        rendering_count(s.update(i, v)) + 1 == rendering_count(s),
    decreases s.len(),
{
    if i == s.len() - 1 {
        assert(s.update(i, v).drop_last() =~= s.drop_last());
    } else {
        lemma_rendering_count_update(s.drop_last(), i, v);
        assert(s.update(i, v).drop_last() =~= s.drop_last().update(i, v));
    }
}

/// Rendering count after appending one slot.
proof fn lemma_rendering_count_push(s: Seq<SlotStatus>, v: SlotStatus)
    ensures
        rendering_count(s.push(v)) == rendering_count(s) + if v == SlotStatus::Rendering {
            1nat
        } else {
            0nat
        },
{
    assert(s.push(v).drop_last() =~= s);
}

/// Rendering count after removing the first slot.
proof fn lemma_rendering_count_drop_first(s: Seq<SlotStatus>)
    requires
        s.len() > 0,
    ensures
        rendering_count(s) == rendering_count(s.drop_first()) + if s[0]
            == SlotStatus::Rendering {
            1nat
        } else {
            0nat
        },
    decreases s.len(),
{
    if s.len() == 1 {
        assert(s.drop_first() =~= Seq::<SlotStatus>::empty());
        assert(s.drop_last() =~= Seq::<SlotStatus>::empty());
    } else {
        lemma_rendering_count_drop_first(s.drop_last());
        assert(s.drop_first().drop_last() =~= s.drop_last().drop_first());
    }
}

/// A sequence that renders only where another does renders no more often.
proof fn lemma_rendering_count_le(a: Seq<SlotStatus>, b: Seq<SlotStatus>)
    requires
        a.len() == b.len(),
        forall|i: int| 0 <= i < a.len() && a[i] == SlotStatus::Rendering ==> b[i]
            == SlotStatus::Rendering,
    ensures
        rendering_count(a) <= rendering_count(b),
    decreases a.len(),
{
    if a.len() > 0 {
        lemma_rendering_count_le(a.drop_last(), b.drop_last());
    }
}

/// One frame of the window: its request while rendering, then its result.
pub enum Slot<R, F, E> {
    Rendering(R),
    Done(Result<F, E>),
}

/// The status of a slot.
pub open spec fn status_of<R, F, E>(s: Slot<R, F, E>) -> SlotStatus {
    match s {
        Slot::Rendering(_) => SlotStatus::Rendering,
        Slot::Done(Ok(_)) => SlotStatus::Ready,
        Slot::Done(Err(_)) => SlotStatus::Failed,
    }
}

/// The requests among `s` that are still rendering, in order.
pub open spec fn rendering_requests<R, F, E>(s: Seq<Slot<R, F, E>>) -> Seq<R>
    decreases s.len(),
{
    if s.len() == 0 {
        Seq::empty()
    } else {
        let rest = rendering_requests(s.drop_first());
        match s[0] {
            Slot::Rendering(r) => seq![r] + rest,
            Slot::Done(_) => rest,
        }
    }
}

/// Whether `after` is what polling may make of slot `before`: a rendering
/// request is handed to `poll`, which gives back the request or its result;
/// a settled slot stays as it is.
pub open spec fn spec_polled<R, F, E, P: Fn(R) -> Slot<R, F, E>>(
    poll: P,
    before: Slot<R, F, E>,
    after: Slot<R, F, E>,
) -> bool {
    match before {
        Slot::Rendering(r) => poll.ensures((r,), after),
        Slot::Done(_) => after == before,
    }
}

/// Whether `result` is what the consumer may get of slot `slot`: a rendering
/// request is waited for with `wait`; a settled slot gives its result.
pub open spec fn spec_delivered<R, F, E, W: Fn(R) -> Result<F, E>>(
    wait: W,
    slot: Slot<R, F, E>,
    result: Result<F, E>,
) -> bool {
    match slot {
        Slot::Rendering(r) => wait.ensures((r,), result),
        Slot::Done(d) => result == d,
    }
}

/// What the consumer gets from a frame iterator's window.
pub enum NextFrame<R, F, E> {
    /// The next frame in order, with its number.
    Frame(i32, F),
    /// Every frame was handed out, or iteration ended after a failure.
    Exhausted,
    /// The next frame failed: its error, and the requests still rendering,
    /// to be waited out.
    Failed(E, Vec<R>),
}

/// The window of a frame iterator over a clip of `len` frames.
///
/// Slot `i` holds frame `front_frame() + i`; frames are requested in
/// increasing order, each once, and handed out in that order.
pub struct FrameWindow<R, F, E> {
    window: Vec<Slot<R, F, E>>,
    next_request: i32,
    stopped: bool,
    len: i32,
    prefetch: usize,
    backlog: usize,
    front: i32,
}

impl<R, F, E> FrameWindow<R, F, E> {
    /// The slots, front first.
    pub closed spec fn contents(&self) -> Seq<Slot<R, F, E>> {
        self.window@
    }

    /// The statuses of the slots, front first.
    pub open spec fn slots(&self) -> Seq<SlotStatus> {
        Seq::new(self.contents().len(), |i: int| status_of(self.contents()[i]))
    }

    /// The next frame number that will be requested.
    pub closed spec fn spec_next_request(&self) -> int {
        self.next_request as int
    }

    /// The frame number held by the first slot of the window.
    pub closed spec fn front_frame(&self) -> int {
        self.front as int
    }

    /// Whether requesting has stopped for good after a failed frame.
    pub closed spec fn spec_stopped(&self) -> bool {
        self.stopped
    }

    /// The number of frames in the clip.
    pub closed spec fn spec_len(&self) -> int {
        self.len as int
    }

    /// The concurrency limit.
    pub closed spec fn spec_prefetch(&self) -> nat {
        self.prefetch as nat
    }

    /// The buffering limit.
    pub closed spec fn spec_backlog(&self) -> nat {
        self.backlog as nat
    }

    /// The window's invariant.
    pub open spec fn wf(&self) -> bool {
        &&& 1 <= self.spec_prefetch() <= self.spec_backlog()
        &&& 0 <= self.front_frame() <= self.spec_next_request()
        &&& self.spec_next_request() == 0 || self.spec_next_request() <= self.spec_len()
        &&& self.contents().len() == self.spec_next_request() - self.front_frame()
        &&& self.contents().len() <= self.spec_backlog()
        &&& rendering_count(self.slots()) <= self.spec_prefetch()
        &&& self.spec_next_request() <= i32::MAX
    }

    /// Whether a new request may be issued now.
    pub open spec fn spec_can_issue(&self) -> bool {
        &&& !self.spec_stopped()
        &&& self.spec_next_request() < self.spec_len()
        &&& rendering_count(self.slots()) < self.spec_prefetch()
        &&& self.slots().len() < self.spec_backlog()
    }

    /// An empty window for a clip of `len` frames.
    pub fn new(len: i32, prefetch: usize, backlog: usize) -> (w: Self)
        requires
            1 <= prefetch <= backlog,
        ensures
            w.wf(),
            w.contents() == Seq::<Slot<R, F, E>>::empty(),
            w.slots() == Seq::<SlotStatus>::empty(),
            w.spec_next_request() == 0,
            w.front_frame() == 0,
            !w.spec_stopped(),
            w.spec_len() == len,
            w.spec_prefetch() == prefetch,
            w.spec_backlog() == backlog,
    {
        let w = FrameWindow {
            window: Vec::new(),
            next_request: 0,
            stopped: false,
            len,
            prefetch,
            backlog,
            front: 0,
        };
        assert(w.slots() =~= Seq::<SlotStatus>::empty());
        w
    }

    /// The concurrency limit.
    pub fn prefetch(&self) -> (p: usize)
        ensures
            p == self.spec_prefetch(),
    {
        self.prefetch
    }

    /// The buffering limit.
    pub fn backlog(&self) -> (b: usize)
        ensures
            b == self.spec_backlog(),
    {
        self.backlog
    }

    /// Whether requesting has stopped.
    pub fn stopped(&self) -> (b: bool)
        ensures
            b == self.spec_stopped(),
    {
        self.stopped
    }

    /// Number of slots in the window.
    pub fn window_len(&self) -> (n: usize)
        ensures
            n == self.slots().len(),
    {
        self.window.len()
    }

    /// Status of slot `i`.
    pub fn status(&self, i: usize) -> (st: SlotStatus)
        requires
            i < self.slots().len(),
        ensures
            st == self.slots()[i as int],
    {
        match &self.window[i] {
            Slot::Rendering(_) => SlotStatus::Rendering,
            Slot::Done(Ok(_)) => SlotStatus::Ready,
            Slot::Done(Err(_)) => SlotStatus::Failed,
        }
    }

    /// Number of slots still rendering.
    pub fn rendering(&self) -> (n: usize)
        ensures
            n == rendering_count(self.slots()),
    {
        let ghost st = self.slots();
        let mut n: usize = 0;
        let mut i: usize = 0;
        while i < self.window.len()
            invariant
                st == self.slots(),
                i <= st.len(),
                n == rendering_count(st.take(i as int)),
                n <= i,
            decreases st.len() - i,
        {
            assert(st.take(i + 1).drop_last() =~= st.take(i as int));
            if self.status(i) == SlotStatus::Rendering {
                n = n + 1;
            }
            i = i + 1;
        }
        assert(st.take(i as int) =~= st);
        n
    }

    /// The request of slot `i`, still rendering, to poll it.
    pub fn request_mut(&mut self, i: usize) -> (r: &mut R)
        requires
            old(self).wf(),
            i < old(self).contents().len(),
            old(self).contents()[i as int] is Rendering,
        ensures
            *r == old(self).contents()[i as int]->Rendering_0,
            final(self).contents() == old(self).contents().update(
                i as int,
                Slot::Rendering(*final(r)),
            ),
            final(self).slots() == old(self).slots(),
            final(self).spec_next_request() == old(self).spec_next_request(),
            final(self).front_frame() == old(self).front_frame(),
            final(self).spec_stopped() == old(self).spec_stopped(),
            final(self).spec_len() == old(self).spec_len(),
            final(self).spec_prefetch() == old(self).spec_prefetch(),
            final(self).spec_backlog() == old(self).spec_backlog(),
    {
        match &mut self.window[i] {
            Slot::Rendering(r) => r,
            Slot::Done(_) => vstd::pervasive::unreached(),
        }
    }

    /// Records the result of slot `i`; a failure stops all further requests,
    /// while the slots already in the window stay in place.
    pub fn settle(&mut self, i: usize, result: Result<F, E>)
        requires
            old(self).wf(),
            i < old(self).contents().len(),
            old(self).contents()[i as int] is Rendering,
        ensures
            final(self).wf(),
            final(self).contents() == old(self).contents().update(i as int, Slot::Done(result)),
            final(self).spec_stopped() == (old(self).spec_stopped() || result is Err),
            final(self).spec_next_request() == old(self).spec_next_request(),
            final(self).front_frame() == old(self).front_frame(),
            final(self).spec_len() == old(self).spec_len(),
            final(self).spec_prefetch() == old(self).spec_prefetch(),
            final(self).spec_backlog() == old(self).spec_backlog(),
    {
        let failed = result.is_err();
        let ghost v = status_of(Slot::<R, F, E>::Done(result));
        proof {
            lemma_rendering_count_update(old(self).slots(), i as int, v);
        }
        self.window.set(i, Slot::Done(result));
        assert(self.slots() =~= old(self).slots().update(i as int, v));
        self.stopped = self.stopped || failed;
    }

    /// Whether a new frame may be requested now: requesting has not stopped,
    /// frames remain, fewer than `prefetch` are rendering and the window holds
    /// fewer than `backlog` frames.
    pub fn can_issue(&self) -> (b: bool)
        requires
            self.wf(),
        ensures
            b == self.spec_can_issue(),
    {
        !self.stopped && self.next_request < self.len && self.rendering() < self.prefetch
            && self.window.len() < self.backlog
    }

    /// The frame the next request is for: the one right after the last frame
    /// in the window.
    pub fn next_frame(&self) -> (n: i32)
        requires
            self.wf(),
        ensures
            n == self.spec_next_request(),
            n == self.front_frame() + self.contents().len(),
    {
        self.next_request
    }

    /// Adds the request for the next frame; returns that frame's number.
    pub fn push_request(&mut self, request: R) -> (n: i32)
        requires
            old(self).wf(),
            old(self).spec_can_issue(),
        ensures
            final(self).wf(),
            n == old(self).spec_next_request(),
            n == old(self).front_frame() + old(self).contents().len(),
            0 <= n < old(self).spec_len(),
            final(self).contents() == old(self).contents().push(Slot::Rendering(request)),
            final(self).spec_next_request() == n + 1,
            final(self).front_frame() == old(self).front_frame(),
            final(self).spec_stopped() == old(self).spec_stopped(),
            final(self).spec_len() == old(self).spec_len(),
            final(self).spec_prefetch() == old(self).spec_prefetch(),
            final(self).spec_backlog() == old(self).spec_backlog(),
    {
        proof {
            lemma_rendering_count_push(old(self).slots(), SlotStatus::Rendering);
        }
        let n = self.next_request;
        self.next_request = n + 1;
        self.window.push(Slot::Rendering(request));
        assert(self.slots() =~= old(self).slots().push(SlotStatus::Rendering));
        n
    }

    /// Hands the front slot to the consumer, with the number of its frame.
    pub fn pop_front(&mut self) -> (r: Option<(Slot<R, F, E>, i32)>)
        requires
            old(self).wf(),
        ensures
            final(self).wf(),
            match r {
                Some((slot, frame)) => {
                    &&& old(self).contents().len() > 0
                    &&& slot == old(self).contents()[0]
                    &&& frame == old(self).front_frame()
                    &&& final(self).contents() == old(self).contents().drop_first()
                    &&& final(self).front_frame() == old(self).front_frame() + 1
                },
                None => {
                    &&& old(self).contents().len() == 0
                    &&& final(self).contents() == old(self).contents()
                    &&& final(self).front_frame() == old(self).front_frame()
                },
            },
            final(self).spec_next_request() == old(self).spec_next_request(),
            final(self).spec_stopped() == old(self).spec_stopped(),
            final(self).spec_len() == old(self).spec_len(),
            final(self).spec_prefetch() == old(self).spec_prefetch(),
            final(self).spec_backlog() == old(self).spec_backlog(),
    {
        if self.window.len() == 0 {
            return None;
        }
        proof {
            lemma_rendering_count_drop_first(old(self).slots());
        }
        let frame = self.front;
        let slot = self.window.remove(0);
        assert(self.window@ =~= old(self).window@.drop_first());
        assert(self.slots() =~= old(self).slots().drop_first());
        self.front = self.front + 1;
        Some((slot, frame))
    }

    /// Stops for good after a failed frame: no further requests, every slot
    /// is discarded, and the requests still rendering are handed back, in
    /// order, to be waited out.
    pub fn fail(&mut self) -> (pending: Vec<R>)
        requires
            old(self).wf(),
        ensures
            final(self).wf(),
            final(self).spec_stopped(),
            pending@ == rendering_requests(old(self).contents()),
            final(self).contents() == Seq::<Slot<R, F, E>>::empty(),
            final(self).front_frame() == old(self).spec_next_request(),
            final(self).spec_next_request() == old(self).spec_next_request(),
            final(self).spec_len() == old(self).spec_len(),
            final(self).spec_prefetch() == old(self).spec_prefetch(),
            final(self).spec_backlog() == old(self).spec_backlog(),
    {
        self.stopped = true;
        let ghost all = old(self).contents();
        let mut pending: Vec<R> = Vec::new();
        while self.window.len() > 0
            invariant
                pending@ + rendering_requests(self.window@) == rendering_requests(all),
                self.stopped,
                self.next_request == old(self).next_request,
                self.len == old(self).len,
                self.prefetch == old(self).prefetch,
                self.backlog == old(self).backlog,
            decreases self.window@.len(),
        {
            let ghost before = self.window@;
            let slot = self.window.remove(0);
            assert(self.window@ =~= before.drop_first());
            match slot {
                Slot::Rendering(r) => {
                    pending.push(r);
                    assert(pending@ + rendering_requests(self.window@) =~= rendering_requests(all));
                },
                Slot::Done(_) => {},
            }
        }
        assert(rendering_requests(self.window@) =~= Seq::<R>::empty());
        assert(pending@ =~= rendering_requests(all));
        assert(self.slots() =~= Seq::<SlotStatus>::empty());
        self.front = self.next_request;
        pending
    }

    /// Whether the window is valid and, unless it stopped, has as many
    /// requests in flight as its limits allow.
    pub open spec fn settled(&self) -> bool {
        &&& self.wf()
        &&& !self.spec_stopped() ==> !self.spec_can_issue()
    }

    /// Whether a stopped window still holds the failed frame that stopped
    /// it, to be handed out in its turn.
    pub open spec fn failure_pending(&self) -> bool {
        self.spec_stopped() ==> exists|i: int|
            0 <= i < self.contents().len() && ((#[trigger] self.contents()[i]) matches Slot::Done(Err(_)))
    }

    /// Whether the iteration is under way: the window is settled, and if it
    /// stopped, the failed frame is still to come.
    pub open spec fn running(&self) -> bool {
        &&& self.settled()
        &&& self.failure_pending()
    }

    /// Whether the iteration ended after a failure: stopped and empty.
    pub open spec fn finished(&self) -> bool {
        &&& self.wf()
        &&& self.spec_stopped()
        &&& self.contents().len() == 0
    }

    /// Polls the rendering requests, recording finished frames, then
    /// requests further frames while the limits allow. A stopped window is
    /// left as it is.
    pub fn refill<P, I>(&mut self, poll: &P, issue: &I)
        where
            P: Fn(R) -> Slot<R, F, E>,
            I: Fn(i32) -> R,
        requires
            old(self).wf(),
            forall|r: R| poll.requires((r,)),
            forall|n: i32| issue.requires((n,)),
        ensures
            final(self).settled(),
            old(self).failure_pending() ==> final(self).running(),
            spec_refilled(*old(self), *final(self), *poll, *issue),
    {
        if self.stopped {
            return;
        }
        let ghost start = *self;
        let ghost all = self.window@;
        let mut rest: Vec<Slot<R, F, E>> = Vec::new();
        std::mem::swap(&mut rest, &mut self.window);
        let mut polled: Vec<Slot<R, F, E>> = Vec::new();
        let mut stopped = false;
        while rest.len() > 0
            invariant
                polled@.len() + rest@.len() == all.len(),
                rest@ == all.skip(polled@.len() as int),
                forall|j: int| 0 <= j < polled@.len() ==> spec_polled(*poll, all[j], #[trigger] polled@[j]),
                stopped == exists|j: int|
                    0 <= j < polled@.len() && all[j] is Rendering && ((#[trigger] polled@[j]) matches Slot::Done(Err(_))),
                forall|r: R| poll.requires((r,)),
            decreases rest@.len(),
        {
            let ghost i = polled@.len() as int;
            let ghost old_polled = polled@;
            let ghost was_stopped = stopped;
            let slot = rest.remove(0);
            assert(slot == all[i]);
            assert(rest@ =~= all.skip(i + 1));
            let next = match slot {
                Slot::Rendering(r) => {
                    let after = poll(r);
                    if let Slot::Done(Err(_)) = &after {
                        stopped = true;
                    }
                    after
                },
                Slot::Done(d) => Slot::Done(d),
            };
            polled.push(next);
            assert(polled@[i] == next);
            assert(forall|j: int| 0 <= j < i ==> polled@[j] == old_polled[j]);
            proof {
                if all[i] is Rendering && (polled@[i] matches Slot::Done(Err(_))) {
                    assert(stopped);
                } else {
                    assert(stopped == was_stopped);
                    if stopped {
                        let j = choose|j: int|
                            0 <= j < old_polled.len() && all[j] is Rendering && ((#[trigger] old_polled[j]) matches Slot::Done(Err(_)));
                        assert(polled@[j] == old_polled[j]);
                    }
                }
            }
        }
        let ghost st_all = Seq::new(all.len(), |j: int| status_of(all[j]));
        let ghost st_polled = Seq::new(polled@.len(), |j: int| status_of(polled@[j]));
        assert(start.slots() =~= st_all);
        assert forall|j: int|
            0 <= j < st_polled.len() && st_polled[j] == SlotStatus::Rendering implies st_all[j]
            == SlotStatus::Rendering by {
            assert(spec_polled(*poll, all[j], polled@[j]));
        }
        proof {
            lemma_rendering_count_le(st_polled, st_all);
        }
        let ghost polled_seq = polled@;
        self.window = polled;
        self.stopped = stopped;
        assert(self.slots() =~= st_polled);
        let ghost mid = *self;
        assert(mid.contents().len() == all.len());
        while self.can_issue()
            invariant
                self.wf(),
                self.contents().len() >= all.len(),
                mid.contents().len() == all.len(),
                forall|j: int| 0 <= j < all.len() ==> #[trigger] self.contents()[j] == mid.contents()[j],
                forall|j: int|
                    all.len() <= j < self.contents().len() ==> {
                        &&& self.contents()[j] is Rendering
                        &&& issue.ensures(
                            ((start.front_frame() + j) as i32,),
                            (#[trigger] self.contents()[j])->Rendering_0,
                        )
                    },
                self.spec_stopped() == mid.spec_stopped(),
                self.spec_stopped() ==> self.contents().len() == all.len(),
                self.spec_next_request() == start.spec_next_request() + (self.contents().len() - all.len()),
                self.front_frame() == start.front_frame(),
                self.spec_len() == start.spec_len(),
                self.spec_prefetch() == start.spec_prefetch(),
                self.spec_backlog() == start.spec_backlog(),
                forall|n: i32| issue.requires((n,)),
            decreases self.spec_len() - self.spec_next_request(),
        {
            let n = self.next_frame();
            let request = issue(n);
            let ghost before = *self;
            self.push_request(request);
            assert(self.contents()[before.contents().len() as int] == Slot::<R, F, E>::Rendering(request));
        }
        proof {
            let k = all.len() as int;
            assert(start.contents() == all);
            assert(mid.contents() == polled_seq);
            assert forall|j: int| 0 <= j < k implies spec_polled(*poll, all[j], #[trigger] self.contents()[j]) by {
                assert(self.contents()[j] == polled_seq[j]);
            }
            if stopped {
                let j = choose|j: int|
                    0 <= j < k && all[j] is Rendering && ((#[trigger] polled_seq[j]) matches Slot::Done(Err(_)));
                assert(self.contents()[j] == polled_seq[j]);
            } else {
                assert forall|j: int| 0 <= j < k implies !(all[j] is Rendering && ((#[trigger] self.contents()[j]) matches Slot::Done(Err(_)))) by {
                    assert(self.contents()[j] == polled_seq[j]);
                }
            }
        }
    }

    /// Hands the consumer the next frame in order: the front slot's result,
    /// waited for with `wait` while it renders. After a frame, the window is
    /// refilled; after a failure, it stops for good and hands back the
    /// requests still rendering. An empty window is exhausted.
    pub fn next<P, I, W>(&mut self, poll: &P, issue: &I, wait: &W) -> (r: NextFrame<R, F, E>)
        where
            P: Fn(R) -> Slot<R, F, E>,
            I: Fn(i32) -> R,
            W: Fn(R) -> Result<F, E>,
        requires
            old(self).wf(),
            forall|r: R| poll.requires((r,)),
            forall|n: i32| issue.requires((n,)),
            forall|r: R| wait.requires((r,)),
        ensures
            final(self).wf(),
            old(self).settled() ==> final(self).settled(),
            spec_step(*old(self), *final(self), delivery_of(r, old(self).front_frame())),
            match r {
                NextFrame::Exhausted => {
                    &&& old(self).contents().len() == 0
                    &&& *final(self) == *old(self)
                },
                NextFrame::Frame(n, f) => {
                    &&& old(self).contents().len() > 0
                    &&& n == old(self).front_frame()
                    &&& spec_delivered(*wait, old(self).contents()[0], Ok(f))
                    &&& final(self).front_frame() == n + 1
                    &&& exists|popped: FrameWindow<R, F, E>|
                        {
                            &&& popped.wf()
                            &&& popped.contents() == old(self).contents().drop_first()
                            &&& popped.front_frame() == n + 1
                            &&& popped.spec_next_request() == old(self).spec_next_request()
                            &&& popped.spec_stopped() == old(self).spec_stopped()
                            &&& popped.spec_len() == old(self).spec_len()
                            &&& popped.spec_prefetch() == old(self).spec_prefetch()
                            &&& popped.spec_backlog() == old(self).spec_backlog()
                            &&& #[trigger] spec_refilled(popped, *final(self), *poll, *issue)
                        }
                },
                NextFrame::Failed(e, pending) => {
                    &&& old(self).contents().len() > 0
                    &&& spec_delivered(*wait, old(self).contents()[0], Err(e))
                    &&& pending@ == rendering_requests(old(self).contents().drop_first())
                    &&& final(self).spec_stopped()
                    &&& final(self).contents() == Seq::<Slot<R, F, E>>::empty()
                    &&& final(self).front_frame() == old(self).spec_next_request()
                    &&& final(self).spec_next_request() == old(self).spec_next_request()
                    &&& final(self).spec_len() == old(self).spec_len()
                    &&& final(self).spec_prefetch() == old(self).spec_prefetch()
                    &&& final(self).spec_backlog() == old(self).spec_backlog()
                },
            },
    {
        if self.window.len() == 0 {
            return NextFrame::Exhausted;
        }
        let ghost b = *self;
        let (slot, n) = match self.pop_front() {
            Some(p) => p,
            None => return NextFrame::Exhausted,
        };
        let result = match slot {
            Slot::Rendering(request) => wait(request),
            Slot::Done(d) => d,
        };
        match result {
            Ok(f) => {
                let ghost popped = *self;
                proof {
                    if b.failure_pending() && popped.spec_stopped() {
                        let i = choose|i: int|
                            0 <= i < b.contents().len() && ((#[trigger] b.contents()[i]) matches Slot::Done(Err(_)));
                        assert(i != 0);
                        assert(popped.contents()[i - 1] == b.contents()[i]);
                    }
                }
                self.refill(poll, issue);
                assert(spec_refilled(popped, *self, *poll, *issue));
                NextFrame::Frame(n, f)
            },
            Err(e) => {
                let pending = self.fail();
                NextFrame::Failed(e, pending)
            },
        }
    }
}

/// What one call of `next` handed out, as far as the order goes: the frame
/// with its number, the failure of the frame with its number, or the end.
pub enum Delivery {
    Frame(int),
    Failure(int),
    End,
}

/// The delivery a result of `next` stands for; `front` is the number of the
/// frame at the front of the window before the call.
pub open spec fn delivery_of<R, F, E>(r: NextFrame<R, F, E>, front: int) -> Delivery {
    match r {
        NextFrame::Frame(n, _) => Delivery::Frame(n as int),
        NextFrame::Failed(_, _) => Delivery::Failure(front),
        NextFrame::Exhausted => Delivery::End,
    }
}

/// How one call of `next` moves a window from `before` to `after` while
/// delivering `d`: the end leaves an empty window as it is; a frame is the
/// front one and moves the front on, keeping the iteration under way; a
/// failure is the front frame and ends the iteration.
pub open spec fn spec_step<R, F, E>(
    before: FrameWindow<R, F, E>,
    after: FrameWindow<R, F, E>,
    d: Delivery,
) -> bool {
    &&& after.wf()
    &&& after.spec_len() == before.spec_len()
    &&& match d {
        Delivery::End => before.contents().len() == 0 && after == before,
        Delivery::Frame(n) => {
            &&& before.contents().len() > 0
            &&& n == before.front_frame()
            &&& after.front_frame() == n + 1
            &&& before.running() ==> after.running()
        },
        Delivery::Failure(n) => {
            &&& before.contents().len() > 0
            &&& n == before.front_frame()
            &&& after.finished()
        },
    }
}

/// The state of a run of `next` calls after its first `k` deliveries: while
/// all were frames, the iteration is under way at frame `k`; after anything
/// else, the window is empty.
proof fn lemma_run_prefix<R, F, E>(ws: Seq<FrameWindow<R, F, E>>, ds: Seq<Delivery>, k: int)
    requires
        ws.len() == ds.len() + 1,
        ws[0].running(),
        ws[0].front_frame() == 0,
        forall|j: int| 0 <= j < ds.len() ==> spec_step(#[trigger] ws[j], ws[j + 1], ds[j]),
        0 <= k <= ds.len(),
    ensures
        (forall|j: int| 0 <= j < k ==> #[trigger] ds[j] is Frame) ==> ws[k].running()
            && ws[k].front_frame() == k,
        !(forall|j: int| 0 <= j < k ==> #[trigger] ds[j] is Frame) ==> ws[k].wf()
            && ws[k].contents().len() == 0,
        ws[k].spec_len() == ws[0].spec_len(),
    decreases k,
{
    if k > 0 {
        lemma_run_prefix(ws, ds, k - 1);
        assert(spec_step(ws[k - 1], ws[k], ds[k - 1]));
        if !(forall|j: int| 0 <= j < k - 1 ==> #[trigger] ds[j] is Frame) {
            assert(!(forall|j: int| 0 <= j < k ==> #[trigger] ds[j] is Frame));
        } else if ds[k - 1] is Frame {
            assert(forall|j: int| 0 <= j < k ==> #[trigger] ds[j] is Frame);
        } else {
            assert(!(forall|j: int| 0 <= j < k ==> #[trigger] ds[j] is Frame));
        }
    }
}

/// A whole run of a frame iterator: starting from a window under way at
/// frame 0, successive calls of `next` hand out frames 0, 1, 2, ... in
/// order; a failure comes in the place of its frame, after all frames
/// before it; after a failure or the end, every later call ends; and the
/// iteration ends without a failure only after every frame of the clip.
pub proof fn iteration_delivers_frames_in_order<R, F, E>(
    ws: Seq<FrameWindow<R, F, E>>,
    ds: Seq<Delivery>,
)
    requires
        ws.len() == ds.len() + 1,
        ws[0].running(),
        ws[0].front_frame() == 0,
        forall|k: int| 0 <= k < ds.len() ==> spec_step(#[trigger] ws[k], ws[k + 1], ds[k]),
    ensures
        forall|k: int|
            0 <= k < ds.len() && (#[trigger] ds[k] is Frame) ==> ds[k]->Frame_0 == k && forall|j: int|
                0 <= j < k ==> #[trigger] ds[j] is Frame,
        forall|k: int|
            0 <= k < ds.len() && (#[trigger] ds[k] is Failure) ==> ds[k]->Failure_0 == k && forall|j: int|
                0 <= j < k ==> #[trigger] ds[j] is Frame,
        forall|j: int, k: int|
            0 <= j < k < ds.len() && !(#[trigger] ds[j] is Frame) ==> #[trigger] ds[k] is End,
        forall|k: int|
            0 <= k < ds.len() && (#[trigger] ds[k] is End) && (forall|j: int| 0 <= j < k ==> #[trigger] ds[j] is Frame)
                ==> k >= ws[0].spec_len(),
{
    assert forall|k: int|
        0 <= k < ds.len() && (#[trigger] ds[k] is Frame) implies ds[k]->Frame_0 == k && forall|j: int|
            0 <= j < k ==> #[trigger] ds[j] is Frame by {
        lemma_run_prefix(ws, ds, k);
        assert(spec_step(ws[k], ws[k + 1], ds[k]));
    }
    assert forall|k: int|
        0 <= k < ds.len() && (#[trigger] ds[k] is Failure) implies ds[k]->Failure_0 == k && forall|j: int|
            0 <= j < k ==> #[trigger] ds[j] is Frame by {
        lemma_run_prefix(ws, ds, k);
        assert(spec_step(ws[k], ws[k + 1], ds[k]));
    }
    assert forall|j: int, k: int|
        0 <= j < k < ds.len() && !(#[trigger] ds[j] is Frame) implies #[trigger] ds[k] is End by {
        lemma_run_prefix(ws, ds, k);
        assert(spec_step(ws[k], ws[k + 1], ds[k]));
    }
    assert forall|k: int|
        0 <= k < ds.len() && (#[trigger] ds[k] is End) && (forall|j: int| 0 <= j < k ==> #[trigger] ds[j] is Frame)
            implies k >= ws[0].spec_len() by {
        lemma_run_prefix(ws, ds, k);
        assert(spec_step(ws[k], ws[k + 1], ds[k]));
        let w = ws[k];
        assert(!w.spec_stopped());
        exhausted_only_after_last_frame(&w);
    }
}

/// Whether `after` is what refilling makes of `before`. A stopped window is
/// left alone. Otherwise every rendering slot is polled once, in place; a
/// failure among the results stops requesting; then the next frames are
/// requested in order, each from `issue` with its frame number, at the back
/// of the window, until no further request may be issued.
pub open spec fn spec_refilled<R, F, E, P: Fn(R) -> Slot<R, F, E>, I: Fn(i32) -> R>(
    before: FrameWindow<R, F, E>,
    after: FrameWindow<R, F, E>,
    poll: P,
    issue: I,
) -> bool {
    if before.spec_stopped() {
        after == before
    } else {
        let k = before.contents().len();
        &&& after.contents().len() >= k
        &&& forall|i: int|
            0 <= i < k ==> spec_polled(poll, before.contents()[i], #[trigger] after.contents()[i])
        &&& forall|i: int|
            k <= i < after.contents().len() ==> {
                &&& after.contents()[i] is Rendering
                &&& issue.ensures(
                    ((before.front_frame() + i) as i32,),
                    (#[trigger] after.contents()[i])->Rendering_0,
                )
            }
        &&& after.spec_stopped() == exists|i: int|
            0 <= i < k && before.contents()[i] is Rendering && ((#[trigger] after.contents()[i]) matches Slot::Done(Err(_)))
        &&& after.spec_stopped() ==> after.contents().len() == k
        &&& after.spec_next_request() == before.spec_next_request() + (after.contents().len() - k)
        &&& after.front_frame() == before.front_frame()
        &&& after.spec_len() == before.spec_len()
        &&& after.spec_prefetch() == before.spec_prefetch()
        &&& after.spec_backlog() == before.spec_backlog()
        &&& !after.spec_can_issue()
    }
}

/// However an iterator's window came to be settled, if it is empty and has
/// not stopped, every frame of the clip was requested and handed out: the
/// iterator ends only after the last frame.
pub proof fn exhausted_only_after_last_frame<R, F, E>(w: &FrameWindow<R, F, E>)
    requires
        w.settled(),
        !w.spec_stopped(),
        w.contents().len() == 0,
    ensures
        w.front_frame() == w.spec_next_request(),
        w.front_frame() >= w.spec_len(),
{
    assert(w.slots() =~= Seq::<SlotStatus>::empty());
}

/// The concurrency limit an iterator uses: the requested `prefetch` when it is
/// positive, else the core's thread count (at least one).
pub open spec fn spec_prefetch_limit(prefetch: Option<i32>, num_threads: i32) -> int {
    match prefetch {
        Some(p) if p > 0 => p as int,
        _ => if num_threads > 1 { num_threads as int } else { 1 },
    }
}

/// The buffering limit an iterator uses: the requested `backlog` when it is
/// not negative, raised to at least the concurrency limit; else three times
/// the concurrency limit.
pub open spec fn spec_backlog_limit(backlog: Option<i32>, prefetch_limit: int) -> int {
    match backlog {
        Some(b) if b >= 0 => if b >= prefetch_limit { b as int } else { prefetch_limit },
        _ => prefetch_limit * 3,
    }
}

/// Resolves the `prefetch` and `backlog` arguments of a frame iterator
/// against the core's thread count.
pub fn iter_limits(prefetch: Option<i32>, backlog: Option<i32>, num_threads: i32) -> (r: (
    usize,
    usize,
))
    requires
        !(backlog matches Some(b) && b >= 0) ==> spec_prefetch_limit(prefetch, num_threads) * 3
            <= usize::MAX,
    ensures
        r.0 == spec_prefetch_limit(prefetch, num_threads),
        r.1 == spec_backlog_limit(backlog, r.0 as int),
        1 <= r.0 <= r.1,
{
    let p: usize = match prefetch {
        Some(p) if p > 0 => p as usize,
        _ => if num_threads > 1 {
            num_threads as usize
        } else {
            1
        },
    };
    let b: usize = match backlog {
        Some(b) if b >= 0 => if b as usize >= p {
            b as usize
        } else {
            p
        },
        _ => p * 3,
    };
    (p, b)
}

/// The limits honour what was asked: a positive `prefetch` is the
/// concurrency limit whatever the thread count, and otherwise the limit is
/// the thread count, at least one; a non-negative `backlog` is the buffering
/// limit unless it is below the concurrency limit, which it is then raised
/// to, and otherwise the buffering limit is three times the concurrency
/// limit.
pub proof fn limits_honour_requests(prefetch: Option<i32>, backlog: Option<i32>, num_threads: i32)
    ensures
        forall|p: i32| p > 0 && prefetch == Some(p) ==> spec_prefetch_limit(prefetch, num_threads) == p,
        !(prefetch matches Some(p) && p > 0) ==> spec_prefetch_limit(prefetch, num_threads) == if num_threads >= 1 {
            num_threads as int
        } else {
            1
        },
        spec_prefetch_limit(prefetch, num_threads) >= 1,
        forall|b: i32, limit: int|
            b >= 0 && backlog == Some(b) && limit >= 1 ==> spec_backlog_limit(backlog, limit) >= b
                && spec_backlog_limit(backlog, limit) >= limit && (spec_backlog_limit(backlog, limit) == b
                || spec_backlog_limit(backlog, limit) == limit),
        forall|limit: int|
            !(backlog matches Some(b) && b >= 0) ==> spec_backlog_limit(backlog, limit) == 3 * limit,
{
}

/// However the schedule got to its state, it keeps at most `prefetch` frames
/// rendering, at most `backlog` frames buffered, and never requests a frame
/// past the end of the clip.
pub proof fn window_respects_limits<R, F, E>(s: &FrameWindow<R, F, E>)
    requires
        s.wf(),
    ensures
        rendering_count(s.slots()) <= s.spec_prefetch(),
        s.slots().len() <= s.spec_backlog(),
        s.spec_next_request() == 0 || s.spec_next_request() <= s.spec_len(),
        s.front_frame() + s.contents().len() == s.spec_next_request(),
        0 <= s.front_frame(),
{
}

/// A stopped window may issue no request: once refilling has met a failed
/// frame, no request is added, in that call or any later one.
pub proof fn stopped_window_requests_nothing<R, F, E>(s: &FrameWindow<R, F, E>)
    requires
        s.spec_stopped(),
    ensures
        !s.spec_can_issue(),
{
}

} // verus!
