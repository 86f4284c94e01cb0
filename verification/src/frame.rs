//! Per-frame scheduling: the completion token that chains GPU work across
//! frames, and the scheduler that consumes and replaces it once per frame.

use vstd::prelude::*;
use crate::app::AppError;
use crate::framebuffer::FramebufferFactory;
use crate::render_state::{AcquireResult, RenderState};
use crate::surface::Extent2D;
use crate::swapchain::SwapchainFactory;

verus! {

/// What the presentation engine answered when the next presentable image was
/// requested: which image of the chain to render into, and whether the chain,
/// while still usable, no longer matches the surface exactly.
#[derive(Clone, Copy, Debug, PartialEq, Eq, Structural)]
pub struct AcquireOutcome {
    pub image_index: usize,
    pub suboptimal: bool,
}

/// Why acquiring the next presentable image failed.
#[derive(Clone, Copy, Debug, PartialEq, Eq, Structural)]
pub enum AcquireError {
    /// The chain no longer matches the surface and must be recreated before
    /// any image can be acquired. Recoverable: skip this frame, recreate, retry.
    OutOfDate,
    /// The engine answered with an image index beyond the chain it reported
    /// earlier. A contract violation, fatal.
    ImageOutOfRange,
    /// Any other engine failure (timeout, device lost). Fatal.
    Failed,
}

/// How submitting and presenting one frame ended.
#[derive(Clone, Copy, Debug, PartialEq, Eq, Structural)]
pub enum SubmitOutcome {
    /// The frame's commands were submitted and its presentation enqueued; the
    /// new completion token stands for the fence chained after them.
    Success,
    /// The presentation engine reported the chain out of date while flushing.
    /// Recoverable: the chain is recreated before the next frame; the new
    /// completion token falls back to an already-satisfied placeholder.
    OutOfDate,
    /// Any other submission failure. The frame is dropped and the token falls
    /// back to an already-satisfied placeholder, so the loop keeps going.
    Failed,
}

/// The "previous frame end" token: it stands for "the GPU has finished all
/// work submitted through the last successfully presented frame, or no work
/// has been submitted yet". It is deliberately neither `Clone` nor `Copy`:
/// each frame consumes the previous token by move and produces a new one, so
/// no frame can ever be gated on a stale copy.
#[derive(Debug, PartialEq, Eq, Structural)]
pub struct CompletionToken {
    /// The frame whose completion this token stands for; 0 before any frame
    /// has been submitted.
    pub serial: u64,
    /// True when the token was born already satisfied: the initial token, and
    /// the placeholder installed when a submission did not produce a fence
    /// chain. False when the token is gated on frame `serial`'s fence.
    pub already_satisfied: bool,
}

/// The per-frame operations a host implements against its device, queue and
/// surface. The host keeps the real synchronization objects (the acquire
/// future of the last acquired image, the GPU future chain of the previous
/// frame) on its side, in lockstep with the tokens the scheduler hands it.
pub trait FrameQueue {
    /// The surface extent as the window system currently reports it.
    fn surface_extent(&mut self) -> Extent2D;

    /// Ask the presentation engine for the next presentable image.
    fn acquire_next_image(&mut self) -> Result<AcquireOutcome, AcquireError>;

    /// Submit the frame's draw commands gated on both `previous` (all work of
    /// the previous frame done) and the acquired image's ready signal, chain
    /// a present request of image `image_index` after the submission and a
    /// fence after the presentation, and report how that ended. Takes the
    /// previous frame's token by move: it is spent here and never reused.
    fn submit_and_present(&mut self, previous: CompletionToken, image_index: usize)
        -> SubmitOutcome;

    /// Block until every piece of GPU work submitted so far has completed.
    /// `token` is the last frame's completion token, consumed by this one
    /// final blocking wait; after the call nothing submitted through the
    /// scheduler is still in flight, so resources may be torn down.
    fn wait_for(&mut self, token: CompletionToken);
}

/// The token produced for the frame after `prev_serial` frames, given how its
/// submission ended.
pub open spec fn spec_next_token(prev_serial: u64, outcome: SubmitOutcome) -> CompletionToken {
    CompletionToken {
        serial: (prev_serial + 1) as u64,
        already_satisfied: !(outcome is Success),
    }
}

/// Owns the "previous frame end" slot. The slot always holds exactly one
/// token between frames; within one `submit_frame` step the token is taken
/// out, spent on the submission, and the slot refilled with the new frame's
/// token — the slot is never left empty across a step.
#[derive(Debug, PartialEq, Eq, Structural)]
pub struct FrameScheduler {
    pub previous_frame_end: Option<CompletionToken>,
    pub frames_submitted: u64,
}

/// The scheduler state after one more frame whose submission ended in
/// `outcome`.
pub open spec fn spec_after_frame(s: FrameScheduler, outcome: SubmitOutcome) -> FrameScheduler {
    FrameScheduler {
        previous_frame_end: Some(spec_next_token(s.frames_submitted, outcome)),
        frames_submitted: (s.frames_submitted + 1) as u64,
    }
}

impl FrameScheduler {
    /// The slot holds exactly the token the last submitted frame produced
    /// (the already-satisfied serial-0 token before any frame).
    pub open spec fn wf(&self) -> bool {
        &&& self.previous_frame_end matches Some(t) && t.serial == self.frames_submitted
    }

    /// A fresh scheduler: no frame submitted yet, the slot holds the
    /// already-satisfied initial token.
    pub fn new() -> (s: FrameScheduler)
        ensures
            s == (FrameScheduler {
                previous_frame_end: Some(CompletionToken { serial: 0, already_satisfied: true }),
                frames_submitted: 0,
            }),
            s.wf(),
    {
        FrameScheduler {
            previous_frame_end: Some(CompletionToken { serial: 0, already_satisfied: true }),
            frames_submitted: 0,
        }
    }

    /// Submit one frame: take the previous frame's token out of the slot,
    /// spend it on the submission, and refill the slot with the new frame's
    /// token — a fence-chain token on success, an already-satisfied
    /// placeholder otherwise, so the next frame always has a synchronization
    /// anchor whatever happened.
    pub fn submit_frame<Q: FrameQueue>(&mut self, queue: &mut Q, image_index: usize) -> (r:
        SubmitOutcome)
        requires
            old(self).wf(),
            old(self).frames_submitted < u64::MAX,
        ensures
            *final(self) == spec_after_frame(*old(self), r),
            final(self).wf(),
    {
        let previous = self.previous_frame_end.take().unwrap();
        let outcome = queue.submit_and_present(previous, image_index);
        let serial: u64 = self.frames_submitted + 1;
        self.frames_submitted = serial;
        self.previous_frame_end = Some(
            CompletionToken {
                serial,
                already_satisfied: !matches!(outcome, SubmitOutcome::Success),
            },
        );
        outcome
    }

    /// Hard shutdown: consume the pending completion token in one blocking
    /// wait on the queue, so that nothing submitted so far is still in
    /// flight, and leave an already-satisfied token of the same serial in
    /// the slot — drained means everything is complete.
    pub fn drain<Q: FrameQueue>(&mut self, queue: &mut Q)
        requires
            old(self).wf(),
        ensures
            *final(self) == (FrameScheduler {
                previous_frame_end: Some(
                    CompletionToken {
                        serial: old(self).frames_submitted,
                        already_satisfied: true,
                    },
                ),
                frames_submitted: old(self).frames_submitted,
            }),
            final(self).wf(),
    {
        let token = self.previous_frame_end.take().unwrap();
        queue.wait_for(token);
        self.previous_frame_end = Some(
            CompletionToken { serial: self.frames_submitted, already_satisfied: true },
        );
    }
}

/// What a redraw round does next once a pending recreation has ended.
#[derive(Clone, Copy, Debug, PartialEq, Eq, Structural)]
pub enum RecreateStep {
    /// The chain is valid again: go on and render this frame.
    Render,
    /// The surface is degenerate: skip this frame non-fatally, keep the last
    /// valid chain, and stay pending for the next resize.
    Skip,
}

/// The round's decision on the result of a pending recreation: success means
/// render, the one non-fatal failure (degenerate surface) means skip the
/// frame, and every other failure is the round's error.
pub open spec fn spec_recreate_step(result: Result<(), AppError>) -> Result<
    RecreateStep,
    AppError,
> {
    match result {
        Ok(()) => Ok(RecreateStep::Render),
        Err(e) => if e.spec_is_non_fatal() {
            Ok(RecreateStep::Skip)
        } else {
            Err(e)
        },
    }
}

/// Decide what the round does with a recreation's result; exactly
/// [`spec_recreate_step`].
pub fn recreate_step(result: Result<(), AppError>) -> (r: Result<RecreateStep, AppError>)
    ensures
        r == spec_recreate_step(result),
{
    match result {
        Ok(()) => Ok(RecreateStep::Render),
        Err(e) => {
            if e.is_non_fatal() {
                Ok(RecreateStep::Skip)
            } else {
                Err(e)
            }
        },
    }
}

/// What a redraw round does next with the engine's acquisition answer.
#[derive(Clone, Copy, Debug, PartialEq, Eq, Structural)]
pub enum AcquireStep {
    /// An image was acquired: render into it.
    Render(AcquireResult),
    /// The chain is out of date: skip this frame and schedule exactly one
    /// recreation for the next redraw.
    Skip,
}

/// The round's decision on an acquisition answer: a success is rendered, an
/// out-of-date answer skips the frame recoverably, and every other failure
/// is the round's error.
pub open spec fn spec_acquire_step(answer: Result<AcquireResult, AcquireError>) -> Result<
    AcquireStep,
    AppError,
> {
    match answer {
        Ok(acquired) => Ok(AcquireStep::Render(acquired)),
        Err(AcquireError::OutOfDate) => Ok(AcquireStep::Skip),
        Err(e) => Err(AppError::Acquire(e)),
    }
}

/// Decide what the round does with an acquisition answer; exactly
/// [`spec_acquire_step`].
pub fn acquire_step(answer: Result<AcquireResult, AcquireError>) -> (r: Result<
    AcquireStep,
    AppError,
>)
    ensures
        r == spec_acquire_step(answer),
{
    match answer {
        Ok(acquired) => Ok(AcquireStep::Render(acquired)),
        Err(AcquireError::OutOfDate) => Ok(AcquireStep::Skip),
        Err(e) => Err(AppError::Acquire(e)),
    }
}

/// Whether recreation is pending after a submitted frame: when the acquired
/// image was suboptimal (the frame is still presented; recreation waits for
/// the frame boundary), or when presentation reported the chain out of date.
pub open spec fn spec_pending_after_submit(suboptimal: bool, outcome: SubmitOutcome) -> bool {
    suboptimal || outcome is OutOfDate
}

/// Decide whether recreation is pending after a submitted frame; exactly
/// [`spec_pending_after_submit`].
pub fn pending_after_submit(suboptimal: bool, outcome: SubmitOutcome) -> (r: bool)
    ensures
        r == spec_pending_after_submit(suboptimal, outcome),
{
    suboptimal || matches!(outcome, SubmitOutcome::OutOfDate)
}

/// How one redraw round ended when it did not fail outright.
#[derive(Clone, Copy, Debug, PartialEq, Eq, Structural)]
pub enum RedrawOutcome {
    /// A frame was acquired, submitted and queued for presentation, ending as
    /// the wrapped outcome says. Even a failed submission is not fatal: the
    /// frame is dropped and the loop keeps its synchronization anchor.
    Submitted(SubmitOutcome),
    /// The surface is degenerate (minimized window); the frame was skipped,
    /// the last valid chain is kept, and recreation stays pending.
    SkippedDegenerate,
    /// Acquisition reported the chain out of date; the frame was skipped and
    /// exactly one recreation is pending for the next redraw.
    SkippedOutOfDate,
}

/// Drives one window's frames: owns the render state, the frame scheduler and
/// the recreation flag, and decides on each redraw whether to recreate the
/// chain, whether a skipped frame is recoverable, and when the next
/// recreation becomes pending. Like the completion token it owns, the driver
/// is not `Clone`: there is exactly one per window.
#[derive(Debug)]
pub struct FrameDriver {
    pub render_state: RenderState,
    pub scheduler: FrameScheduler,
    /// Set by a resize, an out-of-date report or a suboptimal acquisition;
    /// cleared by the successful recreation at the start of the next redraw.
    pub recreate_pending: bool,
}

impl FrameDriver {
    pub open spec fn wf(&self) -> bool {
        &&& self.render_state.wf()
        &&& self.scheduler.wf()
    }

    pub fn new(render_state: RenderState) -> (d: FrameDriver)
        requires
            render_state.wf(),
        ensures
            d.wf(),
            d.render_state == render_state,
            d.scheduler == (FrameScheduler {
                previous_frame_end: Some(CompletionToken { serial: 0, already_satisfied: true }),
                frames_submitted: 0,
            }),
            !d.recreate_pending,
    {
        FrameDriver { render_state, scheduler: FrameScheduler::new(), recreate_pending: false }
    }

    /// A resize never takes effect mid-frame: it only marks the chain for
    /// recreation at the start of the next redraw.
    pub fn on_window_resize(&mut self, _width: u32, _height: u32)
        ensures
            *final(self) == (FrameDriver { recreate_pending: true, ..*old(self) }),
    {
        self.recreate_pending = true;
    }

    /// One redraw round: recreate the chain first if a recreation is pending
    /// (a degenerate surface skips the frame non-fatally and keeps the last
    /// valid chain), then acquire the next image (an out-of-date answer skips
    /// the frame and schedules exactly one recreation), then submit and
    /// present the frame, always leaving a completion token for the next
    /// frame. Only recreation and acquisition failures beyond those transient
    /// cases are returned as errors; nothing is submitted then, and the
    /// scheduler keeps the token it had. What the round does with each
    /// possible answer is fixed per value by [`recreate_step`],
    /// [`acquire_step`] and [`pending_after_submit`], through which the
    /// answers flow.
    pub fn on_redraw<E: SwapchainFactory + FramebufferFactory + FrameQueue>(
        &mut self,
        engine: &mut E,
    ) -> (r: Result<RedrawOutcome, AppError>)
        requires
            old(self).wf(),
            old(self).scheduler.frames_submitted < u64::MAX,
        ensures
            final(self).wf(),
            final(self).scheduler.previous_frame_end is Some,
            !old(self).recreate_pending ==> final(self).render_state == old(self).render_state,
            r matches Err(e) ==> !e.spec_is_non_fatal(),
            r is Err ==> final(self).scheduler == old(self).scheduler,
            r == Ok::<RedrawOutcome, AppError>(RedrawOutcome::SkippedDegenerate) ==> {
                &&& final(self).scheduler == old(self).scheduler
                &&& final(self).render_state == old(self).render_state
                &&& final(self).recreate_pending
                &&& old(self).recreate_pending
            },
            r == Ok::<RedrawOutcome, AppError>(RedrawOutcome::SkippedOutOfDate) ==> {
                &&& final(self).scheduler == old(self).scheduler
                &&& final(self).recreate_pending
            },
            r matches Ok(RedrawOutcome::Submitted(o)) ==> {
                &&& final(self).scheduler == spec_after_frame(old(self).scheduler, o)
                &&& (o is OutOfDate ==> final(self).recreate_pending)
            },
    {
        if self.recreate_pending {
            let extent = engine.surface_extent();
            let recreated = self.render_state.recreate(engine, extent);
            match recreate_step(recreated) {
                Ok(RecreateStep::Render) => {
                    self.recreate_pending = false;
                },
                Ok(RecreateStep::Skip) => {
                    return Ok(RedrawOutcome::SkippedDegenerate);
                },
                Err(e) => {
                    return Err(e);
                },
            }
        }
        let answer = self.render_state.acquire_next_image(engine);
        let acquired = match acquire_step(answer) {
            Ok(AcquireStep::Render(acquired)) => acquired,
            Ok(AcquireStep::Skip) => {
                self.recreate_pending = true;
                return Ok(RedrawOutcome::SkippedOutOfDate);
            },
            Err(e) => {
                return Err(e);
            },
        };
        let outcome = self.scheduler.submit_frame(engine, acquired.image_index);
        self.recreate_pending = pending_after_submit(acquired.suboptimal, outcome);
        Ok(RedrawOutcome::Submitted(outcome))
    }

    /// Closing the window: the loop may only be left once nothing the GPU
    /// still references can be destroyed under it, so the driver drains all
    /// in-flight work through the scheduler's final blocking wait. The
    /// render state is kept; teardown order is the host's, once the drain
    /// has returned.
    pub fn on_close<Q: FrameQueue>(&mut self, queue: &mut Q)
        requires
            old(self).wf(),
        ensures
            final(self).wf(),
            final(self).render_state == old(self).render_state,
            final(self).recreate_pending == old(self).recreate_pending,
            final(self).scheduler == (FrameScheduler {
                previous_frame_end: Some(
                    CompletionToken {
                        serial: old(self).scheduler.frames_submitted,
                        already_satisfied: true,
                    },
                ),
                frames_submitted: old(self).scheduler.frames_submitted,
            }),
    {
        self.scheduler.drain(queue);
    }
}

/// The scheduler state after a whole run of frames with the given submission
/// outcomes, first outcome first.
pub open spec fn spec_run_frames(s: FrameScheduler, outcomes: Seq<SubmitOutcome>) -> FrameScheduler
    decreases outcomes.len(),
{
    if outcomes.len() == 0 {
        s
    } else {
        spec_run_frames(spec_after_frame(s, outcomes[0]), outcomes.drop_first())
    }
}

/// Running the frames of `outcomes` and then one more frame is the same as
/// one step after the whole run.
pub proof fn lemma_run_frames_snoc(s: FrameScheduler, outcomes: Seq<SubmitOutcome>, last: SubmitOutcome)
    ensures
        spec_run_frames(s, outcomes.push(last)) == spec_after_frame(
            spec_run_frames(s, outcomes),
            last,
        ),
    decreases outcomes.len(),
{
    if outcomes.len() == 0 {
        assert(outcomes.push(last).drop_first() =~= outcomes);
        assert(outcomes.push(last)[0] == last);
        assert(spec_run_frames(s, outcomes) == s);
        assert(spec_run_frames(s, outcomes.push(last)) == spec_run_frames(
            spec_after_frame(s, last),
            outcomes,
        ));
    } else {
        assert(outcomes.push(last).drop_first() =~= outcomes.drop_first().push(last));
        assert(outcomes.push(last)[0] == outcomes[0]);
        lemma_run_frames_snoc(spec_after_frame(s, outcomes[0]), outcomes.drop_first(), last);
        assert(spec_run_frames(s, outcomes.push(last)) == spec_run_frames(
            spec_after_frame(s, outcomes[0]),
            outcomes.drop_first().push(last),
        ));
        assert(spec_run_frames(s, outcomes) == spec_run_frames(
            spec_after_frame(s, outcomes[0]),
            outcomes.drop_first(),
        ));
    }
}

/// Completion-token continuity. Starting from a well-formed scheduler, across
/// any run of frames the slot always holds exactly one token; after `k + 1`
/// frames it holds the token frame `k + 1`'s submission produced, whose
/// serial continues the previous token's serial by one — so the token each
/// frame consumes is exactly the token the frame before it produced, never a
/// stale or duplicate one, and no frame starts with an empty slot.
pub proof fn lemma_token_continuity(s: FrameScheduler, outcomes: Seq<SubmitOutcome>)
    requires
        s.wf(),
        s.frames_submitted + outcomes.len() <= u64::MAX,
    ensures
        spec_run_frames(s, outcomes).wf(),
        spec_run_frames(s, outcomes).frames_submitted == s.frames_submitted + outcomes.len(),
        forall|k: int|
            0 <= k < outcomes.len() ==> #[trigger] spec_run_frames(s, outcomes.take(k + 1))
                == spec_after_frame(spec_run_frames(s, outcomes.take(k)), outcomes[k]),
    decreases outcomes.len(),
{
    if outcomes.len() == 0 {
    } else {
        let butlast = outcomes.drop_last();
        lemma_token_continuity(s, butlast);
        lemma_run_frames_snoc(s, butlast, outcomes.last());
        assert(butlast.push(outcomes.last()) =~= outcomes);
        assert forall|k: int| 0 <= k < outcomes.len() implies #[trigger] spec_run_frames(
            s,
            outcomes.take(k + 1),
        ) == spec_after_frame(spec_run_frames(s, outcomes.take(k)), outcomes[k]) by {
            if k < outcomes.len() - 1 {
                assert(outcomes.take(k + 1) =~= butlast.take(k + 1));
                assert(outcomes.take(k) =~= butlast.take(k));
                assert(outcomes[k] == butlast[k]);
            } else {
                assert(outcomes.take(k + 1) =~= outcomes);
                assert(outcomes.take(k) =~= butlast);
            }
        }
    }
}

} // verus!
