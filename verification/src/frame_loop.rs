//! The per-frame protocol: collect garbage, rebuild the chain of images if
//! needed, acquire an image, record, submit and present.
//!
//! The protocol is a state machine. Whoever drives it hands in one event at a
//! time, a signal from the window or the outcome of the action it performed
//! last, and is told what to do next.

use vstd::prelude::*;
use crate::commands::CommandBufferUsage;
use crate::surface::{Extent, SwapchainConfig};
use crate::swapchain::{
    images_fit,
    RecreateOutcome,
    RecreateStatus,
    SwapchainImage,
    SwapchainManager,
    SwapchainState,
    Viewport,
};

verus! {

/// Whether the chain of images still matches the window.
#[derive(Clone, Copy, Debug, PartialEq, Eq, Structural)]
pub enum RebuildFlag {
    Stable,
    NeedsRebuild,
}

/// Stands for a unit of submitted work: signals when that work has finished.
#[derive(Clone, Copy, Debug, PartialEq, Eq, Structural)]
pub enum CompletionToken {
    /// Stands for no work at all; it is satisfied from the start.
    AlreadySatisfied,
    /// Stands for the frame that was submitted last.
    FrameSubmitted,
}

/// Where in the course of a frame the loop is.
#[derive(Clone, Copy, Debug, PartialEq, Eq, Structural)]
pub enum Phase {
    /// Between frames, waiting for the window's next signal.
    Idle,
    /// Finished work of the previous frame is being collected. `window_extent`
    /// is the size of the window as the frame began.
    Collecting { window_extent: Extent },
    /// A rebuild of the chain with `extent` was requested.
    Rebuilding { extent: Extent },
    /// The next presentable image was asked for.
    Acquiring,
    /// The commands of the frame are being recorded for the image at
    /// `image_index`.
    Recording { image_index: usize },
    /// The frame was submitted and its presentation requested.
    Submitted { image_index: usize },
}

/// What came of asking for the next presentable image.
#[derive(Clone, Copy, Debug, PartialEq, Eq, Structural)]
pub enum AcquireOutcome {
    /// The image at `image_index` is ours. `suboptimal` tells that the chain
    /// still works but no longer matches the surface well.
    Acquired { image_index: usize, suboptimal: bool },
    /// The chain no longer matches the surface; no image was handed out.
    OutOfDate,
    /// Any other failure.
    Failed,
}

/// What came of submitting the frame and requesting its presentation.
#[derive(Clone, Copy, Debug, PartialEq, Eq, Structural)]
pub enum FlushOutcome {
    /// The work is on its way.
    Flushed,
    /// The chain no longer matches the surface.
    OutOfDate,
    /// Any other failure.
    Failed,
}

/// What the loop is told: a signal from the window, or the outcome of the
/// action that it asked for last.
#[derive(Debug)]
pub enum Event {
    /// The window is to be closed.
    CloseRequested,
    /// The window changed its size.
    Resized,
    /// It is time to draw a frame; the window now has this size.
    RedrawRequested { window_extent: Extent },
    /// `Action::CollectGarbage` was carried out.
    GarbageCollected,
    /// The answer to `Action::RecreateSwapchain`.
    SwapchainRecreated(RecreateOutcome),
    /// The answer to `Action::AcquireImage`.
    ImageAcquired(AcquireOutcome),
    /// `Action::Record` was carried out.
    CommandsRecorded,
    /// The answer to `Action::Submit`.
    FrameFlushed(FlushOutcome),
}

/// A failure that ends the program.
#[derive(Clone, Copy, Debug, PartialEq, Eq, Structural)]
pub enum Fatal {
    /// The chain could not be rebuilt, for another reason than an extent that
    /// is not supported right now.
    SwapchainRecreation,
    /// No image could be acquired, for another reason than a chain that is
    /// out of date.
    ImageAcquisition,
    /// The acquired image is none of the chain's.
    ImageOutOfRange,
}

/// What the loop asks for in answer to an event.
#[derive(Clone, Copy, Debug, PartialEq, Eq)]
pub enum Action {
    /// Nothing; wait for the window's next signal.
    Nothing,
    /// Leave the loop.
    Exit,
    /// Release what finished work of the previous frame still holds, without
    /// waiting for work that has not finished.
    CollectGarbage,
    /// Rebuild the chain of images with these parameters.
    RecreateSwapchain(SwapchainConfig),
    /// Acquire the next presentable image, waiting for it `timeout`
    /// nanoseconds at most; without a timeout, however long it takes.
    AcquireImage { timeout: Option<u64> },
    /// Record the commands of the frame, `commands::record_frame(framebuffer,
    /// viewport)`, to be submitted as `usage` says.
    Record { usage: CommandBufferUsage, framebuffer: usize, viewport: Viewport },
    /// Submit the recorded commands after both `wait_for` and the acquisition
    /// of the image have completed, then present the image at `image_index`
    /// and ask for a completion token of it all.
    Submit { wait_for: CompletionToken, image_index: usize },
    /// Note that the frame could not be submitted or presented, and go on.
    ReportFlushFailure,
    /// Give up.
    Abort(Fatal),
}

/// The state of the loop, as mathematical values.
pub struct FrameLoopState {
    pub swapchain: SwapchainState,
    pub phase: Phase,
    pub rebuild: RebuildFlag,
    /// The completion token of the previous frame; `None` while it is handed
    /// over to the submission of the current one.
    pub previous_frame_end: Option<CompletionToken>,
}

impl FrameLoopState {
    /// The state the loop starts in.
    pub open spec fn initial(swapchain: SwapchainState) -> FrameLoopState {
        FrameLoopState {
            swapchain,
            phase: Phase::Idle,
            rebuild: RebuildFlag::Stable,
            previous_frame_end: Some(CompletionToken::AlreadySatisfied),
        }
    }

    /// What holds of the state at all times.
    pub open spec fn well_formed(self) -> bool {
        &&& self.swapchain.consistent()
        &&& self.phase is Rebuilding ==> self.rebuild is NeedsRebuild
        &&& self.phase matches Phase::Recording { image_index } ==> image_index
            < self.swapchain.framebuffers.len()
        &&& self.phase matches Phase::Submitted { image_index } ==> image_index
            < self.swapchain.framebuffers.len()
        &&& self.previous_frame_end is None <==> self.phase is Submitted
    }

    /// The state with another phase.
    pub open spec fn at(self, phase: Phase) -> FrameLoopState {
        FrameLoopState { phase, ..self }
    }

    /// The state with the rebuild of the chain flagged.
    pub open spec fn flagged(self) -> FrameLoopState {
        FrameLoopState { rebuild: RebuildFlag::NeedsRebuild, ..self }
    }

    /// The state that follows on `event`, and the action asked for. An event
    /// that does not fit the phase changes nothing and asks for nothing.
    pub open spec fn next(self, event: Event) -> (FrameLoopState, Action) {
        match event {
            Event::CloseRequested => (self, Action::Exit),
            Event::Resized => (self.flagged(), Action::Nothing),
            Event::RedrawRequested { window_extent } => match self.phase {
                Phase::Idle => (
                    self.at(Phase::Collecting { window_extent }),
                    Action::CollectGarbage,
                ),
                _ => (self, Action::Nothing),
            },
            Event::GarbageCollected => match self.phase {
                Phase::Collecting { window_extent } => if self.rebuild is NeedsRebuild {
                    (
                        self.at(Phase::Rebuilding { extent: window_extent }),
                        Action::RecreateSwapchain(self.swapchain.config.resized(window_extent)),
                    )
                } else {
                    (self.at(Phase::Acquiring), Action::AcquireImage { timeout: None })
                },
                _ => (self, Action::Nothing),
            },
            Event::SwapchainRecreated(outcome) => match self.phase {
                Phase::Rebuilding { extent } => match self.swapchain.recreated(extent, outcome).1 {
                    RecreateStatus::Rebuilt => (
                        FrameLoopState {
                            swapchain: self.swapchain.recreated(extent, outcome).0,
                            phase: Phase::Acquiring,
                            rebuild: RebuildFlag::Stable,
                            ..self
                        },
                        Action::AcquireImage { timeout: None },
                    ),
                    RecreateStatus::Retry => (self.at(Phase::Idle), Action::Nothing),
                    RecreateStatus::Fatal => (self, Action::Abort(Fatal::SwapchainRecreation)),
                },
                _ => (self, Action::Nothing),
            },
            Event::ImageAcquired(outcome) => match self.phase {
                Phase::Acquiring => match outcome {
                    AcquireOutcome::Acquired { image_index, suboptimal } => if image_index
                        < self.swapchain.framebuffers.len() {
                        (
                            (if suboptimal {
                                self.flagged()
                            } else {
                                self
                            }).at(Phase::Recording { image_index }),
                            Action::Record {
                                usage: CommandBufferUsage::OneTimeSubmit,
                                framebuffer: image_index,
                                viewport: self.swapchain.viewport,
                            },
                        )
                    } else {
                        (self, Action::Abort(Fatal::ImageOutOfRange))
                    },
                    AcquireOutcome::OutOfDate => (
                        self.flagged().at(Phase::Idle),
                        Action::Nothing,
                    ),
                    AcquireOutcome::Failed => (self, Action::Abort(Fatal::ImageAcquisition)),
                },
                _ => (self, Action::Nothing),
            },
            Event::CommandsRecorded => match (self.phase, self.previous_frame_end) {
                (Phase::Recording { image_index }, Some(token)) => (
                    FrameLoopState {
                        phase: Phase::Submitted { image_index },
                        previous_frame_end: None,
                        ..self
                    },
                    Action::Submit { wait_for: token, image_index },
                ),
                _ => (self, Action::Nothing),
            },
            Event::FrameFlushed(outcome) => match self.phase {
                Phase::Submitted { .. } => match outcome {
                    FlushOutcome::Flushed => (
                        FrameLoopState {
                            phase: Phase::Idle,
                            previous_frame_end: Some(CompletionToken::FrameSubmitted),
                            ..self
                        },
                        Action::Nothing,
                    ),
                    FlushOutcome::OutOfDate => (
                        FrameLoopState {
                            phase: Phase::Idle,
                            rebuild: RebuildFlag::NeedsRebuild,
                            previous_frame_end: Some(CompletionToken::AlreadySatisfied),
                            ..self
                        },
                        Action::Nothing,
                    ),
                    FlushOutcome::Failed => (
                        FrameLoopState {
                            phase: Phase::Idle,
                            previous_frame_end: Some(CompletionToken::AlreadySatisfied),
                            ..self
                        },
                        Action::ReportFlushFailure,
                    ),
                },
                _ => (self, Action::Nothing),
            },
        }
    }
}

impl Phase {
    /// Whether a step can lead from this phase to `later`, other than by
    /// staying where it is. A frame runs from `Idle` through `Collecting`,
    /// `Rebuilding` where the chain is to be rebuilt, `Acquiring`,
    /// `Recording` and `Submitted` back to `Idle`; it ends early, in `Idle`,
    /// when the rebuild is put off or no image is to be had.
    pub open spec fn leads_to(self, later: Phase) -> bool {
        match self {
            Phase::Idle => later is Collecting,
            Phase::Collecting { window_extent } => later == (Phase::Rebuilding {
                extent: window_extent,
            }) || later is Acquiring,
            Phase::Rebuilding { .. } => later is Acquiring || later is Idle,
            Phase::Acquiring => later is Recording || later is Idle,
            Phase::Recording { image_index } => later == (Phase::Submitted { image_index }),
            Phase::Submitted { .. } => later is Idle,
        }
    }
}

/// The state that a sequence of events leads to.
pub open spec fn state_after(state: FrameLoopState, events: Seq<Event>) -> FrameLoopState
    decreases events.len(),
{
    if events.len() == 0 {
        state
    } else {
        state_after(state, events.drop_last()).next(events.last()).0
    }
}

/// Every step keeps the state well formed.
pub proof fn lemma_next_preserves_well_formed(state: FrameLoopState, event: Event)
    requires
        state.well_formed(),
    ensures
        state.next(event).0.well_formed(),
{
}

/// After every step there are as many framebuffers as images of the chain,
/// and each framebuffer has the extent that the viewport stores.
pub proof fn lemma_framebuffers_always_match_viewport(state: FrameLoopState, event: Event)
    requires
        state.well_formed(),
    ensures
        state.swapchain.framebuffers_match_viewport(),
        state.next(event).0.swapchain.framebuffers_match_viewport(),
{
    lemma_next_preserves_well_formed(state, event);
    state.swapchain.lemma_framebuffers_match_viewport();
    state.next(event).0.swapchain.lemma_framebuffers_match_viewport();
}

/// Whatever events arrive, in whatever order, the state stays well formed:
/// there are as many framebuffers as images of the chain, each framebuffer
/// has the extent that the viewport stores, and the render pass is the one
/// the loop began with.
pub proof fn lemma_always_well_formed(state: FrameLoopState, events: Seq<Event>)
    requires
        state.well_formed(),
    ensures
        state_after(state, events).well_formed(),
        state_after(state, events).swapchain.framebuffers_match_viewport(),
        state_after(state, events).swapchain.render_pass == state.swapchain.render_pass,
    decreases events.len(),
{
    if events.len() > 0 {
        let before = state_after(state, events.drop_last());
        lemma_always_well_formed(state, events.drop_last());
        lemma_next_preserves_well_formed(before, events.last());
        lemma_render_pass_never_changes(before, events.last());
    }
    state_after(state, events).swapchain.lemma_framebuffers_match_viewport();
}

/// A step leaves the phase as it is or moves on to one that may follow it.
pub proof fn lemma_phases_follow_in_order(state: FrameLoopState, event: Event)
    requires
        state.well_formed(),
    ensures
        state.next(event).0.phase == state.phase || state.phase.leads_to(
            state.next(event).0.phase,
        ),
{
}

/// The chain of images, its framebuffers and the viewport are replaced by a
/// rebuild that succeeds and by nothing else; and nothing else takes the
/// rebuild flag back.
pub proof fn lemma_only_rebuild_replaces_chain(state: FrameLoopState, event: Event)
    ensures
        state.next(event).0.swapchain != state.swapchain ==> state.phase is Rebuilding
            && event matches Event::SwapchainRecreated(RecreateOutcome::Built(_)),
        state.rebuild is NeedsRebuild && state.next(event).0.rebuild is Stable
            ==> state.phase is Rebuilding && event matches Event::SwapchainRecreated(
            RecreateOutcome::Built(_),
        ),
{
}

/// No step changes the layout of the render pass, which is built for the
/// format of the chain's images: a pipeline bound to it at the start fits
/// every chain that follows.
pub proof fn lemma_render_pass_never_changes(state: FrameLoopState, event: Event)
    requires
        state.well_formed(),
    ensures
        state.next(event).0.swapchain.render_pass == state.swapchain.render_pass,
        state.next(event).0.swapchain.render_pass.color_format == state.next(
            event,
        ).0.swapchain.config.format,
{
}

/// Collecting garbage changes neither the chain of images, nor the rebuild
/// flag, nor the completion token that is kept, whether work is outstanding
/// or none is; and once it is done, doing it again changes nothing at all
/// and asks for nothing.
pub proof fn lemma_garbage_collection_is_idempotent(state: FrameLoopState)
    ensures
        ({
            let once = state.next(Event::GarbageCollected).0;
            &&& once.swapchain == state.swapchain
            &&& once.rebuild == state.rebuild
            &&& once.previous_frame_end == state.previous_frame_end
            &&& once.next(Event::GarbageCollected) == (once, Action::Nothing)
        }),
{
}

/// When the presentation layer reports the extent of a rebuild as not
/// supported, the chain, its framebuffers and the viewport stay as they are,
/// the rebuild stays flagged, and the frame is given up without any work
/// asked for.
pub proof fn lemma_unsupported_extent_is_retried(state: FrameLoopState)
    requires
        state.well_formed(),
        state.phase is Rebuilding,
    ensures
        ({
            let (after, action) = state.next(
                Event::SwapchainRecreated(RecreateOutcome::UnsupportedExtent),
            );
            &&& after.swapchain == state.swapchain
            &&& after.rebuild is NeedsRebuild
            &&& after.previous_frame_end == state.previous_frame_end
            &&& after.phase is Idle
            &&& action == Action::Nothing
        }),
{
}

/// A rebuild that succeeds gives every framebuffer, and the viewport, the
/// extent that was asked for, and takes the flag back; the frame goes on with
/// the acquisition of an image.
pub proof fn lemma_rebuild_takes_requested_extent(
    state: FrameLoopState,
    extent: Extent,
    images: Vec<SwapchainImage>,
)
    requires
        state.well_formed(),
        state.phase == (Phase::Rebuilding { extent }),
        images_fit(images@, extent),
    ensures
        ({
            let (after, action) = state.next(
                Event::SwapchainRecreated(RecreateOutcome::Built(images)),
            );
            &&& action == Action::AcquireImage { timeout: None }
            &&& after.phase is Acquiring
            &&& after.rebuild is Stable
            &&& after.swapchain.images == images@
            &&& after.swapchain.config == state.swapchain.config.resized(extent)
            &&& after.swapchain.viewport.dimensions == extent
            &&& after.swapchain.framebuffers.len() == images@.len()
            &&& forall|i: int|
                0 <= i < after.swapchain.framebuffers.len() ==> (
                #[trigger] after.swapchain.framebuffers[i]).extent == extent
        }),
{
    lemma_framebuffers_always_match_viewport(
        state,
        Event::SwapchainRecreated(RecreateOutcome::Built(images)),
    );
}

/// When the acquisition finds the chain out of date, nothing is recorded or
/// submitted: the frame ends there, with the rebuild flagged.
pub proof fn lemma_out_of_date_acquisition_skips_frame(state: FrameLoopState)
    requires
        state.phase is Acquiring,
    ensures
        ({
            let (after, action) = state.next(Event::ImageAcquired(AcquireOutcome::OutOfDate));
            &&& action == Action::Nothing
            &&& after.phase is Idle
            &&& after.rebuild is NeedsRebuild
            &&& after.swapchain == state.swapchain
            &&& after.previous_frame_end == state.previous_frame_end
        }),
{
}

/// When commands are to be recorded, it is for a framebuffer of the chain,
/// that of the image that was acquired, and through the viewport as it is
/// then, which has the extent of that framebuffer.
pub proof fn lemma_recording_fits_framebuffer(state: FrameLoopState, event: Event)
    requires
        state.well_formed(),
        state.next(event).1 is Record,
    ensures
        ({
            let action = state.next(event).1;
            &&& event matches Event::ImageAcquired(
                AcquireOutcome::Acquired { image_index, .. },
            ) && action->framebuffer == image_index
            &&& action->usage == CommandBufferUsage::OneTimeSubmit
            &&& action->framebuffer < state.swapchain.framebuffers.len()
            &&& state.swapchain.framebuffers[action->framebuffer as int].attachment
                == action->framebuffer
            &&& action->viewport == state.swapchain.viewport
            &&& action->viewport.dimensions
                == state.swapchain.framebuffers[action->framebuffer as int].extent
        }),
{
}

/// Commands are recorded only for an image that was acquired, and work is
/// submitted only when its commands were recorded. Between frames nothing
/// but a redraw signal sets the loop to work.
pub proof fn lemma_work_follows_acquisition(state: FrameLoopState, event: Event)
    ensures
        state.next(event).1 is Record ==> state.phase is Acquiring
            && event matches Event::ImageAcquired(AcquireOutcome::Acquired { .. }),
        state.next(event).1 is Submit ==> state.phase is Recording && event is CommandsRecorded,
        state.phase is Idle && !(event is RedrawRequested) ==> state.next(event).1 is Nothing
            || state.next(event).1 is Exit,
{
}

/// When submission or presentation finds the chain out of date, the token
/// kept for the next frame is the one that is satisfied from the start, not
/// that of the failed submission, and the rebuild is flagged. Any other
/// failure is reported and resets the token likewise.
pub proof fn lemma_failed_flush_resets_token(state: FrameLoopState, outcome: FlushOutcome)
    requires
        state.phase is Submitted,
    ensures
        ({
            let (after, action) = state.next(Event::FrameFlushed(outcome));
            &&& after.phase is Idle
            &&& after.swapchain == state.swapchain
            &&& outcome is Flushed ==> after.previous_frame_end == Some(
                CompletionToken::FrameSubmitted,
            ) && after.rebuild == state.rebuild && action == Action::Nothing
            &&& outcome is OutOfDate ==> after.previous_frame_end == Some(
                CompletionToken::AlreadySatisfied,
            ) && after.rebuild is NeedsRebuild && action == Action::Nothing
            &&& outcome is Failed ==> after.previous_frame_end == Some(
                CompletionToken::AlreadySatisfied,
            ) && after.rebuild == state.rebuild && action == Action::ReportFlushFailure
        }),
{
}

/// What the loop keeps besides the chain of images.
#[derive(Clone, Copy, Debug)]
struct Control {
    phase: Phase,
    rebuild: RebuildFlag,
    previous_frame_end: Option<CompletionToken>,
}

/// The frame loop: owns the chain of images and decides, event by event, what
/// is done next.
pub struct FrameLoop {
    swapchain: SwapchainManager,
    control: Control,
}

impl View for FrameLoop {
    type V = FrameLoopState;

    closed spec fn view(&self) -> FrameLoopState {
        FrameLoopState {
            swapchain: self.swapchain@,
            phase: self.control.phase,
            rebuild: self.control.rebuild,
            previous_frame_end: self.control.previous_frame_end,
        }
    }
}

impl FrameLoop {
    #[verifier::type_invariant]
    spec fn inv(self) -> bool {
        self@.well_formed()
    }

    /// A loop over `swapchain` that is between frames, with no rebuild flagged
    /// and no work outstanding.
    pub fn new(swapchain: SwapchainManager) -> (frame_loop: FrameLoop)
        ensures
            frame_loop@ == FrameLoopState::initial(swapchain@),
            frame_loop@.well_formed(),
    {
        let _ = swapchain.config();
        FrameLoop {
            swapchain,
            control: Control {
                phase: Phase::Idle,
                rebuild: RebuildFlag::Stable,
                previous_frame_end: Some(CompletionToken::AlreadySatisfied),
            },
        }
    }

    /// Takes in `event` and tells what to do next.
    pub fn step(&mut self, event: Event) -> (action: Action)
        ensures
            (final(self)@, action) == old(self)@.next(event),
            final(self)@.well_formed(),
    {
        proof {
            use_type_invariant(&*self);
        }
        let control = self.control;
        match event {
            Event::CloseRequested => Action::Exit,
            Event::Resized => {
                self.control = Control { rebuild: RebuildFlag::NeedsRebuild, ..control };
                Action::Nothing
            },
            Event::RedrawRequested { window_extent } => match control.phase {
                Phase::Idle => {
                    self.control = Control { phase: Phase::Collecting { window_extent }, ..control };
                    Action::CollectGarbage
                },
                _ => Action::Nothing,
            },
            Event::GarbageCollected => match control.phase {
                Phase::Collecting { window_extent } => match control.rebuild {
                    RebuildFlag::NeedsRebuild => {
                        self.control = Control {
                            phase: Phase::Rebuilding { extent: window_extent },
                            ..control
                        };
                        Action::RecreateSwapchain(self.swapchain.recreate_request(window_extent))
                    },
                    RebuildFlag::Stable => {
                        self.control = Control { phase: Phase::Acquiring, ..control };
                        Action::AcquireImage { timeout: None }
                    },
                },
                _ => Action::Nothing,
            },
            Event::SwapchainRecreated(outcome) => match control.phase {
                Phase::Rebuilding { extent } => {
                    let (successor, status) = self.swapchain.successor(extent, outcome);
                    match successor {
                        Some(swapchain) => {
                            self.swapchain = swapchain;
                            self.control = Control {
                                phase: Phase::Acquiring,
                                rebuild: RebuildFlag::Stable,
                                ..control
                            };
                            Action::AcquireImage { timeout: None }
                        },
                        None => match status {
                            RecreateStatus::Retry => {
                                self.control = Control { phase: Phase::Idle, ..control };
                                Action::Nothing
                            },
                            _ => Action::Abort(Fatal::SwapchainRecreation),
                        },
                    }
                },
                _ => Action::Nothing,
            },
            Event::ImageAcquired(outcome) => match control.phase {
                Phase::Acquiring => match outcome {
                    AcquireOutcome::Acquired { image_index, suboptimal } => {
                        if image_index < self.swapchain.framebuffers().len() {
                            self.control = Control {
                                phase: Phase::Recording { image_index },
                                rebuild: if suboptimal {
                                    RebuildFlag::NeedsRebuild
                                } else {
                                    control.rebuild
                                },
                                ..control
                            };
                            Action::Record {
                                usage: CommandBufferUsage::OneTimeSubmit,
                                framebuffer: image_index,
                                viewport: self.swapchain.viewport(),
                            }
                        } else {
                            Action::Abort(Fatal::ImageOutOfRange)
                        }
                    },
                    AcquireOutcome::OutOfDate => {
                        self.control = Control {
                            phase: Phase::Idle,
                            rebuild: RebuildFlag::NeedsRebuild,
                            ..control
                        };
                        Action::Nothing
                    },
                    AcquireOutcome::Failed => Action::Abort(Fatal::ImageAcquisition),
                },
                _ => Action::Nothing,
            },
            Event::CommandsRecorded => match (control.phase, control.previous_frame_end) {
                (Phase::Recording { image_index }, Some(token)) => {
                    self.control = Control {
                        phase: Phase::Submitted { image_index },
                        previous_frame_end: None,
                        ..control
                    };
                    Action::Submit { wait_for: token, image_index }
                },
                _ => Action::Nothing,
            },
            Event::FrameFlushed(outcome) => match control.phase {
                Phase::Submitted { .. } => match outcome {
                    FlushOutcome::Flushed => {
                        self.control = Control {
                            phase: Phase::Idle,
                            previous_frame_end: Some(CompletionToken::FrameSubmitted),
                            ..control
                        };
                        Action::Nothing
                    },
                    FlushOutcome::OutOfDate => {
                        self.control = Control {
                            phase: Phase::Idle,
                            rebuild: RebuildFlag::NeedsRebuild,
                            previous_frame_end: Some(CompletionToken::AlreadySatisfied),
                        };
                        Action::Nothing
                    },
                    FlushOutcome::Failed => {
                        self.control = Control {
                            phase: Phase::Idle,
                            previous_frame_end: Some(CompletionToken::AlreadySatisfied),
                            ..control
                        };
                        Action::ReportFlushFailure
                    },
                },
                _ => Action::Nothing,
            },
        }
    }

    /// Where in the course of a frame the loop is.
    pub fn phase(&self) -> (phase: Phase)
        ensures
            phase == self@.phase,
    {
        self.control.phase
    }

    /// Whether the chain of images is to be rebuilt before the next frame.
    pub fn rebuild(&self) -> (rebuild: RebuildFlag)
        ensures
            rebuild == self@.rebuild,
    {
        self.control.rebuild
    }

    /// The completion token kept of the previous frame; `None` while it is
    /// handed over to the submission of the current one.
    pub fn previous_frame_end(&self) -> (token: Option<CompletionToken>)
        ensures
            token == self@.previous_frame_end,
    {
        self.control.previous_frame_end
    }

    /// The chain of images with its framebuffers and the viewport.
    pub fn swapchain(&self) -> (swapchain: &SwapchainManager)
        ensures
            swapchain@ == self@.swapchain,
    {
        &self.swapchain
    }
}

} // verus!
