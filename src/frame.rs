//! The frame orchestrator: a checked state machine that sequences one frame of
//! the deferred pipeline (geometry pass, ambient pass, directional passes,
//! submission and present) and tells the GPU side what to do at each step.
//!
//! The orchestrator never touches the GPU. Each operation returns a
//! [`FrameAction`] that the caller performs; work whose outcome only the GPU
//! knows (recreating the swapchain, acquiring an image, presenting) is
//! reported back through `swapchain_recreated`, `image_acquired` and
//! `presented`.

use vstd::prelude::*;

verus! {

/// The phase of the frame being recorded.
#[derive(Clone, Copy, Debug, PartialEq, Eq, Structural)]
pub enum RenderingState {
    /// No frame in progress.
    Stopped,
    /// Geometry pass: models are drawn into the color and normal attachments.
    Deferred,
    /// First lighting subpass: the ambient light has been resolved.
    Ambient,
    /// Directional lights are accumulated additively.
    Directional,
    /// The surface changed; the swapchain is rebuilt before the next frame.
    WaitingRedraw,
}

/// The operations of the orchestrator, as named in call-order errors.
#[derive(Clone, Copy, Debug, PartialEq, Eq, Structural)]
pub enum FrameOp {
    BeginFrame,
    SubmitGeometry,
    ResolveAmbient,
    ResolveDirectional,
    EndFrame,
    RecreationReport,
    AcquireReport,
    PresentReport,
}

/// Errors of the orchestrator. Both are recoverable: the caller may try
/// again on the next tick.
#[derive(Clone, Copy, Debug, PartialEq, Eq, Structural)]
pub enum RenderingError {
    /// The operation was called outside the state in which it is legal. The
    /// orchestrator is back in `Stopped` and the partial frame is discarded.
    NonConformingState(FrameOp),
    /// No presentable image could be had for this frame.
    NoImage,
}

/// What the GPU side must do after an operation.
#[derive(Clone, Copy, Debug, PartialEq, Eq, Structural)]
pub enum FrameAction {
    /// Rebuild the swapchain and its framebuffers, then report with
    /// `swapchain_recreated`.
    RecreateSwapchain,
    /// Acquire the next presentable image, then report with `image_acquired`.
    AcquireImage,
    /// Start command recording on this image and clear every attachment.
    BeginRenderPass(usize),
    /// Upload the model's uniform and vertices, bind them with the
    /// view-projection uniform and draw.
    DrawGeometry,
    /// Advance to the lighting subpass and draw the ambient full-screen quad.
    NextSubpassAmbient,
    /// Draw one directional light's full-screen quad, blended additively.
    DrawDirectional,
    /// End the render pass, submit after the previous frame and the image
    /// acquisition, and present this image; then report with `presented`.
    SubmitAndPresent(usize),
    /// Replace the previous-frame completion handle by one that is already
    /// complete.
    ResetCompletion,
    /// Nothing is left to do for this operation.
    Done,
}

/// What the acquisition of a presentable image gave.
#[derive(Clone, Copy, Debug, PartialEq, Eq, Structural)]
pub enum AcquireOutcome {
    /// An image was acquired; `suboptimal` says the swapchain is stale but
    /// still usable.
    Acquired { index: usize, suboptimal: bool },
    /// The swapchain no longer matches the surface.
    OutOfDate,
}

/// What presenting a frame gave.
#[derive(Clone, Copy, Debug, PartialEq, Eq, Structural)]
pub enum PresentOutcome {
    Presented,
    OutOfDate,
    Failed,
}

/// The report the orchestrator waits for, if any.
#[derive(Clone, Copy, Debug, PartialEq, Eq, Structural)]
pub enum Awaiting {
    Nothing,
    RecreationForBegin,
    RecreationForEnd,
    /// A rebuild after the image acquisition found the swapchain out of
    /// date; the frame fails with `NoImage` once it is reported.
    RecreationForFailedAcquire,
    Image,
    Present,
}

/// Which projection the renderer recomputes when the surface changes size.
#[derive(Clone, Copy, Debug, PartialEq, Eq, Structural)]
pub enum ProjectionKind {
    Perspective,
    Orthogonal,
    /// A matrix given by the caller, kept as it is on resize.
    Custom,
}

/// An input of the state machine.
pub enum FrameInput {
    BeginFrame,
    SubmitGeometry,
    ResolveAmbient,
    ResolveDirectional,
    EndFrame,
    Recreated(bool),
    Acquired(AcquireOutcome),
    Presented(PresentOutcome),
    Resize,
    ViewChanged,
    ProjectionChanged(ProjectionKind),
}

/// The abstract state of a [`FrameOrchestrator`].
pub struct FrameView {
    pub state: RenderingState,
    /// The swapchain must be rebuilt before the next image is acquired.
    pub stale: bool,
    /// A command stream is open.
    pub recording: bool,
    /// The image the open command stream renders to.
    pub image: Option<usize>,
    /// How many times the command stream advanced to the next subpass in
    /// this frame.
    pub subpass: u8,
    pub awaiting: Awaiting,
    pub projection: ProjectionKind,
}

impl FrameView {
    /// The invariant that ties the fields together.
    pub open spec fn wf(self) -> bool {
        &&& (self.state is WaitingRedraw ==> self.stale)
        &&& (self.recording <==> self.image is Some)
        &&& self.subpass <= 1
        &&& (self.state is Stopped || self.state is WaitingRedraw) ==> !self.recording
            && self.subpass == 0
        &&& self.state is Deferred ==> self.subpass == 0 && (self.recording <==> !(
        self.awaiting is Image))
        &&& (self.state is Ambient || self.state is Directional) ==> self.recording
            && self.subpass == 1
        &&& self.awaiting is Image ==> self.state is Deferred
        &&& (self.awaiting is RecreationForBegin || self.awaiting is RecreationForEnd
            || self.awaiting is RecreationForFailedAcquire)
            ==> self.state is WaitingRedraw
        &&& self.awaiting is Present ==> (self.state is Stopped || self.state is WaitingRedraw)
        &&& (self.state is Ambient || self.state is Directional) ==> self.awaiting is Nothing
    }
}

/// The state after an operation that was called outside its legal state:
/// `Stopped`, with the partial frame discarded. A pending swapchain rebuild
/// is kept.
pub open spec fn reset(v: FrameView) -> FrameView {
    FrameView {
        state: RenderingState::Stopped,
        recording: false,
        image: None,
        subpass: 0,
        awaiting: Awaiting::Nothing,
        ..v
    }
}

/// A call-order violation of `op`.
pub open spec fn refuse(v: FrameView, op: FrameOp) -> (FrameView, Result<FrameAction, RenderingError>) {
    (reset(v), Err(RenderingError::NonConformingState(op)))
}

/// Starting a frame from an idle state: rebuild a stale swapchain first,
/// else acquire an image.
pub open spec fn begin(v: FrameView) -> (FrameView, Result<FrameAction, RenderingError>) {
    if v.stale {
        (
            FrameView {
                state: RenderingState::WaitingRedraw,
                recording: false,
                image: None,
                subpass: 0,
                awaiting: Awaiting::RecreationForBegin,
                ..v
            },
            Ok(FrameAction::RecreateSwapchain),
        )
    } else {
        (
            FrameView {
                state: RenderingState::Deferred,
                recording: false,
                image: None,
                subpass: 0,
                awaiting: Awaiting::Image,
                ..v
            },
            Ok(FrameAction::AcquireImage),
        )
    }
}

/// The state after a change that invalidates the swapchain or the
/// view-projection uniform: waiting for a rebuild, with the partial frame
/// discarded.
pub open spec fn invalidate(v: FrameView) -> FrameView {
    FrameView {
        state: RenderingState::WaitingRedraw,
        stale: true,
        recording: false,
        image: None,
        subpass: 0,
        awaiting: Awaiting::Nothing,
        ..v
    }
}

/// Whether `op` may be called in state `s` (the transition table's legal
/// cells). A frame operation in a legal state may still be refused while the
/// orchestrator waits for a report (`step` has the details).
pub open spec fn is_legal(s: RenderingState, op: FrameOp) -> bool {
    match op {
        FrameOp::BeginFrame => s is Stopped || s is WaitingRedraw,
        FrameOp::SubmitGeometry => s is Deferred,
        FrameOp::ResolveAmbient => s is Deferred || s is Ambient,
        FrameOp::ResolveDirectional => s is Ambient || s is Directional,
        FrameOp::EndFrame => s is Directional || s is WaitingRedraw,
        _ => true,
    }
}

/// The transition function: the next state and the result of one input.
pub open spec fn step(v: FrameView, input: FrameInput) -> (FrameView, Result<FrameAction, RenderingError>) {
    match input {
        FrameInput::BeginFrame => {
            if v.state is Stopped || v.state is WaitingRedraw {
                begin(v)
            } else {
                refuse(v, FrameOp::BeginFrame)
            }
        },
        FrameInput::SubmitGeometry => {
            if v.state is Deferred && v.recording {
                (v, Ok(FrameAction::DrawGeometry))
            } else {
                refuse(v, FrameOp::SubmitGeometry)
            }
        },
        FrameInput::ResolveAmbient => {
            if v.state is Deferred && v.recording {
                (
                    FrameView { state: RenderingState::Ambient, subpass: 1, ..v },
                    Ok(FrameAction::NextSubpassAmbient),
                )
            } else if v.state is Ambient {
                (v, Ok(FrameAction::Done))
            } else {
                refuse(v, FrameOp::ResolveAmbient)
            }
        },
        FrameInput::ResolveDirectional => {
            if v.state is Ambient || v.state is Directional {
                (
                    FrameView { state: RenderingState::Directional, ..v },
                    Ok(FrameAction::DrawDirectional),
                )
            } else {
                refuse(v, FrameOp::ResolveDirectional)
            }
        },
        FrameInput::EndFrame => {
            if v.state is Directional {
                (
                    FrameView {
                        state: RenderingState::Stopped,
                        recording: false,
                        image: None,
                        subpass: 0,
                        awaiting: Awaiting::Present,
                        ..v
                    },
                    Ok(FrameAction::SubmitAndPresent(v.image.unwrap())),
                )
            } else if v.state is WaitingRedraw {
                (
                    FrameView { awaiting: Awaiting::RecreationForEnd, ..v },
                    Ok(FrameAction::RecreateSwapchain),
                )
            } else {
                refuse(v, FrameOp::EndFrame)
            }
        },
        FrameInput::Recreated(rebuilt) => {
            if v.awaiting is RecreationForBegin {
                if rebuilt {
                    begin(FrameView { stale: false, ..v })
                } else {
                    (FrameView { awaiting: Awaiting::Nothing, ..v }, Err(RenderingError::NoImage))
                }
            } else if v.awaiting is RecreationForEnd {
                if rebuilt {
                    (
                        FrameView {
                            state: RenderingState::Stopped,
                            stale: false,
                            awaiting: Awaiting::Nothing,
                            ..v
                        },
                        Ok(FrameAction::Done),
                    )
                } else {
                    (FrameView { awaiting: Awaiting::Nothing, ..v }, Ok(FrameAction::Done))
                }
            } else if v.awaiting is RecreationForFailedAcquire {
                if rebuilt {
                    (
                        FrameView {
                            state: RenderingState::Stopped,
                            stale: false,
                            awaiting: Awaiting::Nothing,
                            ..v
                        },
                        Err(RenderingError::NoImage),
                    )
                } else {
                    (FrameView { awaiting: Awaiting::Nothing, ..v }, Err(RenderingError::NoImage))
                }
            } else {
                refuse(v, FrameOp::RecreationReport)
            }
        },
        FrameInput::Acquired(outcome) => {
            if v.awaiting is Image {
                match outcome {
                    AcquireOutcome::Acquired { index, suboptimal } => (
                        FrameView {
                            recording: true,
                            image: Some(index),
                            stale: v.stale || suboptimal,
                            awaiting: Awaiting::Nothing,
                            ..v
                        },
                        Ok(FrameAction::BeginRenderPass(index)),
                    ),
                    AcquireOutcome::OutOfDate => (
                        FrameView { awaiting: Awaiting::RecreationForFailedAcquire, ..invalidate(v) },
                        Ok(FrameAction::RecreateSwapchain),
                    ),
                }
            } else {
                refuse(v, FrameOp::AcquireReport)
            }
        },
        FrameInput::Presented(outcome) => {
            if v.awaiting is Present {
                match outcome {
                    PresentOutcome::Presented => (
                        FrameView { awaiting: Awaiting::Nothing, ..v },
                        Ok(FrameAction::Done),
                    ),
                    PresentOutcome::OutOfDate => (
                        FrameView {
                            state: RenderingState::WaitingRedraw,
                            stale: true,
                            awaiting: Awaiting::Nothing,
                            ..v
                        },
                        Ok(FrameAction::ResetCompletion),
                    ),
                    PresentOutcome::Failed => (
                        FrameView { awaiting: Awaiting::Nothing, ..v },
                        Ok(FrameAction::ResetCompletion),
                    ),
                }
            } else {
                refuse(v, FrameOp::PresentReport)
            }
        },
        FrameInput::Resize => (invalidate(v), Ok(FrameAction::Done)),
        FrameInput::ViewChanged => (invalidate(v), Ok(FrameAction::Done)),
        FrameInput::ProjectionChanged(kind) => (
            FrameView { projection: kind, ..invalidate(v) },
            Ok(FrameAction::Done),
        ),
    }
}

/// The frame orchestrator. Its fields always satisfy [`FrameView::wf`].
pub struct FrameOrchestrator {
    state: RenderingState,
    stale: bool,
    recording: bool,
    image: Option<usize>,
    subpass: u8,
    awaiting: Awaiting,
    projection: ProjectionKind,
}

impl View for FrameOrchestrator {
    type V = FrameView;

    closed spec fn view(&self) -> FrameView {
        FrameView {
            state: self.state,
            stale: self.stale,
            recording: self.recording,
            image: self.image,
            subpass: self.subpass,
            awaiting: self.awaiting,
            projection: self.projection,
        }
    }
}

impl FrameOp {
    /// Whether this operation may be called in state `s`.
    pub fn is_legal_in(self, s: RenderingState) -> (r: bool)
        ensures
            r == is_legal(s, self),
    {
        match self {
            FrameOp::BeginFrame => matches!(s, RenderingState::Stopped | RenderingState::WaitingRedraw),
            FrameOp::SubmitGeometry => matches!(s, RenderingState::Deferred),
            FrameOp::ResolveAmbient => matches!(s, RenderingState::Deferred | RenderingState::Ambient),
            FrameOp::ResolveDirectional => matches!(
                s,
                RenderingState::Ambient | RenderingState::Directional
            ),
            FrameOp::EndFrame => matches!(s, RenderingState::Directional | RenderingState::WaitingRedraw),
            _ => true,
        }
    }
}

impl FrameOrchestrator {
    #[verifier::type_invariant]
    spec fn inv(self) -> bool {
        self@.wf()
    }

    /// An idle orchestrator with a fresh swapchain and a perspective
    /// projection.
    pub fn new() -> (r: Self)
        ensures
            r@.wf(),
            r@.state == RenderingState::Stopped,
            !r@.stale,
            !r@.recording,
            r@.awaiting == Awaiting::Nothing,
            r@.projection == ProjectionKind::Perspective,
    {
        FrameOrchestrator {
            state: RenderingState::Stopped,
            stale: false,
            recording: false,
            image: None,
            subpass: 0,
            awaiting: Awaiting::Nothing,
            projection: ProjectionKind::Perspective,
        }
    }

    pub fn state(&self) -> (r: RenderingState)
        ensures
            r == self@.state,
            self@.wf(),
    {
        proof {
            use_type_invariant(self);
        }
        self.state
    }

    /// The projection to recompute when the surface changes size.
    pub fn projection(&self) -> (r: ProjectionKind)
        ensures
            r == self@.projection,
    {
        self.projection
    }

    /// Whether the swapchain must be rebuilt before the next image.
    pub fn is_stale(&self) -> (r: bool)
        ensures
            r == self@.stale,
    {
        self.stale
    }

    /// Whether a command stream is open.
    pub fn is_recording(&self) -> (r: bool)
        ensures
            r == self@.recording,
    {
        self.recording
    }

    /// Discards the partial frame and refuses `op`.
    fn refuse(&mut self, op: FrameOp) -> (r: Result<FrameAction, RenderingError>)
        ensures
            (final(self)@, r) == refuse(old(self)@, op),
            final(self)@.wf(),
    {
        proof {
            use_type_invariant(&*self);
        }
        *self = FrameOrchestrator {
            state: RenderingState::Stopped,
            stale: self.stale,
            recording: false,
            image: None,
            subpass: 0,
            awaiting: Awaiting::Nothing,
            projection: self.projection,
        };
        Err(RenderingError::NonConformingState(op))
    }

    /// Starts a frame from an idle state.
    fn begin(&mut self, stale: bool) -> (r: Result<FrameAction, RenderingError>)
        ensures
            (final(self)@, r) == begin(FrameView { stale, ..old(self)@ }),
            final(self)@.wf(),
    {
        let projection = self.projection;
        if stale {
            *self = FrameOrchestrator {
                state: RenderingState::WaitingRedraw,
                stale,
                recording: false,
                image: None,
                subpass: 0,
                awaiting: Awaiting::RecreationForBegin,
                projection,
            };
            Ok(FrameAction::RecreateSwapchain)
        } else {
            *self = FrameOrchestrator {
                state: RenderingState::Deferred,
                stale,
                recording: false,
                image: None,
                subpass: 0,
                awaiting: Awaiting::Image,
                projection,
            };
            Ok(FrameAction::AcquireImage)
        }
    }

    /// Puts the orchestrator in `WaitingRedraw` with the partial frame
    /// discarded.
    fn invalidate(&mut self, projection: ProjectionKind)
        ensures
            final(self)@ == (FrameView { projection, ..invalidate(old(self)@) }),
            final(self)@.wf(),
    {
        *self = FrameOrchestrator {
            state: RenderingState::WaitingRedraw,
            stale: true,
            recording: false,
            image: None,
            subpass: 0,
            awaiting: Awaiting::Nothing,
            projection,
        };
    }

    /// Begins a frame. Legal from `Stopped` and `WaitingRedraw`; a stale
    /// swapchain is rebuilt first.
    pub fn start_render(&mut self) -> (r: Result<FrameAction, RenderingError>)
        ensures
            final(self)@.wf(),
            (final(self)@, r) == step(old(self)@, FrameInput::BeginFrame),
    {
        match self.state {
            RenderingState::Stopped | RenderingState::WaitingRedraw => self.begin(self.stale),
            _ => self.refuse(FrameOp::BeginFrame),
        }
    }

    /// Submits one model to the geometry pass. Legal in `Deferred` once the
    /// command stream is open; may be called once per model.
    pub fn add_model(&mut self) -> (r: Result<FrameAction, RenderingError>)
        ensures
            final(self)@.wf(),
            (final(self)@, r) == step(old(self)@, FrameInput::SubmitGeometry),
    {
        proof {
            use_type_invariant(&*self);
        }
        if matches!(self.state, RenderingState::Deferred) && self.recording {
            Ok(FrameAction::DrawGeometry)
        } else {
            self.refuse(FrameOp::SubmitGeometry)
        }
    }

    /// Resolves the ambient light. From `Deferred` it advances to the
    /// lighting subpass; in `Ambient` it does nothing.
    pub fn calculate_ambient_light(&mut self) -> (r: Result<FrameAction, RenderingError>)
        ensures
            final(self)@.wf(),
            (final(self)@, r) == step(old(self)@, FrameInput::ResolveAmbient),
    {
        proof {
            use_type_invariant(&*self);
        }
        match self.state {
            RenderingState::Deferred if self.recording => {
                *self = FrameOrchestrator {
                    state: RenderingState::Ambient,
                    stale: self.stale,
                    recording: true,
                    image: self.image,
                    subpass: 1,
                    awaiting: self.awaiting,
                    projection: self.projection,
                };
                Ok(FrameAction::NextSubpassAmbient)
            },
            RenderingState::Ambient => Ok(FrameAction::Done),
            _ => self.refuse(FrameOp::ResolveAmbient),
        }
    }

    /// Accumulates one directional light. Legal in `Ambient` and
    /// `Directional`.
    pub fn calculate_directional_light(&mut self) -> (r: Result<FrameAction, RenderingError>)
        ensures
            final(self)@.wf(),
            (final(self)@, r) == step(old(self)@, FrameInput::ResolveDirectional),
    {
        proof {
            use_type_invariant(&*self);
        }
        match self.state {
            RenderingState::Ambient | RenderingState::Directional => {
                *self = FrameOrchestrator {
                    state: RenderingState::Directional,
                    stale: self.stale,
                    recording: true,
                    image: self.image,
                    subpass: 1,
                    awaiting: self.awaiting,
                    projection: self.projection,
                };
                Ok(FrameAction::DrawDirectional)
            },
            _ => self.refuse(FrameOp::ResolveDirectional),
        }
    }

    /// Ends the frame. From `Directional` it submits and presents and goes
    /// back to `Stopped` (a rebuild deferred by a stale-but-usable image is
    /// kept for the next frame); from `WaitingRedraw` it rebuilds the
    /// swapchain instead.
    pub fn finish_render(&mut self) -> (r: Result<FrameAction, RenderingError>)
        ensures
            final(self)@.wf(),
            (final(self)@, r) == step(old(self)@, FrameInput::EndFrame),
    {
        proof {
            use_type_invariant(&*self);
        }
        match self.state {
            RenderingState::Directional => {
                let image = match self.image {
                    Some(i) => i,
                    None => 0,
                };
                let stale = self.stale;
                *self = FrameOrchestrator {
                    state: RenderingState::Stopped,
                    stale,
                    recording: false,
                    image: None,
                    subpass: 0,
                    awaiting: Awaiting::Present,
                    projection: self.projection,
                };
                Ok(FrameAction::SubmitAndPresent(image))
            },
            RenderingState::WaitingRedraw => {
                *self = FrameOrchestrator {
                    state: RenderingState::WaitingRedraw,
                    stale: true,
                    recording: false,
                    image: None,
                    subpass: 0,
                    awaiting: Awaiting::RecreationForEnd,
                    projection: self.projection,
                };
                Ok(FrameAction::RecreateSwapchain)
            },
            _ => self.refuse(FrameOp::EndFrame),
        }
    }

    /// Reports whether the requested swapchain rebuild happened (`false`
    /// when it was skipped, for example for a minimized window).
    pub fn swapchain_recreated(&mut self, rebuilt: bool) -> (r: Result<FrameAction, RenderingError>)
        ensures
            final(self)@.wf(),
            (final(self)@, r) == step(old(self)@, FrameInput::Recreated(rebuilt)),
    {
        proof {
            use_type_invariant(&*self);
        }
        match self.awaiting {
            Awaiting::RecreationForBegin => {
                if rebuilt {
                    self.begin(false)
                } else {
                    self.awaiting = Awaiting::Nothing;
                    Err(RenderingError::NoImage)
                }
            },
            Awaiting::RecreationForEnd => {
                if rebuilt {
                    *self = FrameOrchestrator {
                        state: RenderingState::Stopped,
                        stale: false,
                        recording: false,
                        image: None,
                        subpass: 0,
                        awaiting: Awaiting::Nothing,
                        projection: self.projection,
                    };
                } else {
                    self.awaiting = Awaiting::Nothing;
                }
                Ok(FrameAction::Done)
            },
            Awaiting::RecreationForFailedAcquire => {
                if rebuilt {
                    *self = FrameOrchestrator {
                        state: RenderingState::Stopped,
                        stale: false,
                        recording: false,
                        image: None,
                        subpass: 0,
                        awaiting: Awaiting::Nothing,
                        projection: self.projection,
                    };
                } else {
                    self.awaiting = Awaiting::Nothing;
                }
                Err(RenderingError::NoImage)
            },
            _ => self.refuse(FrameOp::RecreationReport),
        }
    }

    /// Reports the outcome of the image acquisition. An out-of-date
    /// swapchain is rebuilt at once; when that rebuild is reported the frame
    /// fails with `NoImage`.
    pub fn image_acquired(&mut self, outcome: AcquireOutcome) -> (r: Result<
        FrameAction,
        RenderingError,
    >)
        ensures
            final(self)@.wf(),
            (final(self)@, r) == step(old(self)@, FrameInput::Acquired(outcome)),
    {
        proof {
            use_type_invariant(&*self);
        }
        if matches!(self.awaiting, Awaiting::Image) {
            match outcome {
                AcquireOutcome::Acquired { index, suboptimal } => {
                    *self = FrameOrchestrator {
                        state: self.state,
                        stale: self.stale || suboptimal,
                        recording: true,
                        image: Some(index),
                        subpass: 0,
                        awaiting: Awaiting::Nothing,
                        projection: self.projection,
                    };
                    Ok(FrameAction::BeginRenderPass(index))
                },
                AcquireOutcome::OutOfDate => {
                    *self = FrameOrchestrator {
                        state: RenderingState::WaitingRedraw,
                        stale: true,
                        recording: false,
                        image: None,
                        subpass: 0,
                        awaiting: Awaiting::RecreationForFailedAcquire,
                        projection: self.projection,
                    };
                    Ok(FrameAction::RecreateSwapchain)
                },
            }
        } else {
            self.refuse(FrameOp::AcquireReport)
        }
    }

    /// Reports the outcome of the present.
    pub fn presented(&mut self, outcome: PresentOutcome) -> (r: Result<FrameAction, RenderingError>)
        ensures
            final(self)@.wf(),
            (final(self)@, r) == step(old(self)@, FrameInput::Presented(outcome)),
    {
        proof {
            use_type_invariant(&*self);
        }
        if matches!(self.awaiting, Awaiting::Present) {
            match outcome {
                PresentOutcome::Presented => {
                    self.awaiting = Awaiting::Nothing;
                    Ok(FrameAction::Done)
                },
                PresentOutcome::OutOfDate => {
                    *self = FrameOrchestrator {
                        state: RenderingState::WaitingRedraw,
                        stale: true,
                        recording: false,
                        image: None,
                        subpass: 0,
                        awaiting: Awaiting::Nothing,
                        projection: self.projection,
                    };
                    Ok(FrameAction::ResetCompletion)
                },
                PresentOutcome::Failed => {
                    self.awaiting = Awaiting::Nothing;
                    Ok(FrameAction::ResetCompletion)
                },
            }
        } else {
            self.refuse(FrameOp::PresentReport)
        }
    }

    /// The surface changed size: wait for a swapchain rebuild, from any
    /// state.
    pub fn notify_resize(&mut self)
        ensures
            final(self)@.wf(),
            final(self)@ == step(old(self)@, FrameInput::Resize).0,
    {
        let projection = self.projection;
        self.invalidate(projection);
    }

    /// The view matrix changed: the next frame starts afresh.
    pub fn set_view(&mut self)
        ensures
            final(self)@.wf(),
            final(self)@ == step(old(self)@, FrameInput::ViewChanged).0,
    {
        let projection = self.projection;
        self.invalidate(projection);
    }

    /// The projection changed to one of the given kind: the next frame
    /// starts afresh, and resizes recompute a projection of that kind.
    pub fn set_projection(&mut self, kind: ProjectionKind)
        ensures
            final(self)@.wf(),
            final(self)@ == step(old(self)@, FrameInput::ProjectionChanged(kind)).0,
    {
        self.invalidate(kind);
    }
}

} // verus!

verus! {

/// The state and the results after feeding `inputs` to the machine in order.
pub open spec fn run(v: FrameView, inputs: Seq<FrameInput>) -> (FrameView, Seq<
    Result<FrameAction, RenderingError>,
>)
    decreases inputs.len(),
{
    if inputs.len() == 0 {
        (v, Seq::empty())
    } else {
        let (next, r) = step(v, inputs[0]);
        let (last, rs) = run(next, inputs.drop_first());
        (last, seq![r] + rs)
    }
}

/// The input that a frame operation stands for.
pub open spec fn input_of(op: FrameOp) -> FrameInput {
    match op {
        FrameOp::BeginFrame => FrameInput::BeginFrame,
        FrameOp::SubmitGeometry => FrameInput::SubmitGeometry,
        FrameOp::ResolveAmbient => FrameInput::ResolveAmbient,
        FrameOp::ResolveDirectional => FrameInput::ResolveDirectional,
        FrameOp::EndFrame => FrameInput::EndFrame,
        FrameOp::RecreationReport => FrameInput::Recreated(true),
        FrameOp::AcquireReport => FrameInput::Acquired(AcquireOutcome::OutOfDate),
        FrameOp::PresentReport => FrameInput::Presented(PresentOutcome::Presented),
    }
}

/// The inputs of one complete frame on a valid surface: begin, an image,
/// `models` geometry submissions, the ambient light, `lights` directional
/// lights (at least one), the end and a successful present.
pub open spec fn legal_frame(index: usize, models: nat, lights: nat) -> Seq<FrameInput> {
    seq![FrameInput::BeginFrame, FrameInput::Acquired(
        AcquireOutcome::Acquired { index, suboptimal: false },
    )] + Seq::new(models, |i: int| FrameInput::SubmitGeometry) + seq![
        FrameInput::ResolveAmbient,
    ] + Seq::new(lights, |i: int| FrameInput::ResolveDirectional) + seq![
        FrameInput::EndFrame,
        FrameInput::Presented(PresentOutcome::Presented),
    ]
}

/// Running `a` then `b` is running `a + b`.
pub proof fn lemma_run_concat(v: FrameView, a: Seq<FrameInput>, b: Seq<FrameInput>)
    ensures
        run(v, a + b).0 == run(run(v, a).0, b).0,
        run(v, a + b).1 == run(v, a).1 + run(run(v, a).0, b).1,
    decreases a.len(),
{
    if a.len() == 0 {
        assert(a + b =~= b);
    } else {
        let next = step(v, a[0]).0;
        assert((a + b).drop_first() =~= a.drop_first() + b);
        lemma_run_concat(next, a.drop_first(), b);
    }
}

/// Repeating an input that leaves the state as it is and returns `r` gives
/// `r` each time.
pub proof fn lemma_run_repeat(v: FrameView, input: FrameInput, n: nat)
    requires
        step(v, input).0 == v,
    ensures
        run(v, Seq::new(n, |i: int| input)).0 == v,
        run(v, Seq::new(n, |i: int| input)).1 == Seq::new(n, |i: int| step(v, input).1),
    decreases n,
{
    if n > 0 {
        let s = Seq::new(n, |i: int| input);
        assert(s.drop_first() =~= Seq::new((n - 1) as nat, |i: int| input));
        lemma_run_repeat(v, input, (n - 1) as nat);
        assert(run(v, s).1 =~= Seq::new(n, |i: int| step(v, input).1));
    }
}

/// An operation called outside its legal state returns the call-order error
/// and leaves the machine in `Stopped` with the partial frame discarded.
pub proof fn lemma_illegal_operation_resets(v: FrameView, op: FrameOp)
    requires
        v.wf(),
        !is_legal(v.state, op),
    ensures
        step(v, input_of(op)) == refuse(v, op),
        step(v, input_of(op)).0.state == RenderingState::Stopped,
        !step(v, input_of(op)).0.recording,
        step(v, input_of(op)).0.wf(),
{
}

/// On a valid surface (an idle machine with a fresh swapchain whose image
/// acquisition and present succeed), a complete frame succeeds at every
/// step and ends idle again.
pub proof fn lemma_legal_frame_succeeds(v: FrameView, index: usize, models: nat, lights: nat)
    requires
        v.wf(),
        v.state is Stopped,
        !v.stale,
        lights >= 1,
    ensures
        forall|i: int|
            0 <= i < run(v, legal_frame(index, models, lights)).1.len() ==> run(
                v,
                legal_frame(index, models, lights),
            ).1[i] is Ok,
        run(v, legal_frame(index, models, lights)).1.len() == models + lights + 5,
        run(v, legal_frame(index, models, lights)).0.state == RenderingState::Stopped,
        run(v, legal_frame(index, models, lights)).0.awaiting == Awaiting::Nothing,
        run(v, legal_frame(index, models, lights)).0.wf(),
{
    let head = seq![FrameInput::BeginFrame, FrameInput::Acquired(
        AcquireOutcome::Acquired { index, suboptimal: false },
    )];
    let subs = Seq::new(models, |i: int| FrameInput::SubmitGeometry);
    let amb = seq![FrameInput::ResolveAmbient];
    let dirs = Seq::new(lights, |i: int| FrameInput::ResolveDirectional);
    let tail = seq![FrameInput::EndFrame, FrameInput::Presented(PresentOutcome::Presented)];
    assert(legal_frame(index, models, lights) == head + subs + amb + dirs + tail);

    let v1 = run(v, head).0;
    assert(head.drop_first().drop_first() =~= Seq::<FrameInput>::empty());
    assert(run(step(v, head[0]).0, head.drop_first()).0 == run(
        step(step(v, head[0]).0, head[1]).0,
        Seq::empty(),
    ).0);
    assert(v1.state is Deferred && v1.recording && v1.image == Some(index) && !v1.stale);
    lemma_run_repeat(v1, FrameInput::SubmitGeometry, models);
    let v2 = run(v1, subs).0;
    assert(amb.drop_first() =~= Seq::<FrameInput>::empty());
    let v3 = run(v2, amb).0;
    assert(v2 == v1);
    assert(amb[0] == FrameInput::ResolveAmbient);
    assert(run(step(v2, amb[0]).0, amb.drop_first()).0 == step(v2, amb[0]).0);
    assert(v3.state is Ambient);
    // The first directional light moves to `Directional`; the others keep it.
    let d1 = seq![FrameInput::ResolveDirectional];
    let drest = Seq::new((lights - 1) as nat, |i: int| FrameInput::ResolveDirectional);
    assert(dirs =~= d1 + drest);
    assert(d1.drop_first() =~= Seq::<FrameInput>::empty());
    let v35 = run(v3, d1).0;
    assert(d1[0] == FrameInput::ResolveDirectional);
    assert(run(step(v3, d1[0]).0, d1.drop_first()).0 == step(v3, d1[0]).0);
    assert(v35.state is Directional);
    lemma_run_repeat(v35, FrameInput::ResolveDirectional, (lights - 1) as nat);
    lemma_run_concat(v3, d1, drest);
    let v4 = run(v3, dirs).0;
    assert(v4 == v35);
    assert(tail.drop_first().drop_first() =~= Seq::<FrameInput>::empty());
    assert(v4.image == Some(index) && !v4.stale && v4.state is Directional);
    assert(tail[0] == FrameInput::EndFrame);
    assert(tail.drop_first()[0] == FrameInput::Presented(PresentOutcome::Presented));
    let w = step(v4, FrameInput::EndFrame).0;
    assert(w.awaiting is Present && w.state is Stopped);
    let x = tail.drop_first();
    let n2 = step(w, x[0]).0;
    assert(x.drop_first() =~= Seq::<FrameInput>::empty());
    assert(run(n2, x.drop_first()).0 == n2);
    assert(run(n2, x.drop_first()).1 =~= Seq::<Result<FrameAction, RenderingError>>::empty());
    assert(run(w, x).0 == n2);
    let v5 = run(v4, tail).0;
    assert(v5.wf());

    lemma_run_concat(v, head, subs);
    lemma_run_concat(v, head + subs, amb);
    lemma_run_concat(v, head + subs + amb, dirs);
    lemma_run_concat(v, head + subs + amb + dirs, tail);
    let rs = run(v, legal_frame(index, models, lights)).1;
    assert(rs == run(v, head).1 + run(v1, subs).1 + run(v2, amb).1 + run(v3, dirs).1 + run(
        v4,
        tail,
    ).1);
    // The results of each piece.
    let ok = |a: FrameAction| Ok::<FrameAction, RenderingError>(a);
    assert(run(v, head).1 =~= seq![ok(FrameAction::AcquireImage), ok(FrameAction::BeginRenderPass(index))]);
    assert(run(v1, subs).1 =~= Seq::new(models, |i: int| ok(FrameAction::DrawGeometry)));
    assert(run(v2, amb).1 =~= seq![ok(FrameAction::NextSubpassAmbient)]);
    assert(run(v3, d1).1 =~= seq![ok(FrameAction::DrawDirectional)]);
    assert(run(v35, drest).1 =~= Seq::new((lights - 1) as nat, |i: int| ok(FrameAction::DrawDirectional)));
    assert(run(v4, tail).1 =~= seq![ok(FrameAction::SubmitAndPresent(index)), ok(FrameAction::Done)]);
    assert(run(v3, dirs).1 == run(v3, d1).1 + run(v35, drest).1);
    assert(rs.len() == models + lights + 5);
    assert forall|i: int| 0 <= i < rs.len() implies rs[i] is Ok by {
    }
}

/// Resolving the ambient light again in `Ambient` neither advances the
/// subpass nor changes anything: from the geometry pass, two calls in a row
/// advance it exactly once.
pub proof fn lemma_ambient_idempotent(v: FrameView)
    requires
        v.wf(),
        v.state is Deferred,
        v.recording,
    ensures
        ({
            let (v1, r1) = step(v, FrameInput::ResolveAmbient);
            let (v2, r2) = step(v1, FrameInput::ResolveAmbient);
            &&& r1 == Ok::<FrameAction, RenderingError>(FrameAction::NextSubpassAmbient)
            &&& r2 == Ok::<FrameAction, RenderingError>(FrameAction::Done)
            &&& v2 == v1
            &&& v1.subpass == v.subpass + 1
        }),
        forall|w: FrameView|
            w.state is Ambient ==> step(w, FrameInput::ResolveAmbient) == (w, Ok::<
                FrameAction,
                RenderingError,
            >(FrameAction::Done)),
{
}

/// Beginning a frame a second time, after the first began recording and
/// without ending it, is a call-order error that resets to `Stopped`.
pub proof fn lemma_begin_twice_refused(v: FrameView, index: usize, suboptimal: bool)
    requires
        v.wf(),
        v.state is Stopped,
        !v.stale,
    ensures
        ({
            let (v1, r1) = step(v, FrameInput::BeginFrame);
            let (v2, r2) = step(
                v1,
                FrameInput::Acquired(AcquireOutcome::Acquired { index, suboptimal }),
            );
            let (v3, r3) = step(v2, FrameInput::BeginFrame);
            &&& r1 == Ok::<FrameAction, RenderingError>(FrameAction::AcquireImage)
            &&& r2 == Ok::<FrameAction, RenderingError>(FrameAction::BeginRenderPass(index))
            &&& r3 == Err::<FrameAction, RenderingError>(
                RenderingError::NonConformingState(FrameOp::BeginFrame),
            )
            &&& v3.state == RenderingState::Stopped
            &&& !v3.recording
        }),
{
}

/// After a resize, beginning a frame asks for exactly one swapchain rebuild
/// and, once it is done and an image is acquired, reaches the geometry pass
/// with no second rebuild.
pub proof fn lemma_resize_then_begin(v: FrameView, index: usize)
    requires
        v.wf(),
    ensures
        ({
            let v0 = step(v, FrameInput::Resize).0;
            let (v1, r1) = step(v0, FrameInput::BeginFrame);
            let (v2, r2) = step(v1, FrameInput::Recreated(true));
            let (v3, r3) = step(
                v2,
                FrameInput::Acquired(AcquireOutcome::Acquired { index, suboptimal: false }),
            );
            &&& v0.state == RenderingState::WaitingRedraw
            &&& r1 == Ok::<FrameAction, RenderingError>(FrameAction::RecreateSwapchain)
            &&& r2 == Ok::<FrameAction, RenderingError>(FrameAction::AcquireImage)
            &&& r3 == Ok::<FrameAction, RenderingError>(FrameAction::BeginRenderPass(index))
            &&& v3.state == RenderingState::Deferred
            &&& v3.recording
            &&& !v3.stale
        }),
{
}

/// A pending swapchain rebuild is never lost: the swapchain stays stale
/// until a rebuild is reported, whatever else happens, and beginning a frame
/// on a stale swapchain rebuilds it before acquiring an image.
pub proof fn lemma_stale_until_rebuilt(v: FrameView, input: FrameInput)
    requires
        v.wf(),
        v.stale,
    ensures
        !(input matches FrameInput::Recreated(true)) ==> step(v, input).0.stale,
        (v.state is Stopped || v.state is WaitingRedraw) ==> step(v, FrameInput::BeginFrame).1
            == Ok::<FrameAction, RenderingError>(FrameAction::RecreateSwapchain),
{
}

/// An out-of-date image acquisition rebuilds the swapchain once, at once,
/// and the frame fails with `NoImage`: the orchestrator ends `Stopped`, or
/// `WaitingRedraw` when the rebuild was skipped.
pub proof fn lemma_out_of_date_acquire(v: FrameView, rebuilt: bool)
    requires
        v.wf(),
        v.state is Stopped,
        !v.stale,
    ensures
        ({
            let (v1, r1) = step(v, FrameInput::BeginFrame);
            let (v2, r2) = step(v1, FrameInput::Acquired(AcquireOutcome::OutOfDate));
            let (v3, r3) = step(v2, FrameInput::Recreated(rebuilt));
            &&& r1 == Ok::<FrameAction, RenderingError>(FrameAction::AcquireImage)
            &&& r2 == Ok::<FrameAction, RenderingError>(FrameAction::RecreateSwapchain)
            &&& r3 == Err::<FrameAction, RenderingError>(RenderingError::NoImage)
            &&& v3.state == (if rebuilt {
                RenderingState::Stopped
            } else {
                RenderingState::WaitingRedraw
            })
            &&& v3.stale == !rebuilt
            &&& !v3.recording
            &&& v3.awaiting == Awaiting::Nothing
        }),
{
}

/// Ending a frame from `Directional` goes back to `Stopped`, and a
/// successful present leaves it there; a rebuild deferred during the frame
/// stays pending.
pub proof fn lemma_end_frame_stops(v: FrameView)
    requires
        v.wf(),
        v.state is Directional,
    ensures
        ({
            let (v1, r1) = step(v, FrameInput::EndFrame);
            let (v2, r2) = step(v1, FrameInput::Presented(PresentOutcome::Presented));
            &&& r1 == Ok::<FrameAction, RenderingError>(FrameAction::SubmitAndPresent(v.image.unwrap()))
            &&& r2 == Ok::<FrameAction, RenderingError>(FrameAction::Done)
            &&& v1.state == RenderingState::Stopped
            &&& v2.state == RenderingState::Stopped
            &&& v2.stale == v.stale
            &&& !v2.recording
        }),
{
}

/// Every transition keeps the invariant.
pub proof fn lemma_step_wf(v: FrameView, input: FrameInput)
    requires
        v.wf(),
    ensures
        step(v, input).0.wf(),
{
}

} // verus!
