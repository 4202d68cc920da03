//! The supervisor that owns the upscale worker, as a state machine: each
//! message or supervision event gives the next state and the one action to
//! carry out.

use vstd::prelude::*;
use image::ImageFormat;
use crate::config::app_config::{AppConfig, EnabledUpscaler};
use crate::models::errors::UpscaleError;
use crate::upscaler::upscaler::{upscale, upscale_outcome, Upscaler, UpscalerConfig};

verus! {

/// What the supervisor is asked to do. `J` is what an upscale request
/// carries: the image, and whatever the answer is to be sent through.
pub enum UpscaleSupervisorMessage<J> {
    /// Upscale what this request carries.
    Upscale(J),
    /// Load an engine for this configuration.
    Init(AppConfig),
    /// Unload the engine.
    Destroy,
}

/// What the worker is asked to do.
pub enum UpscaleMessage<J> {
    Upscale(J),
}

/// What the runtime tells the supervisor about its worker.
pub enum SupervisionEvent {
    /// The worker terminated abnormally.
    ActorPanicked,
    /// Anything else: the worker started, or stopped as asked.
    Other,
}

/// Whether an engine is loaded.
#[derive(Debug, Copy, Clone, PartialEq, Eq, Structural)]
pub enum WorkerState {
    Uninitialized,
    Ready,
}

/// What the supervisor knows: the configuration of the live worker, if
/// there is one.
pub struct SupervisorState {
    pub config: Option<AppConfig>,
}

/// The one thing to do after a message or event.
pub enum SupervisorAction<J> {
    Nothing,
    /// Hand the request to the live worker.
    Forward(UpscaleMessage<J>),
    /// Answer this request with this error.
    Refuse(J, UpscaleError),
    /// Start a worker with this configuration.
    Start(AppConfig),
    /// Stop the live worker, then start one with this configuration.
    Replace(AppConfig),
    /// Stop the live worker.
    Stop,
}

impl SupervisorState {
    /// Whether a worker is live.
    pub open spec fn worker(&self) -> WorkerState {
        if self.config is Some {
            WorkerState::Ready
        } else {
            WorkerState::Uninitialized
        }
    }

    /// Whether a worker is live.
    pub fn worker_state(&self) -> (r: WorkerState)
        ensures
            r == self.worker(),
    {
        match &self.config {
            Some(_) => WorkerState::Ready,
            None => WorkerState::Uninitialized,
        }
    }
}

/// The message refused requests are answered with.
pub open spec fn not_initialized() -> Seq<char> {
    "Upscale Actor is not Initialized"@
}

/// The state after a message: `Init` makes the worker ready with the new
/// configuration, `Destroy` leaves none, `Upscale` changes nothing.
pub open spec fn state_after<J>(
    state: SupervisorState,
    message: UpscaleSupervisorMessage<J>,
) -> SupervisorState {
    match message {
        UpscaleSupervisorMessage::Upscale(_) => state,
        UpscaleSupervisorMessage::Init(config) => SupervisorState { config: Some(config) },
        UpscaleSupervisorMessage::Destroy => SupervisorState { config: None },
    }
}

/// `action` is what a message calls for in `state`.
pub open spec fn action_for<J>(
    state: SupervisorState,
    message: UpscaleSupervisorMessage<J>,
    action: SupervisorAction<J>,
) -> bool {
    match message {
        UpscaleSupervisorMessage::Upscale(job) => match state.worker() {
            WorkerState::Ready => action == SupervisorAction::Forward(UpscaleMessage::Upscale(job)),
            WorkerState::Uninitialized => action is Refuse && action->Refuse_0 == job
                && action->Refuse_1.message@ == not_initialized(),
        },
        UpscaleSupervisorMessage::Init(config) => match state.worker() {
            WorkerState::Ready => action == SupervisorAction::<J>::Replace(config),
            WorkerState::Uninitialized => action == SupervisorAction::<J>::Start(config),
        },
        UpscaleSupervisorMessage::Destroy => match state.worker() {
            WorkerState::Ready => action is Stop,
            WorkerState::Uninitialized => action is Nothing,
        },
    }
}

/// `action` is what a supervision event calls for in `state`: a worker that
/// terminated abnormally is started again with the configuration it had.
pub open spec fn reaction_for<J>(
    state: SupervisorState,
    event: SupervisionEvent,
    action: SupervisorAction<J>,
) -> bool {
    match event {
        SupervisionEvent::ActorPanicked => match state.config {
            Some(config) => action == SupervisorAction::<J>::Start(config),
            None => action is Nothing,
        },
        SupervisionEvent::Other => action is Nothing,
    }
}

/// The supervisor of the upscale worker.
pub struct UpscaleSupervisorActor;

impl UpscaleSupervisorActor {
    /// The state a supervisor starts in: no worker.
    pub fn pre_start(&self) -> (r: SupervisorState)
        ensures
            r.worker() == WorkerState::Uninitialized,
    {
        SupervisorState { config: None }
    }

    /// Handles one message.
    pub fn handle<J>(&self, message: UpscaleSupervisorMessage<J>, state: &mut SupervisorState) -> (r:
        SupervisorAction<J>)
        ensures
            *final(state) == state_after(*old(state), message),
            action_for(*old(state), message, r),
    {
        match message {
            UpscaleSupervisorMessage::Upscale(job) => match &state.config {
                None => SupervisorAction::Refuse(
                    job,
                    UpscaleError { message: String::from_str("Upscale Actor is not Initialized") },
                ),
                Some(_) => SupervisorAction::Forward(UpscaleMessage::Upscale(job)),
            },
            UpscaleSupervisorMessage::Init(config) => {
                let was = state.worker_state();
                let copy = config.duplicate();
                state.config = Some(config);
                match was {
                    WorkerState::Ready => SupervisorAction::Replace(copy),
                    WorkerState::Uninitialized => SupervisorAction::Start(copy),
                }
            },
            UpscaleSupervisorMessage::Destroy => {
                let was = state.worker_state();
                state.config = None;
                match was {
                    WorkerState::Ready => SupervisorAction::Stop,
                    WorkerState::Uninitialized => SupervisorAction::Nothing,
                }
            },
        }
    }

    /// Handles one supervision event. The state stays as it is.
    pub fn handle_supervisor_evt<J>(&self, message: SupervisionEvent, state: &mut SupervisorState) -> (r:
        SupervisorAction<J>)
        ensures
            *final(state) == *old(state),
            reaction_for(*old(state), message, r),
    {
        match message {
            SupervisionEvent::ActorPanicked => match &state.config {
                None => SupervisorAction::Nothing,
                Some(config) => SupervisorAction::Start(config.duplicate()),
            },
            SupervisionEvent::Other => SupervisorAction::Nothing,
        }
    }
}

/// The worker that owns one engine.
pub struct UpscaleActor;

impl UpscaleActor {
    /// The engine that a worker loads for `config`.
    pub fn pre_start(&self, config: &AppConfig) -> (r: EnabledUpscaler)
        ensures
            r == config.upscaler,
    {
        config.upscaler
    }

    /// Handles one request for image bytes with the worker's engine.
    pub fn handle<U: Upscaler>(
        &self,
        message: UpscaleMessage<(Vec<u8>, ImageFormat)>,
        state: &U,
        config: UpscalerConfig,
    ) -> (r: Result<(Vec<u8>, ImageFormat), UpscaleError>)
        ensures
            message matches UpscaleMessage::Upscale((image, format)) && upscale_outcome(
                config,
                image,
                format,
                r,
            ),
    {
        match message {
            UpscaleMessage::Upscale((image, format)) => upscale(state, config, image, format),
        }
    }
}

/// A worker that fails is started again with the configuration it had, and
/// the next request goes to it: after the restart event the supervisor is
/// still ready, with the same configuration, and forwards.
pub proof fn lemma_restart_keeps_configuration<J>(
    state: SupervisorState,
    restart: SupervisorAction<J>,
    job: J,
    next: SupervisorAction<J>,
)
    requires
        state.worker() == WorkerState::Ready,
        reaction_for(state, SupervisionEvent::ActorPanicked, restart),
        action_for(state, UpscaleSupervisorMessage::Upscale(job), next),
    ensures
        restart == SupervisorAction::<J>::Start(state.config->Some_0),
        next == SupervisorAction::Forward(UpscaleMessage::Upscale(job)),
{
}

/// A request is handed to a worker only while one is live: whatever the
/// state, an `Upscale` message is forwarded exactly when the worker is
/// ready, and refused otherwise.
pub proof fn lemma_forward_only_when_ready<J>(state: SupervisorState, job: J, action: SupervisorAction<J>)
    requires
        action_for(state, UpscaleSupervisorMessage::Upscale(job), action),
    ensures
        action is Forward == (state.worker() == WorkerState::Ready),
        action is Refuse == (state.worker() == WorkerState::Uninitialized),
        !(action is Start) && !(action is Replace) && !(action is Stop) && !(action is Nothing),
{
}

/// During a reload no request reaches a worker that is being torn down:
/// once `Destroy` is handled every request is refused until `Init` is
/// handled, and from then on requests go to a worker with the new
/// configuration.
pub proof fn lemma_reload_is_clean<J>(
    state: SupervisorState,
    config: AppConfig,
    job: J,
    between: SupervisorAction<J>,
    start: SupervisorAction<J>,
    afterwards: SupervisorAction<J>,
)
    requires
        action_for(
            state_after(state, UpscaleSupervisorMessage::<J>::Destroy),
            UpscaleSupervisorMessage::Upscale(job),
            between,
        ),
        action_for(
            state_after(state, UpscaleSupervisorMessage::<J>::Destroy),
            UpscaleSupervisorMessage::Init(config),
            start,
        ),
        action_for(
            state_after(
                state_after(state, UpscaleSupervisorMessage::<J>::Destroy),
                UpscaleSupervisorMessage::<J>::Init(config),
            ),
            UpscaleSupervisorMessage::Upscale(job),
            afterwards,
        ),
    ensures
        between is Refuse,
        start == SupervisorAction::<J>::Start(config),
        afterwards is Forward,
        state_after(
            state_after(state, UpscaleSupervisorMessage::<J>::Destroy),
            UpscaleSupervisorMessage::<J>::Init(config),
        ).config == Some(config),
{
}

} // verus!
