//! Sequencing of stream setup.
//!
//! Building a duplex stream alternates between work on the device (looking
//! it up, listing its configurations, building and starting the two
//! streams) and decisions on what that work returned. The decisions are the
//! transition function of this module: it takes the state of a setup and the
//! outcome of the last piece of work, and gives the next state together with
//! the work to do next. Whoever owns the device carries the work out and
//! hands the outcome back.
//!
//! A setup that fails stays failed until a new request arrives; nothing is
//! retried on its own.

use crate::config::{
    is_duplex_choice, negotiate, ConfigRange, SampleFormat, StreamConfig, STEREO_CHANNELS,
};
use vstd::prelude::*;

verus! {

/// Why a setup did not lead to a running stream.
#[derive(Clone, Copy, Debug, PartialEq, Eq, Structural)]
pub enum StreamError {
    /// A stream was requested while no device was selected.
    NoDeviceSelected,
    /// The selected device is not among the devices of the host.
    DeviceNotFound,
    /// The device offers no configuration for capture and render alike.
    NoSupportedConfig,
    /// The device rejected the configuration when building the capture stream.
    CaptureBuildFailed,
    /// The device rejected the configuration when building the render stream.
    RenderBuildFailed,
    /// The capture stream was built but did not start.
    CaptureStartFailed,
    /// The render stream was built but did not start.
    RenderStartFailed,
}

impl StreamError {
    /// The message that tells the user of the error.
    pub open spec fn text(self) -> Seq<char> {
        match self {
            StreamError::NoDeviceSelected => "Please select a device"@,
            StreamError::DeviceNotFound => "Selected device not found"@,
            StreamError::NoSupportedConfig => "No supported config"@,
            StreamError::CaptureBuildFailed => "Failed to build input stream"@,
            StreamError::RenderBuildFailed => "Failed to build output stream"@,
            StreamError::CaptureStartFailed => "Failed to start input stream"@,
            StreamError::RenderStartFailed => "Failed to start output stream"@,
        }
    }

    /// The message that tells the user of the error.
    pub fn message(&self) -> (s: &'static str)
        ensures
            s@ == self.text(),
    {
        match self {
            StreamError::NoDeviceSelected => "Please select a device",
            StreamError::DeviceNotFound => "Selected device not found",
            StreamError::NoSupportedConfig => "No supported config",
            StreamError::CaptureBuildFailed => "Failed to build input stream",
            StreamError::RenderBuildFailed => "Failed to build output stream",
            StreamError::CaptureStartFailed => "Failed to start input stream",
            StreamError::RenderStartFailed => "Failed to start output stream",
        }
    }
}

/// Where a setup stands.
#[derive(Clone, Copy, Debug, PartialEq, Eq, Structural)]
pub enum SetupState {
    /// No stream has been requested.
    Idle,
    /// Waiting for the device lookup.
    FindingDevice { sample_rate: u32 },
    /// Waiting for the configurations of the device.
    Negotiating { sample_rate: u32 },
    /// Waiting for the capture stream to be built.
    BuildingCapture { config: StreamConfig },
    /// Waiting for the render stream to be built.
    BuildingRender { config: StreamConfig },
    /// Waiting for the capture stream to start.
    StartingCapture { config: StreamConfig },
    /// Waiting for the render stream to start.
    StartingRender { config: StreamConfig },
    /// Both streams run.
    Running { config: StreamConfig },
    /// The setup failed; no stream runs.
    Failed { error: StreamError },
}

impl SetupState {
    /// How many pieces of work on the device lie behind a state.
    pub open spec fn progress(self) -> nat {
        match self {
            SetupState::Idle => 0,
            SetupState::Failed { .. } => 0,
            SetupState::FindingDevice { .. } => 1,
            SetupState::Negotiating { .. } => 2,
            SetupState::BuildingCapture { .. } => 3,
            SetupState::BuildingRender { .. } => 4,
            SetupState::StartingCapture { .. } => 5,
            SetupState::StartingRender { .. } => 6,
            SetupState::Running { .. } => 7,
        }
    }

    /// The configuration that a state has settled on, if it has.
    pub open spec fn settled(self) -> Option<StreamConfig> {
        match self {
            SetupState::BuildingCapture { config } => Some(config),
            SetupState::BuildingRender { config } => Some(config),
            SetupState::StartingCapture { config } => Some(config),
            SetupState::StartingRender { config } => Some(config),
            SetupState::Running { config } => Some(config),
            _ => None,
        }
    }

    /// The configuration of the running stream; `None` while none runs.
    pub fn running_config(&self) -> (config: Option<StreamConfig>)
        ensures
            config == (match *self {
                SetupState::Running { config } => Some(config),
                _ => None,
            }),
    {
        match self {
            SetupState::Running { config } => Some(*config),
            _ => None,
        }
    }

    /// The error of a failed setup; `None` while it has not failed.
    pub fn error(&self) -> (error: Option<StreamError>)
        ensures
            error == (match *self {
                SetupState::Failed { error } => Some(error),
                _ => None,
            }),
    {
        match self {
            SetupState::Failed { error } => Some(*error),
            _ => None,
        }
    }
}

/// What happened on the device side.
pub enum SetupEvent {
    /// A stream was requested, or one of its settings changed.
    Requested { device_selected: bool, sample_rate: u32 },
    /// The selected device was looked up among the devices of the host.
    DeviceLookedUp { found: bool },
    /// The device listed the configurations it supports.
    ConfigsListed { inputs: Vec<ConfigRange>, outputs: Vec<ConfigRange> },
    /// The stream that was to be built was built, or the device refused.
    Built { ok: bool },
    /// The stream that was to be started started, or did not.
    Started { ok: bool },
}

/// The work to do next on the device side.
#[derive(Clone, Copy, Debug, PartialEq, Eq, Structural)]
pub enum SetupAction {
    /// Nothing: the event does not concern the setup as it stands.
    Nothing,
    /// Release the streams of an earlier setup and look the device up.
    FindDevice,
    /// List the capture and render configurations of the device.
    ListConfigs,
    /// Build the capture stream.
    BuildCapture { config: StreamConfig },
    /// Build the render stream.
    BuildRender { config: StreamConfig },
    /// Start the capture stream.
    StartCapture,
    /// Start the render stream.
    StartRender,
    /// Keep both streams: the stream runs.
    Install { config: StreamConfig },
    /// Discard whatever was built and surface the error.
    Abort { error: StreamError },
}

/// A next state with the work that leads on from it.
#[derive(Clone, Copy, Debug, PartialEq, Eq, Structural)]
pub struct Transition {
    pub state: SetupState,
    pub action: SetupAction,
}

/// The configuration that negotiation yields from the listed ranges, if any.
pub open spec fn negotiated(inputs: Seq<ConfigRange>, outputs: Seq<ConfigRange>, rate: u32) -> Option<
    StreamConfig,
> {
    if exists|k: int| 0 <= k < inputs.len() && is_duplex_choice(#[trigger] inputs[k], outputs, rate) {
        Some(
            StreamConfig {
                channels: STEREO_CHANNELS,
                sample_format: SampleFormat::I32,
                sample_rate: rate,
            },
        )
    } else {
        None
    }
}

/// The transition to a failed setup.
pub open spec fn failing(error: StreamError) -> Transition {
    Transition { state: SetupState::Failed { error }, action: SetupAction::Abort { error } }
}

/// The transition that leaves everything as it is.
pub open spec fn staying(state: SetupState) -> Transition {
    Transition { state, action: SetupAction::Nothing }
}

/// The transition function of stream setup.
///
/// A request starts a setup over from any state. Every other event counts
/// only in the state that waits for it: success moves one state on, failure
/// ends the setup with the error of that state.
pub open spec fn step_of(state: SetupState, event: SetupEvent) -> Transition {
    match event {
        SetupEvent::Requested { device_selected, sample_rate } => {
            if device_selected {
                Transition {
                    state: SetupState::FindingDevice { sample_rate },
                    action: SetupAction::FindDevice,
                }
            } else {
                failing(StreamError::NoDeviceSelected)
            }
        },
        SetupEvent::DeviceLookedUp { found } => match state {
            SetupState::FindingDevice { sample_rate } => {
                if found {
                    Transition {
                        state: SetupState::Negotiating { sample_rate },
                        action: SetupAction::ListConfigs,
                    }
                } else {
                    failing(StreamError::DeviceNotFound)
                }
            },
            _ => staying(state),
        },
        SetupEvent::ConfigsListed { inputs, outputs } => match state {
            SetupState::Negotiating { sample_rate } => match negotiated(inputs@, outputs@, sample_rate) {
                Some(config) => Transition {
                    state: SetupState::BuildingCapture { config },
                    action: SetupAction::BuildCapture { config },
                },
                None => failing(StreamError::NoSupportedConfig),
            },
            _ => staying(state),
        },
        SetupEvent::Built { ok } => match state {
            SetupState::BuildingCapture { config } => {
                if ok {
                    Transition {
                        state: SetupState::BuildingRender { config },
                        action: SetupAction::BuildRender { config },
                    }
                } else {
                    failing(StreamError::CaptureBuildFailed)
                }
            },
            SetupState::BuildingRender { config } => {
                if ok {
                    Transition {
                        state: SetupState::StartingCapture { config },
                        action: SetupAction::StartCapture,
                    }
                } else {
                    failing(StreamError::RenderBuildFailed)
                }
            },
            _ => staying(state),
        },
        SetupEvent::Started { ok } => match state {
            SetupState::StartingCapture { config } => {
                if ok {
                    Transition {
                        state: SetupState::StartingRender { config },
                        action: SetupAction::StartRender,
                    }
                } else {
                    failing(StreamError::CaptureStartFailed)
                }
            },
            SetupState::StartingRender { config } => {
                if ok {
                    Transition {
                        state: SetupState::Running { config },
                        action: SetupAction::Install { config },
                    }
                } else {
                    failing(StreamError::RenderStartFailed)
                }
            },
            _ => staying(state),
        },
    }
}

/// Takes one step of a setup: the next state and the work to do next.
pub fn step(state: SetupState, event: &SetupEvent) -> (next: Transition)
    ensures
        next == step_of(state, *event),
{
    let stay = Transition { state, action: SetupAction::Nothing };
    match event {
        SetupEvent::Requested { device_selected, sample_rate } => {
            if *device_selected {
                Transition {
                    state: SetupState::FindingDevice { sample_rate: *sample_rate },
                    action: SetupAction::FindDevice,
                }
            } else {
                fail(StreamError::NoDeviceSelected)
            }
        },
        SetupEvent::DeviceLookedUp { found } => match state {
            SetupState::FindingDevice { sample_rate } => {
                if *found {
                    Transition {
                        state: SetupState::Negotiating { sample_rate },
                        action: SetupAction::ListConfigs,
                    }
                } else {
                    fail(StreamError::DeviceNotFound)
                }
            },
            _ => stay,
        },
        SetupEvent::ConfigsListed { inputs, outputs } => match state {
            SetupState::Negotiating { sample_rate } => match negotiate(inputs, outputs, sample_rate) {
                Some(config) => Transition {
                    state: SetupState::BuildingCapture { config },
                    action: SetupAction::BuildCapture { config },
                },
                None => fail(StreamError::NoSupportedConfig),
            },
            _ => stay,
        },
        SetupEvent::Built { ok } => match state {
            SetupState::BuildingCapture { config } => {
                if *ok {
                    Transition {
                        state: SetupState::BuildingRender { config },
                        action: SetupAction::BuildRender { config },
                    }
                } else {
                    fail(StreamError::CaptureBuildFailed)
                }
            },
            SetupState::BuildingRender { config } => {
                if *ok {
                    Transition {
                        state: SetupState::StartingCapture { config },
                        action: SetupAction::StartCapture,
                    }
                } else {
                    fail(StreamError::RenderBuildFailed)
                }
            },
            _ => stay,
        },
        SetupEvent::Started { ok } => match state {
            SetupState::StartingCapture { config } => {
                if *ok {
                    Transition {
                        state: SetupState::StartingRender { config },
                        action: SetupAction::StartRender,
                    }
                } else {
                    fail(StreamError::CaptureStartFailed)
                }
            },
            SetupState::StartingRender { config } => {
                if *ok {
                    Transition {
                        state: SetupState::Running { config },
                        action: SetupAction::Install { config },
                    }
                } else {
                    fail(StreamError::RenderStartFailed)
                }
            },
            _ => stay,
        },
    }
}

/// The transition to a failed setup.
fn fail(error: StreamError) -> (next: Transition)
    ensures
        next == failing(error),
{
    Transition { state: SetupState::Failed { error }, action: SetupAction::Abort { error } }
}

/// The state that a setup reaches from `state` through `events`, in order.
pub open spec fn run_of(state: SetupState, events: Seq<SetupEvent>) -> SetupState
    decreases events.len(),
{
    if events.len() == 0 {
        state
    } else {
        step_of(run_of(state, events.drop_last()), events.last()).state
    }
}

/// Nothing is retried on its own: a failed setup stays failed, with its
/// error, under every event but a new request, and asks for no work.
pub proof fn lemma_failure_is_final(error: StreamError, event: SetupEvent)
    requires
        !(event is Requested),
    ensures
        step_of(SetupState::Failed { error }, event) == staying(SetupState::Failed { error }),
{
}

/// A running stream keeps running, with its configuration, under every
/// event but a new request.
pub proof fn lemma_running_is_stable(config: StreamConfig, event: SetupEvent)
    requires
        !(event is Requested),
    ensures
        step_of(SetupState::Running { config }, event) == staying(SetupState::Running { config }),
{
}

/// A request starts over from any state: the setup then looks the device up
/// at the requested rate, or fails at once where no device is selected.
pub proof fn lemma_request_starts_over(state: SetupState, device_selected: bool, sample_rate: u32)
    ensures
        step_of(state, SetupEvent::Requested { device_selected, sample_rate }) == if device_selected {
            Transition {
                state: SetupState::FindingDevice { sample_rate },
                action: SetupAction::FindDevice,
            }
        } else {
            failing(StreamError::NoDeviceSelected)
        },
{
}

/// No piece of work is skipped: a step leaves the state as it is, fails, or
/// moves on by one piece of work; a request leaves at most one behind it.
pub proof fn lemma_no_work_is_skipped(state: SetupState, event: SetupEvent)
    ensures
        ({
            let next = step_of(state, event).state;
            if event is Requested {
                next.progress() <= 1
            } else {
                next == state || next is Failed || next.progress() == state.progress() + 1
            }
        }),
{
}

/// A stream runs only after every piece of work was done: a setup that
/// starts without progress needs at least seven events to run.
pub proof fn lemma_running_takes_every_step(state: SetupState, events: Seq<SetupEvent>)
    ensures
        run_of(state, events).progress() <= state.progress() + events.len(),
    decreases events.len(),
{
    if events.len() > 0 {
        lemma_running_takes_every_step(state, events.drop_last());
        lemma_no_work_is_skipped(run_of(state, events.drop_last()), events.last());
    }
}

/// Where every piece of work succeeds, the stream runs: from any state, a
/// request with a device selected, followed by a found device, a listing
/// that negotiation accepts, two builds and two starts, ends in the running
/// state with the negotiated configuration.
pub proof fn lemma_success_ends_running(
    state: SetupState,
    sample_rate: u32,
    listed: SetupEvent,
    config: StreamConfig,
)
    requires
        listed matches SetupEvent::ConfigsListed { inputs, outputs } && negotiated(
            inputs@,
            outputs@,
            sample_rate,
        ) == Some(config),
    ensures
        run_of(
            state,
            seq![
                SetupEvent::Requested { device_selected: true, sample_rate },
                SetupEvent::DeviceLookedUp { found: true },
                listed,
                SetupEvent::Built { ok: true },
                SetupEvent::Built { ok: true },
                SetupEvent::Started { ok: true },
                SetupEvent::Started { ok: true },
            ],
        ) == (SetupState::Running { config }),
{
    let e0 = SetupEvent::Requested { device_selected: true, sample_rate };
    let e1 = SetupEvent::DeviceLookedUp { found: true };
    let e3 = SetupEvent::Built { ok: true };
    let e5 = SetupEvent::Started { ok: true };
    let t0 = Seq::<SetupEvent>::empty();
    let t1 = t0.push(e0);
    let t2 = t1.push(e1);
    let t3 = t2.push(listed);
    let t4 = t3.push(e3);
    let t5 = t4.push(e3);
    let t6 = t5.push(e5);
    let t7 = t6.push(e5);
    assert(t1.drop_last() =~= t0);
    assert(t2.drop_last() =~= t1);
    assert(t3.drop_last() =~= t2);
    assert(t4.drop_last() =~= t3);
    assert(t5.drop_last() =~= t4);
    assert(t6.drop_last() =~= t5);
    assert(t7.drop_last() =~= t6);
    assert(run_of(state, t0) == state);
    assert(run_of(state, t1) == SetupState::FindingDevice { sample_rate });
    assert(run_of(state, t2) == SetupState::Negotiating { sample_rate });
    assert(run_of(state, t3) == SetupState::BuildingCapture { config });
    assert(run_of(state, t4) == SetupState::BuildingRender { config });
    assert(run_of(state, t5) == SetupState::StartingCapture { config });
    assert(run_of(state, t6) == SetupState::StartingRender { config });
    assert(run_of(state, t7) == SetupState::Running { config });
    assert(t7 =~= seq![e0, e1, listed, e3, e3, e5, e5]);
}

/// The configuration is fixed once it is negotiated: as long as no new
/// request arrives, a step never changes the configuration that the state
/// has settled on.
pub proof fn lemma_config_is_fixed(state: SetupState, event: SetupEvent)
    requires
        !(event is Requested),
        state.settled() is Some,
    ensures
        ({
            let next = step_of(state, event).state;
            next.settled() is Some ==> next.settled() == state.settled()
        }),
{
}

/// Streams are kept exactly when the setup reaches the running state, which
/// it does only from the last start, and with the configuration settled on.
pub proof fn lemma_install_is_the_last_step(state: SetupState, event: SetupEvent, config: StreamConfig)
    ensures
        step_of(state, event).action == (SetupAction::Install { config }) <==> state == (
        SetupState::StartingRender { config }) && event == (SetupEvent::Started { ok: true }),
        step_of(state, event).action == (SetupAction::Install { config }) ==> step_of(
            state,
            event,
        ).state == (SetupState::Running { config }),
{
}

/// An error is surfaced exactly when a step ends in failure, and the error
/// surfaced is the error kept.
pub proof fn lemma_abort_means_failed(state: SetupState, event: SetupEvent, error: StreamError)
    ensures
        step_of(state, event).action == (SetupAction::Abort { error }) ==> step_of(state, event).state
            == (SetupState::Failed { error }),
        step_of(state, event).state == (SetupState::Failed { error }) ==> step_of(state, event).action
            == (SetupAction::Abort { error }) || state == (SetupState::Failed { error }),
{
}

/// A setup only ever builds a configuration that negotiation chose: two
/// channels of 32-bit integers at the requested rate, offered by the device
/// for capture and render alike.
pub proof fn lemma_built_config_was_negotiated(state: SetupState, event: SetupEvent, config: StreamConfig)
    requires
        step_of(state, event).action == (SetupAction::BuildCapture { config }),
    ensures
        state matches SetupState::Negotiating { sample_rate } && event matches SetupEvent::ConfigsListed {
            inputs,
            outputs,
        } && negotiated(inputs@, outputs@, sample_rate) == Some(config) && config.sample_rate
            == sample_rate && config.channels == STEREO_CHANNELS && config.sample_format
            == SampleFormat::I32,
{
}

} // verus!
