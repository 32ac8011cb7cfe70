use goose_dsp::config::{ConfigRange, SampleFormat, StreamConfig};
use goose_dsp::setup::{step, SetupAction, SetupEvent, SetupState, StreamError, Transition};

fn stereo(rate: u32) -> ConfigRange {
    ConfigRange {
        channels: 2,
        sample_format: SampleFormat::I32,
        min_sample_rate: rate,
        max_sample_rate: rate,
    }
}

fn config(rate: u32) -> StreamConfig {
    StreamConfig { channels: 2, sample_format: SampleFormat::I32, sample_rate: rate }
}

fn failed(error: StreamError) -> Transition {
    Transition { state: SetupState::Failed { error }, action: SetupAction::Abort { error } }
}

fn stay(state: SetupState) -> Transition {
    Transition { state, action: SetupAction::Nothing }
}

fn listed(rate: u32) -> SetupEvent {
    SetupEvent::ConfigsListed { inputs: vec![stereo(rate)], outputs: vec![stereo(rate)] }
}

#[test]
fn a_setup_runs_after_every_piece_of_work_succeeded() {
    let c = config(44100);
    let t = step(SetupState::Idle, &SetupEvent::Requested { device_selected: true, sample_rate: 44100 });
    assert_eq!(
        t,
        Transition {
            state: SetupState::FindingDevice { sample_rate: 44100 },
            action: SetupAction::FindDevice
        }
    );
    let t = step(t.state, &SetupEvent::DeviceLookedUp { found: true });
    assert_eq!(
        t,
        Transition {
            state: SetupState::Negotiating { sample_rate: 44100 },
            action: SetupAction::ListConfigs
        }
    );
    let t = step(t.state, &listed(44100));
    assert_eq!(
        t,
        Transition {
            state: SetupState::BuildingCapture { config: c },
            action: SetupAction::BuildCapture { config: c }
        }
    );
    let t = step(t.state, &SetupEvent::Built { ok: true });
    assert_eq!(
        t,
        Transition {
            state: SetupState::BuildingRender { config: c },
            action: SetupAction::BuildRender { config: c }
        }
    );
    let t = step(t.state, &SetupEvent::Built { ok: true });
    assert_eq!(
        t,
        Transition {
            state: SetupState::StartingCapture { config: c },
            action: SetupAction::StartCapture
        }
    );
    let t = step(t.state, &SetupEvent::Started { ok: true });
    assert_eq!(
        t,
        Transition {
            state: SetupState::StartingRender { config: c },
            action: SetupAction::StartRender
        }
    );
    let t = step(t.state, &SetupEvent::Started { ok: true });
    assert_eq!(
        t,
        Transition { state: SetupState::Running { config: c }, action: SetupAction::Install { config: c } }
    );
    assert_eq!(t.state.running_config(), Some(c));
    assert_eq!(t.state.error(), None);
}

#[test]
fn a_request_without_a_device_fails() {
    let t = step(SetupState::Idle, &SetupEvent::Requested { device_selected: false, sample_rate: 44100 });
    assert_eq!(t, failed(StreamError::NoDeviceSelected));
    assert_eq!(t.state.error(), Some(StreamError::NoDeviceSelected));
    assert_eq!(t.state.running_config(), None);
}

#[test]
fn a_missing_device_fails() {
    let t = step(
        SetupState::FindingDevice { sample_rate: 48000 },
        &SetupEvent::DeviceLookedUp { found: false },
    );
    assert_eq!(t, failed(StreamError::DeviceNotFound));
}

#[test]
fn a_device_without_a_common_configuration_fails() {
    let state = SetupState::Negotiating { sample_rate: 48000 };
    assert_eq!(step(state, &listed(44100)), failed(StreamError::NoSupportedConfig));
    let event = SetupEvent::ConfigsListed { inputs: vec![stereo(48000)], outputs: vec![stereo(44100)] };
    assert_eq!(step(state, &event), failed(StreamError::NoSupportedConfig));
    let event = SetupEvent::ConfigsListed { inputs: Vec::new(), outputs: Vec::new() };
    assert_eq!(step(state, &event), failed(StreamError::NoSupportedConfig));
}

#[test]
fn a_refused_build_fails() {
    let c = config(44100);
    assert_eq!(
        step(SetupState::BuildingCapture { config: c }, &SetupEvent::Built { ok: false }),
        failed(StreamError::CaptureBuildFailed)
    );
    assert_eq!(
        step(SetupState::BuildingRender { config: c }, &SetupEvent::Built { ok: false }),
        failed(StreamError::RenderBuildFailed)
    );
}

#[test]
fn a_failed_start_fails() {
    let c = config(44100);
    assert_eq!(
        step(SetupState::StartingCapture { config: c }, &SetupEvent::Started { ok: false }),
        failed(StreamError::CaptureStartFailed)
    );
    assert_eq!(
        step(SetupState::StartingRender { config: c }, &SetupEvent::Started { ok: false }),
        failed(StreamError::RenderStartFailed)
    );
}

#[test]
fn a_failed_setup_is_not_retried() {
    let state = SetupState::Failed { error: StreamError::CaptureBuildFailed };
    assert_eq!(step(state, &SetupEvent::DeviceLookedUp { found: true }), stay(state));
    assert_eq!(step(state, &listed(44100)), stay(state));
    assert_eq!(step(state, &SetupEvent::Built { ok: true }), stay(state));
    assert_eq!(step(state, &SetupEvent::Started { ok: true }), stay(state));
}

#[test]
fn a_request_starts_over_from_any_state() {
    let c = config(44100);
    let states = [
        SetupState::Idle,
        SetupState::FindingDevice { sample_rate: 44100 },
        SetupState::Negotiating { sample_rate: 44100 },
        SetupState::BuildingCapture { config: c },
        SetupState::BuildingRender { config: c },
        SetupState::StartingCapture { config: c },
        SetupState::StartingRender { config: c },
        SetupState::Running { config: c },
        SetupState::Failed { error: StreamError::DeviceNotFound },
    ];
    for state in states {
        assert_eq!(
            step(state, &SetupEvent::Requested { device_selected: true, sample_rate: 96000 }),
            Transition {
                state: SetupState::FindingDevice { sample_rate: 96000 },
                action: SetupAction::FindDevice
            }
        );
        assert_eq!(
            step(state, &SetupEvent::Requested { device_selected: false, sample_rate: 96000 }),
            failed(StreamError::NoDeviceSelected)
        );
    }
}

#[test]
fn events_out_of_turn_change_nothing() {
    let c = config(44100);
    let running = SetupState::Running { config: c };
    assert_eq!(step(running, &SetupEvent::Built { ok: false }), stay(running));
    assert_eq!(step(running, &SetupEvent::Started { ok: false }), stay(running));
    assert_eq!(step(running, &listed(48000)), stay(running));
    let building = SetupState::BuildingCapture { config: c };
    assert_eq!(step(building, &SetupEvent::Started { ok: true }), stay(building));
    assert_eq!(step(building, &SetupEvent::DeviceLookedUp { found: false }), stay(building));
    let idle = SetupState::Idle;
    assert_eq!(step(idle, &SetupEvent::Built { ok: true }), stay(idle));
    let finding = SetupState::FindingDevice { sample_rate: 44100 };
    assert_eq!(step(finding, &listed(44100)), stay(finding));
}

#[test]
fn error_messages() {
    assert_eq!(StreamError::NoDeviceSelected.message(), "Please select a device");
    assert_eq!(StreamError::DeviceNotFound.message(), "Selected device not found");
    assert_eq!(StreamError::NoSupportedConfig.message(), "No supported config");
    assert_eq!(StreamError::CaptureBuildFailed.message(), "Failed to build input stream");
    assert_eq!(StreamError::RenderBuildFailed.message(), "Failed to build output stream");
    assert_eq!(StreamError::CaptureStartFailed.message(), "Failed to start input stream");
    assert_eq!(StreamError::RenderStartFailed.message(), "Failed to start output stream");
}
