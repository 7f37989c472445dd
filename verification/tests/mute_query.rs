use mic_overlay::audio::AudioSystemSnapshot;
use mic_overlay::audio::CaptureEndpoint;
use mic_overlay::audio::DeviceRole;
use mic_overlay::audio::PlatformAudioError;
use mic_overlay::audio::default_capture_endpoint;
use mic_overlay::audio::format_mic_status;
use mic_overlay::audio::get_default_mic_mute_status;
use mic_overlay::audio::get_mic_status;

fn endpoint(muted: bool) -> CaptureEndpoint {
    CaptureEndpoint { has_mute_control: true, mute_readable: true, muted }
}

fn healthy_snapshot(muted: bool) -> AudioSystemSnapshot {
    AudioSystemSnapshot {
        enumerator_available: true,
        console_capture: Some(endpoint(muted)),
        communications_capture: None,
        multimedia_capture: None,
    }
}

#[test]
fn muted_device_reports_true() {
    let snap = healthy_snapshot(true);
    assert_eq!(get_default_mic_mute_status(&snap), Ok(true));
    assert_eq!(get_mic_status(&snap), "true");
}

#[test]
fn unmuted_device_reports_false() {
    let snap = healthy_snapshot(false);
    assert_eq!(get_default_mic_mute_status(&snap), Ok(false));
    assert_eq!(get_mic_status(&snap), "false");
}

#[test]
fn unreachable_subsystem_reports_marked_error() {
    let snap = AudioSystemSnapshot {
        enumerator_available: false,
        console_capture: Some(endpoint(true)),
        communications_capture: None,
        multimedia_capture: None,
    };
    assert_eq!(
        get_default_mic_mute_status(&snap),
        Err(PlatformAudioError::SubsystemUnreachable)
    );
    let status = get_mic_status(&snap);
    assert!(status.starts_with("Error: "));
    assert!(status.len() > "Error: ".len());
}

#[test]
fn no_default_device_is_error_not_boolean() {
    let snap = AudioSystemSnapshot {
        enumerator_available: true,
        console_capture: None,
        communications_capture: Some(endpoint(true)),
        multimedia_capture: Some(endpoint(false)),
    };
    assert_eq!(
        get_default_mic_mute_status(&snap),
        Err(PlatformAudioError::NoDefaultCaptureDevice)
    );
    let status = get_mic_status(&snap);
    assert_ne!(status, "true");
    assert_ne!(status, "false");
    assert!(status.starts_with("Error: "));
}

#[test]
fn missing_mute_control_reports_its_error() {
    let snap = AudioSystemSnapshot {
        enumerator_available: true,
        console_capture: Some(CaptureEndpoint {
            has_mute_control: false,
            mute_readable: false,
            muted: false,
        }),
        communications_capture: None,
        multimedia_capture: None,
    };
    assert_eq!(
        get_default_mic_mute_status(&snap),
        Err(PlatformAudioError::MuteControlUnavailable)
    );
}

#[test]
fn failed_mute_read_reports_its_error() {
    let snap = AudioSystemSnapshot {
        enumerator_available: true,
        console_capture: Some(CaptureEndpoint {
            has_mute_control: true,
            mute_readable: false,
            muted: false,
        }),
        communications_capture: None,
        multimedia_capture: None,
    };
    assert_eq!(
        get_default_mic_mute_status(&snap),
        Err(PlatformAudioError::MuteReadFailed)
    );
}

#[test]
fn repeated_queries_return_the_same_outcome() {
    let snap = healthy_snapshot(true);
    let first = get_default_mic_mute_status(&snap);
    for _ in 0..5 {
        assert_eq!(get_default_mic_mute_status(&snap), first);
        assert_eq!(get_mic_status(&snap), "true");
    }
}

#[test]
fn query_targets_the_console_role_device() {
    // Three roles name three different devices; only the console one is muted.
    let snap = AudioSystemSnapshot {
        enumerator_available: true,
        console_capture: Some(endpoint(true)),
        communications_capture: Some(endpoint(false)),
        multimedia_capture: Some(endpoint(false)),
    };
    assert_eq!(get_default_mic_mute_status(&snap), Ok(true));
    assert_eq!(
        default_capture_endpoint(&snap, DeviceRole::Console),
        Some(endpoint(true))
    );
    assert_eq!(
        default_capture_endpoint(&snap, DeviceRole::Communications),
        Some(endpoint(false))
    );
    assert_eq!(
        default_capture_endpoint(&snap, DeviceRole::Multimedia),
        Some(endpoint(false))
    );
}

#[test]
fn error_messages_name_each_failed_step() {
    let errors = [
        PlatformAudioError::SubsystemUnreachable,
        PlatformAudioError::NoDefaultCaptureDevice,
        PlatformAudioError::MuteControlUnavailable,
        PlatformAudioError::MuteReadFailed,
    ];
    let mut seen: Vec<String> = Vec::new();
    for e in errors {
        let rendered = format_mic_status(&Err(e));
        assert!(rendered.starts_with("Error: "));
        assert!(rendered.len() > "Error: ".len());
        assert!(!seen.contains(&rendered));
        seen.push(rendered);
    }
}

#[test]
fn formatted_outcomes_are_distinct() {
    let muted = format_mic_status(&Ok(true));
    let unmuted = format_mic_status(&Ok(false));
    let failed = format_mic_status(&Err(PlatformAudioError::SubsystemUnreachable));
    assert_eq!(muted, "true");
    assert_eq!(unmuted, "false");
    assert_ne!(muted, unmuted);
    assert_ne!(muted, failed);
    assert_ne!(unmuted, failed);
}
