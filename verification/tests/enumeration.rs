//! Device enumeration, loopback session logic and log locations.

use capture_core::device::list_devices;
use capture_core::loopback::{
    accept_packet, negotiated_remote_config, packet_buffer, poll_action, provisional_remote_config,
    PollAction,
};
use capture_core::paths::{desktop_log_path, log_dir, sidecar_log_path};
use capture_core::types::DeviceType;

#[test]
fn zero_devices_yield_an_empty_list() {
    let devices = list_devices(&vec![], &None);
    assert!(devices.is_empty());
}

#[test]
fn unreadable_names_are_skipped() {
    let names = vec![
        Some("Microphone A".to_string()),
        None,
        Some("Microphone B".to_string()),
    ];
    let devices = list_devices(&names, &Some("Microphone B".to_string()));
    assert_eq!(devices.len(), 2);
    assert_eq!(devices[0].name, "Microphone A");
    assert!(!devices[0].is_default);
    assert_eq!(devices[1].name, "Microphone B");
    assert!(devices[1].is_default);
    assert_eq!(devices[0].device_type, DeviceType::Input);
    assert_eq!(devices[1].device_type, DeviceType::Input);
}

#[test]
fn without_a_default_no_device_is_flagged() {
    let names = vec![Some("A".to_string()), Some("B".to_string())];
    let devices = list_devices(&names, &None);
    assert_eq!(devices.len(), 2);
    assert!(devices.iter().all(|d| !d.is_default));
}

#[test]
fn all_names_unreadable_yield_an_empty_list() {
    let devices = list_devices(&vec![None, None, None], &Some("A".to_string()));
    assert!(devices.is_empty());
}

#[test]
fn poll_checks_the_flag_before_anything_else() {
    assert_eq!(poll_action(false, 0), PollAction::Stop);
    assert_eq!(poll_action(false, 500), PollAction::Stop);
    assert_eq!(poll_action(true, 0), PollAction::Wait);
    assert_eq!(poll_action(true, 1), PollAction::Read);
    assert_eq!(poll_action(true, 500), PollAction::Read);
}

#[test]
fn remote_configs_carry_the_remote_label() {
    let provisional = provisional_remote_config();
    assert_eq!(provisional.sample_rate, 48000);
    assert_eq!(provisional.channels, 2);
    assert_eq!(provisional.speaker, "remote");
    let negotiated = negotiated_remote_config(44100, 6);
    assert_eq!(negotiated.sample_rate, 44100);
    assert_eq!(negotiated.channels, 6);
    assert_eq!(negotiated.speaker, "remote");
}

#[test]
fn packet_buffers_are_zeroed_and_frame_aligned() {
    let b = packet_buffer(3, 4);
    assert_eq!(b.len(), 12);
    assert!(b.iter().all(|&x| x == 0));
    assert_eq!(packet_buffer(0, 4).len(), 0);
}

#[test]
fn packets_truncate_to_the_frames_actually_read() {
    let buffer: Vec<u8> = (0u8..12).collect();
    let chunk = accept_packet(buffer, 2, 4).unwrap();
    assert_eq!(chunk.speaker, "remote");
    assert_eq!(chunk.data, vec![0, 1, 2, 3, 4, 5, 6, 7]);
}

#[test]
fn an_empty_packet_yields_no_chunk() {
    let buffer = vec![0u8; 16];
    assert!(accept_packet(buffer, 0, 4).is_none());
}

#[test]
fn log_files_live_under_the_log_directory() {
    assert_eq!(log_dir(), "projects/logs");
    assert_eq!(desktop_log_path(), "projects/logs/desktop.log");
    assert_eq!(sidecar_log_path(), "projects/logs/api.log");
}
