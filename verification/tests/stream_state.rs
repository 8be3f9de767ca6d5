//! Stream control, callback registration, and the read-only views.

use rsoundio::{
    error_wrapper, underflow_wrapper, write_wrapper, NativeOutStream, OutStream, SioError,
    SioFormat,
};

fn mono() -> OutStream {
    OutStream::new(NativeOutStream::interleaved(1, 4, 48000, SioFormat::Float32LE))
}

#[test]
fn new_stream_has_no_callbacks() {
    let out = mono();
    assert_eq!(out.callbacks.write, None);
    assert_eq!(out.callbacks.underflow, None);
    assert_eq!(out.callbacks.error, None);
}

#[test]
fn open_and_start_succeed_and_mark_the_stream() {
    let mut out = mono();
    assert_eq!(out.open(), None);
    assert!(out.stream.opened);
    assert_eq!(out.start(), None);
    assert!(out.stream.started);
}

#[test]
fn open_fault_comes_back_and_leaves_the_stream_closed() {
    let mut out = mono();
    out.stream.fault = Some(SioError::OpeningDevice);
    assert_eq!(out.open(), Some(SioError::OpeningDevice));
    assert!(!out.stream.opened);
}

#[test]
fn registering_a_role_twice_replaces_the_callback() {
    let mut out = mono();
    out.register_write_callback(7);
    out.register_write_callback(9);
    assert_eq!(out.callbacks.write, Some(9));
    assert_eq!(out.callbacks.underflow, None);
    assert_eq!(out.callbacks.error, None);
}

#[test]
fn roles_are_registered_independently() {
    let mut out = mono();
    out.register_write_callback(1);
    out.register_underflow_callback(2);
    out.register_error_callback(3);
    assert_eq!(out.callbacks.write, Some(1));
    assert_eq!(out.callbacks.underflow, Some(2));
    assert_eq!(out.callbacks.error, Some(3));
    assert!(out.stream.write_cb_installed);
    assert!(out.stream.underflow_cb_installed);
    assert!(out.stream.error_cb_installed);
    assert!(out.stream.userdata_installed);
}

#[test]
fn trampolines_hand_events_to_the_registered_callbacks() {
    let mut out = mono();
    out.register_write_callback(11);
    out.register_underflow_callback(12);
    out.register_error_callback(13);
    assert_eq!(write_wrapper(&out), Some(11));
    assert_eq!(underflow_wrapper(&out), Some(12));
    assert_eq!(error_wrapper(&out), Some(13));
}

#[test]
fn replaced_callback_never_sees_another_event() {
    let mut out = mono();
    out.register_write_callback(21);
    out.register_write_callback(22);
    assert_eq!(write_wrapper(&out), Some(22));
}

#[test]
fn pause_and_resume_toggle_the_flag() {
    let mut out = mono();
    assert_eq!(out.pause(true), None);
    assert!(out.stream.paused);
    assert_eq!(out.pause(false), None);
    assert!(!out.stream.paused);
}

#[test]
fn pause_fault_comes_back_verbatim() {
    let mut out = mono();
    out.stream.fault = Some(SioError::Streaming);
    assert_eq!(out.pause(true), Some(SioError::Streaming));
    assert!(!out.stream.paused);
}

#[test]
fn clear_buffer_reports_the_fault_setting() {
    let mut out = mono();
    assert_eq!(out.clear_buffer(), None);
    out.stream.fault = Some(SioError::Underflow);
    assert_eq!(out.clear_buffer(), Some(SioError::Underflow));
}

#[test]
fn latency_is_reported_or_fails() {
    let mut out = mono();
    out.stream.latency_frames = 480;
    assert_eq!(out.get_latency(), Ok(480));
    out.stream.fault = Some(SioError::BackendDisconnected);
    assert_eq!(out.get_latency(), Err(SioError::BackendDisconnected));
}

#[test]
fn current_format_maps_the_invalid_sentinel_to_an_error() {
    let mut out = mono();
    out.stream.format = SioFormat::Invalid;
    assert_eq!(out.current_format(), Err(SioError::Invalid));
}

#[test]
fn current_format_hands_any_other_format_out() {
    let out = mono();
    assert_eq!(out.current_format(), Ok(SioFormat::Float32LE));
}

#[test]
fn layout_and_sample_rate_are_read_from_the_handle() {
    let out = OutStream::new(NativeOutStream::interleaved(6, 2, 96000, SioFormat::S32LE));
    assert_eq!(out.get_layout().channel_count(), 6);
    assert_eq!(out.get_sample_rate(), 96000);
}

#[test]
fn get_device_takes_exactly_one_reference_per_call() {
    let mut out = mono();
    out.stream.device_id = 42;
    assert_eq!(out.stream.device_refs, 0);
    let d1 = out.get_device();
    assert_eq!(out.stream.device_refs, 1);
    let d2 = out.get_device();
    assert_eq!(out.stream.device_refs, 2);
    assert_eq!(d1.id, 42);
    assert_eq!(d2.id, 42);
}

#[test]
fn destroy_tears_the_stream_down() {
    let mut out = mono();
    out.destroy();
    assert!(out.stream.destroyed);
}
