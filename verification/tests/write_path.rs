//! The buffered write path: validation, clamping, strided copying, and the
//! native errors it surfaces.

use rsoundio::{NativeOutStream, OutStream, SioError, SioFormat};

fn stereo(frames: usize) -> OutStream {
    OutStream::new(NativeOutStream::interleaved(2, frames, 44100, SioFormat::S16LE))
}

#[test]
fn too_few_buffers_is_invalid_without_native_calls() {
    let mut out = stereo(4);
    let r = out.write_stream(2, &vec![vec![1, 2, 3, 4]]);
    assert_eq!(r, Err(SioError::Invalid));
    assert_eq!(out.stream.begin_write_calls, 0);
    assert_eq!(out.stream.end_write_calls, 0);
    assert_eq!(out.stream.mem, vec![0; 8]);
}

#[test]
fn short_buffer_is_invalid_without_native_calls() {
    let mut out = stereo(4);
    let r = out.write_stream(3, &vec![vec![1, 2, 3, 4], vec![5, 6]]);
    assert_eq!(r, Err(SioError::Invalid));
    assert_eq!(out.stream.begin_write_calls, 0);
    assert_eq!(out.stream.end_write_calls, 0);
    assert_eq!(out.stream.mem, vec![0; 8]);
}

#[test]
fn negative_minimum_is_invalid() {
    let mut out = stereo(4);
    let r = out.write_stream(-1, &vec![vec![1, 2], vec![3, 4]]);
    assert_eq!(r, Err(SioError::Invalid));
    assert_eq!(out.stream.begin_write_calls, 0);
}

#[test]
fn interleaved_copy_writes_every_sample() {
    let mut out = stereo(2);
    let r = out.write_stream(2, &vec![vec![10, 20], vec![30, 40]]);
    assert_eq!(r, Ok(2));
    assert_eq!(out.stream.mem, vec![10, 30, 20, 40]);
    assert_eq!(out.stream.begin_write_calls, 1);
    assert_eq!(out.stream.end_write_calls, 1);
    assert!(!out.stream.in_write);
}

#[test]
fn granted_frames_below_request_are_copied_exactly() {
    // The backend accepts only two frames; five are offered.
    let mut out = stereo(2);
    let r = out.write_stream(1, &vec![vec![1, 2, 3, 4, 5], vec![6, 7, 8, 9, 10]]);
    assert_eq!(r, Ok(2));
    assert_eq!(out.stream.mem, vec![1, 6, 2, 7]);
}

#[test]
fn extra_buffers_beyond_channel_count_are_ignored() {
    let mut out = stereo(2);
    let r = out.write_stream(2, &vec![vec![1, 2], vec![3, 4], vec![9, 9]]);
    assert_eq!(r, Ok(2));
    assert_eq!(out.stream.mem, vec![1, 3, 2, 4]);
}

#[test]
fn strided_copy_respects_the_step() {
    // Two channels, two frames, a stride of three cells: channel 0 owns
    // cells 0 and 3, channel 1 owns cells 6 and 9; every other cell must
    // stay untouched.
    let native = NativeOutStream::strided(2, 2, 3, 44100, SioFormat::S16LE);
    let mut out = OutStream::new(native);
    let r = out.write_stream(2, &vec![vec![11, 22], vec![33, 44]]);
    assert_eq!(r, Ok(2));
    assert_eq!(out.stream.mem, vec![11, 0, 0, 22, 0, 0, 33, 0, 0, 44, 0, 0]);
}

#[test]
fn begin_write_fault_comes_back_verbatim() {
    let mut out = stereo(4);
    out.stream.fault = Some(SioError::Streaming);
    let r = out.write_stream(2, &vec![vec![1, 2], vec![3, 4]]);
    assert_eq!(r, Err(SioError::Streaming));
    assert_eq!(out.stream.begin_write_calls, 1);
    assert_eq!(out.stream.end_write_calls, 0);
    assert_eq!(out.stream.mem, vec![0; 8]);
}

#[test]
fn end_write_fault_comes_back_after_the_copy() {
    let mut out = stereo(2);
    out.stream.end_fault = Some(SioError::BackendDisconnected);
    let r = out.write_stream(2, &vec![vec![1, 2], vec![3, 4]]);
    assert_eq!(r, Err(SioError::BackendDisconnected));
    // The copy had already happened when the commit failed.
    assert_eq!(out.stream.mem, vec![1, 3, 2, 4]);
    assert_eq!(out.stream.end_write_calls, 1);
}

#[test]
fn direct_begin_and_end_write_round_trip() {
    let mut out = stereo(4);
    let granted = out.begin_write(9);
    assert_eq!(granted, Ok(4));
    assert!(out.stream.in_write);
    assert_eq!(out.end_write(), None);
    assert!(!out.stream.in_write);
    assert_eq!(out.stream.begin_write_calls, 1);
    assert_eq!(out.stream.end_write_calls, 1);
}

#[test]
fn begin_write_rejects_negative_requests() {
    let mut out = stereo(4);
    assert_eq!(out.begin_write(-3), Err(SioError::Invalid));
    assert!(!out.stream.in_write);
}

#[test]
fn end_write_without_transaction_is_invalid() {
    let mut out = stereo(4);
    assert_eq!(out.end_write(), Some(SioError::Invalid));
}

#[test]
fn zero_minimum_accepts_empty_buffers() {
    let mut out = stereo(3);
    let r = out.write_stream(0, &vec![vec![], vec![]]);
    assert_eq!(r, Ok(0));
    assert_eq!(out.stream.mem, vec![0; 6]);
    assert_eq!(out.stream.begin_write_calls, 1);
    assert_eq!(out.stream.end_write_calls, 1);
}
