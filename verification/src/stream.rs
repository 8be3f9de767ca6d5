//! The application-facing output-stream wrapper.

use vstd::prelude::*;

use crate::codes::{SioError, SioFormat};
use crate::native::{
    area_cell, cell_written, cell_written_partial, copied, ChannelLayout, Device, NativeOutStream,
};

verus! {

/// Mapping from the three callback roles to the registered callback, at most
/// one per role; the latest registration replaces any earlier one. A
/// callback is identified by an opaque token the application chooses; the
/// application dispatches on the token when an event is delivered.
#[derive(Clone, Copy, Debug, PartialEq, Eq)]
pub struct OutStreamCallbacks {
    pub write: Option<u64>,
    pub underflow: Option<u64>,
    pub error: Option<u64>,
}

impl Default for OutStreamCallbacks {
    /// A holder with no callback registered for any role.
    fn default() -> (c: Self)
        ensures
            c.write is None,
            c.underflow is None,
            c.error is None,
    {
        OutStreamCallbacks { write: None, underflow: None, error: None }
    }
}

/// One native output stream together with its callback holder. The wrapper
/// exclusively owns the stream state, so a committed write transaction or a
/// registration is visible in `stream` and nowhere else.
#[derive(Debug, PartialEq, Eq)]
pub struct OutStream {
    pub stream: NativeOutStream,
    pub callbacks: OutStreamCallbacks,
}

impl OutStream {
    /// The wrapper is usable as long as the stream state it owns is.
    pub open spec fn wf(self) -> bool {
        self.stream.wf()
    }

    /// Wrap a native stream handle; no callback is registered yet.
    pub fn new(stream: NativeOutStream) -> (out: Self)
        ensures
            out.stream == stream,
            out.callbacks.write is None,
            out.callbacks.underflow is None,
            out.callbacks.error is None,
    {
        OutStream { stream, callbacks: OutStreamCallbacks::default() }
    }

    /// Open the stream: a plain forwarder to the backend. Success is
    /// reported as no error code at all.
    pub fn open(&mut self) -> (r: Option<SioError>)
        ensures
            r == old(self).stream.fault,
            final(self).callbacks == old(self).callbacks,
            old(self).stream.fault is None ==> final(self).stream == (NativeOutStream {
                opened: true,
                ..old(self).stream
            }),
            old(self).stream.fault is Some ==> *final(self) == *old(self),
    {
        self.stream.outstream_open()
    }

    /// Start playback: a plain forwarder to the backend.
    pub fn start(&mut self) -> (r: Option<SioError>)
        ensures
            r == old(self).stream.fault,
            final(self).callbacks == old(self).callbacks,
            old(self).stream.fault is None ==> final(self).stream == (NativeOutStream {
                started: true,
                ..old(self).stream
            }),
            old(self).stream.fault is Some ==> *final(self) == *old(self),
    {
        self.stream.outstream_start()
    }

    /// Store `callback` as the write callback — replacing, never joining,
    /// any earlier one — install the write trampoline in the native handle,
    /// and point the native user-context field at the callback holder.
    pub fn register_write_callback(&mut self, callback: u64)
        ensures
            final(self).callbacks == with_write(old(self).callbacks, callback),
            final(self).stream == (NativeOutStream {
                write_cb_installed: true,
                userdata_installed: true,
                ..old(self).stream
            }),
    {
        self.callbacks.write = Some(callback);
        self.stream.write_cb_installed = true;
        self.stream.userdata_installed = true;
    }

    /// Store `callback` as the underflow callback — replacing, never
    /// joining, any earlier one — install the underflow trampoline, and
    /// point the native user-context field at the callback holder.
    pub fn register_underflow_callback(&mut self, callback: u64)
        ensures
            final(self).callbacks == with_underflow(old(self).callbacks, callback),
            final(self).stream == (NativeOutStream {
                underflow_cb_installed: true,
                userdata_installed: true,
                ..old(self).stream
            }),
    {
        self.callbacks.underflow = Some(callback);
        self.stream.underflow_cb_installed = true;
        self.stream.userdata_installed = true;
    }

    /// Store `callback` as the error callback — replacing, never joining,
    /// any earlier one — install the error trampoline, and point the native
    /// user-context field at the callback holder.
    pub fn register_error_callback(&mut self, callback: u64)
        ensures
            final(self).callbacks == with_error(old(self).callbacks, callback),
            final(self).stream == (NativeOutStream {
                error_cb_installed: true,
                userdata_installed: true,
                ..old(self).stream
            }),
    {
        self.callbacks.error = Some(callback);
        self.stream.error_cb_installed = true;
        self.stream.userdata_installed = true;
    }

    /// Push one buffer of samples per channel into the stream.
    ///
    /// The set is checked first: it must hold at least one buffer per
    /// channel, and every buffer must hold at least `min_frame_count`
    /// samples; otherwise the call fails with `Invalid` before any native
    /// write primitive is invoked. The first buffer's length is then
    /// requested from the backend, which may grant fewer frames; exactly the
    /// granted number of frames is copied per channel, each sample to the
    /// cell its channel's area addresses with `start + step * frame`, and
    /// the transaction is committed. On success the granted frame count
    /// comes back; otherwise the first native error does.
    #[verifier::loop_isolation(false)]
    pub fn write_stream(&mut self, min_frame_count: i32, buffers: &Vec<Vec<i32>>) -> (r: Result<
        i32,
        SioError,
    >)
        requires
            old(self).wf(),
            old(self).stream.begin_write_calls < u64::MAX,
            old(self).stream.end_write_calls < u64::MAX,
            buffers@.len() >= 1 ==> buffers@[0]@.len() <= i32::MAX,
            write_accepted(
                buffers.deep_view(),
                old(self).stream.layout.channels as int,
                min_frame_count as int,
            ) ==> covers_granted(buffers.deep_view(), old(self).stream),
        ensures
            final(self).wf(),
            final(self).callbacks == old(self).callbacks,
            ({
                let bufs = buffers.deep_view();
                let channels = old(self).stream.layout.channels as int;
                if !write_accepted(bufs, channels, min_frame_count as int) {
                    &&& r == Err::<i32, SioError>(SioError::Invalid)
                    &&& *final(self) == *old(self)
                } else if old(self).stream.in_write {
                    &&& r == Err::<i32, SioError>(SioError::Invalid)
                    &&& final(self).stream == old(self).stream.begin_write_state(
                        bufs[0].len() as i32,
                    )
                } else {
                    match old(self).stream.fault {
                        Some(e) => {
                            &&& r == Err::<i32, SioError>(e)
                            &&& final(self).stream == old(self).stream.begin_write_state(
                                bufs[0].len() as i32,
                            )
                        },
                        None => {
                            let granted = old(self).stream.granted_frames(bufs[0].len() as int);
                            &&& copied(
                                old(self).stream.mem@,
                                final(self).stream.mem@,
                                old(self).stream.areas@,
                                channels,
                                granted,
                                bufs,
                            )
                            &&& final(self).stream == (NativeOutStream {
                                mem: final(self).stream.mem,
                                in_write: false,
                                begin_write_calls: (old(self).stream.begin_write_calls + 1) as u64,
                                end_write_calls: (old(self).stream.end_write_calls + 1) as u64,
                                ..old(self).stream
                            })
                            &&& match old(self).stream.end_fault {
                                Some(e) => r == Err::<i32, SioError>(e),
                                None => r matches Ok(n) && n as int == granted,
                            }
                        },
                    }
                }
            }),
    {
        proof {
            assert(buffers.deep_view().len() == buffers@.len());
            assert forall|j: int| 0 <= j < buffers@.len() implies #[trigger] buffers.deep_view()[j]
                == buffers@[j]@ by {
                assert(buffers.deep_view()[j] =~= buffers@[j]@);
            }
        }
        let channel_count = self.get_layout().channel_count();
        if buffers.len() < channel_count {
            return Err(SioError::Invalid);
        }
        if min_frame_count < 0 {
            return Err(SioError::Invalid);
        }
        let min_usize = min_frame_count as usize;
        let mut probe: usize = 0;
        while probe < buffers.len()
            invariant
                probe <= buffers@.len(),
                forall|j: int| 0 <= j < probe ==> buffers.deep_view()[j].len() >= min_usize,
            decreases buffers@.len() - probe,
        {
            if buffers[probe].len() < min_usize {
                proof {
                    assert(buffers.deep_view()[probe as int].len() < min_frame_count as int);
                }
                return Err(SioError::Invalid);
            }
            probe = probe + 1;
        }
        let ghost bufs = buffers.deep_view();
        let ghost channels = old(self).stream.layout.channels as int;
        assert(write_accepted(bufs, channels, min_frame_count as int));
        let requested_usize = buffers[0].len();
        let requested = requested_usize as i32;
        let actual = match self.stream.outstream_begin_write(requested) {
            Err(e) => {
                return Err(e);
            },
            Ok(n) => n,
        };
        let ghost s1 = *self;
        let ghost granted = old(self).stream.granted_frames(requested_usize as int);
        assert(actual as int == granted);
        let actual_usize = actual as usize;
        let ghost mem0 = s1.stream.mem@;
        let ghost areas0 = s1.stream.areas@;
        let mem_len = self.stream.mem.len();
        assert(mem_len == mem0.len());
        assert(actual_usize <= self.stream.available_frames);
        proof {
            assert(buffers.deep_view()[0] == buffers@[0]@);
            assert forall|c: int| 0 <= c < channels implies #[trigger] buffers.deep_view()[c].len()
                >= actual_usize by {
                assert(covers_granted(buffers.deep_view(), old(self).stream));
            }
        }
        let mut idx: usize = 0;
        while idx < actual_usize
            invariant
                idx <= actual_usize,
                self.callbacks == s1.callbacks,
                (NativeOutStream { mem: s1.stream.mem, ..self.stream }) == s1.stream,
                self.stream.mem@.len() == mem0.len(),
                forall|c: int, f: int|
                    0 <= c < channels && 0 <= f < idx ==> self.stream.mem@[#[trigger] area_cell(
                        areas0,
                        c,
                        f,
                    )] == bufs[c][f],
                forall|cell: int|
                    0 <= cell < mem0.len() && !#[trigger] cell_written(
                        areas0,
                        channels,
                        idx as int,
                        cell,
                    ) ==> self.stream.mem@[cell] == mem0[cell],
            decreases actual_usize - idx,
        {
            let mut ch: usize = 0;
            while ch < channel_count
                invariant
                    ch <= channel_count,
                    idx < actual_usize,
                    self.callbacks == s1.callbacks,
                    (NativeOutStream { mem: s1.stream.mem, ..self.stream }) == s1.stream,
                    self.stream.mem@.len() == mem0.len(),
                    forall|c: int, f: int|
                        0 <= c < channels && 0 <= f < idx ==> self.stream.mem@[#[trigger] area_cell(
                            areas0,
                            c,
                            f,
                        )] == bufs[c][f],
                    forall|c: int|
                        0 <= c < ch ==> self.stream.mem@[#[trigger] area_cell(
                            areas0,
                            c,
                            idx as int,
                        )] == bufs[c][idx as int],
                    forall|cell: int|
                        0 <= cell < mem0.len() && !#[trigger] cell_written_partial(
                            areas0,
                            channels,
                            idx as int,
                            ch as int,
                            cell,
                        ) ==> self.stream.mem@[cell] == mem0[cell],
                decreases channel_count - ch,
            {
                let area = self.stream.areas[ch];
                proof {
                    assert(0 <= area_cell(areas0, ch as int, idx as int) < mem0.len());
                    assert(area == areas0[ch as int]);
                    assert(area.start + area.step * (idx as int) < mem_len);
                    assert(buffers.deep_view()[ch as int].len() >= actual_usize);
                }
                let cell = area.start + area.step * idx;
                let sample = buffers[ch][idx];
                self.stream.mem[cell] = sample;
                proof {
                    let cur = ch as int;
                    let frame = idx as int;
                    let here = area_cell(areas0, cur, frame);
                    assert(cell == here);
                    assert forall|target: int|
                        0 <= target < mem0.len() && !cell_written_partial(
                            areas0,
                            channels,
                            frame,
                            cur + 1,
                            target,
                        ) implies self.stream.mem@[target] == mem0[target] by {
                        assert(!cell_written_partial(areas0, channels, frame, cur, target));
                        assert(target != here);
                    }
                    assert(cell_written_partial(areas0, channels, frame, cur + 1, here));
                }
                ch = ch + 1;
            }
            proof {
                let frame = idx as int;
                assert forall|cell: int|
                    0 <= cell < mem0.len() && !cell_written(
                        areas0,
                        channels,
                        frame + 1,
                        cell,
                    ) implies self.stream.mem@[cell] == mem0[cell] by {
                    if cell_written_partial(areas0, channels, frame, channels, cell) {
                        if cell_written(areas0, channels, frame, cell) {
                            let (c, f) = choose|c: int, f: int|
                                0 <= c < channels && 0 <= f < frame && area_cell(areas0, c, f)
                                    == cell;
                            assert(area_cell(areas0, c, f) == cell);
                            assert(cell_written(areas0, channels, frame + 1, cell));
                        } else {
                            let c = choose|c: int|
                                0 <= c < channels && area_cell(areas0, c, frame) == cell;
                            assert(area_cell(areas0, c, frame) == cell);
                            assert(cell_written(areas0, channels, frame + 1, cell));
                        }
                    }
                }
            }
            idx = idx + 1;
        }
        let commit = self.stream.outstream_end_write();
        assert(copied(mem0, self.stream.mem@, areas0, channels, granted, bufs));
        match commit {
            Some(e) => Err(e),
            None => Ok(actual),
        }
    }

    /// Open a write transaction directly: forward the request to the
    /// backend and hand back the granted frame count or the error.
    pub fn begin_write(&mut self, requested: i32) -> (r: Result<i32, SioError>)
        requires
            old(self).stream.begin_write_calls < u64::MAX,
        ensures
            final(self).callbacks == old(self).callbacks,
            r == old(self).stream.begin_write_result(requested),
            final(self).stream == old(self).stream.begin_write_state(requested),
    {
        self.stream.outstream_begin_write(requested)
    }

    /// Commit a write transaction directly.
    pub fn end_write(&mut self) -> (r: Option<SioError>)
        requires
            old(self).stream.end_write_calls < u64::MAX,
        ensures
            final(self).callbacks == old(self).callbacks,
            r == old(self).stream.end_write_result(),
            final(self).stream == old(self).stream.end_write_state(),
    {
        self.stream.outstream_end_write()
    }

    /// Drop all audio buffered in the backend: a plain forwarder.
    pub fn clear_buffer(&mut self) -> (r: Option<SioError>)
        ensures
            r == old(self).stream.fault,
            *final(self) == *old(self),
    {
        self.stream.outstream_clear_buffer()
    }

    /// Pause or resume playback: a plain forwarder.
    pub fn pause(&mut self, pause: bool) -> (r: Option<SioError>)
        ensures
            r == old(self).stream.fault,
            final(self).callbacks == old(self).callbacks,
            old(self).stream.fault is None ==> final(self).stream == (NativeOutStream {
                paused: pause,
                ..old(self).stream
            }),
            old(self).stream.fault is Some ==> *final(self) == *old(self),
    {
        self.stream.outstream_pause(pause)
    }

    /// Latency the backend currently reports, in whole frames, or the error
    /// of the failed call.
    pub fn get_latency(&self) -> (r: Result<u64, SioError>)
        ensures
            self.stream.fault is None ==> r == Ok::<u64, SioError>(self.stream.latency_frames),
            self.stream.fault matches Some(e) ==> r == Err::<u64, SioError>(e),
    {
        self.stream.outstream_get_latency()
    }

    /// The stream's negotiated sample format. The backend stores an
    /// `Invalid` sentinel while no format is negotiated; that sentinel comes
    /// back as an error, every other value as a success.
    pub fn current_format(&self) -> (r: Result<SioFormat, SioError>)
        ensures
            self.stream.format == SioFormat::Invalid ==> r == Err::<SioFormat, SioError>(
                SioError::Invalid,
            ),
            self.stream.format != SioFormat::Invalid ==> r == Ok::<SioFormat, SioError>(
                self.stream.format,
            ),
    {
        match self.stream.format {
            SioFormat::Invalid => Err(SioError::Invalid),
            fmt => Ok(fmt),
        }
    }

    /// The stream's channel layout, read from the native handle.
    pub fn get_layout(&self) -> (l: ChannelLayout)
        ensures
            l == self.stream.layout,
    {
        self.stream.layout
    }

    /// The stream's sample rate, read from the native handle.
    pub fn get_sample_rate(&self) -> (rate: i32)
        ensures
            rate == self.stream.sample_rate,
    {
        self.stream.sample_rate
    }

    /// The device the stream plays on. Each call takes exactly one more
    /// reference on the device, reflecting ownership shared between the
    /// stream and the caller.
    pub fn get_device(&mut self) -> (d: Device)
        requires
            old(self).stream.device_refs < u64::MAX,
        ensures
            final(self).callbacks == old(self).callbacks,
            final(self).stream == (NativeOutStream {
                device_refs: (old(self).stream.device_refs + 1) as u64,
                ..old(self).stream
            }),
            d == (Device { id: old(self).stream.device_id }),
    {
        self.stream.device_ref()
    }

    /// Tear the stream down in the backend. The wrapper owns the handle
    /// exclusively, so teardown happens exactly where this is called.
    pub fn destroy(&mut self)
        ensures
            final(self).callbacks == old(self).callbacks,
            final(self).stream == (NativeOutStream { destroyed: true, ..old(self).stream }),
    {
        self.stream.outstream_destroy()
    }
}

/// A buffer set the write path accepts for a stream of `channels` channels:
/// at least one buffer per channel, a non-negative minimum, and at least
/// `min_frame_count` samples in every supplied buffer.
pub open spec fn write_accepted(bufs: Seq<Seq<i32>>, channels: int, min_frame_count: int) -> bool {
    &&& bufs.len() >= channels
    &&& 0 <= min_frame_count
    &&& forall|c: int| 0 <= c < bufs.len() ==> (#[trigger] bufs[c]).len() >= min_frame_count
}

/// The copy loop reads `bufs[c][f]` for every channel and every granted
/// frame, so each channel's buffer must hold at least that many samples.
/// The backend never grants more than the request, which is the first
/// buffer's length; buffer sets whose buffers all share one length — the
/// shape the write path is documented to assume — satisfy this trivially.
pub open spec fn covers_granted(bufs: Seq<Seq<i32>>, stream: NativeOutStream) -> bool {
    forall|c: int|
        0 <= c < stream.layout.channels ==> (#[trigger] bufs[c]).len() >= stream.granted_frames(
            bufs[0].len() as int,
        )
}

/// The holder after a write registration: the write role carries exactly
/// the new callback, the other roles are untouched.
pub open spec fn with_write(c: OutStreamCallbacks, callback: u64) -> OutStreamCallbacks {
    OutStreamCallbacks { write: Some(callback), ..c }
}

/// The holder after an underflow registration.
pub open spec fn with_underflow(c: OutStreamCallbacks, callback: u64) -> OutStreamCallbacks {
    OutStreamCallbacks { underflow: Some(callback), ..c }
}

/// The holder after an error registration.
pub open spec fn with_error(c: OutStreamCallbacks, callback: u64) -> OutStreamCallbacks {
    OutStreamCallbacks { error: Some(callback), ..c }
}

/// Registering a write callback replaces any earlier one: two registrations
/// in a row leave exactly the second in the holder, never both, and no
/// other role moves.
pub proof fn lemma_register_write_replaces(c: OutStreamCallbacks, first: u64, second: u64)
    ensures
        with_write(with_write(c, first), second) == with_write(c, second),
        with_write(c, second).write == Some(second),
        with_write(c, second).underflow == c.underflow,
        with_write(c, second).error == c.error,
{
}

/// Registering an underflow callback replaces any earlier one.
pub proof fn lemma_register_underflow_replaces(c: OutStreamCallbacks, first: u64, second: u64)
    ensures
        with_underflow(with_underflow(c, first), second) == with_underflow(c, second),
        with_underflow(c, second).underflow == Some(second),
        with_underflow(c, second).write == c.write,
        with_underflow(c, second).error == c.error,
{
}

/// Registering an error callback replaces any earlier one.
pub proof fn lemma_register_error_replaces(c: OutStreamCallbacks, first: u64, second: u64)
    ensures
        with_error(with_error(c, first), second) == with_error(c, second),
        with_error(c, second).error == Some(second),
        with_error(c, second).write == c.write,
        with_error(c, second).underflow == c.underflow,
{
}

/// Dispatch of the backend's write event. The native side calls the write
/// trampoline only after it was installed, and the trampoline recovers the
/// callback holder through the user-context pointer, so both installations
/// are demanded here; the result is the callback the event goes to, or
/// nothing when no write callback is registered.
pub fn write_wrapper(out: &OutStream) -> (cb: Option<u64>)
    requires
        out.stream.write_cb_installed,
        out.stream.userdata_installed,
    ensures
        cb == out.callbacks.write,
{
    out.callbacks.write
}

/// Dispatch of the backend's underflow event; see [`write_wrapper`].
pub fn underflow_wrapper(out: &OutStream) -> (cb: Option<u64>)
    requires
        out.stream.underflow_cb_installed,
        out.stream.userdata_installed,
    ensures
        cb == out.callbacks.underflow,
{
    out.callbacks.underflow
}

/// Dispatch of the backend's error event; see [`write_wrapper`].
pub fn error_wrapper(out: &OutStream) -> (cb: Option<u64>)
    requires
        out.stream.error_cb_installed,
        out.stream.userdata_installed,
    ensures
        cb == out.callbacks.error,
{
    out.callbacks.error
}

} // verus!
