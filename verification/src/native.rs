//! Model of the native output-stream object.
//!
//! The real backend keeps this state on its side of the foreign boundary and
//! exposes it only through calls and raw memory areas. Here that state is an
//! explicit value, so every operation of the wrapper can be specified and
//! checked against it, and a test can stand the model in for the backend.

use vstd::prelude::*;

use crate::codes::{SioError, SioFormat};

verus! {

/// Ordered description of the output channels; only the count matters to the
/// write path.
#[derive(Clone, Copy, Debug, PartialEq, Eq, Structural)]
pub struct ChannelLayout {
    pub channels: usize,
}

impl ChannelLayout {
    /// Number of output channels in this layout.
    pub fn channel_count(&self) -> (n: usize)
        ensures
            n == self.channels,
    {
        self.channels
    }
}

/// Non-owning view of the native device a stream plays on. The reference
/// count itself is owned by the backend and lives in the stream model.
#[derive(Clone, Copy, Debug, PartialEq, Eq, Structural)]
pub struct Device {
    pub id: u64,
}

/// One channel's slot in the memory the backend exposes during a write
/// transaction: frame `f` of this channel lives in cell `start + step * f`.
/// The stride `step` is in whole cells; a stride above one means the
/// channel's samples are not packed tightly.
#[derive(Clone, Copy, Debug, PartialEq, Eq, Structural)]
pub struct ChannelArea {
    pub start: usize,
    pub step: usize,
}

/// Cell that frame `frame` of channel `ch` occupies in the backend memory.
pub open spec fn area_cell(areas: Seq<ChannelArea>, ch: int, frame: int) -> int {
    areas[ch].start + areas[ch].step * frame
}

/// Every slot the backend may hand out over `frames` frames lies inside a
/// memory of `len` cells.
pub open spec fn areas_in_bounds(
    areas: Seq<ChannelArea>,
    channels: int,
    frames: int,
    len: int,
) -> bool {
    forall|c: int, f: int|
        0 <= c < channels && 0 <= f < frames ==> 0 <= #[trigger] area_cell(areas, c, f) < len
}

/// No two (channel, frame) slots share a cell over `frames` frames.
pub open spec fn areas_disjoint(areas: Seq<ChannelArea>, channels: int, frames: int) -> bool {
    forall|c1: int, f1: int, c2: int, f2: int|
        0 <= c1 < channels && 0 <= f1 < frames && 0 <= c2 < channels && 0 <= f2 < frames
            && (c1 != c2 || f1 != f2) ==> #[trigger] area_cell(areas, c1, f1)
            != #[trigger] area_cell(areas, c2, f2)
}

/// Some (channel, frame) slot of the first `frames` frames occupies `cell`.
pub open spec fn cell_written(
    areas: Seq<ChannelArea>,
    channels: int,
    frames: int,
    cell: int,
) -> bool {
    exists|c: int, f: int|
        0 <= c < channels && 0 <= f < frames && #[trigger] area_cell(areas, c, f) == cell
}

/// Some slot among the first `frames` full frames, or among the first
/// `part` channels of frame `frames` itself, occupies `cell`. This is the
/// footprint of a copy that has finished `frames` frames and, within the
/// next frame, the first `part` channels.
pub open spec fn cell_written_partial(
    areas: Seq<ChannelArea>,
    channels: int,
    frames: int,
    part: int,
    cell: int,
) -> bool {
    ||| cell_written(areas, channels, frames, cell)
    ||| exists|c: int| 0 <= c < part && #[trigger] area_cell(areas, c, frames) == cell
}

/// The backend memory after a committed write transaction: for `frames`
/// frames every channel's slot holds the matching sample of `bufs`, and every
/// other cell is untouched.
pub open spec fn copied(
    old_mem: Seq<i32>,
    new_mem: Seq<i32>,
    areas: Seq<ChannelArea>,
    channels: int,
    frames: int,
    bufs: Seq<Seq<i32>>,
) -> bool {
    &&& new_mem.len() == old_mem.len()
    &&& forall|c: int, f: int|
        0 <= c < channels && 0 <= f < frames ==> new_mem[#[trigger] area_cell(areas, c, f)]
            == bufs[c][f]
    &&& forall|cell: int|
        0 <= cell < new_mem.len() && !#[trigger] cell_written(areas, channels, frames, cell)
            ==> new_mem[cell] == old_mem[cell]
}

/// State the backend keeps for one output stream, as far as the wrapper can
/// observe it: the negotiated layout, rate and format, the device reference
/// count, the memory and per-channel areas the next write transaction hands
/// out, the installed callback trampolines, and the failure a test double
/// injects into the next calls (`fault` for ordinary calls, `end_fault` for
/// the commit of a write transaction).
#[derive(Debug, PartialEq, Eq)]
pub struct NativeOutStream {
    /// Backend memory cells; one cell holds one sample.
    pub mem: Vec<i32>,
    pub layout: ChannelLayout,
    pub sample_rate: i32,
    pub format: SioFormat,
    /// Latency the backend currently reports, in whole frames.
    pub latency_frames: u64,
    pub device_id: u64,
    /// Reference count of the device, owned by the backend.
    pub device_refs: u64,
    /// Where the next write transaction puts each channel's samples.
    pub areas: Vec<ChannelArea>,
    /// How many frames the backend accepts in one write transaction.
    pub available_frames: usize,
    pub opened: bool,
    pub started: bool,
    pub paused: bool,
    /// A begin-write has been issued and not yet committed.
    pub in_write: bool,
    pub begin_write_calls: u64,
    pub end_write_calls: u64,
    /// Trampoline installed in the native handle, one flag per role.
    pub write_cb_installed: bool,
    pub underflow_cb_installed: bool,
    pub error_cb_installed: bool,
    /// The user-context field points at the wrapper's callback holder.
    pub userdata_installed: bool,
    pub destroyed: bool,
    /// Failure injected into ordinary calls; cleared never, so every call
    /// fails with it until a test resets it.
    pub fault: Option<SioError>,
    /// Failure injected into the commit of a write transaction.
    pub end_fault: Option<SioError>,
}

impl NativeOutStream {
    /// The backend's own consistency: at least one channel, one area per
    /// channel, and the areas address distinct cells inside the memory for
    /// every frame the backend may grant.
    pub open spec fn wf(self) -> bool {
        &&& self.layout.channels >= 1
        &&& self.areas@.len() == self.layout.channels
        &&& forall|c: int| 0 <= c < self.layout.channels ==> (#[trigger] self.areas@[c]).step >= 1
        &&& areas_in_bounds(
            self.areas@,
            self.layout.channels as int,
            self.available_frames as int,
            self.mem@.len() as int,
        )
        &&& areas_disjoint(self.areas@, self.layout.channels as int, self.available_frames as int)
    }

    /// Frames the backend grants for a begin-write asking for `requested`
    /// frames: the request, clamped to what the backend can accept.
    pub open spec fn granted_frames(self, requested: int) -> int {
        if requested <= self.available_frames as int {
            requested
        } else {
            self.available_frames as int
        }
    }

    /// Outcome of a begin-write under the current state: a negative request
    /// and a transaction already open are invalid, an injected fault is
    /// reported verbatim, and otherwise the granted frame count comes back.
    pub open spec fn begin_write_result(self, requested: i32) -> Result<i32, SioError> {
        if requested < 0 || self.in_write {
            Err(SioError::Invalid)
        } else {
            match self.fault {
                Some(e) => Err(e),
                None => Ok(
                    if requested as int <= self.available_frames as int {
                        requested
                    } else {
                        self.available_frames as i32
                    },
                ),
            }
        }
    }

    /// State after a begin-write: the call is counted whatever its outcome,
    /// and on success a transaction is open.
    pub open spec fn begin_write_state(self, requested: i32) -> NativeOutStream {
        let counted = NativeOutStream {
            begin_write_calls: (self.begin_write_calls + 1) as u64,
            ..self
        };
        if requested < 0 || self.in_write || self.fault is Some {
            counted
        } else {
            NativeOutStream { in_write: true, ..counted }
        }
    }

    /// Outcome of an end-write: invalid without an open transaction,
    /// otherwise the injected commit fault, if any.
    pub open spec fn end_write_result(self) -> Option<SioError> {
        if !self.in_write {
            Some(SioError::Invalid)
        } else {
            self.end_fault
        }
    }

    /// State after an end-write: the call is counted, and an open
    /// transaction is closed whether or not the commit fault fired.
    pub open spec fn end_write_state(self) -> NativeOutStream {
        let counted = NativeOutStream { end_write_calls: (self.end_write_calls + 1) as u64, ..self };
        if !self.in_write {
            counted
        } else {
            NativeOutStream { in_write: false, ..counted }
        }
    }

    /// The backend call that opens the stream.
    pub fn outstream_open(&mut self) -> (r: Option<SioError>)
        ensures
            r == old(self).fault,
            old(self).fault is None ==> *final(self) == (NativeOutStream {
                opened: true,
                ..*old(self)
            }),
            old(self).fault is Some ==> *final(self) == *old(self),
    {
        match self.fault {
            Some(e) => Some(e),
            None => {
                self.opened = true;
                None
            },
        }
    }

    /// The backend call that starts playback.
    pub fn outstream_start(&mut self) -> (r: Option<SioError>)
        ensures
            r == old(self).fault,
            old(self).fault is None ==> *final(self) == (NativeOutStream {
                started: true,
                ..*old(self)
            }),
            old(self).fault is Some ==> *final(self) == *old(self),
    {
        match self.fault {
            Some(e) => Some(e),
            None => {
                self.started = true;
                None
            },
        }
    }

    /// The backend call that opens a write transaction: it grants at most
    /// `available_frames` frames and exposes the per-channel areas.
    pub fn outstream_begin_write(&mut self, requested: i32) -> (r: Result<i32, SioError>)
        requires
            old(self).begin_write_calls < u64::MAX,
        ensures
            r == old(self).begin_write_result(requested),
            *final(self) == old(self).begin_write_state(requested),
    {
        if requested < 0 || self.in_write {
            self.begin_write_calls = self.begin_write_calls + 1;
            return Err(SioError::Invalid);
        }
        match self.fault {
            Some(e) => {
                self.begin_write_calls = self.begin_write_calls + 1;
                Err(e)
            },
            None => {
                self.begin_write_calls = self.begin_write_calls + 1;
                self.in_write = true;
                let req = requested as usize;
                if req <= self.available_frames {
                    Ok(requested)
                } else {
                    Ok(self.available_frames as i32)
                }
            },
        }
    }

    /// The backend call that commits a write transaction.
    pub fn outstream_end_write(&mut self) -> (r: Option<SioError>)
        requires
            old(self).end_write_calls < u64::MAX,
        ensures
            r == old(self).end_write_result(),
            *final(self) == old(self).end_write_state(),
    {
        if !self.in_write {
            self.end_write_calls = self.end_write_calls + 1;
            return Some(SioError::Invalid);
        }
        self.end_write_calls = self.end_write_calls + 1;
        self.in_write = false;
        self.end_fault
    }

    /// The backend call that drops all buffered audio.
    pub fn outstream_clear_buffer(&mut self) -> (r: Option<SioError>)
        ensures
            r == old(self).fault,
            *final(self) == *old(self),
    {
        self.fault
    }

    /// The backend call that pauses or resumes playback.
    pub fn outstream_pause(&mut self, pause: bool) -> (r: Option<SioError>)
        ensures
            r == old(self).fault,
            old(self).fault is None ==> *final(self) == (NativeOutStream {
                paused: pause,
                ..*old(self)
            }),
            old(self).fault is Some ==> *final(self) == *old(self),
    {
        match self.fault {
            Some(e) => Some(e),
            None => {
                self.paused = pause;
                None
            },
        }
    }

    /// The backend call that reports the stream's current latency.
    pub fn outstream_get_latency(&self) -> (r: Result<u64, SioError>)
        ensures
            self.fault is None ==> r == Ok::<u64, SioError>(self.latency_frames),
            self.fault matches Some(e) ==> r == Err::<u64, SioError>(e),
    {
        match self.fault {
            Some(e) => Err(e),
            None => Ok(self.latency_frames),
        }
    }

    /// The backend call that takes one more reference on the stream's
    /// device; it never fails.
    pub fn device_ref(&mut self) -> (d: Device)
        requires
            old(self).device_refs < u64::MAX,
        ensures
            *final(self) == (NativeOutStream {
                device_refs: (old(self).device_refs + 1) as u64,
                ..*old(self)
            }),
            d == (Device { id: old(self).device_id }),
    {
        self.device_refs = self.device_refs + 1;
        Device { id: self.device_id }
    }

    /// The backend call that tears the stream down; it never fails.
    pub fn outstream_destroy(&mut self)
        ensures
            *final(self) == (NativeOutStream { destroyed: true, ..*old(self) }),
    {
        self.destroyed = true;
    }

    /// A fresh stream whose write areas interleave the channels: frame `f`
    /// of channel `c` lives in cell `c + channels * f`, so the stride is one
    /// full frame. The memory is zeroed and no call has been made yet.
    pub fn interleaved(channels: usize, frames: usize, sample_rate: i32, format: SioFormat) -> (s:
        NativeOutStream)
        requires
            1 <= channels,
            channels * frames <= usize::MAX,
        ensures
            s.wf(),
            s.fresh(),
            s.layout == (ChannelLayout { channels }),
            s.sample_rate == sample_rate,
            s.format == format,
            s.available_frames == frames,
            s.mem@.len() == channels * frames,
            forall|i: int| 0 <= i < s.mem@.len() ==> s.mem@[i] == 0,
            s.areas@.len() == channels,
            forall|c: int|
                0 <= c < channels ==> s.areas@[c] == (ChannelArea {
                    start: c as usize,
                    step: channels,
                }),
    {
        let total = channels * frames;
        let mem = zeroed_cells(total);
        let mut areas: Vec<ChannelArea> = Vec::new();
        let mut c: usize = 0;
        while c < channels
            invariant
                c <= channels,
                areas@.len() == c,
                forall|j: int|
                    0 <= j < c ==> areas@[j] == (ChannelArea { start: j as usize, step: channels }),
            decreases channels - c,
        {
            areas.push(ChannelArea { start: c, step: channels });
            c = c + 1;
        }
        let s = NativeOutStream {
            mem,
            layout: ChannelLayout { channels },
            sample_rate,
            format,
            latency_frames: 0,
            device_id: 0,
            device_refs: 0,
            areas,
            available_frames: frames,
            opened: false,
            started: false,
            paused: false,
            in_write: false,
            begin_write_calls: 0,
            end_write_calls: 0,
            write_cb_installed: false,
            underflow_cb_installed: false,
            error_cb_installed: false,
            userdata_installed: false,
            destroyed: false,
            fault: None,
            end_fault: None,
        };
        proof {
            assert forall|c1: int, f1: int|
                0 <= c1 < channels && 0 <= f1 < frames implies 0 <= #[trigger] area_cell(
                s.areas@,
                c1,
                f1,
            ) < s.mem@.len() by {
                lemma_interleaved_cell_bound(channels as int, frames as int, c1, f1);
            }
            assert forall|c1: int, f1: int, c2: int, f2: int|
                0 <= c1 < channels && 0 <= f1 < frames && 0 <= c2 < channels && 0 <= f2 < frames
                    && (c1 != c2 || f1 != f2) implies #[trigger] area_cell(s.areas@, c1, f1)
                != #[trigger] area_cell(s.areas@, c2, f2) by {
                if area_cell(s.areas@, c1, f1) == area_cell(s.areas@, c2, f2) {
                    lemma_interleaved_cell_unique(channels as int, c1, f1, c2, f2);
                }
            }
        }
        s
    }

    /// A fresh stream whose write areas give each channel its own region
    /// with an explicit stride: frame `f` of channel `c` lives in cell
    /// `c * frames * step + step * f`. A stride above one leaves gaps
    /// between consecutive samples of one channel.
    pub fn strided(
        channels: usize,
        frames: usize,
        step: usize,
        sample_rate: i32,
        format: SioFormat,
    ) -> (s: NativeOutStream)
        requires
            1 <= channels,
            1 <= step,
            channels * frames * step <= usize::MAX,
        ensures
            s.wf(),
            s.fresh(),
            s.layout == (ChannelLayout { channels }),
            s.sample_rate == sample_rate,
            s.format == format,
            s.available_frames == frames,
            s.mem@.len() == channels * frames * step,
            forall|i: int| 0 <= i < s.mem@.len() ==> s.mem@[i] == 0,
            s.areas@.len() == channels,
            forall|c: int|
                0 <= c < channels ==> s.areas@[c] == (ChannelArea {
                    start: (c * frames * step) as usize,
                    step,
                }),
    {
        proof {
            assert(frames * step <= usize::MAX && channels * (frames * step) == channels * frames
                * step) by (nonlinear_arith)
                requires
                    1 <= channels,
                    0 <= frames,
                    0 <= step,
                    channels * frames * step <= usize::MAX,
            ;
        }
        let region = frames * step;
        let total = channels * region;
        let mem = zeroed_cells(total);
        let mut areas: Vec<ChannelArea> = Vec::new();
        let mut c: usize = 0;
        while c < channels
            invariant
                1 <= channels,
                1 <= step,
                c <= channels,
                areas@.len() == c,
                region == frames * step,
                channels * frames * step <= usize::MAX,
                forall|j: int|
                    0 <= j < c ==> areas@[j] == (ChannelArea {
                        start: (j * frames * step) as usize,
                        step,
                    }),
            decreases channels - c,
        {
            proof {
                lemma_strided_start_bound(channels as int, frames as int, step as int);
                assert(c * (frames * step) == c * frames * step) by (nonlinear_arith);
            }
            areas.push(ChannelArea { start: c * region, step });
            c = c + 1;
        }
        let s = NativeOutStream {
            mem,
            layout: ChannelLayout { channels },
            sample_rate,
            format,
            latency_frames: 0,
            device_id: 0,
            device_refs: 0,
            areas,
            available_frames: frames,
            opened: false,
            started: false,
            paused: false,
            in_write: false,
            begin_write_calls: 0,
            end_write_calls: 0,
            write_cb_installed: false,
            underflow_cb_installed: false,
            error_cb_installed: false,
            userdata_installed: false,
            destroyed: false,
            fault: None,
            end_fault: None,
        };
        proof {
            assert(s.mem@.len() == channels * frames * step) by (nonlinear_arith)
                requires
                    s.mem@.len() == channels * (frames * step),
            ;
            assert forall|c1: int, f1: int|
                0 <= c1 < channels && 0 <= f1 < frames implies 0 <= #[trigger] area_cell(
                s.areas@,
                c1,
                f1,
            ) < s.mem@.len() by {
                lemma_strided_cell_bound(channels as int, frames as int, step as int, c1, f1);
            }
            assert forall|c1: int, f1: int, c2: int, f2: int|
                0 <= c1 < channels && 0 <= f1 < frames && 0 <= c2 < channels && 0 <= f2 < frames
                    && (c1 != c2 || f1 != f2) implies #[trigger] area_cell(s.areas@, c1, f1)
                != #[trigger] area_cell(s.areas@, c2, f2) by {
                lemma_strided_start_bound(channels as int, frames as int, step as int);
                if area_cell(s.areas@, c1, f1) == area_cell(s.areas@, c2, f2) {
                    lemma_strided_cell_unique(
                        channels as int,
                        frames as int,
                        step as int,
                        c1,
                        f1,
                        c2,
                        f2,
                    );
                }
            }
        }
        s
    }

    /// The state shared by every fresh stream: nothing opened, nothing
    /// counted, nothing installed, no fault injected, no device reference
    /// taken, zero reported latency.
    pub open spec fn fresh(self) -> bool {
        &&& self.latency_frames == 0
        &&& self.device_id == 0
        &&& self.device_refs == 0
        &&& !self.opened
        &&& !self.started
        &&& !self.paused
        &&& !self.in_write
        &&& self.begin_write_calls == 0
        &&& self.end_write_calls == 0
        &&& !self.write_cb_installed
        &&& !self.underflow_cb_installed
        &&& !self.error_cb_installed
        &&& !self.userdata_installed
        &&& !self.destroyed
        &&& self.fault is None
        &&& self.end_fault is None
    }
}

/// A vector of `total` zeroed sample cells.
fn zeroed_cells(total: usize) -> (mem: Vec<i32>)
    ensures
        mem@.len() == total,
        forall|i: int| 0 <= i < total ==> mem@[i] == 0,
{
    let mut mem: Vec<i32> = Vec::new();
    let mut i: usize = 0;
    while i < total
        invariant
            i <= total,
            mem@.len() == i,
            forall|j: int| 0 <= j < i ==> mem@[j] == 0,
        decreases total - i,
    {
        mem.push(0);
        i = i + 1;
    }
    mem
}

/// In an interleaved layout every cell index stays below `channels * frames`.
proof fn lemma_interleaved_cell_bound(channels: int, frames: int, c: int, f: int)
    by (nonlinear_arith)
    requires
        0 <= c < channels,
        0 <= f < frames,
    ensures
        c + channels * f < channels * frames,
{
}

/// In an interleaved layout two distinct (channel, frame) slots land in two
/// distinct cells.
proof fn lemma_interleaved_cell_unique(channels: int, c1: int, f1: int, c2: int, f2: int)
    by (nonlinear_arith)
    requires
        0 <= c1 < channels,
        0 <= c2 < channels,
        0 <= f1,
        0 <= f2,
        c1 + channels * f1 == c2 + channels * f2,
    ensures
        c1 == c2,
        f1 == f2,
{
}

/// Every per-channel region of a strided layout starts inside the memory.
proof fn lemma_strided_start_bound(channels: int, frames: int, step: int)
    by (nonlinear_arith)
    requires
        1 <= channels,
        0 <= frames,
        1 <= step,
        channels * frames * step <= usize::MAX,
    ensures
        forall|c: int|
            0 <= c < channels ==> 0 <= #[trigger] (c * frames * step) <= channels * frames * step,
{
}

/// In a strided layout every cell index stays below
/// `channels * frames * step`.
proof fn lemma_strided_cell_bound(channels: int, frames: int, step: int, c: int, f: int)
    by (nonlinear_arith)
    requires
        0 <= c < channels,
        0 <= f < frames,
        1 <= step,
    ensures
        0 <= c * frames * step + step * f < channels * frames * step,
{
}

/// In a strided layout two distinct (channel, frame) slots land in two
/// distinct cells.
proof fn lemma_strided_cell_unique(
    channels: int,
    frames: int,
    step: int,
    c1: int,
    f1: int,
    c2: int,
    f2: int,
)
    by (nonlinear_arith)
    requires
        0 <= c1 < channels,
        0 <= c2 < channels,
        0 <= f1 < frames,
        0 <= f2 < frames,
        1 <= step,
        c1 * frames * step + step * f1 == c2 * frames * step + step * f2,
    ensures
        c1 == c2,
        f1 == f2,
{
}

} // verus!
