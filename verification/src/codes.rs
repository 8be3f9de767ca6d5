//! Status codes and sample formats of the native audio backend.

use vstd::prelude::*;

verus! {

/// Failure conditions the native backend reports. A call that succeeds
/// reports no code at all (`Option::<SioError>::None` throughout this crate),
/// so this enumeration carries only the error conditions.
#[derive(Clone, Copy, Debug, PartialEq, Eq, Structural)]
pub enum SioError {
    NoMem,
    InitAudioBackend,
    SystemResources,
    OpeningDevice,
    NoSuchDevice,
    Invalid,
    BackendUnavailable,
    Streaming,
    IncompatibleDevice,
    NoSuchClient,
    IncompatibleBackend,
    BackendDisconnected,
    Interrupted,
    Underflow,
    EncodingString,
}

/// Sample formats of the native backend. `Invalid` is the sentinel the
/// backend stores while no format has been negotiated; `current_format`
/// turns it into an error instead of handing it out as a value.
#[derive(Clone, Copy, Debug, PartialEq, Eq, Structural)]
pub enum SioFormat {
    Invalid,
    S8,
    U8,
    S16LE,
    S16BE,
    U16LE,
    U16BE,
    S24LE,
    S24BE,
    U24LE,
    U24BE,
    S32LE,
    S32BE,
    U32LE,
    U32BE,
    Float32LE,
    Float32BE,
    Float64LE,
    Float64BE,
}

} // verus!
