//! Safety-oriented wrapper around the output-stream object of a native audio
//! backend.
//!
//! The backend itself (device abstraction, ring buffer, real-time callback
//! scheduling) is opaque and lives outside this crate; what this crate owns is
//! the state the backend keeps for one output stream, modelled explicitly in
//! [`native::NativeOutStream`], and the checked operations an application uses
//! against it: registering per-role callbacks, pushing interleaved sample
//! buffers through the two-phase write transaction, and reading stream state.

mod codes;
mod native;
mod stream;

pub use codes::{SioError, SioFormat};
pub use native::{
    area_cell, areas_disjoint, areas_in_bounds, cell_written, cell_written_partial, copied,
    ChannelArea, ChannelLayout, Device, NativeOutStream,
};
pub use stream::{
    covers_granted, error_wrapper, lemma_register_error_replaces,
    lemma_register_underflow_replaces, lemma_register_write_replaces, underflow_wrapper,
    with_error, with_underflow, with_write, write_accepted, write_wrapper, OutStream,
    OutStreamCallbacks,
};
