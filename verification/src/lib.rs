//! Envelope types for RPC messages that travel in Fory's binary format.
//!
//! A client sends a [`ForyClientMessage`], a server answers with a
//! [`ForyResponse`]. [`convert`] goes between them and the messages that the
//! program holds ([`message`]); [`wire`] says how a value is written and read, and
//! [`envelope`] says it of the envelopes. The bytes themselves are described in
//! [`encoding`], and [`codec`] holds the calls into Fory.
//!
//! [`laws`] states what holds of all of it together: what is sent arrives. Each
//! part is held to its own meaning by itself in [`encoding_laws`] (the digits of a
//! number), [`write_laws`] and [`read_laws`] (the bytes of each field) and
//! [`convert_laws`] (the fields on both sides of a conversion).
//!
//! A deadline is a point on a clock of its own machine. It travels as the
//! nanoseconds that are left, cut to the low 64 bits; 0 means that it has passed
//! or that there is none. The receiver adds them to the time on its own clock.
//!
//! Fory pads the headers of some strings when it writes them and does not skip
//! the padding when it reads. So a string of 4096 to 524287 bytes, or of 67108864
//! bytes and more, does not read back (see
//! [`laws::law_string_reads_back_iff_unpadded`]).
pub mod clock;
pub mod codec;
pub mod context;
pub mod convert;
pub mod convert_laws;
pub mod encoding;
pub mod encoding_laws;
pub mod envelope;
pub mod error_kind;
pub mod laws;
pub mod message;
pub mod read_laws;
pub mod registration;
pub mod trace;
pub mod wire;
pub mod wire_id;
pub mod write_laws;

pub use crate::envelope::{
    ForyClientMessage, ForyRequest, ForyResponse, ForyResult, ForyServerError, ForyTraceContext,
};
pub use crate::error_kind::{error_kind_to_u32, u32_to_error_kind};
pub use crate::registration::register_envelope_types;
pub use crate::wire_id::fory_wire_id;
