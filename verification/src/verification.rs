//! The status messages that the server streams while it verifies, and how a
//! line of the stream is decoded into one.

pub mod decode;
pub mod schema;
pub mod status;

pub use decode::{decode_job, decode_job_text, decode_line, decode_status, DecodeError};
pub use schema::{DecodeErrorView, MessageKind, Shape};
pub use status::{
    Backend, Details, DetailsError, DetailsResult, Entity, OptionalPosition, ParseOptionalError,
    Position, ProgramDefinition, ProgramOutlineMember, Type, VerificationStatus, ViperType,
};
