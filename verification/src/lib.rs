//! Verified driver core for the SVT-AV1 encoder.
//!
//! The encoder itself is a native component reached through a handle. This
//! crate holds everything about driving it that can be decided from plain
//! values: which inputs are accepted, what each request carries, how a status
//! is turned into a result, and in what order the calls may follow each other.
//! It makes no native call. A caller performs the call that a function of this
//! crate describes and hands the outcome back.

pub mod buffer;
pub mod color;
pub mod config;
pub mod configuration;
pub mod encoder;
pub mod flags;
pub mod frame;
pub mod handle;
pub mod packet;
pub mod status;

pub use config::SvtAv1EncoderConfig;
pub use encoder::SvtAv1Encoder;
pub use flags::SvtFlags;
pub use frame::Frame;
pub use packet::Packet;
pub use status::ErrorType;
pub use status::StatusClass;
