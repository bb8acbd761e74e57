//! Client-side building blocks for a vehicle-signal data broker that speaks
//! three generations of its remote interface: the current one, the previous
//! stable one and the legacy one.
//!
//! The library holds what the adapters decide: the requests each operation
//! becomes, the fail-fast batching of multi-path calls, the classification
//! of outcomes into one error taxonomy, the conversion of values between the
//! generations, the reading of values from text, and the connection state of
//! a client handle. Performing the remote calls is left to the caller.

pub mod batch;
pub mod channel;
pub mod convert;
pub mod errors;
pub mod kuksa;
pub mod sdv;
pub mod text;
pub mod v1;
pub mod v2;

pub use batch::Batch;
pub use channel::Client;
pub use errors::ClientError;
pub use kuksa::KuksaClient;
pub use sdv::SDVClient;
pub use v1::{DataType, ParsingError, Value};
pub use v2::{IncompatibleValueTypeError, TypedValue};
