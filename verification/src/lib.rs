//! A development kit for functions on the Fn platform.
//!
//! The platform hands a function its requests over a Unix socket, framed as
//! HTTP, and expects every response in an envelope of two status codes. This
//! crate is what lies between the socket and the handler: it reads what a
//! request says of itself, decodes its body, calls the handler, encodes what
//! the handler returns, and frames the response; and it tells the platform
//! apart the failures after which the function can go on serving from those
//! after which it should be replaced.
//!
//! The crate does no input or output. Its caller listens on the socket, reads
//! the requests and writes the responses.

pub mod coercions;
pub mod context;
pub mod errors;
pub mod function;
pub mod headers;
pub mod logging;
pub mod socket;
pub mod text;
pub mod utils;

pub use coercions::InputCoercible;
pub use coercions::OutputCoercible;
pub use context::RuntimeContext;
pub use errors::FunctionError;
pub use function::Function;
